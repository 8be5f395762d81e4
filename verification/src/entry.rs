//! One child of a directory, and the order in which a listing shows them.
use vstd::prelude::*;

verus! {

/// What kind of file system object an entry is.
#[derive(Clone, Copy, Debug, PartialEq, Eq, Structural)]
pub enum EntryKind {
    File,
    Directory,
    Symlink,
    Other,
}

impl EntryKind {
    /// The entry is a directory.
    pub open spec fn spec_is_dir(self) -> bool {
        self == EntryKind::Directory
    }

    /// Whether the entry is a directory.
    #[verifier::when_used_as_spec(spec_is_dir)]
    pub fn is_dir(self) -> (r: bool)
        ensures
            r == (self == EntryKind::Directory),
    {
        self == EntryKind::Directory
    }

    /// Whether the entry is a regular file.
    pub fn is_file(self) -> (r: bool)
        ensures
            r == (self == EntryKind::File),
    {
        self == EntryKind::File
    }

    /// Whether the entry is a symbolic link.
    pub fn is_symlink(self) -> (r: bool)
        ensures
            r == (self == EntryKind::Symlink),
    {
        self == EntryKind::Symlink
    }
}

/// What the file system reports about an entry besides its name and kind.
/// The panes carry it along and never look inside.
#[derive(Clone, Copy, Debug, PartialEq, Eq, Structural)]
pub struct Metadata {
    pub len: u64,
    pub read_only: bool,
}

/// One child of a directory.
#[derive(Debug)]
pub struct FsEntry {
    pub name: String,
    pub kind: EntryKind,
    pub metadata: Metadata,
}

/// The mathematical value of an [`FsEntry`].
pub struct EntryView {
    pub name: Seq<char>,
    pub kind: EntryKind,
    pub metadata: Metadata,
}

impl View for FsEntry {
    type V = EntryView;

    open spec fn view(&self) -> EntryView {
        EntryView { name: self.name@, kind: self.kind, metadata: self.metadata }
    }
}

impl DeepView for FsEntry {
    type V = EntryView;

    open spec fn deep_view(&self) -> EntryView {
        self@
    }
}

impl Clone for FsEntry {
    fn clone(&self) -> (r: FsEntry)
        ensures
            r@ == self@,
    {
        FsEntry { name: self.name.clone(), kind: self.kind, metadata: self.metadata }
    }
}

/// What came of reading a directory.
pub enum Listing {
    /// The directory could not be read.
    Unreadable,
    /// These are the children that could be read; others could not, and are
    /// left out.
    Partial(Vec<FsEntry>),
    /// These are the children, all of them.
    Complete(Vec<FsEntry>),
}

/// The mathematical value of a [`Listing`].
pub enum ListingView {
    Unreadable,
    Partial(Seq<EntryView>),
    Complete(Seq<EntryView>),
}

impl View for Listing {
    type V = ListingView;

    open spec fn view(&self) -> ListingView {
        match self {
            Listing::Unreadable => ListingView::Unreadable,
            Listing::Partial(children) => ListingView::Partial(children.deep_view()),
            Listing::Complete(children) => ListingView::Complete(children.deep_view()),
        }
    }
}

impl ListingView {
    /// The children that are there to be shown: those that could be read.
    pub open spec fn shown(self) -> Seq<EntryView> {
        match self {
            ListingView::Unreadable => Seq::empty(),
            ListingView::Partial(children) => children,
            ListingView::Complete(children) => children,
        }
    }
}

impl Listing {
    /// The children that are there to be shown: those that could be read.
    pub fn into_shown(self) -> (children: Vec<FsEntry>)
        ensures
            children.deep_view() == self@.shown(),
    {
        match self {
            Listing::Unreadable => {
                let nothing: Vec<FsEntry> = Vec::new();
                assert(nothing.deep_view() =~= Seq::empty());
                nothing
            },
            Listing::Partial(children) => children,
            Listing::Complete(children) => children,
        }
    }
}

/// Lexicographic order on byte strings: `a` comes no later than `b`.
pub open spec fn bytes_le(a: Seq<u8>, b: Seq<u8>) -> bool
    decreases a.len(),
{
    if a.len() == 0 {
        true
    } else if b.len() == 0 {
        false
    } else if a[0] != b[0] {
        a[0] < b[0]
    } else {
        bytes_le(a.drop_first(), b.drop_first())
    }
}

/// The order of names: lexicographic by the bytes of their UTF-8 form, which
/// is the order of `str`.
pub open spec fn name_le(a: Seq<char>, b: Seq<char>) -> bool {
    bytes_le(vstd::utf8::encode_utf8(a), vstd::utf8::encode_utf8(b))
}

/// The order of a listing: directories before everything else, and by name
/// within each of the two groups.
pub open spec fn entry_le(a: EntryView, b: EntryView) -> bool {
    if a.kind.is_dir() != b.kind.is_dir() {
        a.kind.is_dir()
    } else {
        name_le(a.name, b.name)
    }
}

/// Every entry of `s` comes no later than those behind it.
pub open spec fn is_sorted(s: Seq<EntryView>) -> bool {
    forall|i: int, j: int| 0 <= i < j < s.len() ==> entry_le(#[trigger] s[i], #[trigger] s[j])
}

/// Of two byte strings one comes no later than the other.
pub proof fn lemma_bytes_le_total(a: Seq<u8>, b: Seq<u8>)
    ensures
        bytes_le(a, b) || bytes_le(b, a),
    decreases a.len(),
{
    if a.len() > 0 && b.len() > 0 && a[0] == b[0] {
        lemma_bytes_le_total(a.drop_first(), b.drop_first());
    }
}

/// What comes no later than a byte string comes no later than anything that
/// the byte string comes no later than.
pub proof fn lemma_bytes_le_transitive(a: Seq<u8>, b: Seq<u8>, c: Seq<u8>)
    requires
        bytes_le(a, b),
        bytes_le(b, c),
    ensures
        bytes_le(a, c),
    decreases a.len(),
{
    if a.len() > 0 && b.len() > 0 && c.len() > 0 && a[0] == b[0] && b[0] == c[0] {
        lemma_bytes_le_transitive(a.drop_first(), b.drop_first(), c.drop_first());
    }
}

/// Two byte strings of which each comes no later than the other are the
/// same.
pub proof fn lemma_bytes_le_antisymmetric(a: Seq<u8>, b: Seq<u8>)
    requires
        bytes_le(a, b),
        bytes_le(b, a),
    ensures
        a == b,
    decreases a.len(),
{
    if a.len() > 0 && b.len() > 0 {
        lemma_bytes_le_antisymmetric(a.drop_first(), b.drop_first());
        assert(a =~= seq![a[0]] + a.drop_first());
        assert(b =~= seq![b[0]] + b.drop_first());
    } else {
        assert(a =~= b);
    }
}

/// Two entries of which each comes no later than the other in a listing have
/// the same name, and both are directories or neither is.
pub proof fn lemma_entry_le_antisymmetric(a: EntryView, b: EntryView)
    requires
        entry_le(a, b),
        entry_le(b, a),
    ensures
        a.name == b.name,
        a.kind.is_dir() == b.kind.is_dir(),
{
    lemma_bytes_le_antisymmetric(vstd::utf8::encode_utf8(a.name), vstd::utf8::encode_utf8(b.name));
    vstd::utf8::encode_utf8_decode_utf8(a.name);
    vstd::utf8::encode_utf8_decode_utf8(b.name);
}

/// No two entries of `s` have the same name.
pub open spec fn distinct_names(s: Seq<EntryView>) -> bool {
    forall|i: int, j: int|
        0 <= i < j < s.len() ==> (#[trigger] s[i]).name != (#[trigger] s[j]).name
}

/// A listing without a name twice has one order only: two sorted listings of
/// the same entries are the same listing.
pub proof fn lemma_sorted_listing_is_unique(s: Seq<EntryView>, t: Seq<EntryView>)
    requires
        is_sorted(s),
        is_sorted(t),
        distinct_names(s),
        s.to_multiset() == t.to_multiset(),
    ensures
        s == t,
    decreases s.len(),
{
    broadcast use vstd::seq_lib::group_to_multiset_ensures;

    vstd::seq_lib::to_multiset_len(s);
    vstd::seq_lib::to_multiset_len(t);
    assert(s.len() == t.len());
    if s.len() == 0 {
        assert(s =~= t);
    } else {
        assert(t.contains(t[0]));
        assert(s.to_multiset().count(t[0]) > 0);
        assert(s.contains(t[0]));
        let k = choose|k: int| 0 <= k < s.len() && s[k] == t[0];
        assert(s.contains(s[0]));
        assert(t.to_multiset().count(s[0]) > 0);
        assert(t.contains(s[0]));
        let j = choose|j: int| 0 <= j < t.len() && t[j] == s[0];
        if k != 0 {
            assert(entry_le(s[0], s[k]));
            if j > 0 {
                assert(entry_le(t[0], t[j]));
                lemma_entry_le_antisymmetric(s[0], s[k]);
            }
            assert(s[0].name != s[k].name);
            assert(false);
        }
        let s1 = s.remove(0);
        let t1 = t.remove(0);
        vstd::seq_lib::to_multiset_remove(s, 0);
        vstd::seq_lib::to_multiset_remove(t, 0);
        assert forall|i: int, j: int| 0 <= i < j < s1.len() implies entry_le(
            #[trigger] s1[i],
            #[trigger] s1[j],
        ) by {
            assert(entry_le(s[i + 1], s[j + 1]));
        }
        assert forall|i: int, j: int| 0 <= i < j < t1.len() implies entry_le(
            #[trigger] t1[i],
            #[trigger] t1[j],
        ) by {
            assert(entry_le(t[i + 1], t[j + 1]));
        }
        assert forall|i: int, j: int| 0 <= i < j < s1.len() implies (#[trigger] s1[i]).name != (
        #[trigger] s1[j]).name by {
            assert(s[i + 1].name != s[j + 1].name);
        }
        lemma_sorted_listing_is_unique(s1, t1);
        assert(s =~= seq![s[0]] + s1);
        assert(t =~= seq![t[0]] + t1);
    }
}

/// The order of a listing is total.
pub proof fn lemma_entry_le_total(a: EntryView, b: EntryView)
    ensures
        entry_le(a, b) || entry_le(b, a),
{
    lemma_bytes_le_total(vstd::utf8::encode_utf8(a.name), vstd::utf8::encode_utf8(b.name));
}

/// The order of a listing is transitive.
pub proof fn lemma_entry_le_transitive(a: EntryView, b: EntryView, c: EntryView)
    requires
        entry_le(a, b),
        entry_le(b, c),
    ensures
        entry_le(a, c),
{
    if a.kind.is_dir() == b.kind.is_dir() && b.kind.is_dir() == c.kind.is_dir() {
        lemma_bytes_le_transitive(
            vstd::utf8::encode_utf8(a.name),
            vstd::utf8::encode_utf8(b.name),
            vstd::utf8::encode_utf8(c.name),
        );
    }
}

/// Whether `a` comes no later than `b` among byte strings.
fn bytes_precede(a: &[u8], b: &[u8]) -> (r: bool)
    ensures
        r == bytes_le(a@, b@),
{
    let mut i: usize = 0;
    proof {
        assert(a@.skip(0) =~= a@);
        assert(b@.skip(0) =~= b@);
    }
    while i < a.len() && i < b.len()
        invariant
            0 <= i <= a.len(),
            i <= b.len(),
            bytes_le(a@, b@) == bytes_le(a@.skip(i as int), b@.skip(i as int)),
        decreases a.len() - i,
    {
        proof {
            assert(a@.skip(i as int).drop_first() =~= a@.skip(i as int + 1));
            assert(b@.skip(i as int).drop_first() =~= b@.skip(i as int + 1));
        }
        if a[i] != b[i] {
            return a[i] < b[i];
        }
        i += 1;
    }
    i == a.len()
}

impl FsEntry {
    /// Whether `self` comes no later than `other` in a listing.
    pub fn precedes(&self, other: &FsEntry) -> (r: bool)
        ensures
            r == entry_le(self@, other@),
    {
        if self.kind.is_dir() != other.kind.is_dir() {
            self.kind.is_dir()
        } else {
            bytes_precede(self.name.as_str().as_bytes(), other.name.as_str().as_bytes())
        }
    }
}

/// In a sorted listing no directory stands behind an entry that is none, and
/// the names within the directories, and within the rest, never go down.
pub proof fn lemma_sorted_is_partitioned(s: Seq<EntryView>)
    requires
        is_sorted(s),
    ensures
        forall|i: int, j: int|
            #![trigger s[i], s[j]]
            0 <= i < j < s.len() && s[j].kind.is_dir() ==> s[i].kind.is_dir(),
        forall|i: int, j: int|
            #![trigger s[i], s[j]]
            0 <= i < j < s.len() && s[i].kind.is_dir() == s[j].kind.is_dir() ==> name_le(
                s[i].name,
                s[j].name,
            ),
{
    assert forall|i: int, j: int|
        #![trigger s[i], s[j]]
        0 <= i < j < s.len() && s[j].kind.is_dir() implies s[i].kind.is_dir() by {
        assert(entry_le(s[i], s[j]));
    }
    assert forall|i: int, j: int|
        #![trigger s[i], s[j]]
        0 <= i < j < s.len() && s[i].kind.is_dir() == s[j].kind.is_dir() implies name_le(
        s[i].name,
        s[j].name,
    ) by {
        assert(entry_le(s[i], s[j]));
    }
}

/// Every entry of `s` comes no earlier than those behind it.
pub open spec fn is_descending(s: Seq<EntryView>) -> bool {
    forall|i: int, j: int| 0 <= i < j < s.len() ==> entry_le(#[trigger] s[j], #[trigger] s[i])
}

/// Every entry of `low` comes no later than every entry of `high`.
pub open spec fn all_le(low: Seq<EntryView>, high: Seq<EntryView>) -> bool {
    forall|i: int, j: int|
        0 <= i < low.len() && 0 <= j < high.len() ==> entry_le(#[trigger] low[i], #[trigger] high[j])
}

/// Merges two sorted listings into one that runs from the last entry to the
/// first.
fn merge_descending(left: Vec<FsEntry>, right: Vec<FsEntry>) -> (merged: Vec<FsEntry>)
    requires
        is_sorted(left.deep_view()),
        is_sorted(right.deep_view()),
    ensures
        is_descending(merged.deep_view()),
        merged.deep_view().to_multiset() == left.deep_view().to_multiset().add(
            right.deep_view().to_multiset(),
        ),
{
    broadcast use vstd::seq_lib::group_to_multiset_ensures;

    let ghost all = left.deep_view().to_multiset().add(right.deep_view().to_multiset());
    let mut left = left;
    let mut right = right;
    let mut merged: Vec<FsEntry> = Vec::new();
    proof {
        assert(merged.deep_view() =~= Seq::empty());
        assert(merged.deep_view().to_multiset().add(left.deep_view().to_multiset()).add(
            right.deep_view().to_multiset(),
        ) =~= all);
    }
    while left.len() > 0 || right.len() > 0
        invariant
            is_sorted(left.deep_view()),
            is_sorted(right.deep_view()),
            is_descending(merged.deep_view()),
            all_le(left.deep_view(), merged.deep_view()),
            all_le(right.deep_view(), merged.deep_view()),
            merged.deep_view().to_multiset().add(left.deep_view().to_multiset()).add(
                right.deep_view().to_multiset(),
            ) == all,
        decreases left.len() + right.len(),
    {
        let ghost l = left.deep_view();
        let ghost r = right.deep_view();
        let ghost m = merged.deep_view();
        let from_right = if left.len() == 0 {
            true
        } else if right.len() == 0 {
            false
        } else {
            left[left.len() - 1].precedes(&right[right.len() - 1])
        };
        if from_right {
            let entry = right.pop().unwrap();
            merged.push(entry);
            proof {
                let rest = right.deep_view();
                assert(r =~= rest.push(entry@));
                assert(merged.deep_view() =~= m.push(entry@));
                vstd::seq_lib::to_multiset_build(rest, entry@);
                vstd::seq_lib::to_multiset_build(m, entry@);
                assert(merged.deep_view().to_multiset().add(l.to_multiset()).add(
                    rest.to_multiset(),
                ) =~= m.to_multiset().add(l.to_multiset()).add(r.to_multiset()));
                assert forall|i: int, j: int| 0 <= i < j < rest.len() implies entry_le(
                    #[trigger] rest[i],
                    #[trigger] rest[j],
                ) by {
                    assert(entry_le(r[i], r[j]));
                }
                let top = merged.deep_view();
                assert forall|i: int, j: int|
                    0 <= i < rest.len() && 0 <= j < top.len() implies entry_le(
                    #[trigger] rest[i],
                    #[trigger] top[j],
                ) by {
                    if j < m.len() {
                        assert(entry_le(r[i], m[j]));
                    } else {
                        assert(entry_le(r[i], r[r.len() - 1]));
                    }
                }
                assert forall|i: int, j: int|
                    0 <= i < l.len() && 0 <= j < top.len() implies entry_le(
                    #[trigger] l[i],
                    #[trigger] top[j],
                ) by {
                    if j < m.len() {
                        assert(entry_le(l[i], m[j]));
                    } else {
                        if i < l.len() - 1 {
                            assert(entry_le(l[i], l[l.len() - 1]));
                            lemma_entry_le_transitive(l[i], l[l.len() - 1], entry@);
                        }
                    }
                }
                assert forall|i: int, j: int| 0 <= i < j < top.len() implies entry_le(
                    #[trigger] top[j],
                    #[trigger] top[i],
                ) by {
                    if j < m.len() {
                        assert(entry_le(m[j], m[i]));
                    } else {
                        assert(entry_le(r[r.len() - 1], m[i]));
                    }
                }
            }
        } else {
            let entry = left.pop().unwrap();
            merged.push(entry);
            proof {
                let rest = left.deep_view();
                assert(l =~= rest.push(entry@));
                assert(merged.deep_view() =~= m.push(entry@));
                vstd::seq_lib::to_multiset_build(rest, entry@);
                vstd::seq_lib::to_multiset_build(m, entry@);
                assert(merged.deep_view().to_multiset().add(rest.to_multiset()).add(
                    r.to_multiset(),
                ) =~= m.to_multiset().add(l.to_multiset()).add(r.to_multiset()));
                assert forall|i: int, j: int| 0 <= i < j < rest.len() implies entry_le(
                    #[trigger] rest[i],
                    #[trigger] rest[j],
                ) by {
                    assert(entry_le(l[i], l[j]));
                }
                let top = merged.deep_view();
                assert forall|i: int, j: int|
                    0 <= i < rest.len() && 0 <= j < top.len() implies entry_le(
                    #[trigger] rest[i],
                    #[trigger] top[j],
                ) by {
                    if j < m.len() {
                        assert(entry_le(l[i], m[j]));
                    } else {
                        assert(entry_le(l[i], l[l.len() - 1]));
                    }
                }
                assert forall|i: int, j: int|
                    0 <= i < r.len() && 0 <= j < top.len() implies entry_le(
                    #[trigger] r[i],
                    #[trigger] top[j],
                ) by {
                    if j < m.len() {
                        assert(entry_le(r[i], m[j]));
                    } else {
                        lemma_entry_le_total(l[l.len() - 1], r[r.len() - 1]);
                        if i < r.len() - 1 {
                            assert(entry_le(r[i], r[r.len() - 1]));
                            lemma_entry_le_transitive(r[i], r[r.len() - 1], entry@);
                        }
                    }
                }
                assert forall|i: int, j: int| 0 <= i < j < top.len() implies entry_le(
                    #[trigger] top[j],
                    #[trigger] top[i],
                ) by {
                    if j < m.len() {
                        assert(entry_le(m[j], m[i]));
                    } else {
                        assert(entry_le(l[l.len() - 1], m[i]));
                    }
                }
            }
        }
    }
    proof {
        assert(left.deep_view() =~= Seq::empty());
        assert(right.deep_view() =~= Seq::empty());
        assert(merged.deep_view().to_multiset().add(left.deep_view().to_multiset()).add(
            right.deep_view().to_multiset(),
        ) =~= merged.deep_view().to_multiset());
    }
    merged
}

/// Turns a listing that runs from the last entry to the first around.
fn ascending(descending: Vec<FsEntry>) -> (sorted: Vec<FsEntry>)
    requires
        is_descending(descending.deep_view()),
    ensures
        is_sorted(sorted.deep_view()),
        sorted.deep_view().to_multiset() == descending.deep_view().to_multiset(),
{
    broadcast use vstd::seq_lib::group_to_multiset_ensures;

    let ghost all = descending.deep_view().to_multiset();
    let mut rest = descending;
    let mut sorted: Vec<FsEntry> = Vec::new();
    proof {
        assert(sorted.deep_view() =~= Seq::empty());
        assert(sorted.deep_view().to_multiset().add(rest.deep_view().to_multiset()) =~= all);
    }
    while rest.len() > 0
        invariant
            is_descending(rest.deep_view()),
            is_sorted(sorted.deep_view()),
            all_le(sorted.deep_view(), rest.deep_view()),
            sorted.deep_view().to_multiset().add(rest.deep_view().to_multiset()) == all,
        decreases rest.len(),
    {
        let ghost d = rest.deep_view();
        let ghost a = sorted.deep_view();
        let entry = rest.pop().unwrap();
        sorted.push(entry);
        proof {
            let less = rest.deep_view();
            let more = sorted.deep_view();
            assert(d =~= less.push(entry@));
            assert(more =~= a.push(entry@));
            vstd::seq_lib::to_multiset_build(less, entry@);
            vstd::seq_lib::to_multiset_build(a, entry@);
            assert(more.to_multiset().add(less.to_multiset()) =~= a.to_multiset().add(
                d.to_multiset(),
            ));
            assert forall|i: int, j: int| 0 <= i < j < less.len() implies entry_le(
                #[trigger] less[j],
                #[trigger] less[i],
            ) by {
                assert(entry_le(d[j], d[i]));
            }
            assert forall|i: int, j: int| 0 <= i < j < more.len() implies entry_le(
                #[trigger] more[i],
                #[trigger] more[j],
            ) by {
                if j < a.len() {
                    assert(entry_le(a[i], a[j]));
                } else {
                    assert(entry_le(a[i], d[d.len() - 1]));
                }
            }
            assert forall|i: int, j: int|
                0 <= i < more.len() && 0 <= j < less.len() implies entry_le(
                #[trigger] more[i],
                #[trigger] less[j],
            ) by {
                if i < a.len() {
                    assert(entry_le(a[i], d[j]));
                } else {
                    assert(entry_le(d[d.len() - 1], d[j]));
                }
            }
        }
    }
    proof {
        assert(rest.deep_view() =~= Seq::empty());
        assert(sorted.deep_view().to_multiset().add(rest.deep_view().to_multiset())
            =~= sorted.deep_view().to_multiset());
    }
    sorted
}

/// Puts a listing in order: directories first, and by name within the
/// directories and within the rest.
pub fn sort_entries(listing: Vec<FsEntry>) -> (sorted: Vec<FsEntry>)
    ensures
        is_sorted(sorted.deep_view()),
        sorted.deep_view().to_multiset() == listing.deep_view().to_multiset(),
        sorted.len() == listing.len(),
    decreases listing.len(),
{
    broadcast use vstd::seq_lib::group_to_multiset_ensures;

    if listing.len() <= 1 {
        return listing;
    }
    let ghost whole = listing.deep_view();
    let mut left = listing;
    let right = left.split_off(left.len() / 2);
    proof {
        assert(whole =~= left.deep_view() + right.deep_view());
        vstd::seq_lib::lemma_multiset_commutative(left.deep_view(), right.deep_view());
    }
    let left = sort_entries(left);
    let right = sort_entries(right);
    let sorted = ascending(merge_descending(left, right));
    proof {
        assert(sorted.deep_view().to_multiset().len() == whole.to_multiset().len());
    }
    sorted
}

} // verus!
