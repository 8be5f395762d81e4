//! Copying entries, and all that lies below them, from one directory into
//! another.
//!
//! The job decides what happens next; the host lists directories and copies
//! files, and reports how each went.
use vstd::prelude::*;
use crate::entry::{EntryKind, EntryView, FsEntry, Listing, ListingView};
use crate::path::{clone_path, join};

verus! {

/// One entry that is still to be copied.
#[derive(Debug)]
pub struct Task {
    source: Vec<String>,
    target: Vec<String>,
    kind: EntryKind,
}

/// The mathematical value of a [`Task`]: where the entry is, where its copy
/// goes, and what it is.
pub struct TaskView {
    pub source: Seq<Seq<char>>,
    pub target: Seq<Seq<char>>,
    pub kind: EntryKind,
}

impl View for Task {
    type V = TaskView;

    closed spec fn view(&self) -> TaskView {
        TaskView {
            source: self.source.deep_view(),
            target: self.target.deep_view(),
            kind: self.kind,
        }
    }
}

impl DeepView for Task {
    type V = TaskView;

    open spec fn deep_view(&self) -> TaskView {
        self@
    }
}

/// What the host reports about the step it was asked to take.
pub enum CopyEvent {
    /// What came of reading the directory.
    Listed(Listing),
    /// Whether the file was copied.
    Copied(bool),
    /// The link was passed over.
    Skipped,
}

/// The mathematical value of a [`CopyEvent`].
pub enum CopyEventView {
    Listed(ListingView),
    Copied(bool),
    Skipped,
}

impl View for CopyEvent {
    type V = CopyEventView;

    open spec fn view(&self) -> CopyEventView {
        match self {
            CopyEvent::Listed(listing) => CopyEventView::Listed(listing@),
            CopyEvent::Copied(done) => CopyEventView::Copied(*done),
            CopyEvent::Skipped => CopyEventView::Skipped,
        }
    }
}

/// What the host is to do next.
#[derive(Debug)]
pub enum CopyAction {
    /// List the children of this directory.
    List(Vec<String>),
    /// Copy the bytes of the file `from` to the file `to`.
    Copy { from: Vec<String>, to: Vec<String> },
    /// Nothing is copied for this symbolic link; say so in the diagnostics.
    SkipLink(Vec<String>),
    /// The job is over: everything was copied, or something failed.
    Done(bool),
}

/// The mathematical value of a [`CopyAction`].
pub enum CopyActionView {
    List(Seq<Seq<char>>),
    Copy { from: Seq<Seq<char>>, to: Seq<Seq<char>> },
    SkipLink(Seq<Seq<char>>),
    Done(bool),
}

impl View for CopyAction {
    type V = CopyActionView;

    open spec fn view(&self) -> CopyActionView {
        match self {
            CopyAction::List(path) => CopyActionView::List(path.deep_view()),
            CopyAction::Copy { from, to } => CopyActionView::Copy {
                from: from.deep_view(),
                to: to.deep_view(),
            },
            CopyAction::SkipLink(path) => CopyActionView::SkipLink(path.deep_view()),
            CopyAction::Done(success) => CopyActionView::Done(*success),
        }
    }
}

/// The tasks for the entries `entries` of the directory `from`, whose copies
/// go into the directory `to`: one for each directory, file and link, the
/// first entry's task last.
pub open spec fn tasks_for(
    from: Seq<Seq<char>>,
    to: Seq<Seq<char>>,
    entries: Seq<EntryView>,
) -> Seq<TaskView>
    decreases entries.len(),
{
    if entries.len() == 0 {
        Seq::empty()
    } else {
        let rest = tasks_for(from, to, entries.drop_first());
        let entry = entries.first();
        if entry.kind == EntryKind::Other {
            rest
        } else {
            rest.push(
                TaskView {
                    source: from.push(entry.name),
                    target: to.push(entry.name),
                    kind: entry.kind,
                },
            )
        }
    }
}

/// The mathematical value of a [`CopyJob`]: the tasks still to do, the next
/// one last, and whether a step has failed.
pub struct CopyJobView {
    pub agenda: Seq<TaskView>,
    pub failed: bool,
}

impl CopyJobView {
    /// The job that copies the entries `entries` of `from` into `to`.
    pub open spec fn start(
        from: Seq<Seq<char>>,
        to: Seq<Seq<char>>,
        entries: Seq<EntryView>,
    ) -> CopyJobView {
        CopyJobView { agenda: tasks_for(from, to, entries), failed: false }
    }

    /// Nothing is left to do.
    pub open spec fn finished(self) -> bool {
        self.failed || self.agenda.len() == 0
    }

    /// What the host is to do next: the step for the next task, or `Done`.
    pub open spec fn action(self) -> CopyActionView {
        if self.failed {
            CopyActionView::Done(false)
        } else if self.agenda.len() == 0 {
            CopyActionView::Done(true)
        } else {
            let task = self.agenda.last();
            match task.kind {
                EntryKind::Directory => CopyActionView::List(task.source),
                EntryKind::File => CopyActionView::Copy { from: task.source, to: task.target },
                _ => CopyActionView::SkipLink(task.source),
            }
        }
    }

    /// The job after the host has reported `event`. A complete listing
    /// replaces the directory's task by those of its children; a copied file
    /// and a skipped link leave the agenda; a directory that cannot be read,
    /// or not all of it, and a file that cannot be copied end the job as
    /// failed. A report that does not answer the next task changes nothing.
    pub open spec fn step(self, event: CopyEventView) -> CopyJobView {
        if self.finished() {
            self
        } else {
            let task = self.agenda.last();
            let rest = self.agenda.drop_last();
            match (task.kind, event) {
                (
                    EntryKind::Directory,
                    CopyEventView::Listed(ListingView::Complete(children)),
                ) => CopyJobView {
                    agenda: rest + tasks_for(task.source, task.target, children),
                    failed: false,
                },
                (EntryKind::Directory, CopyEventView::Listed(_)) => CopyJobView {
                    agenda: self.agenda,
                    failed: true,
                },
                (EntryKind::File, CopyEventView::Copied(true)) => CopyJobView {
                    agenda: rest,
                    failed: false,
                },
                (EntryKind::File, CopyEventView::Copied(false)) => CopyJobView {
                    agenda: self.agenda,
                    failed: true,
                },
                (EntryKind::Symlink, CopyEventView::Skipped) => CopyJobView {
                    agenda: rest,
                    failed: false,
                },
                (EntryKind::Other, CopyEventView::Skipped) => CopyJobView {
                    agenda: rest,
                    failed: false,
                },
                _ => self,
            }
        }
    }
}

/// An entry together with all that lies below it.
pub struct Node {
    pub entry: EntryView,
    /// The children, if the entry is a directory.
    pub children: Seq<Node>,
}

/// The entries at the top of `nodes`.
pub open spec fn entries_of(nodes: Seq<Node>) -> Seq<EntryView> {
    Seq::new(nodes.len(), |i: int| nodes[i].entry)
}

/// One exchange with the host: what it is asked to do, and what it reports.
pub struct Exchange {
    pub action: CopyActionView,
    pub event: CopyEventView,
}

/// The exchanges by which `nodes`, found in the directory `from`, are copied
/// into the directory `to` when every step goes well. Entry by entry, in
/// their order: a directory is listed, and its children are copied into the
/// directory of the same name below `to`; a file is copied to the same name
/// below `to`; a link is passed over; for anything else nothing happens.
pub open spec fn copying(from: Seq<Seq<char>>, to: Seq<Seq<char>>, nodes: Seq<Node>) -> Seq<
    Exchange,
>
    decreases nodes,
{
    if nodes.len() == 0 {
        Seq::empty()
    } else {
        let node = nodes[0];
        let source = from.push(node.entry.name);
        let target = to.push(node.entry.name);
        let first = match node.entry.kind {
            EntryKind::Directory => seq![
                Exchange {
                    action: CopyActionView::List(source),
                    event: CopyEventView::Listed(ListingView::Complete(entries_of(node.children))),
                },
            ] + copying(source, target, node.children),
            EntryKind::File => seq![
                Exchange {
                    action: CopyActionView::Copy { from: source, to: target },
                    event: CopyEventView::Copied(true),
                },
            ],
            EntryKind::Symlink => seq![
                Exchange { action: CopyActionView::SkipLink(source), event: CopyEventView::Skipped },
            ],
            EntryKind::Other => Seq::empty(),
        };
        first + copying(from, to, nodes.subrange(1, nodes.len() as int))
    }
}

impl CopyJobView {
    /// The job asks for each action of `exchanges` in turn, when it is told
    /// the event that goes with the one before.
    pub open spec fn asks(self, exchanges: Seq<Exchange>) -> bool
        decreases exchanges.len(),
    {
        exchanges.len() == 0 || (self.action() == exchanges[0].action && self.step(
            exchanges[0].event,
        ).asks(exchanges.drop_first()))
    }

    /// The job after it was told the events of `exchanges` in turn.
    pub open spec fn told(self, exchanges: Seq<Exchange>) -> CopyJobView
        decreases exchanges.len(),
    {
        if exchanges.len() == 0 {
            self
        } else {
            self.step(exchanges[0].event).told(exchanges.drop_first())
        }
    }
}

/// A job that has the tasks for `nodes` on top of its agenda goes through
/// the exchanges that copy them, and then stands where a job without those
/// tasks stands.
proof fn lemma_tasks_are_worked_off(
    below: Seq<TaskView>,
    from: Seq<Seq<char>>,
    to: Seq<Seq<char>>,
    nodes: Seq<Node>,
    then: Seq<Exchange>,
)
    ensures
        (CopyJobView { agenda: below + tasks_for(from, to, entries_of(nodes)), failed: false }).asks(
            copying(from, to, nodes) + then,
        ) == (CopyJobView { agenda: below, failed: false }).asks(then),
        (CopyJobView { agenda: below + tasks_for(from, to, entries_of(nodes)), failed: false }).told(
            copying(from, to, nodes) + then,
        ) == (CopyJobView { agenda: below, failed: false }).told(then),
    decreases nodes,
{
    let job = CopyJobView { agenda: below + tasks_for(from, to, entries_of(nodes)), failed: false };
    if nodes.len() == 0 {
        assert(job.agenda =~= below);
        assert(copying(from, to, nodes) + then =~= then);
    } else {
        let node = nodes[0];
        let others = nodes.subrange(1, nodes.len() as int);
        let source = from.push(node.entry.name);
        let target = to.push(node.entry.name);
        let under = below + tasks_for(from, to, entries_of(others));
        let rest = copying(from, to, others) + then;
        assert(entries_of(nodes).drop_first() =~= entries_of(others));
        assert(entries_of(nodes).first() == node.entry);
        lemma_tasks_are_worked_off(below, from, to, others, then);
        match node.entry.kind {
            EntryKind::Other => {
                assert(job.agenda =~= under);
                assert(copying(from, to, nodes) + then =~= rest);
            },
            EntryKind::Directory => {
                let task = TaskView { source, target, kind: node.entry.kind };
                let first = Exchange {
                    action: CopyActionView::List(source),
                    event: CopyEventView::Listed(ListingView::Complete(entries_of(node.children))),
                };
                let all = copying(from, to, nodes) + then;
                assert(job.agenda =~= under.push(task));
                assert(job.agenda.drop_last() =~= under);
                assert(all =~= seq![first] + (copying(source, target, node.children) + rest));
                assert(all[0] == first);
                assert(all.drop_first() =~= copying(source, target, node.children) + rest);
                lemma_tasks_are_worked_off(under, source, target, node.children, rest);
            },
            EntryKind::File => {
                let task = TaskView { source, target, kind: node.entry.kind };
                let first = Exchange {
                    action: CopyActionView::Copy { from: source, to: target },
                    event: CopyEventView::Copied(true),
                };
                let all = copying(from, to, nodes) + then;
                assert(job.agenda =~= under.push(task));
                assert(job.agenda.drop_last() =~= under);
                assert(all =~= seq![first] + rest);
                assert(all[0] == first);
                assert(all.drop_first() =~= rest);
            },
            EntryKind::Symlink => {
                let task = TaskView { source, target, kind: node.entry.kind };
                let first = Exchange {
                    action: CopyActionView::SkipLink(source),
                    event: CopyEventView::Skipped,
                };
                let all = copying(from, to, nodes) + then;
                assert(job.agenda =~= under.push(task));
                assert(job.agenda.drop_last() =~= under);
                assert(all =~= seq![first] + rest);
                assert(all[0] == first);
                assert(all.drop_first() =~= rest);
            },
        }
    }
}

/// Where every step goes well, the job for a tree asks for exactly the
/// exchanges that copy the tree, in their order, and is then done, with
/// success.
pub proof fn lemma_job_copies_the_tree(
    from: Seq<Seq<char>>,
    to: Seq<Seq<char>>,
    nodes: Seq<Node>,
)
    ensures
        CopyJobView::start(from, to, entries_of(nodes)).asks(copying(from, to, nodes)),
        CopyJobView::start(from, to, entries_of(nodes)).told(copying(from, to, nodes)).action()
            == CopyActionView::Done(true),
{
    let nothing = Seq::<TaskView>::empty();
    let end = Seq::<Exchange>::empty();
    lemma_tasks_are_worked_off(nothing, from, to, nodes, end);
    assert(nothing + tasks_for(from, to, entries_of(nodes)) =~= tasks_for(
        from,
        to,
        entries_of(nodes),
    ));
    assert(copying(from, to, nodes) + end =~= copying(from, to, nodes));
}

/// A job that has failed, or has nothing left to do, stays as it is whatever
/// it is told.
pub proof fn lemma_finished_job_stays(job: CopyJobView, event: CopyEventView)
    requires
        job.finished(),
    ensures
        job.step(event) == job,
        job.action() == CopyActionView::Done(!job.failed),
{
}

/// A copy in progress.
#[derive(Debug)]
pub struct CopyJob {
    agenda: Vec<Task>,
    failed: bool,
}

impl View for CopyJob {
    type V = CopyJobView;

    closed spec fn view(&self) -> CopyJobView {
        CopyJobView { agenda: self.agenda.deep_view(), failed: self.failed }
    }
}

/// Puts the tasks for `entries` on the agenda, the first entry's task on top.
fn push_tasks(
    agenda: &mut Vec<Task>,
    from: &Vec<String>,
    to: &Vec<String>,
    entries: &Vec<FsEntry>,
)
    ensures
        final(agenda).deep_view() == old(agenda).deep_view() + tasks_for(
            from.deep_view(),
            to.deep_view(),
            entries.deep_view(),
        ),
{
    let ghost all = entries.deep_view();
    let ghost base = agenda.deep_view();
    let mut i: usize = entries.len();
    proof {
        assert(all.skip(i as int) =~= Seq::empty());
        assert(agenda.deep_view() =~= base + tasks_for(
            from.deep_view(),
            to.deep_view(),
            all.skip(i as int),
        ));
    }
    while i > 0
        invariant
            i <= entries.len(),
            all == entries.deep_view(),
            agenda.deep_view() == base + tasks_for(
                from.deep_view(),
                to.deep_view(),
                all.skip(i as int),
            ),
        decreases i,
    {
        i -= 1;
        let ghost before = agenda.deep_view();
        proof {
            assert(all.skip(i as int).drop_first() =~= all.skip(i as int + 1));
            assert(all.skip(i as int).first() == entries[i as int]@);
        }
        let entry = &entries[i];
        match entry.kind {
            EntryKind::Other => {},
            _ => {
                let task = Task {
                    source: join(from, &entry.name),
                    target: join(to, &entry.name),
                    kind: entry.kind,
                };
                agenda.push(task);
                proof {
                    assert(agenda.deep_view() =~= before.push(task@));
                    assert(agenda.deep_view() =~= base + tasks_for(
                        from.deep_view(),
                        to.deep_view(),
                        all.skip(i as int),
                    ));
                }
            },
        }
    }
    proof {
        assert(all.skip(0) =~= all);
    }
}

impl CopyJob {
    /// The job that copies the entries `entries` of the directory `from` into
    /// the directory `to`.
    pub fn new(from: &Vec<String>, to: &Vec<String>, entries: &Vec<FsEntry>) -> (job: CopyJob)
        ensures
            job@ == CopyJobView::start(from.deep_view(), to.deep_view(), entries.deep_view()),
    {
        let mut agenda: Vec<Task> = Vec::new();
        push_tasks(&mut agenda, from, to, entries);
        proof {
            assert(agenda.deep_view() =~= tasks_for(
                from.deep_view(),
                to.deep_view(),
                entries.deep_view(),
            ));
        }
        CopyJob { agenda, failed: false }
    }

    /// Whether nothing is left to do.
    pub fn is_finished(&self) -> (finished: bool)
        ensures
            finished == self@.finished(),
    {
        self.failed || self.agenda.len() == 0
    }

    /// Whether a step has failed.
    pub fn has_failed(&self) -> (failed: bool)
        ensures
            failed == self@.failed,
    {
        self.failed
    }

    /// What the host is to do next.
    pub fn action(&self) -> (action: CopyAction)
        ensures
            action@ == self@.action(),
    {
        if self.failed {
            CopyAction::Done(false)
        } else if self.agenda.len() == 0 {
            CopyAction::Done(true)
        } else {
            let task = &self.agenda[self.agenda.len() - 1];
            match task.kind {
                EntryKind::Directory => CopyAction::List(clone_path(&task.source)),
                EntryKind::File => CopyAction::Copy {
                    from: clone_path(&task.source),
                    to: clone_path(&task.target),
                },
                _ => CopyAction::SkipLink(clone_path(&task.source)),
            }
        }
    }

    /// Takes the host's report on the step it was asked to take, and says
    /// what to do next.
    pub fn step(&mut self, event: CopyEvent) -> (action: CopyAction)
        ensures
            final(self)@ == old(self)@.step(event@),
            action@ == final(self)@.action(),
    {
        if !self.failed && self.agenda.len() > 0 {
            let ghost before = self.agenda.deep_view();
            let task = self.agenda.pop().unwrap();
            proof {
                assert(self.agenda.deep_view() =~= before.drop_last());
                assert(before.last() == task@);
            }
            match (task.kind, event) {
                (EntryKind::Directory, CopyEvent::Listed(Listing::Complete(children))) => {
                    push_tasks(&mut self.agenda, &task.source, &task.target, &children);
                },
                (EntryKind::Directory, CopyEvent::Listed(_)) => {
                    self.agenda.push(task);
                    self.failed = true;
                    proof {
                        assert(self.agenda.deep_view() =~= before);
                    }
                },
                (EntryKind::File, CopyEvent::Copied(true)) => {},
                (EntryKind::File, CopyEvent::Copied(false)) => {
                    self.agenda.push(task);
                    self.failed = true;
                    proof {
                        assert(self.agenda.deep_view() =~= before);
                    }
                },
                (EntryKind::Symlink, CopyEvent::Skipped) => {},
                (EntryKind::Other, CopyEvent::Skipped) => {},
                _ => {
                    self.agenda.push(task);
                    proof {
                        assert(self.agenda.deep_view() =~= before);
                    }
                },
            }
        }
        self.action()
    }
}

} // verus!
