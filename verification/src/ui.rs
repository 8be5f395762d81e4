//! The session: the panes on one screen, which of them is shown, and what
//! each key does to them.
//!
//! The session never reads a key or a directory itself. Its host hands in
//! what happened as an [`Event`], and is told what to do next as an
//! [`Action`].
use vstd::prelude::*;
use crate::copy::{CopyAction, CopyActionView, CopyEvent, CopyEventView, CopyJob, CopyJobView};
use crate::entry::{EntryView, FsEntry, Listing, ListingView};
use crate::input::{describe_unhandled, unhandled_notice, Command, Input};
use crate::provider::{Drawable, Line, Provider, Response, ResponseView};
use crate::viewport;

verus! {

/// A pane and the window through which it is shown.
pub struct Slot<P> {
    pub provider: P,
    pub view: viewport::View,
}

/// The mathematical value of a [`Slot`].
pub struct SlotView<V> {
    pub provider: V,
    pub view: viewport::View,
}

impl<P: Provider> View for Slot<P> {
    type V = SlotView<P::V>;

    open spec fn view(&self) -> SlotView<P::V> {
        SlotView { provider: self.provider@, view: self.view }
    }
}

impl<P: Provider> Slot<P> {
    /// The pane is well formed, and its window starts inside its content.
    pub open spec fn inv(&self) -> bool {
        &&& self.provider.inv()
        &&& self.view.wf()
        &&& self.view.valid_for(P::lines(self.provider@))
    }
}

/// What has happened outside the session.
pub enum Event {
    /// A key was pressed.
    Key(Input),
    /// The directory that was to be listed has been read.
    Listed(Listing),
    /// The file that was to be copied was copied, or was not.
    Copied(bool),
    /// A diagnostic line was emitted somewhere in the program.
    Diagnostic(String),
}

/// The mathematical value of an [`Event`].
pub enum EventView {
    Key(Input),
    Listed(ListingView),
    Copied(bool),
    Diagnostic(Seq<char>),
}

impl View for Event {
    type V = EventView;

    open spec fn view(&self) -> EventView {
        match self {
            Event::Key(input) => EventView::Key(*input),
            Event::Listed(listing) => EventView::Listed(listing@),
            Event::Copied(done) => EventView::Copied(*done),
            Event::Diagnostic(line) => EventView::Diagnostic(line@),
        }
    }
}

/// What the host is to do next.
#[derive(Debug)]
pub enum Action {
    /// Show the main pane and the status line, and hand in the next key.
    Show,
    /// End the program.
    Quit,
    /// Hand in the children of this directory.
    List(Vec<String>),
    /// Copy the bytes of the file `from` to the file `to`, and hand in how it
    /// went.
    Copy { from: Vec<String>, to: Vec<String> },
}

/// The mathematical value of an [`Action`].
pub enum ActionView {
    Show,
    Quit,
    List(Seq<Seq<char>>),
    Copy { from: Seq<Seq<char>>, to: Seq<Seq<char>> },
}

impl View for Action {
    type V = ActionView;

    open spec fn view(&self) -> ActionView {
        match self {
            Action::Show => ActionView::Show,
            Action::Quit => ActionView::Quit,
            Action::List(path) => ActionView::List(path.deep_view()),
            Action::Copy { from, to } => ActionView::Copy {
                from: from.deep_view(),
                to: to.deep_view(),
            },
        }
    }
}

/// What the session waits for.
pub enum Waiting {
    /// The next key.
    Key,
    /// The listing of the main pane's directory.
    MainListing,
    /// The listing of the background pane's directory; that of the main pane
    /// comes after it.
    BackgroundListing,
    /// The host's report on the next step of a copy.
    Copy(CopyJob),
}

/// The mathematical value of a [`Waiting`].
pub enum WaitingView {
    Key,
    MainListing,
    BackgroundListing,
    Copy(CopyJobView),
}

impl View for Waiting {
    type V = WaitingView;

    open spec fn view(&self) -> WaitingView {
        match self {
            Waiting::Key => WaitingView::Key,
            Waiting::MainListing => WaitingView::MainListing,
            Waiting::BackgroundListing => WaitingView::BackgroundListing,
            Waiting::Copy(job) => WaitingView::Copy(job@),
        }
    }
}

/// The mathematical value of a [`UI`] whose panes have values of type `V`.
pub struct UIView<V> {
    /// The pane on the screen.
    pub main: SlotView<V>,
    /// The other pane, which a copy goes to.
    pub background: SlotView<V>,
    /// The auxiliary panes.
    pub extras: Seq<SlotView<V>>,
    /// For each auxiliary pane the key that brings it to the screen.
    pub activators: Seq<Input>,
    /// The auxiliary pane that is on the screen, if one is: what `extras`
    /// holds in its place is the pane that it pushed aside.
    pub activated: Option<nat>,
    pub status: Seq<char>,
    pub waiting: WaitingView,
    /// The quit key was pressed with no auxiliary pane on the screen.
    pub quit: bool,
}

/// `at` is the first of `activators` that is the key `input`.
pub open spec fn is_first_activator(activators: Seq<Input>, input: Input, at: int) -> bool {
    &&& 0 <= at < activators.len()
    &&& activators[at] == input
    &&& forall|j: int| 0 <= j < at ==> activators[j] != input
}

/// The key `input` brings an auxiliary pane to the screen.
pub open spec fn activates(activators: Seq<Input>, input: Input) -> bool {
    exists|at: int| is_first_activator(activators, input, at)
}

/// The first auxiliary pane that the key `input` brings to the screen.
pub open spec fn activated_by(activators: Seq<Input>, input: Input) -> int {
    choose|at: int| is_first_activator(activators, input, at)
}

/// The key is one that the session acts on itself, whatever pane is on the
/// screen: quit, tab and the two page keys.
pub open spec fn for_session(input: Input) -> bool {
    match input.command() {
        Some(Command::Quit) => true,
        Some(Command::SwitchPane) => true,
        Some(Command::PageUp) => true,
        Some(Command::PageDown) => true,
        _ => false,
    }
}

/// The first of the two diagnostic lines for a symbolic link that a copy has
/// come to: it names the link.
pub open spec fn link_line(link: Seq<Seq<char>>) -> Seq<char> {
    if link.len() > 0 {
        "copy: [link] "@ + link.last()
    } else {
        "copy: [link] "@
    }
}

/// The second of the two diagnostic lines for a symbolic link that a copy has
/// come to: links are not copied.
pub open spec fn links_unsupported_notice() -> Seq<char> {
    "copy: copying links is not yet supported"@
}

/// The first of the two diagnostic lines for the symbolic link `link`.
fn link_text(link: &Vec<String>) -> (line: String)
    ensures
        line@ == link_line(link.deep_view()),
{
    let line = String::from_str("copy: [link] ");
    if link.len() > 0 {
        line.concat(link[link.len() - 1].as_str())
    } else {
        line
    }
}

/// The status line after a copy that did not go through.
pub open spec fn copy_failed_notice() -> Seq<char> {
    "Copy failed"@
}

/// Lets every pane of `slots` hear the diagnostic line `line`.
fn record_all<P: Provider>(slots: &mut Vec<Slot<P>>, line: &str)
    requires
        forall|i: int| 0 <= i < old(slots).len() ==> (#[trigger] old(slots)[i]).inv(),
    ensures
        final(slots).len() == old(slots).len(),
        forall|i: int| 0 <= i < final(slots).len() ==> (#[trigger] final(slots)[i]).inv(),
        forall|i: int|
            0 <= i < final(slots).len() ==> (#[trigger] final(slots)[i])@ == (SlotView {
                provider: P::on_record(old(slots)[i]@.provider, line@),
                view: old(slots)[i]@.view,
            }),
{
    let mut i: usize = 0;
    while i < slots.len()
        invariant
            i <= slots.len(),
            slots.len() == old(slots).len(),
            forall|j: int| 0 <= j < old(slots).len() ==> (#[trigger] old(slots)[j]).inv(),
            forall|j: int|
                0 <= j < i ==> (#[trigger] slots[j]).inv() && slots[j]@ == (SlotView {
                    provider: P::on_record(old(slots)[j]@.provider, line@),
                    view: old(slots)[j]@.view,
                }),
            forall|j: int| i <= j < slots.len() ==> slots[j] == old(slots)[j],
        decreases slots.len() - i,
    {
        slots[i].provider.record(line);
        i += 1;
    }
}

/// The session of one screen.
pub struct UI<P: Provider> {
    main: Slot<P>,
    background: Slot<P>,
    extras: Vec<Slot<P>>,
    activators: Vec<Input>,
    activated: Option<usize>,
    status_line: String,
    waiting: Waiting,
    quit: bool,
}

impl<P: Provider> View for UI<P> {
    type V = UIView<P::V>;

    closed spec fn view(&self) -> UIView<P::V> {
        UIView {
            main: self.main@,
            background: self.background@,
            extras: Seq::new(self.extras.len() as nat, |i: int| self.extras[i]@),
            activators: self.activators@,
            activated: match self.activated {
                Some(k) => Some(k as nat),
                None => None,
            },
            status: self.status_line@,
            waiting: self.waiting@,
            quit: self.quit,
        }
    }
}

impl<P: Provider> UI<P> {
    /// The main pane and the auxiliary pane `k` in each other's place.
    pub open spec fn exchanged(pre: UIView<P::V>, k: int) -> UIView<P::V> {
        UIView { main: pre.extras[k], extras: pre.extras.update(k, pre.main), ..pre }
    }

    /// The session after its window was scrolled to `view`: the main pane is
    /// told, so that its cursor follows. An empty pane is not scrolled.
    pub open spec fn paged(pre: UIView<P::V>, view: viewport::View) -> UIView<P::V> {
        if P::lines(pre.main.provider) == 0 {
            pre
        } else {
            UIView {
                main: SlotView { provider: P::on_scroll(pre.main.provider, view), view },
                ..pre
            }
        }
    }

    /// The session after a copy of the main pane's entries has ended. Where
    /// it went well, both panes are listed anew, the background first; where
    /// it did not, the status line says so.
    pub open spec fn copy_ended(pre: UIView<P::V>, success: bool) -> UIView<P::V> {
        let main = SlotView {
            provider: P::on_copied(pre.main.provider, success),
            view: pre.main.view,
        };
        if success {
            UIView {
                main,
                waiting: if P::place(pre.background.provider) is Some {
                    WaitingView::BackgroundListing
                } else if P::place(main.provider) is Some {
                    WaitingView::MainListing
                } else {
                    WaitingView::Key
                },
                ..pre
            }
        } else {
            UIView { main, status: copy_failed_notice(), waiting: WaitingView::Key, ..pre }
        }
    }

    /// The session with a copy at the state `job`: done with it, or waiting
    /// for the host's report on its next step. A symbolic link is no step for
    /// the host: the copy passes over it, and every pane hears two
    /// diagnostic lines about it.
    pub open spec fn with_job(pre: UIView<P::V>, job: CopyJobView) -> UIView<P::V>
        decreases job.agenda.len(),
    {
        if job.finished() {
            Self::copy_ended(pre, !job.failed)
        } else {
            match job.action() {
                CopyActionView::SkipLink(link) => Self::with_job(
                    Self::recorded(
                        Self::recorded(pre, link_line(link)),
                        links_unsupported_notice(),
                    ),
                    job.step(CopyEventView::Skipped),
                ),
                _ => UIView { waiting: WaitingView::Copy(job), ..pre },
            }
        }
    }

    /// The session after the main pane was given the key `input`, with the
    /// background pane as the one that a copy would go to. A key that the
    /// pane leaves is named on the status line. A pane that leaves for
    /// another directory is listed anew. A copy that the two panes have
    /// agreed on is carried out; one that the background pane refuses has
    /// failed.
    pub open spec fn delegated(pre: UIView<P::V>, input: Input) -> UIView<P::V> {
        let (provider, view, response) = P::on_input(
            pre.main.provider,
            input,
            pre.main.view,
            P::copy_target(pre.background.provider),
        );
        let took = UIView { main: SlotView { provider, view }, ..pre };
        match response {
            ResponseView::Unhandled => UIView { status: unhandled_notice(input), ..took },
            ResponseView::Handled => took,
            ResponseView::Reload => UIView { waiting: WaitingView::MainListing, ..took },
            ResponseView::Copy(job) => Self::with_job(took, job),
            ResponseView::Refused => Self::copy_ended(took, false),
        }
    }

    /// The session after the key `input`, when it was waiting for a key.
    ///
    /// The quit key sends an auxiliary pane back and brings the pane it had
    /// pushed aside to the screen again; with no auxiliary pane on the
    /// screen it ends the session. The tab key exchanges the main and the
    /// background pane. The page keys scroll by the height of the window.
    /// The key of an auxiliary pane brings that pane to the screen, unless
    /// one is there already. Every other key goes to the main pane.
    pub open spec fn after_key(pre: UIView<P::V>, input: Input) -> UIView<P::V> {
        match input.command() {
            Some(Command::Quit) => match pre.activated {
                Some(k) => UIView { activated: None, ..Self::exchanged(pre, k as int) },
                None => UIView { quit: true, ..pre },
            },
            Some(Command::SwitchPane) => UIView {
                main: pre.background,
                background: pre.main,
                ..pre
            },
            Some(Command::PageUp) => Self::paged(pre, pre.main.view.paged_up()),
            Some(Command::PageDown) => Self::paged(
                pre,
                pre.main.view.paged_down(P::lines(pre.main.provider) as u32),
            ),
            _ => if activates(pre.activators, input) {
                if pre.activated is None {
                    let k = activated_by(pre.activators, input);
                    UIView { activated: Some(k as nat), ..Self::exchanged(pre, k) }
                } else {
                    pre
                }
            } else {
                Self::delegated(pre, input)
            },
        }
    }

    /// The session after every pane has heard the diagnostic line `line`.
    pub open spec fn recorded(pre: UIView<P::V>, line: Seq<char>) -> UIView<P::V> {
        UIView {
            main: SlotView { provider: P::on_record(pre.main.provider, line), view: pre.main.view },
            background: SlotView {
                provider: P::on_record(pre.background.provider, line),
                view: pre.background.view,
            },
            extras: Seq::new(
                pre.extras.len(),
                |i: int|
                    SlotView {
                        provider: P::on_record(pre.extras[i].provider, line),
                        view: pre.extras[i].view,
                    },
            ),
            ..pre
        }
    }

    /// `post` is the session once a listing that it waited for is in: the pane
    /// it was for has taken it. After the background pane's listing the main
    /// pane's is awaited, if the main pane shows a directory.
    pub open spec fn listed(
        pre: UIView<P::V>,
        listing: Seq<EntryView>,
        post: UIView<P::V>,
    ) -> bool {
        match pre.waiting {
            WaitingView::MainListing => {
                &&& P::on_listing(
                    pre.main.provider,
                    listing,
                    pre.main.view,
                    post.main.provider,
                    post.main.view,
                )
                &&& post == UIView { main: post.main, waiting: WaitingView::Key, ..pre }
            },
            WaitingView::BackgroundListing => {
                &&& P::on_listing(
                    pre.background.provider,
                    listing,
                    pre.background.view,
                    post.background.provider,
                    post.background.view,
                )
                &&& post == UIView {
                    background: post.background,
                    waiting: if P::place(pre.main.provider) is Some {
                        WaitingView::MainListing
                    } else {
                        WaitingView::Key
                    },
                    ..pre
                }
            },
            _ => false,
        }
    }

    /// `post` is the session after `event`, which finds it as `pre`.
    ///
    /// A diagnostic line goes to every pane at any time. Any other event
    /// counts only if the session waits for it: a key while it waits for a
    /// key, a listing while it waits for one or for a step of a copy, a
    /// copied file while it waits for a step of a copy. A
    /// pane shows the children that could be read, none where the directory
    /// could not be; a copy ends as failed where anything could not be read.
    /// An event that the session does not wait for, and every event after the
    /// session has ended, changes nothing.
    pub open spec fn stepped(pre: UIView<P::V>, event: EventView, post: UIView<P::V>) -> bool {
        if pre.quit {
            post == pre
        } else {
            match (event, pre.waiting) {
                (EventView::Diagnostic(line), _) => post == Self::recorded(pre, line),
                (EventView::Key(input), WaitingView::Key) => post == Self::after_key(pre, input),
                (EventView::Listed(listing), WaitingView::MainListing) => Self::listed(
                    pre,
                    listing.shown(),
                    post,
                ),
                (EventView::Listed(listing), WaitingView::BackgroundListing) => Self::listed(
                    pre,
                    listing.shown(),
                    post,
                ),
                (EventView::Listed(listing), WaitingView::Copy(job)) => post == Self::with_job(
                    pre,
                    job.step(CopyEventView::Listed(listing)),
                ),
                (EventView::Copied(done), WaitingView::Copy(job)) => post == Self::with_job(
                    pre,
                    job.step(CopyEventView::Copied(done)),
                ),
                _ => post == pre,
            }
        }
    }

    /// What the host of the session `model` is to do next.
    pub open spec fn next_action(model: UIView<P::V>) -> ActionView {
        if model.quit {
            ActionView::Quit
        } else {
            match model.waiting {
                WaitingView::Key => ActionView::Show,
                WaitingView::MainListing => match P::place(model.main.provider) {
                    Some(path) => ActionView::List(path),
                    None => ActionView::Show,
                },
                WaitingView::BackgroundListing => match P::place(model.background.provider) {
                    Some(path) => ActionView::List(path),
                    None => ActionView::Show,
                },
                WaitingView::Copy(job) => match job.action() {
                    CopyActionView::List(path) => ActionView::List(path),
                    CopyActionView::Copy { from, to } => ActionView::Copy { from, to },
                    _ => ActionView::Show,
                },
            }
        }
    }

    /// The window of the slot has room for a row, and starts inside the
    /// content of its pane.
    pub open spec fn fits(slot: SlotView<P::V>) -> bool {
        slot.view.wf() && slot.view.valid_for(P::lines(slot.provider))
    }

    /// Every window fits its pane, every auxiliary pane has its key, and what
    /// the session waits for can come.
    pub open spec fn well_formed(model: UIView<P::V>) -> bool {
        &&& Self::fits(model.main)
        &&& Self::fits(model.background)
        &&& forall|i: int| 0 <= i < model.extras.len() ==> Self::fits(#[trigger] model.extras[i])
        &&& model.activators.len() == model.extras.len()
        &&& match model.activated {
            Some(k) => k < model.extras.len(),
            None => true,
        }
        &&& match model.waiting {
            WaitingView::Key => true,
            WaitingView::MainListing => P::place(model.main.provider) is Some,
            WaitingView::BackgroundListing => P::place(model.background.provider) is Some,
            WaitingView::Copy(job) => !job.finished() && !(job.action() is SkipLink),
        }
    }

    /// Every pane of the session is well formed.
    pub closed spec fn panes_inv(&self) -> bool {
        &&& self.main.provider.inv()
        &&& self.background.provider.inv()
        &&& forall|i: int| 0 <= i < self.extras.len() ==> (#[trigger] self.extras[i]).provider.inv()
    }

    /// The session is well formed, and so is every pane in it. Every function
    /// asks for it and keeps it.
    pub open spec fn inv(&self) -> bool {
        self.panes_inv() && Self::well_formed(self@)
    }

    /// A session with `main_provider` on the screen and `background_provider`
    /// behind it, on a screen that has `width` columns and `height` rows for
    /// a pane.
    pub fn new(main_provider: P, background_provider: P, width: u32, height: u32) -> (ui: UI<P>)
        requires
            main_provider.inv(),
            background_provider.inv(),
            width > 0,
            height > 0,
        ensures
            ui.inv(),
            ui@ == (UIView {
                main: SlotView {
                    provider: main_provider@,
                    view: viewport::View { first_line_offset: 0, width, height },
                },
                background: SlotView {
                    provider: background_provider@,
                    view: viewport::View { first_line_offset: 0, width, height },
                },
                extras: Seq::empty(),
                activators: Seq::empty(),
                activated: None,
                status: Seq::empty(),
                waiting: WaitingView::Key,
                quit: false,
            }),
    {
        let view = viewport::View::new(width, height);
        let ui = UI {
            main: Slot { provider: main_provider, view },
            background: Slot { provider: background_provider, view },
            extras: Vec::new(),
            activators: Vec::new(),
            activated: None,
            status_line: String::new(),
            waiting: Waiting::Key,
            quit: false,
        };
        assert(ui@.extras =~= Seq::empty());
        assert(ui@.activators =~= Seq::empty());
        ui
    }

    /// Adds the auxiliary pane `provider`, which the key `activator` brings to
    /// the screen. Its window is as large as that of the main pane.
    pub fn add_provider(&mut self, activator: Input, provider: P)
        requires
            old(self).inv(),
            provider.inv(),
        ensures
            final(self).inv(),
            final(self)@ == (UIView {
                extras: old(self)@.extras.push(
                    SlotView { provider: provider@, view: old(self)@.main.view.at(0) },
                ),
                activators: old(self)@.activators.push(activator),
                ..old(self)@
            }),
    {
        let view = viewport::View::new(self.main.view.width, self.main.view.height);
        self.extras.push(Slot { provider, view });
        self.activators.push(activator);
        assert(self@.extras =~= old(self)@.extras.push(
            SlotView { provider: provider@, view: old(self)@.main.view.at(0) },
        ));
    }

    /// Puts `status_line` on the status line.
    pub fn set_status(&mut self, status_line: &str)
        requires
            old(self).inv(),
        ensures
            final(self).inv(),
            final(self)@ == (UIView { status: status_line@, ..old(self)@ }),
    {
        self.status_line = String::from_str(status_line);
    }

    /// The pane on the screen.
    pub fn main_provider(&self) -> (provider: &P)
        ensures
            provider@ == self@.main.provider,
            self.inv() ==> provider.inv(),
    {
        &self.main.provider
    }

    /// The window of the pane on the screen.
    pub fn main_view(&self) -> (view: &viewport::View)
        ensures
            *view == self@.main.view,
    {
        &self.main.view
    }

    /// The pane behind the one on the screen.
    pub fn background_provider(&self) -> (provider: &P)
        ensures
            provider@ == self@.background.provider,
            self.inv() ==> provider.inv(),
    {
        &self.background.provider
    }

    /// The window of the pane behind the one on the screen.
    pub fn background_view(&self) -> (view: &viewport::View)
        ensures
            *view == self@.background.view,
    {
        &self.background.view
    }

    /// The auxiliary pane that is on the screen, if one is.
    pub fn activated_extra_provider(&self) -> (activated: Option<usize>)
        ensures
            match activated {
                Some(k) => self@.activated == Some(k as nat),
                None => self@.activated is None,
            },
    {
        self.activated
    }

    /// Whether a copy is under way: the session waits for the host's report on
    /// a step of it.
    pub fn is_copying(&self) -> (copying: bool)
        ensures
            copying == (self@.waiting is Copy),
    {
        matches!(self.waiting, Waiting::Copy(_))
    }

    /// What the status line says.
    pub fn status_line(&self) -> (status: &String)
        ensures
            status@ == self@.status,
    {
        &self.status_line
    }

    /// The rows of the main pane that are to appear on the screen.
    pub fn draw(&self) -> (rows: Vec<Line>)
        requires
            self.inv(),
        ensures
            rows.deep_view() == P::drawn(self@.main.provider, self@.main.view),
            rows.len() <= P::lines(self@.main.provider),
            rows.len() <= self@.main.view.height,
    {
        self.main.provider.draw(&self.main.view)
    }

    /// What the host is to do next.
    pub fn action(&self) -> (action: Action)
        requires
            self.inv(),
        ensures
            action@ == Self::next_action(self@),
    {
        if self.quit {
            return Action::Quit;
        }
        match &self.waiting {
            Waiting::Key => Action::Show,
            Waiting::MainListing => match self.main.provider.location() {
                Some(path) => Action::List(path),
                None => Action::Show,
            },
            Waiting::BackgroundListing => match self.background.provider.location() {
                Some(path) => Action::List(path),
                None => Action::Show,
            },
            Waiting::Copy(job) => match job.action() {
                CopyAction::List(path) => Action::List(path),
                CopyAction::Copy { from, to } => Action::Copy { from, to },
                _ => Action::Show,
            },
        }
    }

    /// The first auxiliary pane that the key `input` brings to the screen.
    fn find_activator(&self, input: &Input) -> (found: Option<usize>)
        ensures
            match found {
                Some(at) => is_first_activator(self@.activators, *input, at as int)
                    && activated_by(self@.activators, *input) == at,
                None => !activates(self@.activators, *input),
            },
    {
        let mut i: usize = 0;
        while i < self.activators.len()
            invariant
                i <= self.activators.len(),
                forall|j: int| 0 <= j < i ==> self.activators[j] != *input,
            decreases self.activators.len() - i,
        {
            if self.activators[i] == *input {
                proof {
                    let chosen = activated_by(self@.activators, *input);
                    assert(is_first_activator(self@.activators, *input, i as int));
                    assert(is_first_activator(self@.activators, *input, chosen));
                }
                return Some(i);
            }
            i += 1;
        }
        None
    }

    /// Puts the auxiliary pane `k` in the place of the main pane, and the
    /// main pane in its place.
    fn exchange(&mut self, k: usize)
        requires
            old(self).inv(),
            old(self)@.waiting is Key,
            k < old(self)@.extras.len(),
        ensures
            final(self).inv(),
            final(self)@ == Self::exchanged(old(self)@, k as int),
    {
        std::mem::swap(&mut self.main, &mut self.extras[k]);
        assert(self@.extras =~= old(self)@.extras.update(k as int, old(self)@.main));
        assert forall|i: int| 0 <= i < self.extras.len() implies (#[trigger] self.extras[
            i
        ]).provider.inv() by {
            if i != k {
                assert(self.extras[i] == old(self).extras[i]);
            }
        }
        assert forall|i: int| 0 <= i < self@.extras.len() implies Self::fits(
            #[trigger] self@.extras[i],
        ) by {
            if i != k {
                assert(self@.extras[i] == old(self)@.extras[i]);
            }
        }
    }

    /// Ends the copy of the main pane's entries.
    fn end_copy(&mut self, success: bool)
        requires
            old(self).inv(),
        ensures
            final(self).inv(),
            final(self)@ == Self::copy_ended(old(self)@, success),
    {
        self.main.provider.copy_finished(success);
        if success {
            if self.background.provider.location().is_some() {
                self.waiting = Waiting::BackgroundListing;
            } else if self.main.provider.location().is_some() {
                self.waiting = Waiting::MainListing;
            } else {
                self.waiting = Waiting::Key;
            }
        } else {
            self.status_line = String::from_str("Copy failed");
            self.waiting = Waiting::Key;
        }
        assert(self@.extras =~= old(self)@.extras);
    }

    /// What the session waits for when a copy is taken up makes no difference
    /// to where the copy leaves it.
    proof fn lemma_with_job_sets_waiting(pre: UIView<P::V>, waiting: WaitingView, job: CopyJobView)
        ensures
            Self::with_job(UIView { waiting, ..pre }, job) == Self::with_job(pre, job),
        decreases job.agenda.len(),
    {
        if !job.finished() {
            match job.action() {
                CopyActionView::SkipLink(link) => {
                    let heard = Self::recorded(
                        Self::recorded(pre, link_line(link)),
                        links_unsupported_notice(),
                    );
                    let heard_too = Self::recorded(
                        Self::recorded(UIView { waiting, ..pre }, link_line(link)),
                        links_unsupported_notice(),
                    );
                    assert(heard_too == (UIView { waiting, ..heard }));
                    Self::lemma_with_job_sets_waiting(
                        heard,
                        waiting,
                        job.step(CopyEventView::Skipped),
                    );
                },
                _ => {},
            }
        }
    }

    /// Goes on with the copy that is at the state `job`.
    #[verifier::loop_isolation(false)]
    fn settle(&mut self, job: CopyJob)
        requires
            old(self).inv(),
            old(self)@.waiting is Key,
        ensures
            final(self).inv(),
            final(self)@ == Self::with_job(old(self)@, job@),
    {
        let ghost given = job@;
        let mut job = job;
        loop
            invariant
                self.inv(),
                self@.waiting is Key,
                Self::with_job(self@, job@) == Self::with_job(old(self)@, given),
            decreases job@.agenda.len(),
        {
            if job.is_finished() {
                self.end_copy(!job.has_failed());
                return ;
            }
            match job.action() {
                CopyAction::SkipLink(link) => {
                    let line = link_text(&link);
                    self.record(line.as_str());
                    self.record("copy: copying links is not yet supported");
                    job.step(CopyEvent::Skipped);
                },
                _ => {
                    let ghost before = self@;
                    self.waiting = Waiting::Copy(job);
                    assert(self@.extras =~= before.extras);
                    return ;
                },
            }
        }
    }

    /// Gives the key `input` to the main pane and acts on its answer.
    fn delegate(&mut self, input: &Input)
        requires
            old(self).inv(),
            old(self)@.waiting is Key,
        ensures
            final(self).inv(),
            final(self)@ == Self::delegated(old(self)@, *input),
    {
        let response = self.main.provider.handle_input(
            input,
            &mut self.main.view,
            &self.background.provider,
        );
        assert(self@.extras =~= old(self)@.extras);
        match response {
            Response::Unhandled => {
                self.status_line = describe_unhandled(input);
                assert(self@.extras =~= old(self)@.extras);
            },
            Response::Handled => {},
            Response::Reload => {
                self.waiting = Waiting::MainListing;
                assert(self@.extras =~= old(self)@.extras);
            },
            Response::Copy(job) => {
                self.settle(job);
            },
            Response::Refused => {
                self.end_copy(false);
            },
        }
    }

    /// Scrolls the window of the main pane to `view`, unless the pane is
    /// empty, and tells the pane.
    fn scroll_to(&mut self, view: viewport::View)
        requires
            old(self).inv(),
            view.wf(),
            view.valid_for(P::lines(old(self)@.main.provider)),
        ensures
            final(self).inv(),
            final(self)@ == Self::paged(old(self)@, view),
    {
        if self.main.provider.lines_count() != 0 {
            self.main.view = view;
            self.main.provider.handle_window_scrolled(&view);
        }
        assert(self@.extras =~= old(self)@.extras);
    }

    /// Acts on the key `input`.
    fn handle_key(&mut self, input: &Input)
        requires
            old(self).inv(),
            old(self)@.waiting is Key,
        ensures
            final(self).inv(),
            final(self)@ == Self::after_key(old(self)@, *input),
    {
        match input.command() {
            Some(Command::Quit) => {
                match self.activated {
                    Some(k) => {
                        self.exchange(k);
                        self.activated = None;
                    },
                    None => {
                        self.quit = true;
                    },
                }
                assert(self@.extras =~= Self::after_key(old(self)@, *input).extras);
            },
            Some(Command::SwitchPane) => {
                std::mem::swap(&mut self.main, &mut self.background);
                assert(self@.extras =~= old(self)@.extras);
            },
            Some(Command::PageUp) => {
                let lines = self.main.provider.lines_count();
                let mut view = self.main.view;
                view.page_up();
                proof {
                    if lines > 0 {
                        viewport::lemma_paging_stays_valid(self.main.view, lines);
                    }
                }
                self.scroll_to(view);
            },
            Some(Command::PageDown) => {
                let lines = self.main.provider.lines_count();
                if lines != 0 {
                    let mut view = self.main.view;
                    view.page_down(lines);
                    proof {
                        viewport::lemma_paging_stays_valid(self.main.view, lines);
                    }
                    self.scroll_to(view);
                }
            },
            _ => match self.find_activator(input) {
                Some(k) => {
                    if self.activated.is_none() {
                        self.exchange(k);
                        self.activated = Some(k);
                        assert(self@.extras =~= Self::after_key(old(self)@, *input).extras);
                    }
                },
                None => {
                    self.delegate(input);
                },
            },
        }
    }

    /// Lets every pane hear the diagnostic line `line`.
    fn record(&mut self, line: &str)
        requires
            old(self).inv(),
        ensures
            final(self).inv(),
            final(self)@ == Self::recorded(old(self)@, line@),
    {
        assert forall|i: int| 0 <= i < self.extras.len() implies (#[trigger] self.extras[
            i
        ]).inv() by {
            assert(Self::fits(self@.extras[i]));
        }
        self.main.provider.record(line);
        self.background.provider.record(line);
        record_all(&mut self.extras, line);
        assert(self@.extras =~= Self::recorded(old(self)@, line@).extras);
        assert forall|i: int| 0 <= i < self@.extras.len() implies Self::fits(
            #[trigger] self@.extras[i],
        ) by {
            assert(self.extras[i].inv());
        }
    }

    /// Gives the listing that the session waited for to the pane it is for.
    fn take_listing(&mut self, listing: Vec<FsEntry>)
        requires
            old(self).inv(),
            old(self)@.waiting is MainListing || old(self)@.waiting is BackgroundListing,
            listing.len() <= u32::MAX,
        ensures
            final(self).inv(),
            Self::listed(old(self)@, listing.deep_view(), final(self)@),
    {
        if matches!(self.waiting, Waiting::MainListing) {
            self.main.provider.refresh(listing, &mut self.main.view);
            self.waiting = Waiting::Key;
        } else {
            self.background.provider.refresh(listing, &mut self.background.view);
            if self.main.provider.location().is_some() {
                self.waiting = Waiting::MainListing;
            } else {
                self.waiting = Waiting::Key;
            }
        }
        assert(self@.extras =~= old(self)@.extras);
    }

    /// Hands the host's report on a step of the copy to the copy.
    fn advance_copy(&mut self, event: CopyEvent)
        requires
            old(self).inv(),
            old(self)@.waiting is Copy,
        ensures
            final(self).inv(),
            final(self)@ == Self::with_job(
                old(self)@,
                old(self)@.waiting->Copy_0.step(event@),
            ),
    {
        let mut waiting = Waiting::Key;
        std::mem::swap(&mut self.waiting, &mut waiting);
        assert(self@.extras =~= old(self)@.extras);
        assert(self@ == (UIView { waiting: WaitingView::Key, ..old(self)@ }));
        match waiting {
            Waiting::Copy(job) => {
                let mut job = job;
                job.step(event);
                proof {
                    Self::lemma_with_job_sets_waiting(old(self)@, WaitingView::Key, job@);
                }
                self.settle(job);
            },
            _ => {},
        }
    }

    /// Takes what has happened, and says what the host is to do next.
    pub fn step(&mut self, event: Event) -> (action: Action)
        requires
            old(self).inv(),
            event matches Event::Listed(listing) ==> listing@.shown().len() <= u32::MAX,
        ensures
            final(self).inv(),
            Self::stepped(old(self)@, event@, final(self)@),
            action@ == Self::next_action(final(self)@),
    {
        if !self.quit {
            match event {
                Event::Diagnostic(line) => {
                    self.record(line.as_str());
                },
                Event::Key(input) => {
                    if matches!(self.waiting, Waiting::Key) {
                        self.handle_key(&input);
                    }
                },
                Event::Listed(listing) => {
                    if matches!(self.waiting, Waiting::Copy(_)) {
                        self.advance_copy(CopyEvent::Listed(listing));
                    } else if !matches!(self.waiting, Waiting::Key) {
                        self.take_listing(listing.into_shown());
                    }
                },
                Event::Copied(done) => {
                    if matches!(self.waiting, Waiting::Copy(_)) {
                        self.advance_copy(CopyEvent::Copied(done));
                    }
                },
            }
        }
        self.action()
    }
}

/// The key of an auxiliary pane and then the quit key: the session is as it
/// was before the two, with the same pane behind the same window on the
/// screen.
pub proof fn lemma_activate_then_quit_restores<P: Provider>(
    pre: UIView<P::V>,
    key: Input,
    quit: Input,
    between: UIView<P::V>,
    post: UIView<P::V>,
)
    requires
        !pre.quit,
        pre.waiting is Key,
        pre.activated is None,
        !for_session(key),
        activates(pre.activators, key),
        pre.activators.len() == pre.extras.len(),
        quit.command() == Some(Command::Quit),
        UI::<P>::stepped(pre, EventView::Key(key), between),
        UI::<P>::stepped(between, EventView::Key(quit), post),
    ensures
        between.activated == Some(activated_by(pre.activators, key) as nat),
        between.main == pre.extras[activated_by(pre.activators, key)],
        post.main == pre.main,
        post == pre,
{
    let k = activated_by(pre.activators, key);
    assert(is_first_activator(pre.activators, key, k));
    assert(post.extras =~= pre.extras);
}

/// The tab key pressed twice leaves the session as it was.
pub proof fn lemma_switch_twice_restores<P: Provider>(
    pre: UIView<P::V>,
    tab: Input,
    between: UIView<P::V>,
    post: UIView<P::V>,
)
    requires
        !pre.quit,
        pre.waiting is Key,
        tab.command() == Some(Command::SwitchPane),
        UI::<P>::stepped(pre, EventView::Key(tab), between),
        UI::<P>::stepped(between, EventView::Key(tab), post),
    ensures
        between.main == pre.background,
        between.background == pre.main,
        post == pre,
{
}

/// The page keys do nothing to an empty pane, and leave the window of any
/// other pane inside its content: a page up stops at the first row, a page
/// down with the last row at the top.
pub proof fn lemma_paging_stays_inside<P: Provider>(
    pre: UIView<P::V>,
    key: Input,
    post: UIView<P::V>,
)
    requires
        !pre.quit,
        pre.waiting is Key,
        key.command() == Some(Command::PageUp) || key.command() == Some(Command::PageDown),
        P::lines(pre.main.provider) <= u32::MAX,
        pre.main.view.valid_for(P::lines(pre.main.provider)),
        UI::<P>::stepped(pre, EventView::Key(key), post),
    ensures
        P::lines(pre.main.provider) == 0 ==> post == pre,
        post.main.view.valid_for(P::lines(pre.main.provider)),
        post.main.view.width == pre.main.view.width,
        post.main.view.height == pre.main.view.height,
{
}

} // verus!
