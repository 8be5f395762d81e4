//! What every pane offers to the session that shows it.
use vstd::prelude::*;
use crate::copy::{CopyJob, CopyJobView};
use crate::entry::{EntryView, FsEntry};
use crate::input::Input;
use crate::viewport;

verus! {

/// One row of a pane as it is to appear on the screen.
#[derive(Debug)]
pub struct Line {
    pub text: String,
    /// The row stands for a directory.
    pub directory: bool,
    /// The row is the one the cursor is on.
    pub selected: bool,
}

/// The mathematical value of a [`Line`].
pub struct LineView {
    pub text: Seq<char>,
    pub directory: bool,
    pub selected: bool,
}

impl View for Line {
    type V = LineView;

    open spec fn view(&self) -> LineView {
        LineView { text: self.text@, directory: self.directory, selected: self.selected }
    }
}

impl DeepView for Line {
    type V = LineView;

    open spec fn deep_view(&self) -> LineView {
        self@
    }
}

/// What a pane answers to a key.
#[derive(Debug)]
pub enum Response {
    /// The key is not for this pane.
    Unhandled,
    /// The key was taken, and the pane is up to date.
    Handled,
    /// The key was taken; the pane now stands at another place and waits for
    /// its listing.
    Reload,
    /// The key was taken; the other pane has agreed to this copy of entries of
    /// the pane, which is now to be carried out.
    Copy(CopyJob),
    /// The key was taken; the pane wanted entries copied to the other pane,
    /// which takes no copies.
    Refused,
}

/// The mathematical value of a [`Response`].
pub enum ResponseView {
    Unhandled,
    Handled,
    Reload,
    Copy(CopyJobView),
    Refused,
}

impl View for Response {
    type V = ResponseView;

    open spec fn view(&self) -> ResponseView {
        match self {
            Response::Unhandled => ResponseView::Unhandled,
            Response::Handled => ResponseView::Handled,
            Response::Reload => ResponseView::Reload,
            Response::Copy(job) => ResponseView::Copy(job@),
            Response::Refused => ResponseView::Refused,
        }
    }
}

/// A content that can be shown through a scroll window.
pub trait Drawable: View {
    /// The value is well formed. Every function asks for it and keeps it.
    spec fn inv(&self) -> bool;

    /// How many rows the content has.
    spec fn lines(model: Self::V) -> nat;

    /// The rows that show in the window `view`, the top one first.
    spec fn drawn(model: Self::V, view: viewport::View) -> Seq<LineView>;

    /// The rows to put on the screen, the top one first. There are never more
    /// of them than the content has, nor than fit in the window.
    fn draw(&self, view: &viewport::View) -> (rows: Vec<Line>)
        requires
            self.inv(),
            view.wf(),
        ensures
            rows.deep_view() == Self::drawn(self@, *view),
            rows.len() <= Self::lines(self@),
            rows.len() <= view.height,
    ;
}

/// A pane as the place that a copy goes to.
pub trait CopyTarget: Drawable {
    /// The directory that takes what is copied to this pane; `None` for a
    /// pane that is no target of copies.
    spec fn copy_target(model: Self::V) -> Option<Seq<Seq<char>>>;

    /// Starts a copy of `entries`, found in the directory `path`, to this
    /// pane. A pane that is no target of copies answers `None`.
    fn copy_to(&self, path: &Vec<String>, entries: &Vec<FsEntry>) -> (job: Option<CopyJob>)
        requires
            self.inv(),
        ensures
            match job {
                Some(job) => Self::copy_target(self@) is Some && job@ == CopyJobView::start(
                    path.deep_view(),
                    Self::copy_target(self@)->0,
                    entries.deep_view(),
                ),
                None => Self::copy_target(self@) is None,
            },
    ;
}

/// The engine of a pane: it owns the content, and answers to keys and to the
/// window being scrolled.
pub trait Provider: CopyTarget {
    /// The pane and its window after the key `input`, and the answer, where
    /// the other pane takes copies into the directory `target`, or takes none.
    spec fn on_input(
        model: Self::V,
        input: Input,
        view: viewport::View,
        target: Option<Seq<Seq<char>>>,
    ) -> (Self::V, viewport::View, ResponseView);

    /// The pane after the session has moved its window to `view`.
    spec fn on_scroll(model: Self::V, view: viewport::View) -> Self::V;

    /// The directory whose children are the content, if the content is one.
    spec fn place(model: Self::V) -> Option<Seq<Seq<char>>>;

    /// `after` and `view_after` are the pane and its window once `before`
    /// has been given `listing`, the children of its location.
    spec fn on_listing(
        before: Self::V,
        listing: Seq<EntryView>,
        view: viewport::View,
        after: Self::V,
        view_after: viewport::View,
    ) -> bool;

    /// The pane after a copy of its entries has ended, well or not.
    spec fn on_copied(model: Self::V, success: bool) -> Self::V;

    /// The pane after the diagnostic line `line` was emitted.
    spec fn on_record(model: Self::V, line: Seq<char>) -> Self::V;

    /// The number of rows of the content as it is now.
    fn lines_count(&self) -> (count: u32)
        requires
            self.inv(),
        ensures
            count == Self::lines(self@),
    ;

    /// Takes the key `input` or leaves it. The pane may move its window; the
    /// window then still starts inside the content. `other` is the pane that
    /// a copy would go to.
    fn handle_input<O: CopyTarget>(
        &mut self,
        input: &Input,
        view: &mut viewport::View,
        other: &O,
    ) -> (response: Response)
        requires
            old(self).inv(),
            old(view).wf(),
            old(view).valid_for(Self::lines(old(self)@)),
            other.inv(),
        ensures
            final(self).inv(),
            (final(self)@, *final(view), response@) == Self::on_input(
                old(self)@,
                *input,
                *old(view),
                O::copy_target(other@),
            ),
            final(view).width == old(view).width,
            final(view).height == old(view).height,
            final(view).valid_for(Self::lines(final(self)@)),
            response is Reload ==> Self::place(final(self)@) is Some,
    ;

    /// Brings the cursor in line with the window `view`, to which the session
    /// has scrolled.
    fn handle_window_scrolled(&mut self, view: &viewport::View)
        requires
            old(self).inv(),
            view.wf(),
        ensures
            final(self).inv(),
            final(self)@ == Self::on_scroll(old(self)@, *view),
            Self::lines(final(self)@) == Self::lines(old(self)@),
            Self::place(final(self)@) == Self::place(old(self)@),
    ;

    /// The directory whose children are the content, if the content is one.
    fn location(&self) -> (place: Option<Vec<String>>)
        requires
            self.inv(),
        ensures
            match place {
                Some(path) => Self::place(self@) == Some(path.deep_view()),
                None => Self::place(self@) is None,
            },
    ;

    /// Takes `listing`, the children of the pane's location as they are now.
    fn refresh(&mut self, listing: Vec<FsEntry>, view: &mut viewport::View)
        requires
            old(self).inv(),
            old(view).wf(),
            old(view).valid_for(Self::lines(old(self)@)),
            listing.len() <= u32::MAX,
        ensures
            final(self).inv(),
            Self::on_listing(
                old(self)@,
                listing.deep_view(),
                *old(view),
                final(self)@,
                *final(view),
            ),
            final(view).width == old(view).width,
            final(view).height == old(view).height,
            final(view).valid_for(Self::lines(final(self)@)),
            Self::place(final(self)@) == Self::place(old(self)@),
    ;

    /// Hears that the copy of its entries has ended, well or not.
    fn copy_finished(&mut self, success: bool)
        requires
            old(self).inv(),
        ensures
            final(self).inv(),
            final(self)@ == Self::on_copied(old(self)@, success),
            Self::lines(final(self)@) == Self::lines(old(self)@),
            Self::place(final(self)@) == Self::place(old(self)@),
    ;

    /// Hears the diagnostic line `line`. The content never gets shorter by it.
    fn record(&mut self, line: &str)
        requires
            old(self).inv(),
        ensures
            final(self).inv(),
            final(self)@ == Self::on_record(old(self)@, line@),
            Self::lines(final(self)@) >= Self::lines(old(self)@),
            Self::place(final(self)@) == Self::place(old(self)@),
    ;
}

} // verus!
