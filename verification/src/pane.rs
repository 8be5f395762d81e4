//! The panes that come with the library, as one type, so that one session can
//! hold some of each.
use vstd::prelude::*;
use crate::copy::CopyJob;
use crate::directory::{Directory, DirectoryView};
use crate::entry::{EntryView, FsEntry};
use crate::input::Input;
use crate::log::Log;
use crate::provider::{
    CopyTarget, Drawable, Line, LineView, Provider, Response, ResponseView,
};
use crate::viewport;

verus! {

/// A directory listing or the diagnostic log.
pub enum Pane {
    Directory(Directory),
    Log(Log),
}

/// The mathematical value of a [`Pane`].
pub enum PaneView {
    Directory(DirectoryView),
    Log(Seq<Seq<char>>),
}

impl View for Pane {
    type V = PaneView;

    open spec fn view(&self) -> PaneView {
        match self {
            Pane::Directory(directory) => PaneView::Directory(directory@),
            Pane::Log(log) => PaneView::Log(log@),
        }
    }
}

impl Drawable for Pane {
    open spec fn inv(&self) -> bool {
        match self {
            Pane::Directory(directory) => directory.inv(),
            Pane::Log(log) => log.inv(),
        }
    }

    open spec fn lines(model: PaneView) -> nat {
        match model {
            PaneView::Directory(directory) => Directory::lines(directory),
            PaneView::Log(log) => Log::lines(log),
        }
    }

    open spec fn drawn(model: PaneView, view: viewport::View) -> Seq<LineView> {
        match model {
            PaneView::Directory(directory) => Directory::drawn(directory, view),
            PaneView::Log(log) => Log::drawn(log, view),
        }
    }

    fn draw(&self, view: &viewport::View) -> (rows: Vec<Line>) {
        match self {
            Pane::Directory(directory) => directory.draw(view),
            Pane::Log(log) => log.draw(view),
        }
    }
}

impl CopyTarget for Pane {
    open spec fn copy_target(model: PaneView) -> Option<Seq<Seq<char>>> {
        match model {
            PaneView::Directory(directory) => Directory::copy_target(directory),
            PaneView::Log(log) => Log::copy_target(log),
        }
    }

    fn copy_to(&self, path: &Vec<String>, entries: &Vec<FsEntry>) -> (job: Option<CopyJob>) {
        match self {
            Pane::Directory(directory) => directory.copy_to(path, entries),
            Pane::Log(log) => log.copy_to(path, entries),
        }
    }
}

impl Provider for Pane {
    open spec fn on_input(
        model: PaneView,
        input: Input,
        view: viewport::View,
        target: Option<Seq<Seq<char>>>,
    ) -> (PaneView, viewport::View, ResponseView) {
        match model {
            PaneView::Directory(directory) => {
                let (next, moved, response) = Directory::on_input(directory, input, view, target);
                (PaneView::Directory(next), moved, response)
            },
            PaneView::Log(log) => {
                let (next, moved, response) = Log::on_input(log, input, view, target);
                (PaneView::Log(next), moved, response)
            },
        }
    }

    open spec fn on_scroll(model: PaneView, view: viewport::View) -> PaneView {
        match model {
            PaneView::Directory(directory) => PaneView::Directory(
                Directory::on_scroll(directory, view),
            ),
            PaneView::Log(log) => PaneView::Log(Log::on_scroll(log, view)),
        }
    }

    open spec fn place(model: PaneView) -> Option<Seq<Seq<char>>> {
        match model {
            PaneView::Directory(directory) => Directory::place(directory),
            PaneView::Log(log) => Log::place(log),
        }
    }

    open spec fn on_listing(
        before: PaneView,
        listing: Seq<EntryView>,
        view: viewport::View,
        after: PaneView,
        view_after: viewport::View,
    ) -> bool {
        match (before, after) {
            (PaneView::Directory(before), PaneView::Directory(after)) => Directory::on_listing(
                before,
                listing,
                view,
                after,
                view_after,
            ),
            (PaneView::Log(before), PaneView::Log(after)) => Log::on_listing(
                before,
                listing,
                view,
                after,
                view_after,
            ),
            _ => false,
        }
    }

    open spec fn on_copied(model: PaneView, success: bool) -> PaneView {
        match model {
            PaneView::Directory(directory) => PaneView::Directory(
                Directory::on_copied(directory, success),
            ),
            PaneView::Log(log) => PaneView::Log(Log::on_copied(log, success)),
        }
    }

    open spec fn on_record(model: PaneView, line: Seq<char>) -> PaneView {
        match model {
            PaneView::Directory(directory) => PaneView::Directory(
                Directory::on_record(directory, line),
            ),
            PaneView::Log(log) => PaneView::Log(Log::on_record(log, line)),
        }
    }

    fn lines_count(&self) -> (count: u32) {
        match self {
            Pane::Directory(directory) => directory.lines_count(),
            Pane::Log(log) => log.lines_count(),
        }
    }

    fn handle_input<O: CopyTarget>(
        &mut self,
        input: &Input,
        view: &mut viewport::View,
        other: &O,
    ) -> (response: Response) {
        match self {
            Pane::Directory(directory) => directory.handle_input(input, view, other),
            Pane::Log(log) => log.handle_input(input, view, other),
        }
    }

    fn handle_window_scrolled(&mut self, view: &viewport::View) {
        match self {
            Pane::Directory(directory) => directory.handle_window_scrolled(view),
            Pane::Log(log) => log.handle_window_scrolled(view),
        }
    }

    fn location(&self) -> (place: Option<Vec<String>>) {
        match self {
            Pane::Directory(directory) => directory.location(),
            Pane::Log(log) => log.location(),
        }
    }

    fn refresh(&mut self, listing: Vec<FsEntry>, view: &mut viewport::View) {
        match self {
            Pane::Directory(directory) => directory.refresh(listing, view),
            Pane::Log(log) => log.refresh(listing, view),
        }
    }

    fn copy_finished(&mut self, success: bool) {
        match self {
            Pane::Directory(directory) => directory.copy_finished(success),
            Pane::Log(log) => log.copy_finished(success),
        }
    }

    fn record(&mut self, line: &str) {
        match self {
            Pane::Directory(directory) => directory.record(line),
            Pane::Log(log) => log.record(line),
        }
    }
}

} // verus!
