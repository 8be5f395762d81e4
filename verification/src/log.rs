//! The diagnostic lines of the program, and the pane that shows them.
use vstd::prelude::*;
use crate::copy::CopyJob;
use crate::entry::{EntryView, FsEntry};
use crate::input::Input;
use crate::provider::{
    CopyTarget, Drawable, Line, LineView, Provider, Response, ResponseView,
};
use crate::viewport;

verus! {

/// How grave a diagnostic is, the gravest first.
#[derive(Clone, Copy, Debug, PartialEq, Eq, Structural)]
pub enum Level {
    Error,
    Warn,
    Info,
    Debug,
    Trace,
}

impl Level {
    /// The place of the level in the order from gravest to least grave.
    pub open spec fn spec_rank(self) -> u8 {
        match self {
            Level::Error => 1,
            Level::Warn => 2,
            Level::Info => 3,
            Level::Debug => 4,
            Level::Trace => 5,
        }
    }

    #[verifier::when_used_as_spec(spec_rank)]
    pub fn rank(self) -> (rank: u8)
        ensures
            rank == self.spec_rank(),
    {
        match self {
            Level::Error => 1,
            Level::Warn => 2,
            Level::Info => 3,
            Level::Debug => 4,
            Level::Trace => 5,
        }
    }
}

/// Decides which diagnostics are kept, and keeps them.
pub struct Logger {}

impl Logger {
    /// A logger that keeps diagnostics of every level.
    pub fn new() -> (logger: Logger)
        ensures
            forall|level: Level| logger.spec_enabled(level),
    {
        Logger {  }
    }

    /// A diagnostic is kept when it is at least as grave as a trace.
    pub open spec fn spec_enabled(&self, level: Level) -> bool {
        level.rank() <= Level::Trace.rank()
    }

    /// Whether a diagnostic of this level is kept.
    #[verifier::when_used_as_spec(spec_enabled)]
    pub fn enabled(&self, level: Level) -> (enabled: bool)
        ensures
            enabled == self.spec_enabled(level),
    {
        level.rank() <= Level::Trace.rank()
    }

    /// Puts `message` at the end of `sink` if a diagnostic of this level is
    /// kept.
    pub fn log(&self, level: Level, message: &str, sink: &mut Log)
        requires
            old(sink).inv(),
        ensures
            final(sink).inv(),
            final(sink)@ == if self.enabled(level) {
                Log::on_record(old(sink)@, message@)
            } else {
                old(sink)@
            },
    {
        if self.enabled(level) {
            sink.record(message);
        }
    }
}

/// The pane that shows the diagnostic lines, the oldest first.
pub struct Log {
    lines: Vec<String>,
}

impl View for Log {
    type V = Seq<Seq<char>>;

    closed spec fn view(&self) -> Seq<Seq<char>> {
        self.lines.deep_view()
    }
}

impl Log {
    /// A log without lines.
    pub fn new() -> (log: Log)
        ensures
            log.inv(),
            log@ == Seq::<Seq<char>>::empty(),
    {
        let log = Log { lines: Vec::new() };
        assert(log@ =~= Seq::<Seq<char>>::empty());
        log
    }
}

impl Drawable for Log {
    /// The lines can be counted.
    open spec fn inv(&self) -> bool {
        self@.len() <= u32::MAX
    }

    open spec fn lines(model: Seq<Seq<char>>) -> nat {
        model.len()
    }

    open spec fn drawn(model: Seq<Seq<char>>, view: viewport::View) -> Seq<LineView> {
        if model.len() == 0 {
            Seq::empty()
        } else {
            let from = view.first_shown(model.len());
            let to = view.end_shown(model.len());
            Seq::new(
                (to - from) as nat,
                |i: int| LineView { text: model[from + i], directory: false, selected: false },
            )
        }
    }

    fn draw(&self, view: &viewport::View) -> (rows: Vec<Line>) {
        let count = self.lines.len();
        let mut rows: Vec<Line> = Vec::new();
        if count == 0 {
            assert(rows.deep_view() =~= Seq::empty());
            return rows;
        }
        let (from, to) = view.shown_rows(count);
        let mut i: usize = from;
        while i < to
            invariant
                from <= i <= to <= self.lines.len(),
                rows.len() == i - from,
                forall|k: int|
                    0 <= k < i - from ==> (#[trigger] rows[k])@ == (LineView {
                        text: self.lines[from + k]@,
                        directory: false,
                        selected: false,
                    }),
            decreases to - i,
        {
            rows.push(Line { text: self.lines[i].clone(), directory: false, selected: false });
            i += 1;
        }
        assert(rows.deep_view() =~= Self::drawn(self@, *view));
        rows
    }
}

impl CopyTarget for Log {
    /// Nothing can be copied to the log.
    open spec fn copy_target(model: Seq<Seq<char>>) -> Option<Seq<Seq<char>>> {
        None
    }

    fn copy_to(&self, path: &Vec<String>, entries: &Vec<FsEntry>) -> (job: Option<CopyJob>) {
        None
    }
}

impl Provider for Log {
    /// The log takes no key.
    open spec fn on_input(
        model: Seq<Seq<char>>,
        input: Input,
        view: viewport::View,
        target: Option<Seq<Seq<char>>>,
    ) -> (Seq<Seq<char>>, viewport::View, ResponseView) {
        (model, view, ResponseView::Unhandled)
    }

    /// The log has no cursor to bring in line.
    open spec fn on_scroll(model: Seq<Seq<char>>, view: viewport::View) -> Seq<Seq<char>> {
        model
    }

    open spec fn place(model: Seq<Seq<char>>) -> Option<Seq<Seq<char>>> {
        None
    }

    /// A listing means nothing to the log.
    open spec fn on_listing(
        before: Seq<Seq<char>>,
        listing: Seq<EntryView>,
        view: viewport::View,
        after: Seq<Seq<char>>,
        view_after: viewport::View,
    ) -> bool {
        after == before && view_after == view
    }

    open spec fn on_copied(model: Seq<Seq<char>>, success: bool) -> Seq<Seq<char>> {
        model
    }

    /// The line goes to the end of the log. A log that holds as many lines as
    /// can be counted stays as it is.
    open spec fn on_record(model: Seq<Seq<char>>, line: Seq<char>) -> Seq<Seq<char>> {
        if model.len() < u32::MAX {
            model.push(line)
        } else {
            model
        }
    }

    fn lines_count(&self) -> (count: u32) {
        self.lines.len() as u32
    }

    fn handle_input<O: CopyTarget>(
        &mut self,
        input: &Input,
        view: &mut viewport::View,
        other: &O,
    ) -> (response: Response) {
        Response::Unhandled
    }

    fn handle_window_scrolled(&mut self, view: &viewport::View) {
    }

    fn location(&self) -> (place: Option<Vec<String>>) {
        None
    }

    fn refresh(&mut self, listing: Vec<FsEntry>, view: &mut viewport::View) {
    }

    fn copy_finished(&mut self, success: bool) {
    }

    fn record(&mut self, line: &str) {
        if self.lines.len() < u32::MAX as usize {
            let ghost before = self.lines.deep_view();
            self.lines.push(String::from_str(line));
            assert(self.lines.deep_view() =~= before.push(line@));
        }
    }
}

} // verus!
