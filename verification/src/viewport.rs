//! The scroll window through which a pane is shown.
use vstd::prelude::*;

verus! {

/// A scroll window: the content row shown at the top, and how many columns
/// and rows fit on the screen.
#[derive(Clone, Copy, Debug, PartialEq, Eq, Structural)]
pub struct View {
    pub first_line_offset: u32,
    pub width: u32,
    pub height: u32,
}

impl View {
    /// A window has room for at least one row of at least one column.
    pub open spec fn wf(self) -> bool {
        self.width > 0 && self.height > 0
    }

    /// The top row exists in a content of `lines` rows; over an empty content
    /// the window stands at row 0.
    pub open spec fn valid_for(self, lines: nat) -> bool {
        self.first_line_offset == 0 || self.first_line_offset < lines
    }

    /// The same window with its top at `offset`.
    pub open spec fn at(self, offset: u32) -> View {
        View { first_line_offset: offset, width: self.width, height: self.height }
    }

    /// Row `row` of the content is inside the window.
    pub open spec fn shows(self, row: int) -> bool {
        self.first_line_offset <= row < self.first_line_offset + self.height
    }

    /// The first row that the window shows of a content of `count` rows,
    /// which is not empty: the top row of the window, or the last row of the
    /// content where the window starts behind it.
    pub open spec fn first_shown(self, count: nat) -> int {
        if self.first_line_offset < count {
            self.first_line_offset as int
        } else {
            count - 1
        }
    }

    /// The row behind the last that the window shows of a content of `count`
    /// rows.
    pub open spec fn end_shown(self, count: nat) -> int {
        if self.first_line_offset + self.height < count {
            self.first_line_offset + self.height
        } else {
            count as int
        }
    }

    /// The window one page further up, stopping at the first row.
    pub open spec fn paged_up(self) -> View {
        if self.first_line_offset >= self.height {
            self.at((self.first_line_offset - self.height) as u32)
        } else {
            self.at(0)
        }
    }

    /// The window one page further down over a content of `lines` rows,
    /// stopping with the last row at the top.
    pub open spec fn paged_down(self, lines: u32) -> View {
        if self.first_line_offset + self.height < lines {
            self.at((self.first_line_offset + self.height) as u32)
        } else {
            self.at((lines - 1) as u32)
        }
    }

    /// The window pulled back onto a content of `lines` rows.
    pub open spec fn clamped(self, lines: u32) -> View {
        if self.first_line_offset == 0 || self.first_line_offset < lines {
            self
        } else if lines == 0 {
            self.at(0)
        } else {
            self.at((lines - 1) as u32)
        }
    }

    /// The window moved just far enough to show row `row`: up so that the row
    /// is its first, or down so that the row is its last.
    pub open spec fn following(self, row: u32) -> View {
        if row < self.first_line_offset {
            self.at(row)
        } else if row >= self.first_line_offset + self.height {
            self.at((row - self.height + 1) as u32)
        } else {
            self
        }
    }

    /// A window of `width` columns and `height` rows at the top of its content.
    pub fn new(width: u32, height: u32) -> (view: View)
        requires
            width > 0,
            height > 0,
        ensures
            view == (View { first_line_offset: 0, width, height }),
    {
        View { first_line_offset: 0, width, height }
    }

    /// The content row at the top of the window.
    pub fn first_line_offset(&self) -> (offset: u32)
        ensures
            offset == self.first_line_offset,
    {
        self.first_line_offset
    }

    /// Puts the content row `value` at the top of the window.
    pub fn set_first_line_offset(&mut self, value: u32)
        ensures
            *final(self) == old(self).at(value),
    {
        self.first_line_offset = value;
    }

    /// The number of columns.
    pub fn width(&self) -> (width: u32)
        ensures
            width == self.width,
    {
        self.width
    }

    /// The number of rows.
    pub fn height(&self) -> (height: u32)
        ensures
            height == self.height,
    {
        self.height
    }

    /// The rows that the window shows of a content of `count` rows, which is
    /// not empty: the first of them, and the one behind the last.
    pub fn shown_rows(&self, count: usize) -> (rows: (usize, usize))
        requires
            self.wf(),
            count > 0,
        ensures
            rows.0 == self.first_shown(count as nat),
            rows.1 == self.end_shown(count as nat),
            rows.0 < rows.1 <= count,
            rows.1 - rows.0 <= self.height,
    {
        let offset = self.first_line_offset as usize;
        let height = self.height as usize;
        let from: usize = if offset < count {
            offset
        } else {
            count - 1
        };
        let to: usize = if height <= count && offset < count - height {
            offset + height
        } else {
            count
        };
        (from, to)
    }

    /// Scrolls one page up.
    pub fn page_up(&mut self)
        ensures
            *final(self) == old(self).paged_up(),
    {
        if self.first_line_offset >= self.height {
            self.first_line_offset = self.first_line_offset - self.height;
        } else {
            self.first_line_offset = 0;
        }
    }

    /// Scrolls one page down over a content of `lines` rows.
    pub fn page_down(&mut self, lines: u32)
        requires
            lines > 0,
        ensures
            *final(self) == old(self).paged_down(lines),
    {
        if self.height < lines && self.first_line_offset < lines - self.height {
            self.first_line_offset = self.first_line_offset + self.height;
        } else {
            self.first_line_offset = lines - 1;
        }
    }

    /// Pulls the window back onto a content of `lines` rows.
    pub fn clamp(&mut self, lines: u32)
        ensures
            *final(self) == old(self).clamped(lines),
            final(self).valid_for(lines as nat),
    {
        if self.first_line_offset != 0 && self.first_line_offset >= lines {
            self.first_line_offset = if lines == 0 { 0 } else { lines - 1 };
        }
    }

    /// Moves the window just far enough to show row `row`.
    pub fn follow(&mut self, row: u32)
        requires
            old(self).height > 0,
        ensures
            *final(self) == old(self).following(row),
            final(self).shows(row as int),
    {
        if row < self.first_line_offset {
            self.first_line_offset = row;
        } else if row - self.first_line_offset >= self.height {
            self.first_line_offset = row - self.height + 1;
        }
    }
}

/// Paging keeps the top row inside the content.
pub proof fn lemma_paging_stays_valid(view: View, lines: u32)
    requires
        lines > 0,
        view.valid_for(lines as nat),
    ensures
        view.paged_up().valid_for(lines as nat),
        view.paged_down(lines).valid_for(lines as nat),
        view.paged_up().first_line_offset <= view.first_line_offset,
        view.paged_down(lines).first_line_offset >= view.first_line_offset,
{
}

} // verus!
