use vstd::prelude::*;

verus! {

/// Width of the offset pane: eight hex digits.
pub const OFFSET_PANE_WIDTH: i32 = 8;

/// Width of the hex pane: sixteen bytes of two digits, and a blank after each
/// pair but the last.
pub const HEX_PANE_WIDTH: i32 = 39;

/// Width of the canonical pane: one character per byte.
pub const CANON_PANE_WIDTH: i32 = 16;

/// Width of a separator between two panes.
pub const SEP_WIDTH: i32 = 3;

/// Columns that the three panes and their three separators take together.
pub const VIEW_WIDTH: i32 = 72;

/// A rectangle of character cells on the screen: its size, and where its top
/// left cell lies on the screen.
#[derive(Clone, Copy, Debug, PartialEq, Eq, Structural)]
pub struct Pane {
    pub lines: i32,
    pub cols: i32,
    pub beg_y: i32,
    pub beg_x: i32,
}

impl Pane {
    /// A pane has cells, lies on the screen, and its far corner can be named.
    pub open spec fn wf(self) -> bool {
        &&& self.lines >= 1
        &&& self.cols >= 1
        &&& self.beg_y >= 0
        &&& self.beg_x >= 0
        &&& self.beg_y + self.lines <= i32::MAX
        &&& self.beg_x + self.cols <= i32::MAX
    }

    /// Whether `inner` lies wholly inside this pane.
    pub open spec fn contains(self, inner: Pane) -> bool {
        &&& self.beg_y <= inner.beg_y
        &&& self.beg_x <= inner.beg_x
        &&& inner.beg_y + inner.lines <= self.beg_y + self.lines
        &&& inner.beg_x + inner.cols <= self.beg_x + self.cols
    }

    /// The rectangle of `lines` by `cols` cells whose corner lies `y` rows
    /// and `x` columns from this pane's own corner.
    pub open spec fn spec_sub(self, lines: int, cols: int, y: int, x: int) -> Pane {
        Pane {
            lines: lines as i32,
            cols: cols as i32,
            beg_y: (self.beg_y + y) as i32,
            beg_x: (self.beg_x + x) as i32,
        }
    }

    /// Cuts a rectangle out of this pane, placed relative to its corner.
    pub fn sub(&self, lines: i32, cols: i32, y: i32, x: i32) -> (inner: Pane)
        requires
            self.wf(),
            lines >= 1,
            cols >= 1,
            y >= 0,
            x >= 0,
            y + lines <= self.lines,
            x + cols <= self.cols,
        ensures
            inner == self.spec_sub(lines as int, cols as int, y as int, x as int),
            inner.wf(),
            self.contains(inner),
    {
        Pane { lines, cols, beg_y: self.beg_y + y, beg_x: self.beg_x + x }
    }
}

/// The rectangles of a hex view: three panes side by side, a separator after
/// each of them, and a status line below.
#[derive(Clone, Copy, Debug, PartialEq, Eq, Structural)]
pub struct Layout {
    pub win: Pane,
    pub offset_win: Pane,
    pub oh_sep_win: Pane,
    pub hex_win: Pane,
    pub hc_sep_win: Pane,
    pub canon_win: Pane,
    pub cs_sep_win: Pane,
    pub statusline_win: Pane,
}

/// Whether a window is large enough to hold a hex view: one row of bytes
/// above the status line, and room for every pane and separator.
pub open spec fn spec_fits(win: Pane) -> bool {
    win.wf() && win.lines >= 2 && win.cols >= VIEW_WIDTH
}

/// The layout of a hex view in `win`. From the left: offsets, separator, hex
/// pane, separator, canonical pane, separator; all of them one row shorter
/// than the window, whose last row is the status line.
pub open spec fn spec_layout(win: Pane) -> Layout {
    let rows: int = win.lines - 1;
    Layout {
        win,
        offset_win: win.spec_sub(rows, 8, 0, 0),
        oh_sep_win: win.spec_sub(rows, 3, 0, 8),
        hex_win: win.spec_sub(rows, 39, 0, 11),
        hc_sep_win: win.spec_sub(rows, 3, 0, 50),
        canon_win: win.spec_sub(rows, 16, 0, 53),
        cs_sep_win: win.spec_sub(rows, 3, 0, 69),
        statusline_win: win.spec_sub(1, win.cols as int, rows, 0),
    }
}

impl Layout {
    /// Every rectangle is a pane inside the window, and the panes that show
    /// bytes have as many rows as the window has above its status line.
    pub open spec fn wf(self) -> bool {
        &&& spec_fits(self.win)
        &&& self == spec_layout(self.win)
    }

    /// The number of 16-byte rows on display.
    pub open spec fn rows(self) -> int {
        self.win.lines - 1
    }
}

/// Tells whether a hex view can be laid out in `win`.
pub fn fits(win: &Pane) -> (ok: bool)
    ensures
        ok == spec_fits(*win),
{
    win.lines >= 2 && win.cols >= VIEW_WIDTH && win.beg_y >= 0 && win.beg_x >= 0
        && win.beg_y <= i32::MAX - win.lines && win.beg_x <= i32::MAX - win.cols
}

/// Lays out a hex view in `win`.
pub fn layout(win: Pane) -> (l: Layout)
    requires
        spec_fits(win),
    ensures
        l == spec_layout(win),
        l.wf(),
        win.contains(l.offset_win),
        win.contains(l.oh_sep_win),
        win.contains(l.hex_win),
        win.contains(l.hc_sep_win),
        win.contains(l.canon_win),
        win.contains(l.cs_sep_win),
        win.contains(l.statusline_win),
{
    let rows: i32 = win.lines - 1;
    Layout {
        win,
        offset_win: win.sub(rows, OFFSET_PANE_WIDTH, 0, 0),
        oh_sep_win: win.sub(rows, SEP_WIDTH, 0, OFFSET_PANE_WIDTH),
        hex_win: win.sub(rows, HEX_PANE_WIDTH, 0, SEP_WIDTH + OFFSET_PANE_WIDTH),
        hc_sep_win: win.sub(rows, SEP_WIDTH, 0, OFFSET_PANE_WIDTH + SEP_WIDTH + HEX_PANE_WIDTH),
        canon_win: win.sub(
            rows,
            CANON_PANE_WIDTH,
            0,
            (SEP_WIDTH * 2) + OFFSET_PANE_WIDTH + HEX_PANE_WIDTH,
        ),
        cs_sep_win: win.sub(
            rows,
            SEP_WIDTH,
            0,
            OFFSET_PANE_WIDTH + (2 * SEP_WIDTH) + HEX_PANE_WIDTH + CANON_PANE_WIDTH,
        ),
        statusline_win: win.sub(1, win.cols, win.lines - 1, 0),
    }
}

} // verus!
