use crate::error::ViewError;
use crate::layout::{spec_fits, spec_layout, Layout, Pane};
use crate::options::Config;
use crate::render::{
    canon_char, canon_row, canon_text, hex_col, hex_digit, hex_row, hex_text, lemma_hex_row_cells,
    offset_label, offset_text,
};
use crate::viewport::{Viewport, MAX_FILE_LEN};
use vstd::prelude::*;
use vstd::string::*;

verus! {

/// The four ways a cursor or a window can move.
#[derive(Clone, Copy, Debug, PartialEq, Eq, Structural)]
pub enum Direction {
    Up,
    Down,
    Left,
    Right,
}

/// The two panes that the cursor can be shown in.
#[derive(Clone, Copy, Debug, PartialEq, Eq, Structural)]
pub enum HexPane {
    Hex,
    Canon,
}

/// What a hex view holds, as mathematical values.
pub struct HexViewState {
    /// Window and cursor.
    pub port: Viewport,
    /// The pane that the cursor is shown in.
    pub pane: HexPane,
    /// The bytes on display, row after row from the start of the window.
    pub buffer: Seq<u8>,
    /// The text of the status line.
    pub status: Seq<char>,
    /// The rectangles of the panes.
    pub layout: Layout,
}

impl HexViewState {
    /// The panes are laid out in a window that holds them, window and cursor
    /// are sound, the window starts at an offset that a file can have, and
    /// the buffer holds no more than the window shows.
    pub open spec fn wf(self) -> bool {
        &&& self.layout.wf()
        &&& self.port.wf()
        &&& self.port.rows == self.layout.rows()
        &&& self.port.offset <= MAX_FILE_LEN
        &&& self.buffer.len() <= 16 * self.port.rows
    }
}

/// The text of a view's status line: the file's name in square brackets,
/// followed by `[ro]` where the file cannot be written.
pub open spec fn spec_status(name: Seq<char>, ro: bool) -> Seq<char> {
    "["@ + name + "]"@ + if ro {
        "[ro]"@
    } else {
        Seq::<char>::empty()
    }
}

/// A run of cells in one row of a pane.
#[derive(Clone, Copy, Debug, PartialEq, Eq, Structural)]
pub struct Span {
    pub y: i32,
    pub x: i32,
    pub len: i32,
}

/// One byte to be written to the file, and where.
#[derive(Clone, Copy, Debug, PartialEq, Eq, Structural)]
pub struct ByteWrite {
    pub offset: u64,
    pub byte: u8,
}

/// The text of a view, ready to be painted: the status line, one line for
/// each row of each pane, and in the hex and the canonical pane the cells
/// that the cursor is on.
pub struct Frame {
    pub status: String,
    pub offsets: Vec<Vec<u8>>,
    pub hex: Vec<Vec<u8>>,
    pub canon: Vec<Vec<u8>>,
    pub hex_mark: Span,
    pub canon_mark: Span,
}

impl HexViewState {
    /// The cells of the hex pane that show the byte under the cursor: both of
    /// its digits.
    pub open spec fn hex_mark(self) -> Span {
        Span { y: self.port.row as i32, x: hex_col(self.port.col) as i32, len: 2 }
    }

    /// The cell of the canonical pane that shows the byte under the cursor.
    pub open spec fn canon_mark(self) -> Span {
        Span { y: self.port.row as i32, x: self.port.col as i32, len: 1 }
    }

    /// Where on the screen the cursor stands: on the byte's first digit in
    /// the hex pane, or on its character in the canonical pane, whichever
    /// pane is active. Row first, then column.
    pub open spec fn cursor_yx(self) -> (int, int) {
        match self.pane {
            HexPane::Hex => (
                self.layout.hex_win.beg_y + self.port.row,
                self.layout.hex_win.beg_x + hex_col(self.port.col),
            ),
            HexPane::Canon => (
                self.layout.canon_win.beg_y + self.port.row,
                self.layout.canon_win.beg_x + self.port.col,
            ),
        }
    }

    /// Whether `frame` is the text of this view: the status line; for each
    /// row its offset in the file, its bytes in hex and its bytes as
    /// characters; and the cells under the cursor.
    pub open spec fn shown_by(self, frame: Frame) -> bool {
        &&& frame.status@ == self.status
        &&& frame.offsets@.len() == self.port.rows
        &&& frame.hex@.len() == self.port.rows
        &&& frame.canon@.len() == self.port.rows
        &&& forall|i: int|
            0 <= i < self.port.rows ==> (#[trigger] frame.offsets@[i])@ == offset_label(
                (self.port.offset + 16 * i) as nat,
            )
        &&& forall|i: int|
            0 <= i < self.port.rows ==> (#[trigger] frame.hex@[i])@ == hex_row(self.buffer, i)
        &&& forall|i: int|
            0 <= i < self.port.rows ==> (#[trigger] frame.canon@[i])@ == canon_row(self.buffer, i)
        &&& frame.hex_mark == self.hex_mark()
        &&& frame.canon_mark == self.canon_mark()
    }

    /// The view laid out anew in a window `win`: the cursor keeps its cell
    /// or, where the window has lost that row, moves up to the last row;
    /// the buffer keeps what the window still shows.
    pub open spec fn resized(self, win: Pane) -> HexViewState {
        let rows: int = win.lines - 1;
        HexViewState {
            port: Viewport {
                rows,
                row: if self.port.row < rows {
                    self.port.row
                } else {
                    rows - 1
                },
                ..self.port
            },
            buffer: if self.buffer.len() <= 16 * rows {
                self.buffer
            } else {
                self.buffer.take(16 * rows)
            },
            layout: spec_layout(win),
            ..self
        }
    }

    /// The bytes that a read of `data` puts on display: as many of them as
    /// the window shows.
    pub open spec fn loaded(self, data: Seq<u8>) -> Seq<u8> {
        if data.len() <= 16 * self.port.rows {
            data
        } else {
            data.take(16 * self.port.rows)
        }
    }
}

/// The number of steps that a move by `count` makes: none for a count below
/// one.
pub open spec fn spec_steps(count: i32) -> nat {
    if count > 0 {
        count as nat
    } else {
        0
    }
}

/// The hex view: a window of 16-byte rows onto a file, with a cursor.
pub struct HexView {
    layout: Layout,
    status: String,
    active_pane: HexPane,
    position_y: i32,
    position_x: i32,
    seek: u64,
    buffer: Vec<u8>,
}

impl View for HexView {
    type V = HexViewState;

    closed spec fn view(&self) -> HexViewState {
        HexViewState {
            port: Viewport {
                rows: self.layout.rows(),
                offset: self.seek as int,
                row: self.position_y as int,
                col: self.position_x as int,
            },
            pane: self.active_pane,
            buffer: self.buffer@,
            status: self.status@,
            layout: self.layout,
        }
    }
}

impl HexView {
    /// The invariant of a view; see [`HexViewState::wf`].
    pub open spec fn wf(&self) -> bool {
        self@.wf()
    }

    /// Returns a new view laid out in `win`: at the start of the file, the
    /// cursor on the first cell and shown in the hex pane, nothing read yet.
    pub fn new(win: Pane, config: &Config) -> (view: Self)
        requires
            spec_fits(win),
        ensures
            view.wf(),
            view@ == (HexViewState {
                port: Viewport { rows: win.lines - 1, offset: 0, row: 0, col: 0 },
                pane: HexPane::Hex,
                buffer: Seq::<u8>::empty(),
                status: spec_status(config.infile_name@, config.ro),
                layout: spec_layout(win),
            }),
    {
        let mut status = String::from_str("[");
        status.append(config.infile_name.as_str());
        status.append("]");
        if config.ro {
            status.append("[ro]");
        }
        HexView {
            layout: crate::layout::layout(win),
            status,
            active_pane: HexPane::Hex,
            position_y: 0,
            position_x: 0,
            seek: 0,
            buffer: Vec::new(),
        }
    }

    /// Lays the view out anew in a window `win`, after the terminal has
    /// changed its size. The cursor stays on its cell, or moves up to the
    /// last row that is left; bytes that are no longer shown are dropped.
    pub fn resize(&mut self, win: Pane)
        requires
            old(self).wf(),
            spec_fits(win),
        ensures
            final(self).wf(),
            final(self)@ == old(self)@.resized(win),
    {
        self.layout = crate::layout::layout(win);
        let rows: i32 = win.lines - 1;
        if self.position_y >= rows {
            self.position_y = rows - 1;
        }
        let bytes_to_show: u64 = rows as u64 * 16;
        if self.buffer.len() as u64 > bytes_to_show {
            self.buffer.truncate(bytes_to_show as usize);
        }
    }

    /// Returns the rectangles of the view's panes.
    pub fn layout(&self) -> (l: Layout)
        ensures
            l == self@.layout,
    {
        self.layout
    }

    /// Returns the offset in the file at which the window starts.
    pub fn get_seek(&self) -> (offset: u64)
        ensures
            offset == self@.port.offset,
    {
        self.seek
    }

    /// Returns the grid position of the cursor: its row, then its column.
    pub fn get_pos_yx(&self) -> (pos: (i32, i32))
        ensures
            pos.0 == self@.port.row,
            pos.1 == self@.port.col,
    {
        (self.position_y, self.position_x)
    }

    /// Returns the file offset of the byte under the cursor.
    pub fn resolve_offset(&self) -> (offset: u64)
        requires
            self.wf(),
        ensures
            offset == self@.port.resolve_offset(),
    {
        self.seek + (self.position_y as u64 * 16) + (self.position_x as u64)
    }

    /// Jumps to a byte of the file: the window moves to the row that holds
    /// the byte, and the cursor onto the byte. A negative `offset` counts
    /// back from the end of the file. The buffer is left as it was: it is
    /// to be read again at the new offset, which is returned.
    ///
    /// Fails, moving nothing, where the byte lies before the start of the
    /// file or beyond its end. The end itself can be sought.
    pub fn seek(&mut self, offset: i64, file_len: u64) -> (r: Result<u64, ViewError>)
        requires
            old(self).wf(),
            file_len <= MAX_FILE_LEN,
        ensures
            final(self).wf(),
            match old(self)@.port.seek(offset as int, file_len as int) {
                Some(port) => {
                    &&& r == Ok::<u64, ViewError>(port.offset as u64)
                    &&& final(self)@ == (HexViewState { port, ..old(self)@ })
                },
                None => {
                    &&& r == Err::<u64, ViewError>(ViewError::OutOfRange)
                    &&& final(self)@ == old(self)@
                },
            },
    {
        let mut real_offset: u64 = 0;
        if offset < 0 {
            // Jump from the end.
            let back: u64 = (-(offset + 1)) as u64 + 1;
            if back > file_len {
                return Err(ViewError::OutOfRange);
            }
            real_offset = file_len - back;
        } else {
            real_offset = offset as u64;
        }
        if real_offset > file_len {
            return Err(ViewError::OutOfRange);
        }
        let remainder: u64 = real_offset % 16;
        real_offset = real_offset - remainder;

        // Jump to the real offset and update the cursor position.
        match self.jump_to(real_offset, file_len) {
            Err(e) => Err(e),
            Ok(at) => {
                self.position_y = 0;
                self.position_x = remainder as i32;
                Ok(at)
            },
        }
    }

    /// Scrolls down or up by `count` rows and returns the new offset of the
    /// window. The cursor keeps its cell, which then names another byte;
    /// the buffer is left as it was, to be read again.
    ///
    /// Fails, moving nothing, where the window would start before the start
    /// of the file or beyond its end, and for a direction sideways.
    pub fn scroll(&mut self, direction: Direction, count: u32, file_len: u64) -> (r: Result<u64, ViewError>)
        requires
            old(self).wf(),
            file_len <= MAX_FILE_LEN,
        ensures
            final(self).wf(),
            match old(self)@.port.scroll(direction, count as int, file_len as int) {
                Ok(port) => {
                    &&& r == Ok::<u64, ViewError>(port.offset as u64)
                    &&& final(self)@ == (HexViewState { port, ..old(self)@ })
                },
                Err(e) => {
                    &&& r == Err::<u64, ViewError>(e)
                    &&& final(self)@ == old(self)@
                },
            },
    {
        let cur_seek: u64 = self.seek;

        // Scrolling - jumping 16 bytes up or down.
        let real_count: u64 = count as u64 * 16;

        match direction {
            Direction::Down => self.jump_to(cur_seek + real_count, file_len),
            Direction::Up => {
                if cur_seek < real_count {
                    Err(ViewError::OutOfRange)
                } else {
                    self.jump_to(cur_seek - real_count, file_len)
                }
            },
            Direction::Left => Err(ViewError::InvalidDirection),
            Direction::Right => Err(ViewError::InvalidDirection),
        }
    }

    /// Moves the window to `offset`, a row boundary, unless that lies beyond
    /// the end of the file.
    fn jump_to(&mut self, offset: u64, file_len: u64) -> (r: Result<u64, ViewError>)
        requires
            old(self).wf(),
            file_len <= MAX_FILE_LEN,
            offset % 16 == 0,
        ensures
            final(self).wf(),
            offset <= file_len ==> {
                &&& r == Ok::<u64, ViewError>(offset)
                &&& final(self)@.port == (Viewport { offset: offset as int, ..old(self)@.port })
                &&& final(self)@ == (HexViewState { port: final(self)@.port, ..old(self)@ })
            },
            offset > file_len ==> {
                &&& r == Err::<u64, ViewError>(ViewError::OutOfRange)
                &&& final(self)@ == old(self)@
            },
    {
        if offset > file_len {
            return Err(ViewError::OutOfRange);
        }
        self.seek = offset;
        Ok(offset)
    }

    /// Moves the cursor by one cell and returns the offset of the window,
    /// which scrolls by one row where the cursor would leave it.
    ///
    /// Fails, moving nothing, where that scroll fails.
    pub fn move_cursor_once(&mut self, direction: &Direction, file_len: u64) -> (r: Result<u64, ViewError>)
        requires
            old(self).wf(),
            file_len <= MAX_FILE_LEN,
        ensures
            final(self).wf(),
            match old(self)@.port.step(*direction, file_len as int) {
                Ok(port) => {
                    &&& r == Ok::<u64, ViewError>(port.offset as u64)
                    &&& final(self)@ == (HexViewState { port, ..old(self)@ })
                },
                Err(e) => {
                    &&& r == Err::<u64, ViewError>(e)
                    &&& final(self)@ == old(self)@
                },
            },
    {
        let seek: u64 = self.seek;
        let last_row: i32 = self.layout.hex_win.lines - 1;

        // Match the directions and determine if the view needs to be scrolled based on the new
        // cursor position.
        match direction {
            Direction::Up => {
                if self.position_y == 0 {
                    self.scroll(Direction::Up, 1, file_len)
                } else {
                    self.position_y -= 1;
                    Ok(seek)
                }
            },
            Direction::Down => {
                if self.position_y == last_row {
                    self.scroll(Direction::Down, 1, file_len)
                } else {
                    self.position_y += 1;
                    Ok(seek)
                }
            },
            Direction::Left => {
                if self.position_x == 0 {
                    if self.position_y == 0 {
                        match self.scroll(Direction::Up, 1, file_len) {
                            Err(e) => Err(e),
                            Ok(o) => {
                                self.position_x = 16 - 1;
                                Ok(o)
                            },
                        }
                    } else {
                        self.position_x = 16 - 1;
                        self.position_y -= 1;
                        Ok(seek)
                    }
                } else {
                    self.position_x -= 1;
                    Ok(seek)
                }
            },
            Direction::Right => {
                if self.position_x == 16 - 1 {
                    if self.position_y == last_row {
                        match self.scroll(Direction::Down, 1, file_len) {
                            Err(e) => Err(e),
                            Ok(o) => {
                                self.position_x = 0;
                                Ok(o)
                            },
                        }
                    } else {
                        self.position_x = 0;
                        self.position_y += 1;
                        Ok(seek)
                    }
                } else {
                    self.position_x += 1;
                    Ok(seek)
                }
            },
        }
    }

    /// Moves the cursor by `count` cells, one step after the other, and
    /// stops at the first step that fails: the steps made before it stand.
    /// A `count` below one moves nothing.
    pub fn move_cursor(&mut self, direction: Direction, count: i32, file_len: u64) -> (r: Result<u64, ViewError>)
        requires
            old(self).wf(),
            file_len <= MAX_FILE_LEN,
        ensures
            final(self).wf(),
            final(self)@ == (HexViewState {
                port: old(self)@.port.walk(direction, spec_steps(count), file_len as int).0,
                ..old(self)@
            }),
            r == match old(self)@.port.walk(direction, spec_steps(count), file_len as int).1 {
                None => Ok::<u64, ViewError>(0),
                Some(e) => Err::<u64, ViewError>(e),
            },
    {
        let ghost start = self@;
        let mut done: i32 = 0;
        while done < count
            invariant
                0 <= done,
                done <= spec_steps(count),
                self.wf(),
                file_len <= MAX_FILE_LEN,
                start == old(self)@,
                self@ == (HexViewState { port: self@.port, ..start }),
                start.port.walk(direction, spec_steps(count), file_len as int)
                    == self@.port.walk(direction, (spec_steps(count) - done) as nat, file_len as int),
            decreases count - done,
        {
            match self.move_cursor_once(&direction, file_len) {
                Err(e) => {
                    return Err(e);
                },
                Ok(_) => {},
            }
            done += 1;
        }
        Ok(0)
    }

    /// Puts on display what was read from the file at the window's offset:
    /// the first bytes of `data`, as many as the window shows. Fewer bytes
    /// than that, near the end of the file, leave the last cells blank.
    pub fn read_buf(&mut self, data: Vec<u8>)
        requires
            old(self).wf(),
        ensures
            final(self).wf(),
            final(self)@ == (HexViewState {
                buffer: old(self)@.loaded(data@),
                ..old(self)@
            }),
    {
        let bytes_to_read: u64 = self.window_len();
        let mut data = data;
        if data.len() as u64 > bytes_to_read {
            data.truncate(bytes_to_read as usize);
        }
        self.buffer = data;
    }

    /// Returns the text of the view, for the caller to paint.
    pub fn draw(&self) -> (frame: Frame)
        requires
            self.wf(),
        ensures
            self@.shown_by(frame),
    {
        // Get the the number of lines and the current offset.
        let nlines: u32 = self.layout.offset_win.lines as u32;
        let seek: u64 = self.seek;

        let mut offsets: Vec<Vec<u8>> = Vec::new();
        let mut hex: Vec<Vec<u8>> = Vec::new();
        let mut canon: Vec<Vec<u8>> = Vec::new();
        let mut row: u32 = 0;
        while row < nlines
            invariant
                self.wf(),
                nlines == self@.port.rows,
                seek == self@.port.offset,
                row <= nlines,
                offsets@.len() == row,
                hex@.len() == row,
                canon@.len() == row,
                forall|i: int|
                    0 <= i < row ==> (#[trigger] offsets@[i])@ == offset_label(
                        (seek + 16 * i) as nat,
                    ),
                forall|i: int| 0 <= i < row ==> (#[trigger] hex@[i])@ == hex_row(self@.buffer, i),
                forall|i: int|
                    0 <= i < row ==> (#[trigger] canon@[i])@ == canon_row(self@.buffer, i),
            decreases nlines - row,
        {
            offsets.push(offset_text(seek + (row as u64 * 16)));
            hex.push(hex_text(&self.buffer, row));
            canon.push(canon_text(&self.buffer, row));
            row += 1;
        }
        let (y, x) = (self.position_y, self.position_x);
        let (hex_y, hex_x) = self.hex_pos_to_cur(y, x);
        Frame {
            status: self.status.clone(),
            offsets,
            hex,
            canon,
            hex_mark: Span { y: hex_y, x: hex_x, len: 2 },
            canon_mark: Span { y, x, len: 1 },
        }
    }

    /// Returns the position on the screen of the cursor, in the active pane.
    pub fn get_cur_yx(&self) -> (pos: (i32, i32))
        requires
            self.wf(),
        ensures
            pos.0 == self@.cursor_yx().0,
            pos.1 == self@.cursor_yx().1,
    {
        match self.active_pane {
            HexPane::Hex => {
                let (y, x) = self.hex_pos_to_cur(self.position_y, self.position_x);
                (self.layout.hex_win.beg_y + y, self.layout.hex_win.beg_x + x)
            },
            HexPane::Canon => {
                (
                    self.position_y + self.layout.canon_win.beg_y,
                    self.position_x + self.layout.canon_win.beg_x,
                )
            },
        }
    }

    /// Switches the active pane. The cursor stays on its byte.
    pub fn switch_pane(&mut self)
        ensures
            final(self)@ == (HexViewState {
                pane: match old(self)@.pane {
                    HexPane::Hex => HexPane::Canon,
                    HexPane::Canon => HexPane::Hex,
                },
                ..old(self)@
            }),
    {
        match self.active_pane {
            HexPane::Hex => {
                self.active_pane = HexPane::Canon;
            },
            HexPane::Canon => {
                self.active_pane = HexPane::Hex;
            },
        }
    }

    /// Returns the position in the hex pane of the byte at a grid position:
    /// the same row, and the column of the byte's first digit, with one
    /// blank between pairs of bytes.
    pub fn hex_pos_to_cur(&self, y: i32, x: i32) -> (pos: (i32, i32))
        requires
            0 <= x,
            hex_col(x as int) <= i32::MAX,
        ensures
            pos.0 == y,
            pos.1 == hex_col(x as int),
    {
        let ret_y: i32 = y;
        // Count the character position in the hex view, with one space between byte pairs.
        let ret_x: i32 = (x * 2) + (x / 2);

        (ret_y, ret_x)
    }

    /// Returns the write that puts `byte` at `offset` of the file.
    pub fn write_byte_at_offset(&self, byte: u8, offset: u64) -> (write: ByteWrite)
        ensures
            write == (ByteWrite { offset, byte }),
    {
        ByteWrite { offset, byte }
    }

    /// Returns the write that puts `byte` on the cell at a grid position.
    pub fn write_byte_at_position(&self, byte: u8, pos_y: i32, pos_x: i32) -> (write: ByteWrite)
        requires
            self.wf(),
            0 <= pos_y,
            0 <= pos_x,
        ensures
            write.byte == byte,
            write.offset == self@.port.offset_at(pos_y as int, pos_x as int),
    {
        // The offset of the byte on that cell.
        let byte_offset: u64 = self.seek + (pos_y as u64 * 16) + (pos_x as u64);

        self.write_byte_at_offset(byte, byte_offset)
    }

    /// Returns the write that puts `byte` under the cursor.
    pub fn write_byte_at_cursor(&self, byte: u8) -> (write: ByteWrite)
        requires
            self.wf(),
        ensures
            write.byte == byte,
            write.offset == self@.port.resolve_offset(),
    {
        let (y, x) = self.get_pos_yx();
        self.write_byte_at_position(byte, y, x)
    }

    /// Returns the number of bytes that fill the window.
    pub fn window_len(&self) -> (len: u64)
        requires
            self.wf(),
        ensures
            len == 16 * self@.port.rows,
    {
        let rows: i32 = self.layout.hex_win.lines;
        rows as u64 * 16
    }
}

/// The bytes of `file` that a window of `rows` rows at `offset` has to show:
/// those from `offset` on, to the end of the window or of the file.
pub open spec fn spec_window(file: Seq<u8>, offset: int, rows: int) -> Seq<u8> {
    if offset >= file.len() {
        Seq::<u8>::empty()
    } else if offset + 16 * rows >= file.len() {
        file.skip(offset)
    } else {
        file.subrange(offset, offset + 16 * rows)
    }
}

/// The content of a file after `write`, which overwrites one of its bytes.
pub open spec fn spec_written(file: Seq<u8>, write: ByteWrite) -> Seq<u8> {
    file.update(write.offset as int, write.byte)
}

/// A view that reads its window from a file shows, on each cell that the
/// file has a byte for, that byte of the file.
pub proof fn lemma_window_shows_file(view: HexViewState, file: Seq<u8>, row: int, col: int)
    requires
        view.wf(),
        0 <= row < view.port.rows,
        0 <= col < 16,
    ensures
        ({
            let buffer = view.loaded(spec_window(file, view.port.offset, view.port.rows));
            let at: int = view.port.offset_at(row, col);
            &&& at < file.len() ==> 16 * row + col < buffer.len() && buffer[16 * row + col]
                == file[at]
            &&& at >= file.len() ==> 16 * row + col >= buffer.len()
        }),
{
}

/// After a seek to -1 in a file that is not empty, a view that reads its
/// window from the file shows the last byte of the file under the cursor.
pub proof fn lemma_last_byte_is_shown(view: HexViewState, file: Seq<u8>)
    requires
        view.wf(),
        1 <= file.len() <= MAX_FILE_LEN,
    ensures
        view.port.seek(-1, file.len() as int) is Some,
        ({
            let port = view.port.seek(-1, file.len() as int)->0;
            let sought = HexViewState { port, ..view };
            let buffer = sought.loaded(spec_window(file, port.offset, port.rows));
            &&& sought.wf()
            &&& port.row == 0
            &&& port.col < buffer.len()
            &&& buffer[port.col] == file[file.len() - 1]
        }),
{
    let port = view.port.seek(-1, file.len() as int)->0;
    let sought = HexViewState { port, ..view };
    lemma_window_shows_file(sought, file, 0, port.col);
}

/// Writing a byte under the cursor and reading the window again puts that
/// byte on display under the cursor, as its two digits in the hex pane and
/// as its character in the canonical pane. The write changes no other byte
/// of the file.
pub proof fn lemma_written_byte_is_shown(view: HexViewState, file: Seq<u8>, byte: u8)
    requires
        view.wf(),
        view.port.resolve_offset() < file.len(),
    ensures
        ({
            let at: int = view.port.resolve_offset();
            let after = spec_written(file, ByteWrite { offset: at as u64, byte });
            let buffer = view.loaded(spec_window(after, view.port.offset, view.port.rows));
            &&& after.len() == file.len()
            &&& after[at] == byte
            &&& forall|i: int| 0 <= i < file.len() && i != at ==> after[i] == file[i]
            &&& 16 * view.port.row + view.port.col < buffer.len()
            &&& buffer[16 * view.port.row + view.port.col] == byte
            &&& hex_row(buffer, view.port.row)[hex_col(view.port.col)] == hex_digit(byte as int / 16)
            &&& hex_row(buffer, view.port.row)[hex_col(view.port.col) + 1] == hex_digit(
                byte as int % 16,
            )
            &&& canon_row(buffer, view.port.row)[view.port.col] == canon_char(byte)
        }),
{
    let at: int = view.port.resolve_offset();
    let after = spec_written(file, ByteWrite { offset: at as u64, byte });
    let buffer = view.loaded(spec_window(after, view.port.offset, view.port.rows));
    lemma_window_shows_file(view, after, view.port.row, view.port.col);
    lemma_hex_row_cells(buffer, view.port.row, view.port.col);
}

} // verus!
