use crate::error::ViewError;
use crate::input::{
    byte_entry, command_entry, spec_byte_entry, spec_prompted, ByteEntry, Key, PromptStep,
};
use crate::layout::{fits, spec_layout, Pane, VIEW_WIDTH};
use crate::options::{Config, ConfigView};
use crate::viewport::{Viewport, MAX_FILE_LEN};
use crate::widget::{
    spec_status, spec_steps, ByteWrite, Direction, Frame, HexPane, HexView, HexViewState,
};
use vstd::prelude::*;
use vstd::string::*;

verus! {

/// Type of view.
#[derive(Clone, Copy, Debug, PartialEq, Eq, Structural)]
pub enum ViewType {
    Hex,
}

/// Where the replacement of a byte stands after the keys pressed so far.
#[derive(Clone, Copy, Debug, PartialEq, Eq, Structural)]
pub enum ReplaceStep {
    /// Another key is to be read.
    NeedKey,
    /// The entry was cancelled; nothing is to be written.
    Cancelled,
    /// A byte was entered and is to be written under the cursor.
    Write(ByteWrite),
}

/// The replacement of the byte at `offset` of the file, from the keys
/// pressed so far: the entry of a byte, and the byte that was entered to be
/// written at `offset`.
pub open spec fn spec_replace(keys: Seq<Key>, offset: int) -> Result<ReplaceStep, ViewError> {
    match spec_byte_entry(keys) {
        Ok(ByteEntry::NeedKey) => Ok(ReplaceStep::NeedKey),
        Ok(ByteEntry::Cancelled) => Ok(ReplaceStep::Cancelled),
        Ok(ByteEntry::Byte(byte)) => Ok(ReplaceStep::Write(ByteWrite { offset: offset as u64, byte })),
        Err(e) => Err(e),
    }
}

/// What an editor holds, as mathematical values.
pub struct EditorState {
    /// The hex view.
    pub hex: HexViewState,
    /// The text of the command line.
    pub status: Seq<char>,
    /// The text that the command line gets back when replace mode ends.
    pub status_backup: Seq<char>,
    /// The whole screen.
    pub win: Pane,
    /// The command line: the last row of the screen.
    pub cmdline_win: Pane,
    /// What the command line of the program asked for.
    pub config: ConfigView,
}

/// Whether a screen is large enough for an editor: a view of at least one
/// row, its status line, and the command line.
pub open spec fn spec_editor_fits(win: Pane) -> bool {
    win.wf() && win.lines >= 3 && win.cols >= VIEW_WIDTH
}

/// Tells whether an editor can be laid out on a screen `win`.
pub fn editor_fits(win: &Pane) -> (ok: bool)
    ensures
        ok == spec_editor_fits(*win),
{
    win.lines >= 3 && fits(win)
}

/// The window of the view on a screen `win`: all of it but the last row.
pub open spec fn spec_view_win(win: Pane) -> Pane {
    win.spec_sub(win.lines - 1, win.cols as int, 0, 0)
}

/// The command line on a screen `win`: its last row.
pub open spec fn spec_cmdline_win(win: Pane) -> Pane {
    win.spec_sub(1, win.cols as int, win.lines - 1, 0)
}

/// A new editor for a screen `win`: the view fills the screen but for its
/// last row, which is the command line; it is in normal mode, at the start of
/// the file, with nothing read yet.
pub open spec fn spec_init(win: Pane, config: ConfigView) -> EditorState {
    EditorState {
        hex: HexViewState {
            port: Viewport { rows: win.lines - 2, offset: 0, row: 0, col: 0 },
            pane: HexPane::Hex,
            buffer: Seq::<u8>::empty(),
            status: spec_status(config.infile_name, config.ro),
            layout: spec_layout(spec_view_win(win)),
        },
        status: "-- NORMAL --"@,
        status_backup: Seq::<char>::empty(),
        win,
        cmdline_win: spec_cmdline_win(win),
        config,
    }
}

impl EditorState {
    /// The view is sound and fills the screen but for its last row, which is
    /// the command line.
    pub open spec fn wf(self) -> bool {
        &&& spec_editor_fits(self.win)
        &&& self.hex.wf()
        &&& self.hex.layout.win == spec_view_win(self.win)
        &&& self.cmdline_win == spec_cmdline_win(self.win)
    }

    /// The editor with `port` as the window and cursor of its view.
    pub open spec fn with_port(self, port: Viewport) -> EditorState {
        EditorState { hex: HexViewState { port, ..self.hex }, ..self }
    }

    /// The editor on a screen of another size: the view is laid out anew;
    /// see [`HexViewState::resized`].
    pub open spec fn resized(self, win: Pane) -> EditorState {
        EditorState {
            hex: self.hex.resized(spec_view_win(win)),
            win,
            cmdline_win: spec_cmdline_win(win),
            ..self
        }
    }
}

/// The text of the whole screen: that of the view, and the command line.
pub struct Screen {
    pub frame: Frame,
    pub cmdline: String,
}

/// The main editor object.
pub struct Editor {
    cur_view: ViewType,
    hex_view: HexView,
    win: Pane,
    cmdline_win: Pane,
    config: Config,
    status: String,
    status_backup: String,
}

impl View for Editor {
    type V = EditorState;

    closed spec fn view(&self) -> EditorState {
        EditorState {
            hex: self.hex_view@,
            status: self.status@,
            status_backup: self.status_backup@,
            win: self.win,
            cmdline_win: self.cmdline_win,
            config: self.config@,
        }
    }
}

impl Editor {
    /// The invariant of an editor; see [`EditorState::wf`].
    pub open spec fn wf(&self) -> bool {
        self@.wf()
    }

    /// Returns a new editor for a screen `win`: the view above, the command
    /// line on the last row, in normal mode at the start of the file.
    pub fn init(win: Pane, options: Config) -> (editor: Self)
        requires
            spec_editor_fits(win),
        ensures
            editor.wf(),
            editor@ == spec_init(win, options@),
    {
        let y: i32 = win.lines;
        let x: i32 = win.cols;
        let hex_view = HexView::new(win.sub(y - 1, x, 0, 0), &options);
        let cmdline_win = win.sub(1, x, y - 1, 0);
        Editor {
            cur_view: ViewType::Hex,
            hex_view,
            cmdline_win,
            status: String::from_str("-- NORMAL --"),
            status_backup: String::new(),
            win,
            config: options,
        }
    }

    /// Lays the editor out anew on a screen of another size. The cursor
    /// stays on its cell, or moves up to the last row that is left.
    pub fn resize(&mut self, win: Pane)
        requires
            old(self).wf(),
            spec_editor_fits(win),
        ensures
            final(self).wf(),
            final(self)@ == old(self)@.resized(win),
    {
        let y: i32 = win.lines;
        let x: i32 = win.cols;
        self.hex_view.resize(win.sub(y - 1, x, 0, 0));
        self.cmdline_win = win.sub(1, x, y - 1, 0);
        self.win = win;
    }

    /// Return the width of the entire screen.
    pub fn width(&self) -> (w: i32)
        ensures
            w == self@.win.cols,
    {
        self.win.cols
    }

    /// Return the height of the entire screen.
    pub fn height(&self) -> (h: i32)
        ensures
            h == self@.win.lines,
    {
        self.win.lines
    }

    /// Returns the configuration that the editor was started with.
    pub fn config(&self) -> (config: &Config)
        ensures
            config@ == self@.config,
    {
        &self.config
    }

    /// Returns the rectangle of the command line.
    pub fn cmdline_win(&self) -> (pane: Pane)
        ensures
            pane == self@.cmdline_win,
    {
        self.cmdline_win
    }

    /// Returns the hex view.
    pub fn hex_view(&self) -> (view: &HexView)
        ensures
            view@ == self@.hex,
    {
        &self.hex_view
    }

    /// Puts on display what was read from the file at the window's offset;
    /// see [`HexView::read_buf`].
    pub fn read_buf(&mut self, data: Vec<u8>)
        requires
            old(self).wf(),
        ensures
            final(self).wf(),
            final(self)@ == (EditorState {
                hex: HexViewState { buffer: old(self)@.hex.loaded(data@), ..old(self)@.hex },
                ..old(self)@
            }),
    {
        self.hex_view.read_buf(data);
    }

    /// Replaces the byte under the cursor: tells from the keys pressed so
    /// far whether another is to be read, whether the entry was cancelled,
    /// or which byte is to be written at which offset of the file. An entry
    /// of two keys that is not two hex digits is refused, and nothing is
    /// to be written.
    pub fn replace(&self, keys: &Vec<Key>) -> (r: Result<ReplaceStep, ViewError>)
        requires
            self.wf(),
        ensures
            r == spec_replace(keys@, self@.hex.port.resolve_offset()),
    {
        match byte_entry(keys) {
            Err(e) => Err(e),
            Ok(ByteEntry::NeedKey) => Ok(ReplaceStep::NeedKey),
            Ok(ByteEntry::Cancelled) => Ok(ReplaceStep::Cancelled),
            Ok(ByteEntry::Byte(byte)) => Ok(
                ReplaceStep::Write(self.hex_view.write_byte_at_cursor(byte)),
            ),
        }
    }

    /// Enters replace mode: the command line shows the mode, and its text
    /// is kept to be put back when the mode ends.
    pub fn enter_replace_mode(&mut self)
        ensures
            final(self)@ == (EditorState {
                status: "-- REPLACE --"@,
                status_backup: old(self)@.status,
                ..old(self)@
            }),
    {
        self.status_backup = self.status.clone();
        self.status = String::from_str("-- REPLACE --");
    }

    /// Replaces many bytes, until escape is pressed: takes what one entry of
    /// a byte came to and tells whether replace mode goes on. After a byte
    /// that was written the cursor moves one step to the right. When the
    /// entry was cancelled the mode ends and the command line gets its text
    /// back. An entry that was refused ends the mode with its error.
    pub fn replace_many(&mut self, entry: &Result<ReplaceStep, ViewError>, file_len: u64) -> (r: Result<bool, ViewError>)
        requires
            old(self).wf(),
            file_len <= MAX_FILE_LEN,
        ensures
            final(self).wf(),
            match *entry {
                Err(e) => {
                    &&& r == Err::<bool, ViewError>(e)
                    &&& final(self)@ == old(self)@
                },
                Ok(ReplaceStep::NeedKey) => {
                    &&& r == Ok::<bool, ViewError>(true)
                    &&& final(self)@ == old(self)@
                },
                Ok(ReplaceStep::Cancelled) => {
                    &&& r == Ok::<bool, ViewError>(false)
                    &&& final(self)@ == (EditorState {
                        status: old(self)@.status_backup,
                        ..old(self)@
                    })
                },
                Ok(ReplaceStep::Write(_)) => {
                    &&& r == Ok::<bool, ViewError>(true)
                    &&& final(self)@ == old(self)@.with_port(
                        old(self)@.hex.port.walk(Direction::Right, 1, file_len as int).0,
                    )
                },
            },
    {
        match entry {
            Err(e) => Err(*e),
            Ok(ReplaceStep::NeedKey) => Ok(true),
            Ok(ReplaceStep::Cancelled) => {
                self.status = self.status_backup.clone();
                Ok(false)
            },
            Ok(ReplaceStep::Write(_)) => {
                self.move_cursor(Direction::Right, 1, file_len);
                Ok(true)
            },
        }
    }

    /// Invokes the command prompt: tells from the keys pressed so far what
    /// text has been entered and whether the entry has ended. An entry that
    /// ends without text gives no command.
    pub fn prompt(&self, keys: &Vec<Key>) -> (r: PromptStep)
        ensures
            spec_prompted(keys@, r),
    {
        command_entry(keys)
    }

    /// Returns the text of the screen, for the caller to paint: that of the
    /// current view, and the command line.
    pub fn draw(&self) -> (screen: Screen)
        requires
            self.wf(),
        ensures
            self@.hex.shown_by(screen.frame),
            screen.cmdline@ == self@.status,
    {
        match self.cur_view {
            ViewType::Hex => Screen { frame: self.hex_view.draw(), cmdline: self.status.clone() },
        }
    }

    /// Returns where on the screen the terminal's cursor belongs after a
    /// repaint: on the byte under the cursor, in the active pane.
    pub fn refresh(&self) -> (pos: (i32, i32))
        requires
            self.wf(),
        ensures
            pos.0 == self@.hex.cursor_yx().0,
            pos.1 == self@.hex.cursor_yx().1,
    {
        match self.cur_view {
            ViewType::Hex => self.hex_view.get_cur_yx(),
        }
    }

    /// Move the cursor; see [`HexView::move_cursor`]. A move that stops at
    /// an edge of the file is no error here: the cursor stays where it got.
    pub fn move_cursor(&mut self, direction: Direction, count: i32, file_len: u64)
        requires
            old(self).wf(),
            file_len <= MAX_FILE_LEN,
        ensures
            final(self).wf(),
            final(self)@ == old(self)@.with_port(
                old(self)@.hex.port.walk(direction, spec_steps(count), file_len as int).0,
            ),
    {
        match self.cur_view {
            ViewType::Hex => {
                let _ = self.hex_view.move_cursor(direction, count, file_len);
            },
        }
    }

    /// Seek - jump to a byte of the file, the window aligned to its row;
    /// see [`HexView::seek`]. A byte out of range leaves everything as it
    /// was.
    pub fn seek(&mut self, offset: i64, file_len: u64)
        requires
            old(self).wf(),
            file_len <= MAX_FILE_LEN,
        ensures
            final(self).wf(),
            final(self)@ == match old(self)@.hex.port.seek(offset as int, file_len as int) {
                Some(port) => old(self)@.with_port(port),
                None => old(self)@,
            },
    {
        match self.cur_view {
            ViewType::Hex => {
                let _ = self.hex_view.seek(offset, file_len);
            },
        }
    }

    /// Scrolls the view up and down; see [`HexView::scroll`]. A scroll out
    /// of range leaves everything as it was.
    pub fn scroll(&mut self, direction: Direction, count: u32, file_len: u64)
        requires
            old(self).wf(),
            file_len <= MAX_FILE_LEN,
        ensures
            final(self).wf(),
            final(self)@ == match old(self)@.hex.port.scroll(
                direction,
                count as int,
                file_len as int,
            ) {
                Ok(port) => old(self)@.with_port(port),
                Err(_) => old(self)@,
            },
    {
        match self.cur_view {
            ViewType::Hex => {
                let _ = self.hex_view.scroll(direction, count, file_len);
            },
        }
    }

    /// Switches the active pane of the current view.
    pub fn switch_pane(&mut self)
        requires
            old(self).wf(),
        ensures
            final(self).wf(),
            final(self)@ == (EditorState {
                hex: HexViewState {
                    pane: match old(self)@.hex.pane {
                        HexPane::Hex => HexPane::Canon,
                        HexPane::Canon => HexPane::Hex,
                    },
                    ..old(self)@.hex
                },
                ..old(self)@
            }),
    {
        match self.cur_view {
            ViewType::Hex => {
                self.hex_view.switch_pane();
            },
        }
    }

    /// Switches the view. There is one type of view, so it stays.
    pub fn switch_view(&mut self)
        ensures
            final(self)@ == old(self)@,
    {
        match self.cur_view {
            ViewType::Hex => {
                self.cur_view = ViewType::Hex;
            },
        }
    }
}

} // verus!
