use crate::error::ViewError;
use crate::widget::Direction;
use vstd::prelude::*;

verus! {

/// The largest file length, and so the largest offset, that the engine works
/// with: file offsets are signed 64-bit numbers.
pub const MAX_FILE_LEN: u64 = 0x7fff_ffff_ffff_ffff;

/// Where the window stands in the file and where the cursor stands in the
/// window: `rows` rows of 16 bytes, the first of them at byte `offset` of the
/// file, and the cursor on column `col` of row `row`.
pub struct Viewport {
    pub rows: int,
    pub offset: int,
    pub row: int,
    pub col: int,
}

impl Viewport {
    /// The window shows at least one row and starts on a row boundary of the
    /// file; the cursor is on a cell of the window.
    pub open spec fn wf(self) -> bool {
        &&& self.rows >= 1
        &&& self.offset >= 0
        &&& self.offset % 16 == 0
        &&& 0 <= self.row < self.rows
        &&& 0 <= self.col < 16
    }

    /// The file offset of the byte under the cursor.
    pub open spec fn resolve_offset(self) -> int {
        self.offset + self.row * 16 + self.col
    }

    /// The file offset of the cell on column `col` of row `row`.
    pub open spec fn offset_at(self, row: int, col: int) -> int {
        self.offset + row * 16 + col
    }

    /// The byte that a seek to `target` names: `target` itself, or, for a
    /// negative one, that many bytes back from the end of the file.
    pub open spec fn resolve_target(target: int, file_len: int) -> int {
        if target >= 0 {
            target
        } else {
            file_len + target
        }
    }

    /// The start of the row that holds byte `resolved`.
    pub open spec fn align(resolved: int) -> int {
        resolved - resolved % 16
    }

    /// A seek to `target`: the window moves to the row of the named byte and
    /// the cursor onto that byte, in the first row. `None` where the byte
    /// lies before the start of the file or beyond its end; the end itself,
    /// one past the last byte, can be sought.
    pub open spec fn seek(self, target: int, file_len: int) -> Option<Viewport> {
        let resolved: int = Self::resolve_target(target, file_len);
        if 0 <= resolved <= file_len {
            Some(
                Viewport {
                    rows: self.rows,
                    offset: Self::align(resolved),
                    row: 0,
                    col: resolved % 16,
                },
            )
        } else {
            None
        }
    }

    /// The window moved by `delta` bytes, the cursor staying on its cell;
    /// out of range where the window would start outside the file.
    pub open spec fn shift(self, delta: int, file_len: int) -> Result<Viewport, ViewError> {
        let moved: int = self.offset + delta;
        if 0 <= moved <= file_len {
            Ok(Viewport { offset: moved, ..self })
        } else {
            Err(ViewError::OutOfRange)
        }
    }

    /// A scroll by `count` rows: down towards the end of the file, up
    /// towards its start. There is no scrolling sideways.
    pub open spec fn scroll(self, direction: Direction, count: int, file_len: int) -> Result<
        Viewport,
        ViewError,
    > {
        match direction {
            Direction::Down => self.shift(16 * count, file_len),
            Direction::Up => self.shift(-16 * count, file_len),
            Direction::Left => Err(ViewError::InvalidDirection),
            Direction::Right => Err(ViewError::InvalidDirection),
        }
    }

    /// The window scrolled by one row and the cursor then put on column
    /// `col`; the error of the scroll where it fails.
    pub open spec fn scroll_to_col(self, direction: Direction, col: int, file_len: int) -> Result<
        Viewport,
        ViewError,
    > {
        match self.scroll(direction, 1, file_len) {
            Ok(moved) => Ok(Viewport { col, ..moved }),
            Err(e) => Err(e),
        }
    }

    /// One step of the cursor. Inside the window the cursor moves, wrapping
    /// from one end of a row to the other end of the next. At an edge of the
    /// window the window scrolls by one row instead and the cursor keeps its
    /// row; where that scroll fails, the step fails and nothing moves.
    pub open spec fn step(self, direction: Direction, file_len: int) -> Result<
        Viewport,
        ViewError,
    > {
        match direction {
            Direction::Up => if self.row == 0 {
                self.scroll(Direction::Up, 1, file_len)
            } else {
                Ok(Viewport { row: self.row - 1, ..self })
            },
            Direction::Down => if self.row + 1 == self.rows {
                self.scroll(Direction::Down, 1, file_len)
            } else {
                Ok(Viewport { row: self.row + 1, ..self })
            },
            Direction::Left => if self.col == 0 {
                if self.row == 0 {
                    self.scroll_to_col(Direction::Up, 15, file_len)
                } else {
                    Ok(Viewport { row: self.row - 1, col: 15, ..self })
                }
            } else {
                Ok(Viewport { col: self.col - 1, ..self })
            },
            Direction::Right => if self.col == 15 {
                if self.row + 1 == self.rows {
                    self.scroll_to_col(Direction::Down, 0, file_len)
                } else {
                    Ok(Viewport { row: self.row + 1, col: 0, ..self })
                }
            } else {
                Ok(Viewport { col: self.col + 1, ..self })
            },
        }
    }

    /// `count` steps one after the other, stopping at the first that fails:
    /// where the cursor and window then stand, and the error that stopped
    /// them, if one did.
    pub open spec fn walk(self, direction: Direction, count: nat, file_len: int) -> (
        Viewport,
        Option<ViewError>,
    )
        decreases count,
    {
        if count == 0 {
            (self, None)
        } else {
            match self.step(direction, file_len) {
                Ok(next) => next.walk(direction, (count - 1) as nat, file_len),
                Err(e) => (self, Some(e)),
            }
        }
    }
}

/// A seek to a row boundary `16 * k` succeeds exactly when that boundary is
/// not beyond the end of the file, and then puts the window there and the
/// cursor on the first cell.
pub proof fn lemma_seek_row_boundary(view: Viewport, k: int, file_len: int)
    requires
        0 <= k,
    ensures
        view.seek(16 * k, file_len) is Some <==> 16 * k <= file_len,
        16 * k <= file_len ==> view.seek(16 * k, file_len) == Some(
            Viewport { rows: view.rows, offset: 16 * k, row: 0, col: 0 },
        ),
{
}

/// A seek to a byte of the file, or to its end, succeeds. It leaves a sound
/// view whose window starts at the target rounded down to a multiple of 16,
/// and whose cursor is in the first row, on the column that is the target
/// modulo 16: on the target itself.
pub proof fn lemma_seek_lands_on_target(view: Viewport, target: int, file_len: int)
    requires
        view.wf(),
        0 <= target <= file_len,
    ensures
        view.seek(target, file_len) == Some(
            Viewport { rows: view.rows, offset: target - target % 16, row: 0, col: target % 16 },
        ),
        view.seek(target, file_len)->0.wf(),
        view.seek(target, file_len)->0.resolve_offset() == target,
{
}

/// A seek that counts back from the end by no more than the length of the
/// file succeeds, and puts the cursor that many bytes before the end.
pub proof fn lemma_seek_from_end(view: Viewport, target: int, file_len: int)
    requires
        view.wf(),
        target < 0,
        0 <= file_len + target,
    ensures
        view.seek(target, file_len) is Some,
        view.seek(target, file_len)->0.wf(),
        view.seek(target, file_len)->0.row == 0,
        view.seek(target, file_len)->0.resolve_offset() == file_len + target,
{
}

/// A seek fails exactly where the byte that it names lies before the start
/// of the file or beyond its end. A target beyond the end is out of range
/// even where the row that holds it starts inside the file.
pub proof fn lemma_seek_out_of_range(view: Viewport, target: int, file_len: int)
    ensures
        view.seek(target, file_len) is None <==> !(0 <= Viewport::resolve_target(target, file_len)
            <= file_len),
        target > file_len && file_len >= 0 ==> view.seek(target, file_len) is None,
{
}

/// In a file that is not empty, a seek to -1 succeeds and puts the cursor on
/// the last byte of the file. The window then starts at the last row
/// boundary before the end: the length rounded down to a multiple of 16 where
/// the length is no multiple itself, and 16 below the length where it is.
pub proof fn lemma_seek_last_byte(view: Viewport, file_len: int)
    requires
        view.wf(),
        file_len >= 1,
    ensures
        view.seek(-1, file_len) is Some,
        view.seek(-1, file_len)->0.wf(),
        view.seek(-1, file_len)->0.row == 0,
        view.seek(-1, file_len)->0.col == (file_len - 1) % 16,
        view.seek(-1, file_len)->0.resolve_offset() == file_len - 1,
        file_len % 16 != 0 ==> view.seek(-1, file_len)->0.offset == file_len - file_len % 16,
        file_len % 16 == 0 ==> view.seek(-1, file_len)->0.offset == file_len - 16,
{
}

/// A seek that counts back from the end by more than the length of the file
/// names a byte before its start, and is out of range.
pub proof fn lemma_seek_before_start(view: Viewport, target: int, file_len: int)
    requires
        0 <= file_len,
        target < 0,
        file_len + target < 0,
    ensures
        view.seek(target, file_len) is None,
{
}

/// From the start of the file there is no scrolling up.
pub proof fn lemma_scroll_up_at_start(view: Viewport, count: int, file_len: int)
    requires
        view.offset == 0,
        count >= 1,
    ensures
        view.scroll(Direction::Up, count, file_len) == Err::<Viewport, ViewError>(
            ViewError::OutOfRange,
        ),
{
}

/// A scroll down succeeds exactly when the window then starts no further
/// than the end of the file; beyond it the scroll is out of range.
pub proof fn lemma_scroll_down_past_end(view: Viewport, count: int, file_len: int)
    requires
        view.wf(),
        count >= 0,
    ensures
        view.offset + 16 * count > file_len ==> view.scroll(Direction::Down, count, file_len)
            == Err::<Viewport, ViewError>(ViewError::OutOfRange),
        view.offset + 16 * count <= file_len ==> view.scroll(Direction::Down, count, file_len)
            == Ok::<Viewport, ViewError>(Viewport { offset: view.offset + 16 * count, ..view }),
{
}

/// A scroll that succeeds keeps the view sound and the cursor on its cell.
pub proof fn lemma_scroll_keeps_cursor(
    view: Viewport,
    direction: Direction,
    count: int,
    file_len: int,
)
    requires
        view.wf(),
        view.scroll(direction, count, file_len) is Ok,
    ensures
        view.scroll(direction, count, file_len)->Ok_0.wf(),
        view.scroll(direction, count, file_len)->Ok_0.row == view.row,
        view.scroll(direction, count, file_len)->Ok_0.col == view.col,
        view.scroll(direction, count, file_len)->Ok_0.rows == view.rows,
{
}

/// A step that succeeds keeps the view sound.
pub proof fn lemma_step_wf(view: Viewport, direction: Direction, file_len: int)
    requires
        view.wf(),
        view.step(direction, file_len) is Ok,
    ensures
        view.step(direction, file_len)->Ok_0.wf(),
{
}

/// Sixteen steps to the right, from a cell that is not in the last row, end
/// on the same column one row further down, without any scroll.
pub proof fn lemma_sixteen_steps_right(view: Viewport, file_len: int)
    requires
        view.wf(),
        view.row + 1 < view.rows,
    ensures
        view.walk(Direction::Right, 16, file_len) == (
            Viewport { row: view.row + 1, ..view },
            None::<ViewError>,
        ),
{
    reveal_with_fuel(Viewport::walk, 17);
}

/// A step to the right from the last cell of the window is one scroll down
/// by one row: where that succeeds, the window starts 16 bytes further and
/// the cursor stands on the first cell of the last row; where it fails, so
/// does the step.
pub proof fn lemma_step_right_at_corner(view: Viewport, file_len: int)
    requires
        view.wf(),
        view.row == view.rows - 1,
        view.col == 15,
    ensures
        view.step(Direction::Right, file_len) == match view.scroll(Direction::Down, 1, file_len) {
            Ok(moved) => Ok::<Viewport, ViewError>(Viewport { col: 0, ..moved }),
            Err(e) => Err::<Viewport, ViewError>(e),
        },
        view.offset + 16 <= file_len ==> view.step(Direction::Right, file_len) == Ok::<
            Viewport,
            ViewError,
        >(Viewport { offset: view.offset + 16, col: 0, ..view }),
        view.offset + 16 > file_len ==> view.step(Direction::Right, file_len) == Err::<
            Viewport,
            ViewError,
        >(ViewError::OutOfRange),
{
}

/// Wherever a walk stops, it leaves a sound view of the same height.
pub proof fn lemma_walk_wf(view: Viewport, direction: Direction, count: nat, file_len: int)
    requires
        view.wf(),
    ensures
        view.walk(direction, count, file_len).0.wf(),
        view.walk(direction, count, file_len).0.rows == view.rows,
    decreases count,
{
    if count > 0 {
        match view.step(direction, file_len) {
            Ok(next) => {
                lemma_walk_wf(next, direction, (count - 1) as nat, file_len);
            },
            Err(_) => {},
        }
    }
}

} // verus!
