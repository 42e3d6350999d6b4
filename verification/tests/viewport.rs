use hexview::error::ViewError;
use hexview::layout::{fits, layout, Pane};
use hexview::options::Config;
use hexview::widget::{ByteWrite, Direction, HexView};

fn window(lines: i32) -> Pane {
    Pane { lines, cols: 80, beg_y: 0, beg_x: 0 }
}

fn config(name: &str, ro: bool) -> Config {
    Config { has_infile: true, infile_name: name.to_string(), ro }
}

/// A view of `rows` rows of bytes.
fn view(rows: i32) -> HexView {
    HexView::new(window(rows + 1), &config("data.bin", false))
}

#[test]
fn new_view_starts_at_origin() {
    let v = view(4);
    assert_eq!(v.get_seek(), 0);
    assert_eq!(v.get_pos_yx(), (0, 0));
    assert_eq!(v.window_len(), 64);
    assert_eq!(v.resolve_offset(), 0);
}

#[test]
fn seek_to_row_boundary_puts_cursor_on_first_cell() {
    let mut v = view(4);
    for k in 0..6u64 {
        assert_eq!(v.seek((16 * k) as i64, 100), Ok(16 * k));
        assert_eq!(v.get_seek(), 16 * k);
        assert_eq!(v.get_pos_yx(), (0, 0));
    }
    assert_eq!(v.seek(96, 96), Ok(96));
    assert_eq!(v.seek(112, 100), Err(ViewError::OutOfRange));
    assert_eq!(v.get_seek(), 96);
}

#[test]
fn seek_lands_on_the_requested_byte() {
    let mut v = view(4);
    for target in 0..100i64 {
        let aligned = (target - target % 16) as u64;
        assert_eq!(v.seek(target, 100), Ok(aligned));
        assert_eq!(v.get_pos_yx(), (0, (target % 16) as i32));
        assert_eq!(v.resolve_offset(), target as u64);
    }
}

#[test]
fn seek_to_the_end_of_the_file() {
    let mut v = view(4);
    // The end of a file of 40 bytes lies in the row that starts at 32.
    assert_eq!(v.seek(40, 40), Ok(32));
    assert_eq!(v.get_pos_yx(), (0, 8));
    assert_eq!(v.resolve_offset(), 40);
    assert_eq!(v.seek(0, 0), Ok(0));
    assert_eq!(v.get_pos_yx(), (0, 0));
    assert_eq!(v.seek(32, 32), Ok(32));
    assert_eq!(v.get_pos_yx(), (0, 0));
}

#[test]
fn seek_beyond_the_end_is_out_of_range() {
    let mut v = view(2);
    assert_eq!(v.seek(0, 40), Ok(0));
    v.read_buf(vec![0x41; 32]);
    // Byte 47 lies in the row that starts at 32, but beyond the 40 bytes.
    assert_eq!(v.seek(47, 40), Err(ViewError::OutOfRange));
    assert_eq!(v.get_seek(), 0);
    assert_eq!(v.get_pos_yx(), (0, 0));
    assert_eq!(v.draw().canon[0], [0x41u8; 16].to_vec());
    assert_eq!(v.draw().canon[1], [0x41u8; 16].to_vec());

    assert_eq!(v.seek(39, 40), Ok(32));
    assert_eq!(v.get_pos_yx(), (0, 7));
    assert_eq!(v.seek(41, 40), Err(ViewError::OutOfRange));
    assert_eq!(v.seek(48, 40), Err(ViewError::OutOfRange));
    assert_eq!(v.seek(1, 0), Err(ViewError::OutOfRange));
    assert_eq!(v.seek(i64::MAX, 40), Err(ViewError::OutOfRange));
    assert_eq!(v.get_seek(), 32);
    assert_eq!(v.get_pos_yx(), (0, 7));
}

#[test]
fn seek_minus_one_finds_the_last_byte() {
    let mut v = view(4);
    assert_eq!(v.seek(-1, 40), Ok(32));
    assert_eq!(v.get_pos_yx(), (0, 7));
    assert_eq!(v.resolve_offset(), 39);

    // A length that is a multiple of 16: the last byte is in the row before.
    assert_eq!(v.seek(-1, 32), Ok(16));
    assert_eq!(v.get_pos_yx(), (0, 15));
    assert_eq!(v.resolve_offset(), 31);

    assert_eq!(v.seek(-1, 1), Ok(0));
    assert_eq!(v.get_pos_yx(), (0, 0));
}

#[test]
fn seek_from_the_end_counts_back() {
    let mut v = view(4);
    assert_eq!(v.seek(-40, 40), Ok(0));
    assert_eq!(v.get_pos_yx(), (0, 0));
    assert_eq!(v.seek(-23, 40), Ok(16));
    assert_eq!(v.get_pos_yx(), (0, 1));
    assert_eq!(v.seek(-41, 40), Err(ViewError::OutOfRange));
    assert_eq!(v.get_seek(), 16);
    assert_eq!(v.get_pos_yx(), (0, 1));
    assert_eq!(v.seek(-1, 0), Err(ViewError::OutOfRange));
    assert_eq!(v.seek(i64::MIN, 40), Err(ViewError::OutOfRange));
    assert_eq!(v.seek(i64::MIN, i64::MAX as u64), Err(ViewError::OutOfRange));
}

#[test]
fn seek_resets_the_row() {
    let mut v = view(4);
    assert_eq!(v.move_cursor(Direction::Down, 2, 100), Ok(0));
    assert_eq!(v.get_pos_yx(), (2, 0));
    assert_eq!(v.seek(21, 100), Ok(16));
    assert_eq!(v.get_pos_yx(), (0, 5));
}

#[test]
fn scroll_up_from_the_start_is_out_of_range() {
    let mut v = view(4);
    assert_eq!(v.move_cursor(Direction::Right, 3, 100), Ok(0));
    assert_eq!(v.scroll(Direction::Up, 1, 100), Err(ViewError::OutOfRange));
    assert_eq!(v.get_seek(), 0);
    assert_eq!(v.get_pos_yx(), (0, 3));
}

#[test]
fn scroll_down_beyond_the_end_is_out_of_range() {
    let mut v = view(4);
    assert_eq!(v.scroll(Direction::Down, 1, 15), Err(ViewError::OutOfRange));
    assert_eq!(v.get_seek(), 0);
    assert_eq!(v.scroll(Direction::Down, 1, 16), Ok(16));
    assert_eq!(v.scroll(Direction::Down, 3, 63), Err(ViewError::OutOfRange));
    assert_eq!(v.get_seek(), 16);
    assert_eq!(v.scroll(Direction::Down, u32::MAX, i64::MAX as u64), Ok(16 + 16 * (u32::MAX as u64)));
}

#[test]
fn scroll_keeps_the_cursor_on_its_cell() {
    let mut v = view(4);
    assert_eq!(v.seek(5, 200), Ok(0));
    assert_eq!(v.move_cursor(Direction::Down, 2, 200), Ok(0));
    assert_eq!(v.scroll(Direction::Down, 3, 200), Ok(48));
    assert_eq!(v.get_pos_yx(), (2, 5));
    assert_eq!(v.resolve_offset(), 48 + 32 + 5);
    assert_eq!(v.scroll(Direction::Up, 2, 200), Ok(16));
    assert_eq!(v.get_pos_yx(), (2, 5));
    assert_eq!(v.scroll(Direction::Up, 2, 200), Err(ViewError::OutOfRange));
    assert_eq!(v.get_seek(), 16);
    assert_eq!(v.scroll(Direction::Up, 0, 200), Ok(16));
}

#[test]
fn scroll_sideways_is_refused() {
    let mut v = view(4);
    assert_eq!(v.scroll(Direction::Left, 1, 100), Err(ViewError::InvalidDirection));
    assert_eq!(v.scroll(Direction::Right, 1, 100), Err(ViewError::InvalidDirection));
    assert_eq!(v.get_seek(), 0);
}

#[test]
fn scroll_up_into_a_file_that_shrank_is_out_of_range() {
    let mut v = view(4);
    assert_eq!(v.scroll(Direction::Down, 4, 100), Ok(64));
    assert_eq!(v.scroll(Direction::Up, 1, 20), Err(ViewError::OutOfRange));
    assert_eq!(v.get_seek(), 64);
}

#[test]
fn sixteen_steps_right_advance_one_row() {
    let mut v = view(4);
    assert_eq!(v.move_cursor(Direction::Right, 16, 0), Ok(0));
    assert_eq!(v.get_pos_yx(), (1, 0));
    assert_eq!(v.get_seek(), 0);
    assert_eq!(v.move_cursor(Direction::Right, 5, 0), Ok(0));
    assert_eq!(v.move_cursor(Direction::Right, 16, 0), Ok(0));
    assert_eq!(v.get_pos_yx(), (2, 5));
    assert_eq!(v.get_seek(), 0);
}

#[test]
fn step_right_from_the_last_cell_scrolls_once() {
    let mut v = view(4);
    assert_eq!(v.move_cursor(Direction::Down, 3, 100), Ok(0));
    assert_eq!(v.move_cursor(Direction::Right, 15, 100), Ok(0));
    assert_eq!(v.get_pos_yx(), (3, 15));
    assert_eq!(v.move_cursor(Direction::Right, 1, 100), Ok(0));
    assert_eq!(v.get_pos_yx(), (3, 0));
    assert_eq!(v.get_seek(), 16);
}

#[test]
fn step_right_from_the_last_cell_fails_at_the_end() {
    let mut v = view(2);
    assert_eq!(v.move_cursor(Direction::Down, 1, 10), Ok(0));
    assert_eq!(v.move_cursor(Direction::Right, 15, 10), Ok(0));
    assert_eq!(v.move_cursor_once(&Direction::Right, 10), Err(ViewError::OutOfRange));
    assert_eq!(v.get_pos_yx(), (1, 15));
    assert_eq!(v.get_seek(), 0);
}

#[test]
fn single_steps_inside_the_window() {
    let mut v = view(3);
    assert_eq!(v.move_cursor_once(&Direction::Down, 100), Ok(0));
    assert_eq!(v.get_pos_yx(), (1, 0));
    assert_eq!(v.move_cursor_once(&Direction::Left, 100), Ok(0));
    assert_eq!(v.get_pos_yx(), (0, 15));
    assert_eq!(v.move_cursor_once(&Direction::Right, 100), Ok(0));
    assert_eq!(v.get_pos_yx(), (1, 0));
    assert_eq!(v.move_cursor_once(&Direction::Right, 100), Ok(0));
    assert_eq!(v.get_pos_yx(), (1, 1));
    assert_eq!(v.move_cursor_once(&Direction::Left, 100), Ok(0));
    assert_eq!(v.get_pos_yx(), (1, 0));
    assert_eq!(v.move_cursor_once(&Direction::Up, 100), Ok(0));
    assert_eq!(v.get_pos_yx(), (0, 0));
}

#[test]
fn steps_at_the_edges_scroll_the_window() {
    let mut v = view(3);
    assert_eq!(v.seek(32, 100), Ok(32));
    // Up from the first row: the window moves, the row stays.
    assert_eq!(v.move_cursor_once(&Direction::Up, 100), Ok(16));
    assert_eq!(v.get_pos_yx(), (0, 0));
    // Left from the first cell: the window moves and the cursor wraps.
    assert_eq!(v.move_cursor_once(&Direction::Left, 100), Ok(0));
    assert_eq!(v.get_pos_yx(), (0, 15));
    // At the top of the file both are refused and nothing moves.
    assert_eq!(v.move_cursor_once(&Direction::Up, 100), Err(ViewError::OutOfRange));
    assert_eq!(v.get_pos_yx(), (0, 15));
    assert_eq!(v.move_cursor(Direction::Left, 15, 100), Ok(0));
    assert_eq!(v.move_cursor_once(&Direction::Left, 100), Err(ViewError::OutOfRange));
    assert_eq!(v.get_pos_yx(), (0, 0));
    assert_eq!(v.get_seek(), 0);
    // Down from the last row: the window moves, the row stays.
    assert_eq!(v.move_cursor(Direction::Down, 2, 100), Ok(0));
    assert_eq!(v.move_cursor_once(&Direction::Down, 100), Ok(16));
    assert_eq!(v.get_pos_yx(), (2, 0));
    assert_eq!(v.move_cursor_once(&Direction::Down, 20), Err(ViewError::OutOfRange));
    assert_eq!(v.get_seek(), 16);
}

#[test]
fn a_move_stops_at_the_first_step_that_fails() {
    let mut v = view(2);
    // Six steps down are asked for; the file allows the window to start at 32.
    assert_eq!(v.move_cursor(Direction::Down, 6, 40), Err(ViewError::OutOfRange));
    assert_eq!(v.get_pos_yx(), (1, 0));
    assert_eq!(v.get_seek(), 32);
}

#[test]
fn a_move_by_no_steps_moves_nothing() {
    let mut v = view(2);
    assert_eq!(v.seek(19, 40), Ok(16));
    assert_eq!(v.move_cursor(Direction::Left, 0, 40), Ok(0));
    assert_eq!(v.move_cursor(Direction::Up, -3, 40), Ok(0));
    assert_eq!(v.move_cursor(Direction::Down, i32::MIN, 40), Ok(0));
    assert_eq!(v.get_pos_yx(), (0, 3));
    assert_eq!(v.get_seek(), 16);
}

#[test]
fn hex_columns_group_bytes_in_pairs() {
    let v = view(2);
    assert_eq!(v.hex_pos_to_cur(0, 0), (0, 0));
    assert_eq!(v.hex_pos_to_cur(0, 1), (0, 2));
    assert_eq!(v.hex_pos_to_cur(0, 2), (0, 5));
    assert_eq!(v.hex_pos_to_cur(0, 3), (0, 7));
    assert_eq!(v.hex_pos_to_cur(0, 4), (0, 10));
    assert_eq!(v.hex_pos_to_cur(7, 15), (7, 37));
    let expected = [0, 2, 5, 7, 10, 12, 15, 17, 20, 22, 25, 27, 30, 32, 35, 37];
    for b in 0..16 {
        assert_eq!(v.hex_pos_to_cur(1, b), (1, expected[b as usize]));
    }
}

#[test]
fn cursor_on_screen_follows_the_active_pane() {
    let win = Pane { lines: 5, cols: 80, beg_y: 2, beg_x: 3 };
    let mut v = HexView::new(win, &config("f", false));
    assert_eq!(v.seek(3, 100), Ok(0));
    assert_eq!(v.move_cursor(Direction::Down, 2, 100), Ok(0));
    // Hex pane: eleven columns from the window's corner.
    assert_eq!(v.get_cur_yx(), (2 + 2, 3 + 11 + 7));
    v.switch_pane();
    // Canonical pane: 53 columns from the window's corner.
    assert_eq!(v.get_cur_yx(), (2 + 2, 3 + 53 + 3));
    assert_eq!(v.get_pos_yx(), (2, 3));
    v.switch_pane();
    assert_eq!(v.get_cur_yx(), (4, 21));
}

#[test]
fn writes_name_the_byte_under_the_cursor() {
    let mut v = view(4);
    assert_eq!(v.seek(37, 100), Ok(32));
    assert_eq!(v.move_cursor(Direction::Down, 1, 100), Ok(0));
    assert_eq!(v.write_byte_at_cursor(0xab), ByteWrite { offset: 53, byte: 0xab });
    assert_eq!(v.write_byte_at_position(0x01, 0, 0), ByteWrite { offset: 32, byte: 0x01 });
    assert_eq!(v.write_byte_at_position(0x02, 3, 15), ByteWrite { offset: 32 + 48 + 15, byte: 0x02 });
    assert_eq!(v.write_byte_at_offset(0x03, 7), ByteWrite { offset: 7, byte: 0x03 });
}

#[test]
fn layout_of_a_terminal_window() {
    let win = Pane { lines: 23, cols: 80, beg_y: 0, beg_x: 0 };
    assert!(fits(&win));
    let l = layout(win);
    assert_eq!(l.win, win);
    assert_eq!(l.offset_win, Pane { lines: 22, cols: 8, beg_y: 0, beg_x: 0 });
    assert_eq!(l.oh_sep_win, Pane { lines: 22, cols: 3, beg_y: 0, beg_x: 8 });
    assert_eq!(l.hex_win, Pane { lines: 22, cols: 39, beg_y: 0, beg_x: 11 });
    assert_eq!(l.hc_sep_win, Pane { lines: 22, cols: 3, beg_y: 0, beg_x: 50 });
    assert_eq!(l.canon_win, Pane { lines: 22, cols: 16, beg_y: 0, beg_x: 53 });
    assert_eq!(l.cs_sep_win, Pane { lines: 22, cols: 3, beg_y: 0, beg_x: 69 });
    assert_eq!(l.statusline_win, Pane { lines: 1, cols: 80, beg_y: 22, beg_x: 0 });
}

#[test]
fn layout_needs_room() {
    assert!(fits(&Pane { lines: 2, cols: 72, beg_y: 0, beg_x: 0 }));
    assert!(!fits(&Pane { lines: 1, cols: 72, beg_y: 0, beg_x: 0 }));
    assert!(!fits(&Pane { lines: 2, cols: 71, beg_y: 0, beg_x: 0 }));
    assert!(!fits(&Pane { lines: 2, cols: 72, beg_y: -1, beg_x: 0 }));
    assert!(!fits(&Pane { lines: 2, cols: 72, beg_y: 0, beg_x: -1 }));
    assert!(!fits(&Pane { lines: i32::MAX, cols: 72, beg_y: 1, beg_x: 0 }));
    assert!(!fits(&Pane { lines: 2, cols: i32::MAX, beg_y: 0, beg_x: 1 }));
    assert!(fits(&Pane { lines: i32::MAX, cols: i32::MAX, beg_y: 0, beg_x: 0 }));
}

#[test]
fn sub_pane_is_placed_from_the_corner() {
    let win = Pane { lines: 10, cols: 20, beg_y: 4, beg_x: 6 };
    assert_eq!(win.sub(3, 5, 2, 1), Pane { lines: 3, cols: 5, beg_y: 6, beg_x: 7 });
    assert_eq!(win.sub(10, 20, 0, 0), win);
}

#[test]
fn error_messages() {
    assert_eq!(ViewError::OutOfRange.message(), "offset out of range");
    assert_eq!(ViewError::InvalidHexDigit.message(), "invalid hex digit");
    assert_eq!(ViewError::InvalidDirection.message(), "cannot scroll sideways");
}
