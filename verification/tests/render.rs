use hexview::layout::Pane;
use hexview::options::Config;
use hexview::render::{canon_text, hex_digit_char, hex_text, offset_text, SEP};
use hexview::util::{append_chunk, check_printable};
use hexview::widget::{Direction, HexView, Span};

fn view_of(rows: i32, name: &str, ro: bool) -> HexView {
    let win = Pane { lines: rows + 1, cols: 72, beg_y: 0, beg_x: 0 };
    HexView::new(win, &Config { has_infile: true, infile_name: name.to_string(), ro })
}

/// What a read of the window's size at `offset` of `file` returns.
fn read_at(file: &[u8], offset: u64, len: u64) -> Vec<u8> {
    let start = (offset as usize).min(file.len());
    let end = (start + len as usize).min(file.len());
    file[start..end].to_vec()
}

#[test]
fn printable_range() {
    assert!(!check_printable(0x00));
    assert!(!check_printable(0x1f));
    assert!(check_printable(0x20));
    assert!(check_printable(b'A'));
    assert!(check_printable(0x7e));
    assert!(!check_printable(0x7f));
    assert!(!check_printable(0x80));
    assert!(!check_printable(0xff));
}

#[test]
fn hex_digits_are_lower_case() {
    let digits: Vec<u8> = (0..16).map(hex_digit_char).collect();
    assert_eq!(digits, b"0123456789abcdef".to_vec());
}

#[test]
fn offsets_are_padded_to_eight_digits() {
    assert_eq!(offset_text(0), b"00000000".to_vec());
    assert_eq!(offset_text(0x10), b"00000010".to_vec());
    assert_eq!(offset_text(0x1f0), b"000001f0".to_vec());
    assert_eq!(offset_text(0xdeadbeef), b"deadbeef".to_vec());
    assert_eq!(offset_text(0xffff_ffff), b"ffffffff".to_vec());
}

#[test]
fn offsets_beyond_eight_digits_are_written_in_full() {
    assert_eq!(offset_text(0x1_0000_0000), b"100000000".to_vec());
    assert_eq!(offset_text(0x0123_4567_89ab_cdef), b"123456789abcdef".to_vec());
    assert_eq!(offset_text(u64::MAX), b"ffffffffffffffff".to_vec());
}

#[test]
fn hex_row_of_a_full_row() {
    let buffer: Vec<u8> = (0..32u8).collect();
    assert_eq!(hex_text(&buffer, 0), b"0001 0203 0405 0607 0809 0a0b 0c0d 0e0f".to_vec());
    assert_eq!(hex_text(&buffer, 1), b"1011 1213 1415 1617 1819 1a1b 1c1d 1e1f".to_vec());
    assert_eq!(hex_text(&buffer, 0).len(), 39);
}

#[test]
fn hex_row_of_a_partial_row() {
    let buffer: Vec<u8> = vec![0xde, 0xad, 0xbe];
    assert_eq!(hex_text(&buffer, 0), b"dead be                                ".to_vec());
    assert_eq!(hex_text(&buffer, 1), [b' '; 39].to_vec());
    assert_eq!(hex_text(&Vec::new(), 0), [b' '; 39].to_vec());
    assert_eq!(hex_text(&buffer, u32::MAX), [b' '; 39].to_vec());
}

#[test]
fn canon_row_shows_printable_bytes() {
    let buffer: Vec<u8> = b"Hello, world!\n\x00\x7f~ \xff".to_vec();
    assert_eq!(canon_text(&buffer, 0), b"Hello, world!...".to_vec());
    assert_eq!(canon_text(&buffer, 1), b"~ .             ".to_vec());
    assert_eq!(canon_text(&buffer, 2), [b' '; 16].to_vec());
}

#[test]
fn status_names_the_file() {
    assert_eq!(view_of(2, "data.bin", false).draw().status, "[data.bin]");
    assert_eq!(view_of(2, "data.bin", true).draw().status, "[data.bin][ro]");
    assert_eq!(view_of(2, "", false).draw().status, "[]");
}

#[test]
fn separator_text() {
    assert_eq!(SEP, " | ");
}

#[test]
fn frame_of_an_empty_view() {
    let v = view_of(3, "f", false);
    let frame = v.draw();
    assert_eq!(frame.offsets.len(), 3);
    assert_eq!(frame.hex.len(), 3);
    assert_eq!(frame.canon.len(), 3);
    assert_eq!(frame.offsets[0], b"00000000".to_vec());
    assert_eq!(frame.offsets[1], b"00000010".to_vec());
    assert_eq!(frame.offsets[2], b"00000020".to_vec());
    for row in 0..3 {
        assert_eq!(frame.hex[row], [b' '; 39].to_vec());
        assert_eq!(frame.canon[row], [b' '; 16].to_vec());
    }
    assert_eq!(frame.hex_mark, Span { y: 0, x: 0, len: 2 });
    assert_eq!(frame.canon_mark, Span { y: 0, x: 0, len: 1 });
}

#[test]
fn frame_marks_the_cell_under_the_cursor() {
    let mut v = view_of(3, "f", false);
    assert_eq!(v.seek(6, 100), Ok(0));
    assert_eq!(v.move_cursor(Direction::Down, 1, 100), Ok(0));
    let frame = v.draw();
    assert_eq!(frame.hex_mark, Span { y: 1, x: 15, len: 2 });
    assert_eq!(frame.canon_mark, Span { y: 1, x: 6, len: 1 });
    v.switch_pane();
    let frame = v.draw();
    assert_eq!(frame.hex_mark, Span { y: 1, x: 15, len: 2 });
    assert_eq!(frame.canon_mark, Span { y: 1, x: 6, len: 1 });
}

#[test]
fn read_buf_keeps_what_the_window_shows() {
    let mut v = view_of(2, "f", false);
    v.read_buf((0..100u8).collect());
    let frame = v.draw();
    assert_eq!(frame.hex[0], b"0001 0203 0405 0607 0809 0a0b 0c0d 0e0f".to_vec());
    assert_eq!(frame.hex[1], b"1011 1213 1415 1617 1819 1a1b 1c1d 1e1f".to_vec());
    v.read_buf(vec![0x41]);
    let frame = v.draw();
    assert_eq!(frame.hex[0], b"41                                     ".to_vec());
    assert_eq!(frame.canon[0], b"A               ".to_vec());
    assert_eq!(frame.hex[1], [b' '; 39].to_vec());
    v.read_buf((0..32u8).collect());
    assert_eq!(v.draw().hex[1], b"1011 1213 1415 1617 1819 1a1b 1c1d 1e1f".to_vec());
    v.read_buf(Vec::new());
    assert_eq!(v.draw().hex[0], [b' '; 39].to_vec());
}

#[test]
fn window_of_two_rows_over_forty_bytes() {
    let file: Vec<u8> = (0..40u8).map(|b| b'a' + (b % 26)).collect();
    let mut v = view_of(2, "f", false);
    assert_eq!(v.seek(0, 40), Ok(0));
    v.read_buf(read_at(&file, 0, v.window_len()));
    assert_eq!(v.draw().canon[0], b"abcdefghijklmnop".to_vec());
    assert_eq!(v.draw().canon[1], b"qrstuvwxyzabcdef".to_vec());

    assert_eq!(v.scroll(Direction::Down, 2, 40), Ok(32));
    assert_eq!(v.get_seek(), 32);
    v.read_buf(read_at(&file, 32, v.window_len()));
    let frame = v.draw();
    assert_eq!(frame.offsets[0], b"00000020".to_vec());
    assert_eq!(frame.offsets[1], b"00000030".to_vec());
    // Eight bytes are left: the other eight columns are blank in both panes.
    assert_eq!(frame.hex[0], b"6768 696a 6b6c 6d6e                    ".to_vec());
    assert_eq!(frame.canon[0], b"ghijklmn        ".to_vec());
    assert_eq!(frame.hex[1], [b' '; 39].to_vec());
    assert_eq!(frame.canon[1], [b' '; 16].to_vec());

    // One more row would start the window at 48, beyond the end.
    assert_eq!(v.scroll(Direction::Down, 1, 40), Err(hexview::error::ViewError::OutOfRange));
    assert_eq!(v.get_seek(), 32);
}

#[test]
fn scrolling_row_by_row_over_forty_bytes() {
    let mut v = view_of(2, "f", false);
    assert_eq!(v.seek(0, 40), Ok(0));
    assert_eq!(v.scroll(Direction::Down, 1, 40), Ok(16));
    assert_eq!(v.scroll(Direction::Down, 1, 40), Ok(32));
    assert_eq!(v.scroll(Direction::Down, 1, 40), Err(hexview::error::ViewError::OutOfRange));
}

#[test]
fn chunks_are_gathered_up_to_the_size() {
    let mut vector: Vec<u8> = Vec::new();
    assert!(append_chunk(&mut vector, &[1, 2, 3], 8));
    assert_eq!(vector, vec![1, 2, 3]);
    assert!(append_chunk(&mut vector, &[4, 5, 6], 8));
    assert_eq!(vector, vec![1, 2, 3, 4, 5, 6]);
    // More than is missing: the chunk is cut and the reading ends.
    assert!(!append_chunk(&mut vector, &[7, 8, 9], 8));
    assert_eq!(vector, vec![1, 2, 3, 4, 5, 6, 7, 8]);
}

#[test]
fn an_empty_chunk_ends_the_reading() {
    let mut vector: Vec<u8> = vec![1, 2];
    assert!(!append_chunk(&mut vector, &[], 8));
    assert_eq!(vector, vec![1, 2]);
}

#[test]
fn a_chunk_that_fills_the_size_exactly_reads_on() {
    let mut vector: Vec<u8> = vec![1, 2];
    assert!(append_chunk(&mut vector, &[3, 4], 4));
    assert_eq!(vector, vec![1, 2, 3, 4]);
    assert!(!append_chunk(&mut vector, &[5], 4));
    assert_eq!(vector, vec![1, 2, 3, 4]);
    assert!(!append_chunk(&mut vector, &[5], 2));
    assert_eq!(vector, vec![1, 2, 3, 4]);
    let mut none: Vec<u8> = Vec::new();
    assert!(!append_chunk(&mut none, &[5], 0));
    assert_eq!(none, Vec::<u8>::new());
}
