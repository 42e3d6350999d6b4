use crate::util::{check_printable, is_printable};
use vstd::arithmetic::div_mod::lemma_div_denominator;
use vstd::arithmetic::power::{lemma_pow_positive, pow};
use vstd::prelude::*;

verus! {

/// The character of a cell that shows no byte.
pub const BLANK: u8 = 0x20;

/// The character that stands for a byte without a printable form.
pub const PLACEHOLDER: u8 = 0x2e;

/// Characters in one row of the hex pane.
pub const HEX_ROW_LEN: usize = 39;

/// Characters in one row of the canonical pane.
pub const CANON_ROW_LEN: usize = 16;

/// Digits that an offset is padded to.
pub const OFFSET_DIGITS: u32 = 8;

/// The text between two panes.
pub const SEP: &'static str = " | ";

/// The lower-case hex digit for a value below sixteen.
pub open spec fn hex_digit(n: int) -> u8 {
    if n < 10 {
        (0x30 + n) as u8
    } else {
        (0x61 + n - 10) as u8
    }
}

/// The column of the hex pane at which the two digits of byte `b` of a row
/// start: two columns for each byte before it, and one more for each pair of
/// bytes before it.
pub open spec fn hex_col(b: int) -> int {
    2 * b + b / 2
}

/// The character at column `c` of row `row` of the hex pane. Five columns
/// make a group: the two digits of one byte, the two digits of the next, and
/// a blank. A byte beyond the end of the buffer shows as blanks.
pub open spec fn hex_cell(buffer: Seq<u8>, row: int, c: int) -> u8 {
    let within: int = c % 5;
    let i: int = 16 * row + 2 * (c / 5) + within / 2;
    if within == 4 || i >= buffer.len() {
        BLANK
    } else if within % 2 == 0 {
        hex_digit(buffer[i] as int / 16)
    } else {
        hex_digit(buffer[i] as int % 16)
    }
}

/// Row `row` of the hex pane: sixteen bytes in pairs, a blank between pairs.
pub open spec fn hex_row(buffer: Seq<u8>, row: int) -> Seq<u8> {
    Seq::new(39, |c: int| hex_cell(buffer, row, c))
}

/// The character that shows `byte` in the canonical pane.
pub open spec fn canon_char(byte: u8) -> u8 {
    if is_printable(byte) {
        byte
    } else {
        PLACEHOLDER
    }
}

/// The character at column `b` of row `row` of the canonical pane; a blank
/// beyond the end of the buffer.
pub open spec fn canon_cell(buffer: Seq<u8>, row: int, b: int) -> u8 {
    let i: int = 16 * row + b;
    if i < buffer.len() {
        canon_char(buffer[i])
    } else {
        BLANK
    }
}

/// Row `row` of the canonical pane: one character for each of sixteen bytes.
pub open spec fn canon_row(buffer: Seq<u8>, row: int) -> Seq<u8> {
    Seq::new(16, |b: int| canon_cell(buffer, row, b))
}

/// The last `width` hex digits of `value`, the most significant first.
pub open spec fn hex_digits(value: nat, width: nat) -> Seq<u8>
    decreases width,
{
    if width == 0 {
        Seq::<u8>::empty()
    } else {
        hex_digits(value / 16, (width - 1) as nat).push(hex_digit((value % 16) as int))
    }
}

/// The number of hex digits that it takes to write `value`.
pub open spec fn hex_len(value: nat) -> nat
    decreases value,
{
    if value < 16 {
        1
    } else {
        1 + hex_len(value / 16)
    }
}

/// The text of an offset: its value in hex, padded with zeros on the left to
/// eight digits.
pub open spec fn offset_label(value: nat) -> Seq<u8> {
    hex_digits(
        value,
        if hex_len(value) < 8 {
            8
        } else {
            hex_len(value)
        },
    )
}

/// At each byte of a row the hex pane shows the byte's two digits, at the
/// column that `hex_col` gives and the one after it, or two blanks where the
/// buffer has no such byte; the column before each pair of bytes but the
/// first is blank.
pub proof fn lemma_hex_row_cells(buffer: Seq<u8>, row: int, b: int)
    requires
        0 <= row,
        0 <= b < 16,
    ensures
        0 <= hex_col(b) < 38,
        ({
            let line = hex_row(buffer, row);
            let at: int = hex_col(b);
            let i: int = 16 * row + b;
            &&& i < buffer.len() ==> line[at] == hex_digit(buffer[i] as int / 16)
            &&& i < buffer.len() ==> line[at + 1] == hex_digit(buffer[i] as int % 16)
            &&& i >= buffer.len() ==> line[at] == BLANK && line[at + 1] == BLANK
            &&& b % 2 == 0 && b > 0 ==> line[at - 1] == BLANK
        }),
{
}

/// Each row of the canonical pane shows, for each byte of the buffer that
/// falls into it, the byte itself where it is printable and a dot where it
/// is not, and a blank where the buffer has no such byte.
pub proof fn lemma_canon_row_cells(buffer: Seq<u8>, row: int, b: int)
    requires
        0 <= row,
        0 <= b < 16,
    ensures
        canon_row(buffer, row).len() == 16,
        ({
            let i: int = 16 * row + b;
            let shown: u8 = canon_row(buffer, row)[b];
            &&& i < buffer.len() && is_printable(buffer[i]) ==> shown == buffer[i]
            &&& i < buffer.len() && !is_printable(buffer[i]) ==> shown == PLACEHOLDER
            &&& i >= buffer.len() ==> shown == BLANK
        }),
{
}

/// `hex_digits` gives as many digits as were asked for, and the digit that
/// stands `place` places from the right is the remainder modulo 16 of the
/// value divided by 16 to the power of `place`.
pub proof fn lemma_hex_digits_places(value: nat, width: nat, place: nat)
    requires
        place < width,
    ensures
        hex_digits(value, width).len() == width,
        pow(16, place) > 0,
        hex_digits(value, width)[width - 1 - place] == hex_digit(
            (value as int / pow(16, place)) % 16,
        ),
    decreases width,
{
    lemma_hex_digits_len(value, width);
    lemma_pow_positive(16, place);
    reveal(pow);
    if place > 0 {
        lemma_hex_digits_places(value / 16, (width - 1) as nat, (place - 1) as nat);
        lemma_hex_digits_len(value / 16, (width - 1) as nat);
        lemma_pow_positive(16, (place - 1) as nat);
        lemma_div_denominator(value as int, 16, pow(16, (place - 1) as nat));
    }
}

/// `hex_digits` gives as many digits as were asked for.
pub proof fn lemma_hex_digits_len(value: nat, width: nat)
    ensures
        hex_digits(value, width).len() == width,
    decreases width,
{
    if width > 0 {
        lemma_hex_digits_len(value / 16, (width - 1) as nat);
    }
}

/// The text of an offset has eight digits for an offset below 2^32, and for
/// a larger one as many as the offset takes, which are more.
pub proof fn lemma_offset_label_len(value: nat)
    ensures
        value < 0x1_0000_0000 ==> offset_label(value).len() == 8,
        value >= 0x1_0000_0000 ==> offset_label(value).len() == hex_len(value) > 8,
{
    reveal_with_fuel(hex_len, 10);
    lemma_hex_digits_len(value, 8);
    lemma_hex_digits_len(value, hex_len(value));
}

/// Returns the lower-case hex digit for a value below sixteen.
pub fn hex_digit_char(n: u8) -> (c: u8)
    requires
        n < 16,
    ensures
        c == hex_digit(n as int),
{
    if n < 10 {
        0x30 + n
    } else {
        0x61 + (n - 10)
    }
}

/// Appends the last `width` hex digits of `value` to `out`.
fn push_hex_digits(out: &mut Vec<u8>, value: u64, width: u32)
    ensures
        final(out)@ == old(out)@ + hex_digits(value as nat, width as nat),
    decreases width,
{
    if width > 0 {
        push_hex_digits(out, value / 16, width - 1);
        out.push(hex_digit_char((value % 16) as u8));
    }
}

/// Returns the number of hex digits that it takes to write `value`.
fn count_hex_digits(value: u64) -> (n: u32)
    ensures
        n == hex_len(value as nat),
        1 <= n <= 16,
    decreases value,
{
    if value < 16 {
        1
    } else {
        let rest: u32 = count_hex_digits(value / 16);
        proof {
            lemma_hex_len_bound(value as nat);
        }
        rest + 1
    }
}

/// A value below 2^64 has at most sixteen hex digits.
proof fn lemma_hex_len_bound(value: nat)
    requires
        value <= u64::MAX,
    ensures
        hex_len(value) <= 16,
{
    reveal_with_fuel(hex_len, 17);
}

/// Returns the text of an offset: hex, zero-padded to eight digits.
pub fn offset_text(value: u64) -> (text: Vec<u8>)
    ensures
        text@ == offset_label(value as nat),
{
    let digits: u32 = count_hex_digits(value);
    let width: u32 = if digits < OFFSET_DIGITS {
        OFFSET_DIGITS
    } else {
        digits
    };
    let mut text: Vec<u8> = Vec::new();
    push_hex_digits(&mut text, value, width);
    text
}

/// Returns row `row` of the hex pane for `buffer`.
pub fn hex_text(buffer: &Vec<u8>, row: u32) -> (text: Vec<u8>)
    ensures
        text@ == hex_row(buffer@, row as int),
{
    let mut text: Vec<u8> = Vec::new();
    let mut pair: u64 = 0;
    while pair < 8
        invariant
            pair <= 8,
            text@.len() == if pair == 0 {
                0
            } else {
                5 * pair - 1
            },
            forall|c: int| 0 <= c < text@.len() ==> text@[c] == hex_cell(buffer@, row as int, c),
        decreases 8 - pair,
    {
        if pair != 0 {
            text.push(BLANK);
        }
        let mut half: u64 = 0;
        while half < 2
            invariant
                pair < 8,
                half <= 2,
                text@.len() == 5 * pair + 2 * half,
                forall|c: int|
                    0 <= c < text@.len() ==> text@[c] == hex_cell(buffer@, row as int, c),
            decreases 2 - half,
        {
            let index: u64 = row as u64 * 16 + pair * 2 + half;
            // Check if the byte is out of bounds.
            if index >= buffer.len() as u64 {
                text.push(BLANK);
                text.push(BLANK);
            } else {
                let byte: u8 = buffer[index as usize];
                text.push(hex_digit_char(byte / 16));
                text.push(hex_digit_char(byte % 16));
            }
            half += 1;
        }
        pair += 1;
    }
    assert(text@ =~= hex_row(buffer@, row as int));
    text
}

/// Returns row `row` of the canonical pane for `buffer`.
pub fn canon_text(buffer: &Vec<u8>, row: u32) -> (text: Vec<u8>)
    ensures
        text@ == canon_row(buffer@, row as int),
{
    let mut text: Vec<u8> = Vec::new();
    let mut byte: u64 = 0;
    while byte < 16
        invariant
            byte <= 16,
            text@.len() == byte,
            forall|b: int| 0 <= b < byte ==> text@[b] == canon_cell(buffer@, row as int, b),
        decreases 16 - byte,
    {
        let index: u64 = row as u64 * 16 + byte;
        // Check if the character is out of bounds.
        let character: u8 = if index >= buffer.len() as u64 {
            BLANK
        } else {
            let cur_byte: u8 = buffer[index as usize];
            if check_printable(cur_byte) {
                cur_byte
            } else {
                PLACEHOLDER
            }
        };
        text.push(character);
        byte += 1;
    }
    assert(text@ =~= canon_row(buffer@, row as int));
    text
}

} // verus!
