use crate::error::ViewError;
use vstd::prelude::*;

verus! {

/// Whether `byte` is shown as itself in the canonical pane: the printable
/// ASCII range, space included, DEL excluded.
pub open spec fn is_printable(byte: u8) -> bool {
    0x20 <= byte < 0x7f
}

/// Tells whether a byte has a canonical representation of its own.
pub fn check_printable(byte: u8) -> (printable: bool)
    ensures
        printable == is_printable(byte),
{
    byte >= 0x20 && byte < 0x7f
}

/// How many bytes of a chunk of `chunk_len` bytes are kept when `gathered`
/// bytes are there already and `size` are wanted in all.
pub open spec fn spec_chunk_share(gathered: int, chunk_len: int, size: int) -> int {
    if gathered + chunk_len <= size {
        chunk_len
    } else if gathered <= size {
        size - gathered
    } else {
        0
    }
}

/// Whether reading goes on after a chunk of `chunk_len` bytes was added to
/// `gathered` bytes: not after an empty chunk, which is the end of the file,
/// nor after a chunk with more bytes than were still missing.
pub open spec fn spec_reads_on(gathered: int, chunk_len: int, size: int) -> bool {
    chunk_len > 0 && gathered + chunk_len <= size
}

/// Adds to `vector` what one read of the file returned, without letting it
/// grow beyond `size` bytes, and tells whether to read on: that is so unless
/// the read returned nothing, which is the end of the file, or more than was
/// still missing.
pub fn append_chunk(vector: &mut Vec<u8>, chunk: &[u8], size: usize) -> (more: bool)
    ensures
        final(vector)@ == old(vector)@ + chunk@.take(
            spec_chunk_share(old(vector)@.len() as int, chunk@.len() as int, size as int),
        ),
        more == spec_reads_on(old(vector)@.len() as int, chunk@.len() as int, size as int),
{
    let all_read: usize = vector.len();
    let read: usize = chunk.len();
    let room: usize = if all_read <= size {
        size - all_read
    } else {
        0
    };
    // Still more data to read, or more read than requested.
    let share: usize = if read <= room {
        read
    } else {
        room
    };
    let mut i: usize = 0;
    while i < share
        invariant
            i <= share <= chunk@.len(),
            vector@ == old(vector)@ + chunk@.take(i as int),
        decreases share - i,
    {
        vector.push(chunk[i]);
        assert(chunk@.take(i as int).push(chunk@[i as int]) =~= chunk@.take(i + 1));
        i += 1;
    }
    read > 0 && all_read <= size && read <= room
}

/// What is gathered from `chunks[from..]`, the chunks that one read after
/// the other returns, when `vector` was gathered before them: each chunk is
/// added as `append_chunk` adds it, until that tells to stop or the chunks
/// run out.
pub open spec fn spec_gather(vector: Seq<u8>, chunks: Seq<Seq<u8>>, from: int, size: int) -> Seq<u8>
    decreases chunks.len() - from,
{
    if from < 0 || from >= chunks.len() {
        vector
    } else {
        let chunk = chunks[from];
        let next = vector + chunk.take(spec_chunk_share(vector.len() as int, chunk.len() as int, size));
        if spec_reads_on(vector.len() as int, chunk.len() as int, size) {
            spec_gather(next, chunks, from + 1, size)
        } else {
            next
        }
    }
}

/// Whether the gathering of `chunks[from..]` ends with a chunk after which
/// reading does not go on, and not for want of chunks.
pub open spec fn spec_gather_ends(gathered: int, chunks: Seq<Seq<u8>>, from: int, size: int) -> bool
    decreases chunks.len() - from,
{
    if from < 0 || from >= chunks.len() {
        false
    } else if spec_reads_on(gathered, chunks[from].len() as int, size) {
        spec_gather_ends(gathered + chunks[from].len(), chunks, from + 1, size)
    } else {
        true
    }
}

/// Whether `chunks[from..]` are what reads of a file return one after the
/// other, when `rest` is what the file holds from where the first of them
/// starts: each read returns bytes from the front of what is left, and none
/// only when nothing is left.
pub open spec fn spec_reads_of(rest: Seq<u8>, chunks: Seq<Seq<u8>>, from: int) -> bool
    decreases chunks.len() - from,
{
    if from < 0 || from >= chunks.len() {
        true
    } else {
        let n: int = chunks[from].len() as int;
        &&& n <= rest.len()
        &&& chunks[from] == rest.take(n)
        &&& n == 0 ==> rest.len() == 0
        &&& spec_reads_of(rest.skip(n), chunks, from + 1)
    }
}

/// Gathering the chunks that reads of a file return gives bytes from the
/// front of the file, no more than `size` of them. Where the gathering ends
/// with a chunk, it has gathered the first `size` bytes of the file, or all
/// of a file that holds fewer.
pub proof fn lemma_gather_reads(
    vector: Seq<u8>,
    rest: Seq<u8>,
    chunks: Seq<Seq<u8>>,
    from: int,
    size: int,
)
    requires
        0 <= from,
        vector.len() <= size,
        spec_reads_of(rest, chunks, from),
    ensures
        vector.len() <= spec_gather(vector, chunks, from, size).len() <= size,
        spec_gather(vector, chunks, from, size).len() <= vector.len() + rest.len(),
        spec_gather(vector, chunks, from, size) == (vector + rest).take(
            spec_gather(vector, chunks, from, size).len() as int,
        ),
        spec_gather_ends(vector.len() as int, chunks, from, size) ==> spec_gather(
            vector,
            chunks,
            from,
            size,
        ).len() == if vector.len() + rest.len() <= size {
            vector.len() + rest.len()
        } else {
            size as nat
        },
    decreases chunks.len() - from,
{
    if from >= chunks.len() {
        assert(vector =~= (vector + rest).take(vector.len() as int));
    } else {
        let chunk = chunks[from];
        let share: int = spec_chunk_share(vector.len() as int, chunk.len() as int, size);
        let next = vector + chunk.take(share);
        assert(next =~= (vector + rest).take(next.len() as int));
        if spec_reads_on(vector.len() as int, chunk.len() as int, size) {
            let left = rest.skip(chunk.len() as int);
            assert(next + left =~= vector + rest);
            lemma_gather_reads(next, left, chunks, from + 1, size);
        }
    }
}

/// Whether `c` is one of the digits 0-9, a-f, A-F.
pub open spec fn is_hex_digit(c: u8) -> bool {
    (0x30 <= c <= 0x39) || (0x61 <= c <= 0x66) || (0x41 <= c <= 0x46)
}

/// The value of a hex digit.
pub open spec fn hex_value(c: u8) -> int {
    if 0x30 <= c <= 0x39 {
        c - 0x30
    } else if 0x61 <= c <= 0x66 {
        c - 0x61 + 10
    } else {
        c - 0x41 + 10
    }
}

/// Whether every character of `digits` is a hex digit.
pub open spec fn all_hex_digits(digits: Seq<u8>) -> bool {
    forall|i: int| 0 <= i < digits.len() ==> is_hex_digit(#[trigger] digits[i])
}

/// The bytes that an even number of hex digits spell, two digits to a byte,
/// the first of the two being the upper half.
pub open spec fn spec_from_hex(digits: Seq<u8>) -> Seq<u8> {
    Seq::new(
        digits.len() / 2,
        |i: int| (16 * hex_value(digits[2 * i]) + hex_value(digits[2 * i + 1])) as u8,
    )
}

/// Whether `c` is one of the digits 0-9, a-f, A-F.
pub open spec fn spec_is_hex_char(c: char) -> bool {
    c as u32 <= 0x7f && is_hex_digit(c as u8)
}

/// What entering `input` as a byte gives: the byte, where the input is two
/// hex digits, and else no byte.
pub open spec fn spec_parse_hex_byte(input: Seq<char>) -> Result<u8, ViewError> {
    if input.len() == 2 && spec_is_hex_char(input[0]) && spec_is_hex_char(input[1]) {
        Ok((16 * hex_value(input[0] as u8) + hex_value(input[1] as u8)) as u8)
    } else {
        Err(ViewError::InvalidHexDigit)
    }
}

/// `hex::FromHexError`, the complaint of `hex` about a text that it does not
/// decode. Nothing is read from it.
#[verifier::external_type_specification]
#[verifier::external_body]
pub struct ExFromHexError(hex::FromHexError);

/// `hex::FromHex::from_hex` for `Vec<u8>`. It decodes exactly the texts of
/// even length that hold nothing but hex digits, in either case, and returns
/// one byte for each two digits, the first digit being the upper half.
#[verifier::external_body]
fn from_hex(digits: &Vec<u8>) -> (r: Result<Vec<u8>, hex::FromHexError>)
    ensures
        match r {
            Ok(bytes) => {
                &&& digits@.len() % 2 == 0
                &&& all_hex_digits(digits@)
                &&& bytes@ == spec_from_hex(digits@)
            },
            Err(_) => !(digits@.len() % 2 == 0 && all_hex_digits(digits@)),
        },
{
    <Vec<u8> as hex::FromHex>::from_hex(digits)
}

/// Tells whether `c` is one of the digits 0-9, a-f, A-F.
pub fn is_hex_char(c: char) -> (b: bool)
    ensures
        b == spec_is_hex_char(c),
{
    ('0' <= c && c <= '9') || ('a' <= c && c <= 'f') || ('A' <= c && c <= 'F')
}

/// Converts what was entered for a byte: two hex digits give the byte,
/// anything else is refused.
pub fn parse_hex_byte(input: &Vec<char>) -> (r: Result<u8, ViewError>)
    ensures
        r == spec_parse_hex_byte(input@),
{
    let mut digits: Vec<u8> = Vec::new();
    let mut i: usize = 0;
    while i < input.len()
        invariant
            i <= input@.len(),
            digits@.len() == i,
            forall|j: int| 0 <= j < i ==> spec_is_hex_char(#[trigger] input@[j]),
            forall|j: int| 0 <= j < i ==> (#[trigger] digits@[j]) == input@[j] as u8,
        decreases input@.len() - i,
    {
        let c: char = input[i];
        if !is_hex_char(c) {
            return Err(ViewError::InvalidHexDigit);
        }
        digits.push(c as u8);
        i += 1;
    }
    match from_hex(&digits) {
        Err(_) => Err(ViewError::InvalidHexDigit),
        Ok(byte_buf) => {
            if byte_buf.len() == 1 {
                Ok(byte_buf[0])
            } else {
                Err(ViewError::InvalidHexDigit)
            }
        },
    }
}

} // verus!
