//! Strings as the guest machine stores them: NUL-terminated sequences of
//! cells, either one character per cell (unpacked) or four characters per
//! cell, most significant byte first (packed).

use vstd::prelude::*;

use crate::cp1251::{decodable, decoded, encodable, encode, encoded, lemma_decode_encode};
use crate::error::{AmxError, AmxResult};
use crate::types::Cell;

verus! {

/// The largest first cell of an unpacked string; a string whose first cell is
/// larger (as an unsigned value) is packed.
pub const UNPACKED_MAX: u32 = 0x00FF_FFFF;

/// The guest's own rule: a string is packed when its first cell, read
/// unsigned, exceeds `UNPACKED_MAX`.
pub open spec fn packed_first(cells: Seq<Cell>) -> bool {
    cells.len() > 0 && (cells[0] as u32) > UNPACKED_MAX
}

/// How many characters the cells can hold in the given layout.
pub open spec fn char_capacity(cells: Seq<Cell>, packed: bool) -> int {
    capacity(cells.len() as int, packed)
}

/// How many characters `len` cells hold in the given layout.
pub open spec fn capacity(len: int, packed: bool) -> int {
    if packed {
        4 * len
    } else {
        len
    }
}

/// The `j`-th character byte of the cells in the given layout.
pub open spec fn char_at(cells: Seq<Cell>, packed: bool, j: int) -> u8 {
    if packed {
        (((cells[j / 4] as u32) >> ((8 * (3 - j % 4)) as u32)) & 0xFF) as u8
    } else {
        cells[j] as u8
    }
}

/// `bytes` is the string that starts at the first cell: the characters up to
/// the first zero byte, at most `size` of them, within the cells.
pub open spec fn is_string_of(cells: Seq<Cell>, size: int, bytes: Seq<u8>) -> bool {
    let packed = packed_first(cells);
    &&& bytes.len() <= size
    &&& bytes.len() <= char_capacity(cells, packed)
    &&& forall|j: int|
        0 <= j < bytes.len() ==> bytes[j] == #[trigger] char_at(cells, packed, j) && bytes[j] != 0
    &&& (bytes.len() < size && bytes.len() < char_capacity(cells, packed)) ==> char_at(
        cells,
        packed,
        bytes.len() as int,
    ) == 0
}

/// The string that starts at the first cell, at most `size` characters.
pub open spec fn string_of(cells: Seq<Cell>, size: int) -> Seq<u8> {
    choose|bytes: Seq<u8>| is_string_of(cells, size, bytes)
}

/// Only one byte sequence is the string of given cells.
pub proof fn lemma_string_unique(cells: Seq<Cell>, size: int, b1: Seq<u8>, b2: Seq<u8>)
    requires
        is_string_of(cells, size, b1),
        is_string_of(cells, size, b2),
    ensures
        b1 == b2,
{
    let packed = packed_first(cells);
    if b1.len() < b2.len() {
        assert(b2[b1.len() as int] == char_at(cells, packed, b1.len() as int));
    } else if b2.len() < b1.len() {
        assert(b1[b2.len() as int] == char_at(cells, packed, b2.len() as int));
    } else {
        assert forall|i: int| 0 <= i < b1.len() implies b1[i] == b2[i] by {
            assert(b1[i] == char_at(cells, packed, i));
            assert(b2[i] == char_at(cells, packed, i));
        }
        assert(b1 =~= b2);
    }
}

/// Whether a string whose first cell is `first` is packed.
pub fn is_packed(first: Cell) -> (r: bool)
    ensures
        r == ((first as u32) > UNPACKED_MAX),
{
    (first as u32) > UNPACKED_MAX
}

/// The `j`-th character byte of the cells.
fn char_at_exec(cells: &[Cell], packed: bool, j: usize) -> (r: u8)
    requires
        j < char_capacity(cells@, packed),
    ensures
        r == char_at(cells@, packed, j as int),
{
    if packed {
        let shift: u32 = (8 * (3 - j % 4)) as u32;
        (((cells[j / 4] as u32) >> shift) & 0xFF) as u8
    } else {
        cells[j] as u8
    }
}

/// Whether position `j` lies within the cells in the given layout.
fn within(len: usize, packed: bool, j: usize) -> (r: bool)
    ensures
        r == (j < capacity(len as int, packed)),
{
    if packed {
        j / 4 < len
    } else {
        j < len
    }
}

/// Reads the string that starts at the first cell, up to its terminator and at
/// most `size` characters, in the layout that the first cell indicates.
pub fn decode_bytes(cells: &[Cell], size: usize) -> (r: Vec<u8>)
    ensures
        is_string_of(cells@, size as int, r@),
        r@ == string_of(cells@, size as int),
{
    let r = decode_bytes_scan(cells, size);
    proof {
        lemma_string_unique(cells@, size as int, r@, string_of(cells@, size as int));
    }
    r
}

/// The scan behind `decode_bytes`.
fn decode_bytes_scan(cells: &[Cell], size: usize) -> (r: Vec<u8>)
    ensures
        is_string_of(cells@, size as int, r@),
{
    let mut out: Vec<u8> = Vec::new();
    if cells.len() == 0 {
        return out;
    }
    let packed = is_packed(cells[0]);
    let mut j: usize = 0;
    while j < size && within(cells.len(), packed, j)
        invariant
            packed == packed_first(cells@),
            j == out@.len(),
            j <= size,
            j <= char_capacity(cells@, packed),
            forall|k: int| 0 <= k < j ==> out@[k] == #[trigger] char_at(cells@, packed, k) && out@[k] != 0,
        decreases size - j,
    {
        let b = char_at_exec(cells, packed, j);
        if b == 0 {
            return out;
        }
        let ghost prev = out@;
        out.push(b);
        assert forall|k: int| 0 <= k < j + 1 implies out@[k] == #[trigger] char_at(cells@, packed, k)
            && out@[k] != 0 by {
            if k < j {
                assert(out@[k] == prev[k]);
            }
        }
        j = j + 1;
    }
    out
}

/// The length of the string that starts at the first cell.
pub fn string_length(cells: &[Cell]) -> (r: usize)
    ensures
        r == string_of(cells@, usize::MAX as int).len(),
        is_string_of(cells@, usize::MAX as int, string_of(cells@, usize::MAX as int)),
{
    decode_bytes(cells, usize::MAX).len()
}

/// The bytes of an unpacked guest string for the text: one byte of the code
/// page per character, then a zero terminator.
pub fn encode_unpacked(text: &str) -> (r: AmxResult<Vec<u8>>)
    ensures
        encodable(text@) ==> (r matches Ok(v) && v@ == encoded(text@).push(0u8)),
        !encodable(text@) ==> r == Err::<Vec<u8>, AmxError>(AmxError::Encoding),
{
    let mut bytes = encode(text)?;
    bytes.push(0);
    Ok(bytes)
}

/// Decoding bytes of the code page and encoding the text as an unpacked
/// string gives back the bytes and a terminator.
pub proof fn lemma_unpacked_round_trip(bytes: Seq<u8>)
    requires
        decodable(bytes),
    ensures
        encodable(decoded(bytes)),
        encoded(decoded(bytes)).push(0u8) == bytes.push(0u8),
{
    lemma_decode_encode(bytes);
}

/// Packed strings are never written by the host.
pub fn encode_packed(_text: &str) -> (r: AmxResult<Vec<u8>>)
    ensures
        r == Err::<Vec<u8>, AmxError>(AmxError::Unsupported),
{
    Err(AmxError::Unsupported)
}

/// One cell per byte, each holding the byte's value.
pub fn unpacked_cells(bytes: &[u8]) -> (r: Vec<Cell>)
    ensures
        r@.len() == bytes@.len(),
        forall|i: int| 0 <= i < bytes@.len() ==> r@[i] == bytes@[i] as Cell,
{
    let mut out: Vec<Cell> = Vec::new();
    let mut i: usize = 0;
    while i < bytes.len()
        invariant
            i <= bytes@.len(),
            out@.len() == i,
            forall|k: int| 0 <= k < i ==> out@[k] == bytes@[k] as Cell,
        decreases bytes.len() - i,
    {
        out.push(bytes[i] as Cell);
        i = i + 1;
    }
    out
}

} // verus!
