//! The mathematical model of the wire format: what a chunk looks like at
//! a given position of a byte buffer, and how a scan for a tag proceeds.

use vstd::prelude::*;

verus! {

/// A tag byte is acceptable iff it is ASCII, that is, its high bit is clear.
pub open spec fn is_ascii_byte(b: u8) -> bool {
    b < 0x80
}

/// Every byte of the sequence is ASCII.
pub open spec fn all_ascii(s: Seq<u8>) -> bool {
    forall|i: int| 0 <= i < s.len() ==> is_ascii_byte(s[i])
}

/// The characters that a sequence of ASCII bytes spells, one character
/// per byte, with the same code point.
pub open spec fn chars_of_ascii(s: Seq<u8>) -> Seq<char> {
    s.map_values(|b: u8| b as char)
}

/// The value of four bytes read as an unsigned 32-bit little-endian integer.
pub open spec fn le32(s: Seq<u8>) -> int
    recommends
        s.len() == 4,
{
    s[0] + s[1] * 0x100 + s[2] * 0x1_0000 + s[3] * 0x100_0000
}

/// An 8-byte chunk header (tag and length) fits at `pos`.
pub open spec fn header_fits(data: Seq<u8>, pos: int) -> bool {
    0 <= pos && pos + 8 <= data.len()
}

/// The four tag bytes of the chunk header at `pos`.
pub open spec fn tag_at(data: Seq<u8>, pos: int) -> Seq<u8>
    recommends
        header_fits(data, pos),
{
    data.subrange(pos, pos + 4)
}

/// The declared payload length of the chunk header at `pos`.
pub open spec fn len_at(data: Seq<u8>, pos: int) -> int
    recommends
        header_fits(data, pos),
{
    le32(data.subrange(pos + 4, pos + 8))
}

/// The tag of the header at `pos` is all ASCII.
pub open spec fn tag_is_ascii(data: Seq<u8>, pos: int) -> bool
    recommends
        header_fits(data, pos),
{
    all_ascii(tag_at(data, pos))
}

/// The declared payload of the header at `pos` lies within the buffer.
pub open spec fn payload_fits(data: Seq<u8>, pos: int) -> bool
    recommends
        header_fits(data, pos),
{
    pos + 8 + len_at(data, pos) <= data.len()
}

/// A well-formed chunk starts at `pos`: the header fits, its tag is
/// ASCII, and the declared payload lies within the buffer.
pub open spec fn chunk_at(data: Seq<u8>, pos: int) -> bool {
    header_fits(data, pos) && tag_is_ascii(data, pos) && payload_fits(data, pos)
}

/// The payload bytes of the chunk at `pos`: exactly `len_at` bytes
/// following the header, never including the pad byte.
pub open spec fn payload_at(data: Seq<u8>, pos: int) -> Seq<u8>
    recommends
        chunk_at(data, pos),
{
    data.subrange(pos + 8, pos + 8 + len_at(data, pos))
}

/// The pad after a payload: one byte when the length is odd, none
/// when it is even.
pub open spec fn pad_len(len: int) -> int {
    if len % 2 == 1 {
        1
    } else {
        0
    }
}

/// Where the chunk after the one at `pos` begins: past the header, the
/// payload and the pad byte, clamped to the end of the buffer when the
/// pad byte of a final odd-length chunk would fall outside it.
pub open spec fn next_chunk_pos(data: Seq<u8>, pos: int) -> int
    recommends
        chunk_at(data, pos),
{
    let next = pos + 8 + len_at(data, pos) + pad_len(len_at(data, pos));
    if next <= data.len() {
        next
    } else {
        data.len() as int
    }
}

/// How a scan of the buffer for a tag ends: at a chunk bearing the tag,
/// at a clean end of data, or at a malformed chunk.
pub enum ScanOutcome {
    /// A chunk with the wanted tag starts at `pos`.
    Found { pos: int },
    /// The end of the buffer was reached without a match.
    Absent,
    /// The chunk at `pos` is malformed; the scan stops there.
    Fault { pos: int },
}

/// The outcome of scanning for `id` from `pos` to the end of the buffer,
/// visiting chunks in order. A position with fewer than 8 bytes left is a
/// clean end; a malformed chunk stops the scan; otherwise the first chunk
/// whose tag equals `id` is the match.
pub open spec fn scan_from(data: Seq<u8>, pos: int, id: Seq<u8>) -> ScanOutcome
    recommends
        0 <= pos <= data.len(),
    decreases data.len() - pos,
        when 0 <= pos <= data.len()
{
    if data.len() - pos < 8 {
        ScanOutcome::Absent
    } else if !chunk_at(data, pos) {
        ScanOutcome::Fault { pos }
    } else if tag_at(data, pos) == id {
        ScanOutcome::Found { pos }
    } else {
        scan_from(data, next_chunk_pos(data, pos), id)
    }
}

} // verus!
