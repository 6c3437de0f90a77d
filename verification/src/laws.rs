//! Laws that relate the public operations to one another, stated over
//! the same spec functions their contracts use.

use vstd::prelude::*;

use crate::error::RiffError;
use crate::reader::error_resume_pos;
use crate::reader::read_error_at;
use crate::wire::all_ascii;
use crate::wire::chars_of_ascii;
use crate::wire::chunk_at;
use crate::wire::header_fits;
use crate::wire::len_at;
use crate::wire::next_chunk_pos;
use crate::wire::pad_len;
use crate::wire::payload_fits;
use crate::wire::scan_from;
use crate::wire::tag_is_ascii;
use crate::wire::ScanOutcome;

verus! {

/// A tag built by `ChunkId::from_ascii` from four ASCII bytes reads
/// back through `to_ascii` as exactly those bytes' characters: the
/// text has four characters and each carries the code point of its
/// byte, so the text determines the four input bytes in full.
pub proof fn lemma_tag_round_trip(id: Seq<u8>, text: Seq<char>)
    requires
        id.len() == 4,
        all_ascii(id),
        text == chars_of_ascii(id),
    ensures
        text.len() == 4,
        forall|i: int| 0 <= i < 4 ==> text[i] == id[i] as char,
        forall|i: int| 0 <= i < 4 ==> text[i] as u32 == id[i] as u32,
{
    assert forall|i: int| 0 <= i < 4 implies text[i] as u32 == id[i] as u32 by {
        assert(text[i] == id[i] as char);
    }
}

/// With fewer than 8 bytes left at a position, no chunk header fits
/// there: a read at that position fails with `EndOfData` and leaves
/// the position where it was, whatever the buffer holds — including a
/// zero-length buffer.
pub proof fn lemma_short_tail_is_end_of_data(data: Seq<u8>, pos: int)
    requires
        0 <= pos <= data.len(),
        data.len() - pos < 8,
    ensures
        !chunk_at(data, pos),
        read_error_at(data, pos) == RiffError::EndOfData,
        error_resume_pos(data, pos) == pos,
{
}

/// Reading a well-formed chunk of declared length `L` moves the cursor
/// forward by exactly `8 + L`, plus one more for the pad byte after an
/// odd `L`, as long as that pad byte lies within the buffer.
pub proof fn lemma_read_advances_by_chunk_size(data: Seq<u8>, pos: int)
    requires
        chunk_at(data, pos),
        pos + 8 + len_at(data, pos) + pad_len(len_at(data, pos)) <= data.len(),
    ensures
        next_chunk_pos(data, pos) == pos + 8 + len_at(data, pos) + pad_len(len_at(data, pos)),
{
}

/// A chunk whose declared length exceeds the bytes remaining after its
/// header is malformed, and a read of it reports the position of its
/// length field together with the payload bytes actually available.
pub proof fn lemma_truncated_chunk_error(data: Seq<u8>, pos: int)
    requires
        header_fits(data, pos),
        tag_is_ascii(data, pos),
        !payload_fits(data, pos),
    ensures
        !chunk_at(data, pos),
        read_error_at(data, pos) == RiffError::UnexpectedEndOfData(
            (pos + 4) as usize,
            len_at(data, pos) as u32,
            (data.len() - pos - 8) as usize,
        ),
{
}

/// Two lookups of the same tag over an unmodified buffer end the same
/// way: the outcome of a scan is a function of the buffer and the tag
/// alone, never of a reader's sequential position.
pub proof fn lemma_lookup_deterministic(
    data: Seq<u8>,
    id: Seq<u8>,
    first: ScanOutcome,
    second: ScanOutcome,
)
    requires
        first == scan_from(data, 0, id),
        second == scan_from(data, 0, id),
    ensures
        first == second,
{
}

} // verus!
