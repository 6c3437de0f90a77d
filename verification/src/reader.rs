//! The cursor over a byte buffer: the primitive field readers, chunk
//! assembly, sequential reading and tag lookup.

use vstd::prelude::*;

use crate::chunk::Chunk;
use crate::chunk::ChunkId;
use crate::error::RiffError;
use crate::wire::all_ascii;
use crate::wire::chunk_at;
use crate::wire::le32;
use crate::wire::len_at;
use crate::wire::next_chunk_pos;
use crate::wire::payload_at;
use crate::wire::scan_from;
use crate::wire::tag_at;
use crate::wire::tag_is_ascii;
use crate::wire::ScanOutcome;

verus! {

/// The error with which a read of the chunk at `pos` fails: a clean end
/// of data when no 8-byte header fits, a bad tag when the tag bytes are
/// not all ASCII, and a truncation report otherwise. The truncation
/// report carries the position of the length field, the declared
/// length, and the payload bytes actually remaining.
pub open spec fn read_error_at(data: Seq<u8>, pos: int) -> RiffError
    recommends
        0 <= pos <= data.len(),
        !chunk_at(data, pos),
{
    if data.len() - pos < 8 {
        RiffError::EndOfData
    } else if !tag_is_ascii(data, pos) {
        RiffError::EncounteredInvalidIDNotASCII(pos as usize)
    } else {
        RiffError::UnexpectedEndOfData(
            (pos + 4) as usize,
            len_at(data, pos) as u32,
            (data.len() - pos - 8) as usize,
        )
    }
}

/// The offset at which a failed read of the chunk at `pos` leaves the
/// cursor: untouched at a clean end of data, past the tag when the tag
/// was bad, and past the whole header when the payload was truncated.
pub open spec fn error_resume_pos(data: Seq<u8>, pos: int) -> int
    recommends
        0 <= pos <= data.len(),
        !chunk_at(data, pos),
{
    if data.len() - pos < 8 {
        pos
    } else if !tag_is_ascii(data, pos) {
        pos + 4
    } else {
        pos + 8
    }
}

/// A reader over an underlying RIFF-formatted byte buffer.
///
/// Holds a borrowed, immutable buffer and the offset of the next unread
/// chunk header. Construction does not validate the buffer; every read
/// is bounds-checked as it happens.
#[derive(Debug, PartialEq, Clone, Copy)]
pub struct RiffReader<'a> {
    data: &'a [u8],
    pos: usize,
}

impl<'a> RiffReader<'a> {
    /// The bytes of the underlying buffer.
    pub closed spec fn buf(self) -> Seq<u8> {
        self.data@
    }

    /// The offset at which the next sequential read will start.
    pub closed spec fn cursor(self) -> int {
        self.pos as int
    }

    /// The cursor never leaves the buffer.
    #[verifier::type_invariant]
    closed spec fn cursor_in_bounds(self) -> bool {
        self.pos <= self.data@.len()
    }

    /// Creates a new `RiffReader` over an underlying byte buffer,
    /// positioned at its start.
    ///
    /// The buffer is not checked here for being valid RIFF data.
    pub fn new(data: &'a [u8]) -> (r: RiffReader<'a>)
        ensures
            r.buf() == data@,
            r.cursor() == 0,
    {
        RiffReader { data, pos: 0 }
    }

    /// Reads the next chunk out of the underlying byte buffer and moves
    /// the cursor to whatever offset that read ends at, on success and
    /// on failure alike.
    ///
    /// A well-formed chunk at the cursor is returned exactly as it lies
    /// in the buffer, with the cursor moved past it; otherwise the
    /// error is the one `read_error_at` assigns to the cursor, with the
    /// cursor left at `error_resume_pos`, which records how far parsing
    /// got but does not promise a safe continuation. The returned
    /// `Chunk` borrows the buffer rather than copying it, so it cannot
    /// outlive the buffer.
    pub fn read_next_chunk(&mut self) -> (r: Result<Chunk<'a>, RiffError>)
        ensures
            final(self).buf() == old(self).buf(),
            old(self).cursor() <= final(self).cursor() <= final(self).buf().len(),
            chunk_at(old(self).buf(), old(self).cursor()) ==> ({
                &&& r matches Ok(c)
                &&& c.id@ == tag_at(old(self).buf(), old(self).cursor())
                &&& c.len == len_at(old(self).buf(), old(self).cursor())
                &&& c.data@ == payload_at(old(self).buf(), old(self).cursor())
                &&& c.wf()
                &&& final(self).cursor() == next_chunk_pos(old(self).buf(), old(self).cursor())
            }),
            !chunk_at(old(self).buf(), old(self).cursor()) ==> ({
                &&& r == Err::<Chunk<'a>, RiffError>(
                    read_error_at(old(self).buf(), old(self).cursor()),
                )
                &&& final(self).cursor() == error_resume_pos(old(self).buf(), old(self).cursor())
            }),
    {
        proof {
            use_type_invariant(&*self);
        }
        let (new_pos, result) = read_chunk_at(self.data, self.pos);
        // Move to the next chunk for the next call.
        self.pos = new_pos;
        result
    }

    /// Returns the chunk with the given ID, if present; `None` if the
    /// buffer runs out before a match.
    ///
    /// The scan always starts from the beginning of the buffer, never
    /// from the cursor, and leaves the cursor untouched. A clean end of
    /// data is absence, not an error; any other failure before a match
    /// aborts the scan and is handed through unchanged. Chunks inside
    /// other chunks are not searched.
    pub fn get_chunk(&self, wanted_id: ChunkId) -> (r: Option<Result<Chunk<'a>, RiffError>>)
        ensures
            match scan_from(self.buf(), 0, wanted_id@) {
                ScanOutcome::Found { pos } => {
                    &&& r matches Some(res)
                    &&& res matches Ok(c)
                    &&& c.id@ == wanted_id@
                    &&& c.id@ == tag_at(self.buf(), pos)
                    &&& c.len == len_at(self.buf(), pos)
                    &&& c.data@ == payload_at(self.buf(), pos)
                    &&& c.wf()
                },
                ScanOutcome::Absent => r is None,
                ScanOutcome::Fault { pos } => {
                    &&& r matches Some(res)
                    &&& res == Err::<Chunk<'a>, RiffError>(read_error_at(self.buf(), pos))
                },
            },
    {
        proof {
            use_type_invariant(&*self);
        }
        let data = self.data;
        // Walk chunk by chunk from the start of the buffer until a
        // matching ID, the end of the data, or a malformed chunk.
        let mut pos: usize = 0;
        loop
            invariant
                data@ == self.buf(),
                pos <= data@.len(),
                scan_from(data@, pos as int, wanted_id@) == scan_from(data@, 0, wanted_id@),
            decreases data@.len() - pos,
        {
            let (new_pos, result) = read_chunk_at(data, pos);
            match result {
                Ok(chunk) => {
                    if chunk.id == wanted_id {
                        return Some(Ok(chunk));
                    }
                },
                Err(err) => match err {
                    // Exhausted without having found a matching chunk.
                    RiffError::EndOfData => {
                        return None;
                    },
                    // Any other failure aborts the scan.
                    _ => {
                        return Some(Err(err));
                    },
                },
            }
            pos = new_pos;
        }
    }
}

/// Read the four tag bytes at `pos`.
///
/// Fails with `EndOfData` when fewer than four bytes remain, and with
/// `EncounteredInvalidIDNotASCII` naming `pos` itself when any of the
/// four bytes is not ASCII; on that latter failure the returned offset
/// has still advanced past the tag.
pub fn read_id_at(data: &[u8], pos: usize) -> (r: (usize, Result<[u8; 4], RiffError>))
    requires
        pos <= data@.len(),
    ensures
        data@.len() - pos < 4 ==> r == (
            (pos, Err::<[u8; 4], RiffError>(RiffError::EndOfData))
        ),
        data@.len() - pos >= 4 && !all_ascii(data@.subrange(pos as int, pos + 4)) ==> r == (
            (
                (pos + 4) as usize,
                Err::<[u8; 4], RiffError>(RiffError::EncounteredInvalidIDNotASCII(pos)),
            )
        ),
        data@.len() - pos >= 4 && all_ascii(data@.subrange(pos as int, pos + 4)) ==> ({
            &&& r.0 == pos + 4
            &&& r.1 matches Ok(b) && b@ == data@.subrange(pos as int, pos + 4)
        }),
{
    if data.len() - pos < 4 {
        return (pos, Err(RiffError::EndOfData));
    }
    let b0 = *vstd::slice::slice_index_get(data, pos);
    let b1 = *vstd::slice::slice_index_get(data, pos + 1);
    let b2 = *vstd::slice::slice_index_get(data, pos + 2);
    let b3 = *vstd::slice::slice_index_get(data, pos + 3);
    let bytes: [u8; 4] = [b0, b1, b2, b3];
    let ghost tag = data@.subrange(pos as int, pos + 4);
    assert(bytes@ =~= tag);
    if b0 < 0x80 && b1 < 0x80 && b2 < 0x80 && b3 < 0x80 {
        assert(all_ascii(tag)) by {
            assert(forall|i: int| 0 <= i < 4 ==> tag[i] == bytes@[i]);
        }
        (pos + 4, Ok(bytes))
    } else {
        assert(!all_ascii(tag));
        (pos + 4, Err(RiffError::EncounteredInvalidIDNotASCII(pos)))
    }
}

/// Read the 4-byte little-endian length field at `pos`.
///
/// Fails with `EndOfData` when fewer than four bytes remain; any 32-bit
/// value is structurally legal here, so nothing else can fail.
pub fn read_len_at(data: &[u8], pos: usize) -> (r: (usize, Result<u32, RiffError>))
    requires
        pos <= data@.len(),
    ensures
        data@.len() - pos < 4 ==> r == ((pos, Err::<u32, RiffError>(RiffError::EndOfData))),
        data@.len() - pos >= 4 ==> ({
            &&& r.0 == pos + 4
            &&& r.1 matches Ok(v) && v == le32(data@.subrange(pos as int, pos + 4))
        }),
{
    if data.len() - pos < 4 {
        return (pos, Err(RiffError::EndOfData));
    }
    let b0 = *vstd::slice::slice_index_get(data, pos) as u32;
    let b1 = *vstd::slice::slice_index_get(data, pos + 1) as u32;
    let b2 = *vstd::slice::slice_index_get(data, pos + 2) as u32;
    let b3 = *vstd::slice::slice_index_get(data, pos + 3) as u32;
    let v = b0 + b1 * 0x100 + b2 * 0x1_0000 + b3 * 0x100_0000;
    (pos + 4, Ok(v))
}

/// Read a payload of `len` bytes at `pos`; the length field that
/// declared `len` is taken to start at `pos - 4`.
///
/// On success the payload is a borrowed sub-slice of exactly `len`
/// bytes, and the offset advances past it and past the pad byte after
/// an odd length, though never beyond the end of the buffer. When fewer
/// than `len` bytes remain, fails with `UnexpectedEndOfData` naming the
/// length field's position, the declared length, and the bytes that do
/// remain, and the offset stays put.
pub fn read_data_at<'a>(data: &'a [u8], pos: usize, len: usize) -> (r: (
    usize,
    Result<&'a [u8], RiffError>,
))
    requires
        4 <= pos <= data@.len(),
        len <= u32::MAX,
    ensures
        data@.len() - pos >= len ==> ({
            &&& r.1 matches Ok(b) && b@ == data@.subrange(pos as int, pos + len)
            &&& r.0 == if len % 2 == 1 && pos + len < data@.len() {
                pos + len + 1
            } else {
                pos + len
            }
        }),
        data@.len() - pos < len ==> r == (
            (
                pos,
                Err::<&'a [u8], RiffError>(
                    RiffError::UnexpectedEndOfData(
                        (pos - 4) as usize,
                        len as u32,
                        (data@.len() - pos) as usize,
                    ),
                ),
            )
        ),
{
    if data.len() - pos >= len {
        let payload = vstd::slice::slice_subrange(data, pos, pos + len);
        let mut new_pos = pos + len;
        if len % 2 == 1 && new_pos < data.len() {
            new_pos = new_pos + 1;
        }
        (new_pos, Ok(payload))
    } else {
        (pos, Err(RiffError::UnexpectedEndOfData(pos - 4, len as u32, data.len() - pos)))
    }
}

/// Read the chunk starting at `pos`: tag, then length, then payload,
/// stopping at the first failure; also return the offset at which the
/// next read should begin.
///
/// When a well-formed chunk starts at `pos` the result describes it
/// exactly and the offset moves to the following chunk; otherwise the
/// error and the offset are the ones `read_error_at` and
/// `error_resume_pos` assign to `pos`. Fewer than 8 remaining bytes is
/// the one clean end: it always surfaces as `EndOfData`.
pub fn read_chunk_at<'a>(data: &'a [u8], pos: usize) -> (r: (usize, Result<Chunk<'a>, RiffError>))
    requires
        pos <= data@.len(),
    ensures
        chunk_at(data@, pos as int) ==> ({
            &&& r.1 matches Ok(c)
            &&& c.id@ == tag_at(data@, pos as int)
            &&& c.len == len_at(data@, pos as int)
            &&& c.data@ == payload_at(data@, pos as int)
            &&& c.wf()
            &&& r.0 == next_chunk_pos(data@, pos as int)
            &&& r.0 >= pos + 8
        }),
        !chunk_at(data@, pos as int) ==> ({
            &&& r.1 == Err::<Chunk<'a>, RiffError>(read_error_at(data@, pos as int))
            &&& r.0 == error_resume_pos(data@, pos as int)
        }),
        pos <= r.0 <= data@.len(),
{
    // The smallest possible chunk is a bare 8-byte header; anything
    // shorter is a clean end of data, reported the same way whether it
    // is caught here or inside a field reader.
    if data.len() - pos < 8 {
        return (pos, Err(RiffError::EndOfData));
    }
    let mut cur = pos;
    let id_bytes: [u8; 4];
    match read_id_at(data, cur) {
        (new_pos, Ok(val)) => {
            cur = new_pos;
            id_bytes = val;
        },
        (new_pos, Err(err)) => {
            return (new_pos, Err(err));
        },
    }
    let id = ChunkId::from_ascii(id_bytes).unwrap();
    let len32: u32;
    match read_len_at(data, cur) {
        (new_pos, Ok(val)) => {
            cur = new_pos;
            len32 = val;
        },
        (new_pos, Err(err)) => {
            return (new_pos, Err(err));
        },
    }
    let len = len32 as usize;
    let payload: &[u8];
    match read_data_at(data, cur, len) {
        (new_pos, Ok(val)) => {
            cur = new_pos;
            payload = val;
        },
        (new_pos, Err(err)) => {
            return (new_pos, Err(err));
        },
    }
    (cur, Ok(Chunk { data: payload, id, len }))
}

} // verus!
