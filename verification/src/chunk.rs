//! The tag value type and the chunk view that a read produces.

use vstd::prelude::*;

use crate::error::RiffError;
use crate::wire::all_ascii;
use crate::wire::chars_of_ascii;

verus! {

/// The identifier of a chunk: four raw bytes, every one of them ASCII.
///
/// A `ChunkId` is built only through [`ChunkId::from_ascii`], which
/// rejects non-ASCII bytes, so every value of this type spells four
/// valid characters.
#[derive(Debug, Eq, Clone, Copy)]
pub struct ChunkId {
    id: [u8; 4],
}

impl PartialEq for ChunkId {
    /// Equality is structural: byte for byte over the four tag bytes.
    fn eq(&self, other: &ChunkId) -> (r: bool) {
        let r = self.id[0] == other.id[0] && self.id[1] == other.id[1] && self.id[2]
            == other.id[2] && self.id[3] == other.id[3];
        proof {
            if r {
                assert(self.id@ =~= other.id@);
            }
        }
        r
    }
}

impl vstd::std_specs::cmp::PartialEqSpecImpl for ChunkId {
    open spec fn obeys_eq_spec() -> bool {
        true
    }

    open spec fn eq_spec(&self, other: &ChunkId) -> bool {
        self@ == other@
    }
}

impl View for ChunkId {
    type V = Seq<u8>;

    closed spec fn view(&self) -> Seq<u8> {
        self.id@
    }
}

impl ChunkId {
    /// Every tag holds exactly four bytes, all of them ASCII.
    #[verifier::type_invariant]
    closed spec fn ascii_invariant(self) -> bool {
        all_ascii(self.id@)
    }

    /// Build a `ChunkId` from four raw bytes.
    ///
    /// Fails iff any byte has its high bit set, so that every constructed
    /// tag can later be read back as text.
    pub fn from_ascii(id: [u8; 4]) -> (r: Result<ChunkId, RiffError>)
        ensures
            r is Ok <==> all_ascii(id@),
            r matches Ok(c) ==> c@ == id@,
            r matches Err(e) ==> e == RiffError::InvalidIDNotASCII,
    {
        if id[0] < 0x80 && id[1] < 0x80 && id[2] < 0x80 && id[3] < 0x80 {
            assert(all_ascii(id@)) by {
                assert(forall|i: int| 0 <= i < 4 ==> id@[i] == id@.index(i));
            }
            Ok(ChunkId { id })
        } else {
            assert(!all_ascii(id@));
            Err(RiffError::InvalidIDNotASCII)
        }
    }

    /// Read the tag back as text: four characters, one per byte, each
    /// with the byte's own code point, borrowed without copying.
    pub fn to_ascii(&self) -> (r: &str)
        ensures
            r@ == chars_of_ascii(self@),
    {
        proof {
            use_type_invariant(self);
        }
        ascii_bytes_as_str(&self.id)
    }
}

/// Relies on `core::str::from_utf8`: ASCII bytes are valid UTF-8 and
/// decode to one character per byte with the byte's own code point.
#[verifier::external_body]
fn ascii_bytes_as_str(bytes: &[u8; 4]) -> (r: &str)
    requires
        all_ascii(bytes@),
    ensures
        r@ == chars_of_ascii(bytes@),
{
    core::str::from_utf8(bytes).unwrap()
}

/// One parsed chunk: its tag, its declared payload length, and the
/// payload itself, borrowed from the backing buffer without copying.
///
/// The view is valid only as long as the backing buffer is; the pad
/// byte after an odd-length payload is never part of `data`.
#[derive(Debug, PartialEq, Clone, Copy)]
pub struct Chunk<'a> {
    /// The payload bytes of the chunk.
    pub data: &'a [u8],
    /// The tag of the chunk.
    pub id: ChunkId,
    /// The declared payload length; always equal to `data.len()`.
    pub len: usize,
}

impl Chunk<'_> {
    /// The payload view holds exactly the declared number of bytes.
    pub open spec fn wf(self) -> bool {
        self.data@.len() == self.len
    }
}

} // verus!
