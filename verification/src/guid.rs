//! Opaque 16-byte identifiers.
//!
//! A GUID names a filesystem, a file or a section payload format. The
//! library never looks inside one: it copies the sixteen on-media bytes out
//! and compares them whole.

use vstd::prelude::*;

verus! {

/// A GUID, held as its sixteen on-media bytes.
#[derive(Copy, Clone, Debug, PartialEq, Eq)]
pub struct Guid {
    pub bytes: [u8; 16],
}

/// The sixteen bytes of `d` at `pos`, as an array.
pub open spec fn bytes16(d: Seq<u8>, pos: int) -> [u8; 16] {
    [
        d[pos],
        d[pos + 1],
        d[pos + 2],
        d[pos + 3],
        d[pos + 4],
        d[pos + 5],
        d[pos + 6],
        d[pos + 7],
        d[pos + 8],
        d[pos + 9],
        d[pos + 10],
        d[pos + 11],
        d[pos + 12],
        d[pos + 13],
        d[pos + 14],
        d[pos + 15],
    ]
}

impl Guid {
    /// True when both GUIDs hold the same sixteen bytes.
    pub fn matches(&self, other: &Guid) -> (r: bool)
        ensures
            r == (self.bytes@ == other.bytes@),
    {
        let mut i: usize = 0;
        while i < 16
            invariant
                i <= 16,
                forall|k: int| 0 <= k < i ==> self.bytes@[k] == other.bytes@[k],
            decreases 16 - i,
        {
            if self.bytes[i] != other.bytes[i] {
                return false;
            }
            i = i + 1;
        }
        proof {
            assert(self.bytes@ =~= other.bytes@);
        }
        true
    }
}

/// The GUID that marks a GUID-defined section as an LZMA-compressed stream
/// of sections.
pub fn section_lzma_compress_guid() -> (r: Guid)
    ensures
        r.bytes@ == section_lzma_compress_guid_bytes(),
{
    let r = Guid {
        bytes: [
            0x98, 0x58, 0x4e, 0xee, 0x14, 0x39, 0x59, 0x42, 0x9d, 0x6e, 0xdc, 0x7b, 0xd7, 0x94,
            0x03, 0xcf,
        ],
    };
    proof {
        assert(r.bytes@ =~= section_lzma_compress_guid_bytes());
    }
    r
}

/// The on-media bytes of the LZMA compression section GUID,
/// `EE4E5898-3914-4259-9D6E-DC7BD79403CF` in canonical text.
pub open spec fn section_lzma_compress_guid_bytes() -> Seq<u8> {
    seq![
        0x98u8, 0x58u8, 0x4eu8, 0xeeu8, 0x14u8, 0x39u8, 0x59u8, 0x42u8, 0x9du8, 0x6eu8, 0xdcu8,
        0x7bu8, 0xd7u8, 0x94u8, 0x03u8, 0xcfu8,
    ]
}

} // verus!
