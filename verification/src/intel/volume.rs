//! UEFI firmware volume headers.
//!
//! A volume starts with a fixed 56-byte header: a zero vector, the
//! filesystem GUID, the total volume length, the `_FVH` signature, a 32-bit
//! attribute set, and the length of the full header including the block
//! map. Erase polarity, one of the attribute bits, decides how file state
//! bits are read.

use vstd::prelude::*;
use crate::bytes::{le16, le64, le32};
use crate::err::Error;
use crate::guid::Guid;

verus! {

/// Bytes of the fixed volume header.
pub const HEADER_SIZE: usize = 56;

/// The erase polarity bit of the volume attribute set.
pub const ATTR_ERASE_POLARITY: u32 = 0x800;

/// The fixed header of a UEFI firmware volume.
#[derive(Copy, Clone, Debug, PartialEq, Eq)]
pub struct Header {
    /// 0x00: reserved zero vector.
    pub zero_vector: [u8; 16],
    /// 0x10: the filesystem GUID.
    pub guid: Guid,
    /// 0x20: length in bytes of the whole volume.
    pub length: u64,
    /// 0x28: `_FVH` when the header is valid.
    pub signature: [u8; 4],
    /// 0x2C: capability, polarity and alignment flags.
    pub attributes: u32,
    /// 0x30: length in bytes of the header including the block map.
    pub header_length: u16,
    /// 0x32: header checksum.
    pub checksum: u16,
    /// 0x34: reserved.
    pub reserved: [u8; 3],
    /// 0x37: header revision.
    pub revision: u8,
}

/// The volume header decoded from `d` at `pos`.
pub open spec fn spec_header(d: Seq<u8>, pos: int) -> Header {
    Header {
        zero_vector: crate::guid::bytes16(d, pos),
        guid: Guid { bytes: crate::guid::bytes16(d, pos + 16) },
        length: le64(d, pos + 32) as u64,
        signature: [d[pos + 40], d[pos + 41], d[pos + 42], d[pos + 43]],
        attributes: le32(d, pos + 44) as u32,
        header_length: le16(d, pos + 48) as u16,
        checksum: le16(d, pos + 50) as u16,
        reserved: [d[pos + 52], d[pos + 53], d[pos + 54]],
        revision: d[pos + 55],
    }
}

/// True when the bytes at `pos` carry the `_FVH` signature.
pub open spec fn signature_at(d: Seq<u8>, pos: int) -> bool {
    &&& d[pos + 40] == 0x5f
    &&& d[pos + 41] == 0x46
    &&& d[pos + 42] == 0x56
    &&& d[pos + 43] == 0x48
}

impl Header {
    /// True when the signature reads `_FVH`.
    pub open spec fn spec_valid(self) -> bool {
        self.signature@ == seq![0x5fu8, 0x46u8, 0x56u8, 0x48u8]
    }

    /// True when the signature reads `_FVH`.
    pub fn valid(&self) -> (r: bool)
        ensures
            r == self.spec_valid(),
    {
        let r = self.signature[0] == 0x5f && self.signature[1] == 0x46 && self.signature[2] == 0x56
            && self.signature[3] == 0x48;
        proof {
            assert(self.signature@.len() == 4);
            if r {
                assert(self.signature@ =~= seq![0x5fu8, 0x46u8, 0x56u8, 0x48u8]);
            }
        }
        r
    }

    /// The raw 32-bit attribute set.
    pub fn attributes(&self) -> (r: u32)
        ensures
            r == self.attributes,
    {
        self.attributes
    }

    /// True when the volume's erase polarity bit is set, so that erased
    /// flash reads as ones and file state bits are stored inverted.
    pub fn erase_polarity(&self) -> (r: bool)
        ensures
            r == (self.attributes & ATTR_ERASE_POLARITY == ATTR_ERASE_POLARITY),
    {
        self.attributes & ATTR_ERASE_POLARITY == ATTR_ERASE_POLARITY
    }

    /// Decodes the fixed header from a prefix of `d`; fails when the prefix
    /// is shorter than the record.
    pub fn from_prefix(d: &[u8]) -> (r: Result<Header, Error>)
        ensures
            match r {
                Ok(h) => d@.len() >= HEADER_SIZE && h == spec_header(d@, 0),
                Err(e) => d@.len() < HEADER_SIZE && e == Error::RecordTruncated(
                    "VolumeHeader",
                    HEADER_SIZE as u64,
                    d@.len() as u64,
                ),
            },
    {
        if d.len() < HEADER_SIZE {
            return Err(Error::RecordTruncated("VolumeHeader", HEADER_SIZE as u64, d.len() as u64));
        }
        Ok(read_header(d, 0))
    }
}

/// Decodes the fixed volume header of `d` at `pos`.
pub(crate) fn read_header(d: &[u8], pos: usize) -> (r: Header)
    requires
        pos + HEADER_SIZE <= d@.len(),
    ensures
        r == spec_header(d@, pos as int),
{
    let _len: usize = d.len();
    let h = Header {
        zero_vector: read_16(d, pos),
        guid: Guid { bytes: read_16(d, pos + 16) },
        length: crate::bytes::read_u64(d, pos + 32),
        signature: [d[pos + 40], d[pos + 41], d[pos + 42], d[pos + 43]],
        attributes: crate::bytes::read_u32(d, pos + 44),
        header_length: crate::bytes::read_u16(d, pos + 48),
        checksum: crate::bytes::read_u16(d, pos + 50),
        reserved: [d[pos + 52], d[pos + 53], d[pos + 54]],
        revision: d[pos + 55],
    };
    proof {
        assert(h.signature =~= spec_header(d@, pos as int).signature);
        assert(h.reserved =~= spec_header(d@, pos as int).reserved);
    }
    h
}

/// Copies sixteen bytes of `d` at `pos` into an array.
pub(crate) fn read_16(d: &[u8], pos: usize) -> (r: [u8; 16])
    requires
        pos + 16 <= d@.len(),
    ensures
        r@ == d@.subrange(pos as int, pos + 16),
        r == crate::guid::bytes16(d@, pos as int),
{
    let r = [
        d[pos],
        d[pos + 1],
        d[pos + 2],
        d[pos + 3],
        d[pos + 4],
        d[pos + 5],
        d[pos + 6],
        d[pos + 7],
        d[pos + 8],
        d[pos + 9],
        d[pos + 10],
        d[pos + 11],
        d[pos + 12],
        d[pos + 13],
        d[pos + 14],
        d[pos + 15],
    ];
    proof {
        assert(r@ =~= d@.subrange(pos as int, pos + 16));
        assert(r@ =~= crate::guid::bytes16(d@, pos as int)@);
    }
    r
}

/// A block map entry: a run of `num_blocks` blocks of `block_length` bytes.
#[derive(Copy, Clone, Debug, PartialEq, Eq, Structural)]
pub struct BlockEntry {
    pub num_blocks: u32,
    pub block_length: u32,
}

/// Bytes of a block map entry.
pub const BLOCK_ENTRY_SIZE: usize = 8;

/// The block map entry decoded from `d` at `pos`.
pub open spec fn spec_block_entry(d: Seq<u8>, pos: int) -> BlockEntry {
    BlockEntry { num_blocks: le32(d, pos) as u32, block_length: le32(d, pos + 4) as u32 }
}

impl BlockEntry {
    /// Decodes a block map entry from a prefix of `d`; fails when the
    /// prefix is shorter than the record.
    pub fn from_prefix(d: &[u8]) -> (r: Result<BlockEntry, Error>)
        ensures
            match r {
                Ok(b) => d@.len() >= BLOCK_ENTRY_SIZE && b == spec_block_entry(d@, 0),
                Err(e) => d@.len() < BLOCK_ENTRY_SIZE && e == Error::RecordTruncated(
                    "BlockEntry",
                    BLOCK_ENTRY_SIZE as u64,
                    d@.len() as u64,
                ),
            },
    {
        if d.len() < BLOCK_ENTRY_SIZE {
            return Err(
                Error::RecordTruncated("BlockEntry", BLOCK_ENTRY_SIZE as u64, d.len() as u64),
            );
        }
        Ok(BlockEntry {
            num_blocks: crate::bytes::read_u32(d, 0),
            block_length: crate::bytes::read_u32(d, 4),
        })
    }
}

} // verus!
