//! Fixed-layout records of the Intel flash descriptor area.
//!
//! Each record matches the on-media byte layout exactly; the constructors
//! borrow a prefix of a byte slice and copy every scalar field out by value,
//! so that no unaligned reference ever exists.

use vstd::prelude::*;
use crate::bytes::le32;
use crate::err::Error;

verus! {

/// Bytes of the descriptor record: four map words at offset 0, a reserved
/// area, and the upper map word at offset 0xEEC.
pub const DESCRIPTOR_SIZE: usize = 0xEF0;

/// Bytes of the nine-word flash region table.
pub const REGION_SIZE: usize = 36;

/// Bytes of the component record.
pub const COMPONENT_SIZE: usize = 12;

/// Bytes of the eighteen-word PCH strap table.
pub const PCHSTRAP_SIZE: usize = 72;

/// Bytes of the master record.
pub const MASTER_SIZE: usize = 20;

/// Bytes of the eight-word processor strap table.
pub const PROCSTRAP_SIZE: usize = 32;

/// The Intel flash descriptor record.
#[derive(Copy, Clone, Debug, PartialEq, Eq, Structural)]
pub struct Descriptor {
    /// 0x00: the anchor signature, `5A A5 F0 0F` on media.
    pub valsig: u32,
    /// 0x04: locates the region table through bits 16..24.
    pub map0: u32,
    /// 0x08: locates the PCH strap table through bits 16..24.
    pub map1: u32,
    /// 0x0C: third map word.
    pub map2: u32,
    /// 0xEEC: upper map word.
    pub umap1: u32,
}

/// The descriptor decoded from `d` at `pos`.
pub open spec fn spec_descriptor(d: Seq<u8>, pos: int) -> Descriptor {
    Descriptor {
        valsig: le32(d, pos) as u32,
        map0: le32(d, pos + 4) as u32,
        map1: le32(d, pos + 8) as u32,
        map2: le32(d, pos + 12) as u32,
        umap1: le32(d, pos + 0xEEC) as u32,
    }
}

/// Decoding is the inverse of encoding: a buffer that holds the
/// little-endian bytes of every field of `desc` at `pos` decodes to
/// `desc`.
pub proof fn lemma_descriptor_round_trip(d: Seq<u8>, pos: int, desc: Descriptor)
    requires
        0 <= pos,
        pos + DESCRIPTOR_SIZE <= d.len(),
        d.subrange(pos, pos + 4) == crate::bytes::u32_le_bytes(desc.valsig),
        d.subrange(pos + 4, pos + 8) == crate::bytes::u32_le_bytes(desc.map0),
        d.subrange(pos + 8, pos + 12) == crate::bytes::u32_le_bytes(desc.map1),
        d.subrange(pos + 12, pos + 16) == crate::bytes::u32_le_bytes(desc.map2),
        d.subrange(pos + 0xEEC, pos + 0xEF0) == crate::bytes::u32_le_bytes(desc.umap1),
    ensures
        spec_descriptor(d, pos) == desc,
{
    crate::bytes::lemma_le32_of_u32(d, pos, desc.valsig);
    crate::bytes::lemma_le32_of_u32(d, pos + 4, desc.map0);
    crate::bytes::lemma_le32_of_u32(d, pos + 8, desc.map1);
    crate::bytes::lemma_le32_of_u32(d, pos + 12, desc.map2);
    crate::bytes::lemma_le32_of_u32(d, pos + 0xEEC, desc.umap1);
}

impl Descriptor {
    /// Decodes the descriptor from a prefix of `d`; fails when the prefix is
    /// shorter than the record.
    pub fn from_prefix(d: &[u8]) -> (r: Result<Descriptor, Error>)
        ensures
            match r {
                Ok(desc) => d@.len() >= DESCRIPTOR_SIZE && desc == spec_descriptor(d@, 0),
                Err(e) => d@.len() < DESCRIPTOR_SIZE && e == Error::RecordTruncated(
                    "Descriptor",
                    DESCRIPTOR_SIZE as u64,
                    d@.len() as u64,
                ),
            },
    {
        if d.len() < DESCRIPTOR_SIZE {
            return Err(Error::RecordTruncated("Descriptor", DESCRIPTOR_SIZE as u64, d.len() as u64));
        }
        Ok(Descriptor {
            valsig: crate::bytes::read_u32(d, 0),
            map0: crate::bytes::read_u32(d, 4),
            map1: crate::bytes::read_u32(d, 8),
            map2: crate::bytes::read_u32(d, 12),
            umap1: crate::bytes::read_u32(d, 0xEEC),
        })
    }
}

/// The flash region table: nine little-endian words.
#[derive(Copy, Clone, Debug, PartialEq, Eq)]
pub struct Region {
    pub data: [u32; 9],
}

/// The region table decoded from `d` at `pos`.
pub open spec fn spec_region(d: Seq<u8>, pos: int) -> Region {
    Region {
        data: [
            le32(d, pos) as u32,
            le32(d, pos + 4) as u32,
            le32(d, pos + 8) as u32,
            le32(d, pos + 12) as u32,
            le32(d, pos + 16) as u32,
            le32(d, pos + 20) as u32,
            le32(d, pos + 24) as u32,
            le32(d, pos + 28) as u32,
            le32(d, pos + 32) as u32,
        ],
    }
}

impl Region {
    /// Decodes the region table from a prefix of `d`; fails when the prefix
    /// is shorter than the record.
    pub fn from_prefix(d: &[u8]) -> (r: Result<Region, Error>)
        ensures
            match r {
                Ok(reg) => d@.len() >= REGION_SIZE && reg == spec_region(d@, 0),
                Err(e) => d@.len() < REGION_SIZE && e == Error::RecordTruncated(
                    "Region",
                    REGION_SIZE as u64,
                    d@.len() as u64,
                ),
            },
    {
        if d.len() < REGION_SIZE {
            return Err(Error::RecordTruncated("Region", REGION_SIZE as u64, d.len() as u64));
        }
        Ok(Region {
            data: [
                crate::bytes::read_u32(d, 0),
                crate::bytes::read_u32(d, 4),
                crate::bytes::read_u32(d, 8),
                crate::bytes::read_u32(d, 12),
                crate::bytes::read_u32(d, 16),
                crate::bytes::read_u32(d, 20),
                crate::bytes::read_u32(d, 24),
                crate::bytes::read_u32(d, 28),
                crate::bytes::read_u32(d, 32),
            ],
        })
    }
}

/// The flash component record.
#[derive(Copy, Clone, Debug, PartialEq, Eq, Structural)]
pub struct Component {
    pub comp: u32,
    pub ill: u32,
    pub pb: u32,
}

/// The component record decoded from `d` at `pos`.
pub open spec fn spec_component(d: Seq<u8>, pos: int) -> Component {
    Component {
        comp: le32(d, pos) as u32,
        ill: le32(d, pos + 4) as u32,
        pb: le32(d, pos + 8) as u32,
    }
}

impl Component {
    /// Decodes the component record from a prefix of `d`; fails when the
    /// prefix is shorter than the record.
    pub fn from_prefix(d: &[u8]) -> (r: Result<Component, Error>)
        ensures
            match r {
                Ok(c) => d@.len() >= COMPONENT_SIZE && c == spec_component(d@, 0),
                Err(e) => d@.len() < COMPONENT_SIZE && e == Error::RecordTruncated(
                    "Component",
                    COMPONENT_SIZE as u64,
                    d@.len() as u64,
                ),
            },
    {
        if d.len() < COMPONENT_SIZE {
            return Err(Error::RecordTruncated("Component", COMPONENT_SIZE as u64, d.len() as u64));
        }
        Ok(Component {
            comp: crate::bytes::read_u32(d, 0),
            ill: crate::bytes::read_u32(d, 4),
            pb: crate::bytes::read_u32(d, 8),
        })
    }
}

/// The PCH strap table: eighteen little-endian words.
#[derive(Copy, Clone, Debug, PartialEq, Eq)]
pub struct PchStrap {
    pub data: [u32; 18],
}

/// The PCH strap table decoded from `d` at `pos`.
pub open spec fn spec_pchstrap(d: Seq<u8>, pos: int) -> PchStrap {
    PchStrap {
        data: [
            le32(d, pos) as u32,
            le32(d, pos + 4) as u32,
            le32(d, pos + 8) as u32,
            le32(d, pos + 12) as u32,
            le32(d, pos + 16) as u32,
            le32(d, pos + 20) as u32,
            le32(d, pos + 24) as u32,
            le32(d, pos + 28) as u32,
            le32(d, pos + 32) as u32,
            le32(d, pos + 36) as u32,
            le32(d, pos + 40) as u32,
            le32(d, pos + 44) as u32,
            le32(d, pos + 48) as u32,
            le32(d, pos + 52) as u32,
            le32(d, pos + 56) as u32,
            le32(d, pos + 60) as u32,
            le32(d, pos + 64) as u32,
            le32(d, pos + 68) as u32,
        ],
    }
}

impl PchStrap {
    /// Decodes the PCH strap table from a prefix of `d`; fails when the
    /// prefix is shorter than the record.
    pub fn from_prefix(d: &[u8]) -> (r: Result<PchStrap, Error>)
        ensures
            match r {
                Ok(p) => d@.len() >= PCHSTRAP_SIZE && p == spec_pchstrap(d@, 0),
                Err(e) => d@.len() < PCHSTRAP_SIZE && e == Error::RecordTruncated(
                    "PchStrap",
                    PCHSTRAP_SIZE as u64,
                    d@.len() as u64,
                ),
            },
    {
        if d.len() < PCHSTRAP_SIZE {
            return Err(Error::RecordTruncated("PchStrap", PCHSTRAP_SIZE as u64, d.len() as u64));
        }
        Ok(PchStrap {
            data: [
                crate::bytes::read_u32(d, 0),
                crate::bytes::read_u32(d, 4),
                crate::bytes::read_u32(d, 8),
                crate::bytes::read_u32(d, 12),
                crate::bytes::read_u32(d, 16),
                crate::bytes::read_u32(d, 20),
                crate::bytes::read_u32(d, 24),
                crate::bytes::read_u32(d, 28),
                crate::bytes::read_u32(d, 32),
                crate::bytes::read_u32(d, 36),
                crate::bytes::read_u32(d, 40),
                crate::bytes::read_u32(d, 44),
                crate::bytes::read_u32(d, 48),
                crate::bytes::read_u32(d, 52),
                crate::bytes::read_u32(d, 56),
                crate::bytes::read_u32(d, 60),
                crate::bytes::read_u32(d, 64),
                crate::bytes::read_u32(d, 68),
            ],
        })
    }
}

/// The flash master record.
#[derive(Copy, Clone, Debug, PartialEq, Eq, Structural)]
pub struct Master {
    pub mstr1: u32,
    pub mstr2: u32,
    pub mstr3: u32,
    pub mstr4: u32,
    pub mstr5: u32,
}

/// The master record decoded from `d` at `pos`.
pub open spec fn spec_master(d: Seq<u8>, pos: int) -> Master {
    Master {
        mstr1: le32(d, pos) as u32,
        mstr2: le32(d, pos + 4) as u32,
        mstr3: le32(d, pos + 8) as u32,
        mstr4: le32(d, pos + 12) as u32,
        mstr5: le32(d, pos + 16) as u32,
    }
}

impl Master {
    /// Decodes the master record from a prefix of `d`; fails when the prefix
    /// is shorter than the record.
    pub fn from_prefix(d: &[u8]) -> (r: Result<Master, Error>)
        ensures
            match r {
                Ok(m) => d@.len() >= MASTER_SIZE && m == spec_master(d@, 0),
                Err(e) => d@.len() < MASTER_SIZE && e == Error::RecordTruncated(
                    "Master",
                    MASTER_SIZE as u64,
                    d@.len() as u64,
                ),
            },
    {
        if d.len() < MASTER_SIZE {
            return Err(Error::RecordTruncated("Master", MASTER_SIZE as u64, d.len() as u64));
        }
        Ok(Master {
            mstr1: crate::bytes::read_u32(d, 0),
            mstr2: crate::bytes::read_u32(d, 4),
            mstr3: crate::bytes::read_u32(d, 8),
            mstr4: crate::bytes::read_u32(d, 12),
            mstr5: crate::bytes::read_u32(d, 16),
        })
    }
}

/// The processor strap table: eight little-endian words.
#[derive(Copy, Clone, Debug, PartialEq, Eq)]
pub struct ProcStrap {
    pub data: [u32; 8],
}

/// The processor strap table decoded from `d` at `pos`.
pub open spec fn spec_procstrap(d: Seq<u8>, pos: int) -> ProcStrap {
    ProcStrap {
        data: [
            le32(d, pos) as u32,
            le32(d, pos + 4) as u32,
            le32(d, pos + 8) as u32,
            le32(d, pos + 12) as u32,
            le32(d, pos + 16) as u32,
            le32(d, pos + 20) as u32,
            le32(d, pos + 24) as u32,
            le32(d, pos + 28) as u32,
        ],
    }
}

impl ProcStrap {
    /// Decodes the processor strap table from a prefix of `d`; fails when
    /// the prefix is shorter than the record.
    pub fn from_prefix(d: &[u8]) -> (r: Result<ProcStrap, Error>)
        ensures
            match r {
                Ok(p) => d@.len() >= PROCSTRAP_SIZE && p == spec_procstrap(d@, 0),
                Err(e) => d@.len() < PROCSTRAP_SIZE && e == Error::RecordTruncated(
                    "ProcStrap",
                    PROCSTRAP_SIZE as u64,
                    d@.len() as u64,
                ),
            },
    {
        if d.len() < PROCSTRAP_SIZE {
            return Err(Error::RecordTruncated("ProcStrap", PROCSTRAP_SIZE as u64, d.len() as u64));
        }
        Ok(ProcStrap {
            data: [
                crate::bytes::read_u32(d, 0),
                crate::bytes::read_u32(d, 4),
                crate::bytes::read_u32(d, 8),
                crate::bytes::read_u32(d, 12),
                crate::bytes::read_u32(d, 16),
                crate::bytes::read_u32(d, 20),
                crate::bytes::read_u32(d, 24),
                crate::bytes::read_u32(d, 28),
            ],
        })
    }
}

} // verus!
