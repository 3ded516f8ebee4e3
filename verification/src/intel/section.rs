//! UEFI firmware section headers.
//!
//! A section header is four bytes: a 24-bit size that covers the header and
//! a kind byte. A GUID-defined section nests a further header naming the
//! payload format; when that GUID is the LZMA compression GUID the payload
//! is a compressed stream of sections.

use vstd::prelude::*;
use crate::bytes::{le16, le24};
use crate::err::Error;
use crate::guid::Guid;

verus! {

/// Bytes of a section header.
pub const HEADER_SIZE: usize = 4;

/// Bytes of the nested header of a GUID-defined section.
pub const GUID_DEFINED_SIZE: usize = 20;

/// What a section holds, decoded from its kind byte.
#[derive(Copy, Clone, Debug, PartialEq, Eq, Structural)]
pub enum HeaderKind {
    Compression,
    GuidDefined,
    Disposable,
    Pe32,
    Pic,
    Te,
    DxeDepex,
    Version,
    UserInterface,
    Compatibility16,
    VolumeImage,
    Freeform,
    Raw,
    PeiDepex,
    MmDepex,
    Unknown(u8),
}

/// The section kind encoded by `k`.
pub open spec fn spec_kind(k: u8) -> HeaderKind {
    if k == 0x01 {
        HeaderKind::Compression
    } else if k == 0x02 {
        HeaderKind::GuidDefined
    } else if k == 0x03 {
        HeaderKind::Disposable
    } else if k == 0x10 {
        HeaderKind::Pe32
    } else if k == 0x11 {
        HeaderKind::Pic
    } else if k == 0x12 {
        HeaderKind::Te
    } else if k == 0x13 {
        HeaderKind::DxeDepex
    } else if k == 0x14 {
        HeaderKind::Version
    } else if k == 0x15 {
        HeaderKind::UserInterface
    } else if k == 0x16 {
        HeaderKind::Compatibility16
    } else if k == 0x17 {
        HeaderKind::VolumeImage
    } else if k == 0x18 {
        HeaderKind::Freeform
    } else if k == 0x19 {
        HeaderKind::Raw
    } else if k == 0x1B {
        HeaderKind::PeiDepex
    } else if k == 0x1C {
        HeaderKind::MmDepex
    } else {
        HeaderKind::Unknown(k)
    }
}

/// The header of a firmware section.
#[derive(Copy, Clone, Debug, PartialEq, Eq)]
pub struct Header {
    /// 0x00: 24-bit size of the section including this header.
    pub size: [u8; 3],
    /// 0x03: what the section holds.
    pub kind: u8,
}

/// The section header decoded from `d` at `pos`.
pub open spec fn spec_header(d: Seq<u8>, pos: int) -> Header {
    Header { size: [d[pos], d[pos + 1], d[pos + 2]], kind: d[pos + 3] }
}

impl Header {
    /// The 24-bit section size, header included.
    pub open spec fn spec_size(self) -> int {
        self.size@[0] + 0x100 * self.size@[1] + 0x10000 * self.size@[2]
    }

    /// The 24-bit section size, header included.
    pub fn size(&self) -> (r: usize)
        ensures
            r == self.spec_size(),
            r <= 0xFFFFFF,
    {
        self.size[0] as usize + 0x100 * (self.size[1] as usize) + 0x10000 * (self.size[2] as usize)
    }

    /// What the section holds.
    pub fn kind(&self) -> (r: HeaderKind)
        ensures
            r == spec_kind(self.kind),
    {
        match self.kind {
            0x01 => HeaderKind::Compression,
            0x02 => HeaderKind::GuidDefined,
            0x03 => HeaderKind::Disposable,
            0x10 => HeaderKind::Pe32,
            0x11 => HeaderKind::Pic,
            0x12 => HeaderKind::Te,
            0x13 => HeaderKind::DxeDepex,
            0x14 => HeaderKind::Version,
            0x15 => HeaderKind::UserInterface,
            0x16 => HeaderKind::Compatibility16,
            0x17 => HeaderKind::VolumeImage,
            0x18 => HeaderKind::Freeform,
            0x19 => HeaderKind::Raw,
            0x1B => HeaderKind::PeiDepex,
            0x1C => HeaderKind::MmDepex,
            unknown => HeaderKind::Unknown(unknown),
        }
    }

    /// Decodes the section header from a prefix of `d`; fails when the
    /// prefix is shorter than the record.
    pub fn from_prefix(d: &[u8]) -> (r: Result<Header, Error>)
        ensures
            match r {
                Ok(h) => d@.len() >= HEADER_SIZE && h == spec_header(d@, 0),
                Err(e) => d@.len() < HEADER_SIZE && e == Error::RecordTruncated(
                    "SectionHeader",
                    HEADER_SIZE as u64,
                    d@.len() as u64,
                ),
            },
    {
        if d.len() < HEADER_SIZE {
            return Err(Error::RecordTruncated("SectionHeader", HEADER_SIZE as u64, d.len() as u64));
        }
        Ok(read_header(d, 0))
    }
}

/// Decodes the section header of `d` at `pos`.
pub(crate) fn read_header(d: &[u8], pos: usize) -> (r: Header)
    requires
        pos + HEADER_SIZE <= d@.len(),
    ensures
        r == spec_header(d@, pos as int),
{
    let h = Header { size: [d[pos], d[pos + 1], d[pos + 2]], kind: d[pos + 3] };
    proof {
        assert(h.size =~= spec_header(d@, pos as int).size);
    }
    h
}

/// The nested header of a GUID-defined section.
#[derive(Copy, Clone, Debug, PartialEq, Eq)]
pub struct GuidDefined {
    /// 0x00: the GUID naming the payload format.
    pub guid: Guid,
    /// 0x10: offset from the section header to the payload.
    pub data_offset: u16,
    /// 0x12: format-specific attribute bits.
    pub attributes: u16,
}

/// The GUID-defined header decoded from `d` at `pos`.
pub open spec fn spec_guid_defined(d: Seq<u8>, pos: int) -> GuidDefined {
    GuidDefined {
        guid: Guid { bytes: crate::guid::bytes16(d, pos) },
        data_offset: le16(d, pos + 16) as u16,
        attributes: le16(d, pos + 18) as u16,
    }
}

impl GuidDefined {
    /// Decodes the nested header from a prefix of `d`; fails when the
    /// prefix is shorter than the record.
    pub fn from_prefix(d: &[u8]) -> (r: Result<GuidDefined, Error>)
        ensures
            match r {
                Ok(g) => d@.len() >= GUID_DEFINED_SIZE && g == spec_guid_defined(d@, 0),
                Err(e) => d@.len() < GUID_DEFINED_SIZE && e == Error::RecordTruncated(
                    "GuidDefined",
                    GUID_DEFINED_SIZE as u64,
                    d@.len() as u64,
                ),
            },
    {
        if d.len() < GUID_DEFINED_SIZE {
            return Err(
                Error::RecordTruncated("GuidDefined", GUID_DEFINED_SIZE as u64, d.len() as u64),
            );
        }
        Ok(GuidDefined {
            guid: Guid { bytes: crate::intel::volume::read_16(d, 0) },
            data_offset: crate::bytes::read_u16(d, 16),
            attributes: crate::bytes::read_u16(d, 18),
        })
    }

    /// True when the payload is an LZMA-compressed stream of sections.
    pub fn is_lzma_compressed(&self) -> (r: bool)
        ensures
            r == (self.guid.bytes@ == crate::guid::section_lzma_compress_guid_bytes()),
    {
        let lzma = crate::guid::section_lzma_compress_guid();
        self.guid.matches(&lzma)
    }
}

} // verus!
