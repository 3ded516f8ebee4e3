//! UEFI firmware file headers.
//!
//! A file header is 24 bytes: the file GUID, an integrity check word, a
//! kind byte, attribute bits, a 24-bit size that covers the header, and a
//! state byte whose bits are stored inverted when the volume's erase
//! polarity is set.

use vstd::prelude::*;
use crate::bytes::le16;
use crate::err::Error;
use crate::guid::Guid;

verus! {

/// Bytes of a file header.
pub const HEADER_SIZE: usize = 24;

/// What a file holds, decoded from its kind byte.
#[derive(Copy, Clone, Debug, PartialEq, Eq, Structural)]
pub enum HeaderKind {
    Raw,
    Freeform,
    SecurityCore,
    PeiCore,
    DxeCore,
    Peim,
    Driver,
    CombinedPeimDriver,
    Application,
    Mm,
    VolumeImage,
    CombinedMmDxe,
    MmCore,
    MmStandalone,
    MmCoreStandalone,
    Oem(u8),
    Debug(u8),
    Ffs(u8),
    Unknown(u8),
}

/// The file kind encoded by `k`.
pub open spec fn spec_kind(k: u8) -> HeaderKind {
    if k == 0x01 {
        HeaderKind::Raw
    } else if k == 0x02 {
        HeaderKind::Freeform
    } else if k == 0x03 {
        HeaderKind::SecurityCore
    } else if k == 0x04 {
        HeaderKind::PeiCore
    } else if k == 0x05 {
        HeaderKind::DxeCore
    } else if k == 0x06 {
        HeaderKind::Peim
    } else if k == 0x07 {
        HeaderKind::Driver
    } else if k == 0x08 {
        HeaderKind::CombinedPeimDriver
    } else if k == 0x09 {
        HeaderKind::Application
    } else if k == 0x0A {
        HeaderKind::Mm
    } else if k == 0x0B {
        HeaderKind::VolumeImage
    } else if k == 0x0C {
        HeaderKind::CombinedMmDxe
    } else if k == 0x0D {
        HeaderKind::MmCore
    } else if k == 0x0E {
        HeaderKind::MmStandalone
    } else if k == 0x0F {
        HeaderKind::MmCoreStandalone
    } else if 0xC0 <= k && k <= 0xDF {
        HeaderKind::Oem(k)
    } else if 0xE0 <= k && k <= 0xEF {
        HeaderKind::Debug(k)
    } else if 0xF0 <= k {
        HeaderKind::Ffs(k)
    } else {
        HeaderKind::Unknown(k)
    }
}

/// True when files of this kind carry sections rather than an opaque body.
pub open spec fn spec_sectioned(k: HeaderKind) -> bool {
    match k {
        HeaderKind::Freeform => true,
        HeaderKind::PeiCore => true,
        HeaderKind::DxeCore => true,
        HeaderKind::Peim => true,
        HeaderKind::Driver => true,
        HeaderKind::CombinedPeimDriver => true,
        HeaderKind::Application => true,
        HeaderKind::Mm => true,
        HeaderKind::VolumeImage => true,
        HeaderKind::CombinedMmDxe => true,
        HeaderKind::MmCore => true,
        HeaderKind::MmStandalone => true,
        _ => false,
    }
}

/// File state bit: header under construction.
pub const STATE_HEADER_CONSTRUCTION: u8 = 0x01;

/// File state bit: header valid.
pub const STATE_HEADER_VALID: u8 = 0x02;

/// File state bit: data valid.
pub const STATE_DATA_VALID: u8 = 0x04;

/// File state bit: marked for update.
pub const STATE_MARKED_FOR_UPDATE: u8 = 0x08;

/// File state bit: deleted.
pub const STATE_DELETED: u8 = 0x10;

/// File state bit: header invalid.
pub const STATE_HEADER_INVALID: u8 = 0x20;

/// The mask of the six known file state bits.
pub const STATE_KNOWN_BITS: u8 = 0x3F;

/// File attribute bit: a tail is present.
pub const ATTRIB_TAIL_PRESENT: u8 = 0x01;

/// File attribute bit: needed for recovery.
pub const ATTRIB_RECOVERY: u8 = 0x02;

/// File attribute bit: a header extension is present.
pub const ATTRIB_HEADER_EXTENSION: u8 = 0x04;

/// File attribute bit: the data is checksummed.
pub const ATTRIB_CHECKSUM: u8 = 0x40;

/// The header of a UEFI firmware file.
#[derive(Copy, Clone, Debug, PartialEq, Eq)]
pub struct Header {
    /// 0x00: the file GUID.
    pub guid: Guid,
    /// 0x10: header integrity check word.
    pub integrity_check: u16,
    /// 0x12: what the file holds.
    pub kind: u8,
    /// 0x13: attribute bits; bits 3..6 encode the alignment class.
    pub attributes: u8,
    /// 0x14: 24-bit size of the file including this header.
    pub size: [u8; 3],
    /// 0x17: state bits, stored inverted under erase polarity one.
    pub state: u8,
}

/// The file header decoded from `d` at `pos`.
pub open spec fn spec_header(d: Seq<u8>, pos: int) -> Header {
    Header {
        guid: Guid { bytes: crate::guid::bytes16(d, pos) },
        integrity_check: le16(d, pos + 16) as u16,
        kind: d[pos + 18],
        attributes: d[pos + 19],
        size: [d[pos + 20], d[pos + 21], d[pos + 22]],
        state: d[pos + 23],
    }
}

impl Header {
    /// The 24-bit file size, header included.
    pub open spec fn spec_size(self) -> int {
        self.size@[0] + 0x100 * self.size@[1] + 0x10000 * self.size@[2]
    }

    /// The 24-bit file size, header included.
    pub fn size(&self) -> (r: usize)
        ensures
            r == self.spec_size(),
            r <= 0xFFFFFF,
    {
        self.size[0] as usize + 0x100 * (self.size[1] as usize) + 0x10000 * (self.size[2] as usize)
    }

    /// What the file holds.
    pub fn kind(&self) -> (r: HeaderKind)
        ensures
            r == spec_kind(self.kind),
    {
        match self.kind {
            0x01 => HeaderKind::Raw,
            0x02 => HeaderKind::Freeform,
            0x03 => HeaderKind::SecurityCore,
            0x04 => HeaderKind::PeiCore,
            0x05 => HeaderKind::DxeCore,
            0x06 => HeaderKind::Peim,
            0x07 => HeaderKind::Driver,
            0x08 => HeaderKind::CombinedPeimDriver,
            0x09 => HeaderKind::Application,
            0x0A => HeaderKind::Mm,
            0x0B => HeaderKind::VolumeImage,
            0x0C => HeaderKind::CombinedMmDxe,
            0x0D => HeaderKind::MmCore,
            0x0E => HeaderKind::MmStandalone,
            0x0F => HeaderKind::MmCoreStandalone,
            oem if 0xC0 <= oem && oem <= 0xDF => HeaderKind::Oem(oem),
            debug if 0xE0 <= debug && debug <= 0xEF => HeaderKind::Debug(debug),
            ffs if 0xF0 <= ffs => HeaderKind::Ffs(ffs),
            unknown => HeaderKind::Unknown(unknown),
        }
    }

    /// The raw attribute bits.
    pub fn attributes(&self) -> (r: u8)
        ensures
            r == self.attributes,
    {
        self.attributes
    }

    /// The alignment class: bits 3..6 of the attributes.
    pub fn alignment(&self) -> (r: u8)
        ensures
            r == (self.attributes & 0x38) >> 3,
    {
        (self.attributes & 0x38) >> 3
    }

    /// The state bits as stored when `polarity` is false, bit-inverted when
    /// it is true, truncated to the six known bits either way.
    pub fn state(&self, polarity: bool) -> (r: u8)
        ensures
            r == (if polarity {
                !self.state
            } else {
                self.state
            }) & STATE_KNOWN_BITS,
    {
        (if polarity {
            !self.state
        } else {
            self.state
        }) & STATE_KNOWN_BITS
    }

    /// True when files of this kind carry sections rather than an opaque
    /// body.
    pub fn sectioned(&self) -> (r: bool)
        ensures
            r == spec_sectioned(spec_kind(self.kind)),
    {
        match self.kind() {
            HeaderKind::Freeform => true,
            HeaderKind::PeiCore => true,
            HeaderKind::DxeCore => true,
            HeaderKind::Peim => true,
            HeaderKind::Driver => true,
            HeaderKind::CombinedPeimDriver => true,
            HeaderKind::Application => true,
            HeaderKind::Mm => true,
            HeaderKind::VolumeImage => true,
            HeaderKind::CombinedMmDxe => true,
            HeaderKind::MmCore => true,
            HeaderKind::MmStandalone => true,
            _ => false,
        }
    }

    /// Decodes the file header from a prefix of `d`; fails when the prefix
    /// is shorter than the record.
    pub fn from_prefix(d: &[u8]) -> (r: Result<Header, Error>)
        ensures
            match r {
                Ok(h) => d@.len() >= HEADER_SIZE && h == spec_header(d@, 0),
                Err(e) => d@.len() < HEADER_SIZE && e == Error::RecordTruncated(
                    "FileHeader",
                    HEADER_SIZE as u64,
                    d@.len() as u64,
                ),
            },
    {
        if d.len() < HEADER_SIZE {
            return Err(Error::RecordTruncated("FileHeader", HEADER_SIZE as u64, d.len() as u64));
        }
        Ok(read_header(d, 0))
    }
}

/// Decodes the file header of `d` at `pos`.
pub(crate) fn read_header(d: &[u8], pos: usize) -> (r: Header)
    requires
        pos + HEADER_SIZE <= d@.len(),
    ensures
        r == spec_header(d@, pos as int),
{
    let _len: usize = d.len();
    let h = Header {
        guid: Guid { bytes: crate::intel::volume::read_16(d, pos) },
        integrity_check: crate::bytes::read_u16(d, pos + 16),
        kind: d[pos + 18],
        attributes: d[pos + 19],
        size: [d[pos + 20], d[pos + 21], d[pos + 22]],
        state: d[pos + 23],
    };
    proof {
        assert(h.size =~= spec_header(d@, pos as int).size);
    }
    h
}

} // verus!
