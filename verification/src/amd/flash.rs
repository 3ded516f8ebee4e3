//! The AMD Embedded Firmware Structure.
//!
//! The EFS is the top-level pointer block of an AMD image, found on a 4 KiB
//! boundary by its magic `AA 55 AA 55`. It points at the PSP directory, at
//! several generations of BIOS directories, and carries SPI settings. A
//! pointer that reads `0xFFFFFFFF` is unset and must be skipped.

use vstd::prelude::*;
use crate::bytes::le32;
use crate::err::Error;

verus! {

/// Bytes of the EFS record.
pub const EFS_SIZE: usize = 0x4B;

/// The value of a directory pointer that is unset.
pub const POINTER_UNSET: u32 = 0xFFFFFFFF;

/// The Embedded Firmware Structure.
#[derive(Copy, Clone, Debug, PartialEq, Eq, Structural)]
pub struct EFS {
    /// 0x00: the magic, `0x55AA55AA`.
    pub magic: u32,
    pub rsvd_04: u32,
    pub rsvd_08: u32,
    pub rsvd_0c: u32,
    pub rsvd_10: u32,
    /// 0x14: PSP directory for family 17 models 00 and later.
    pub psp: u32,
    /// 0x18: BIOS directory for family 17 models 00 to 0f.
    pub bios_17_00_0f: u32,
    /// 0x1C: BIOS directory for family 17 models 10 to 1f.
    pub bios_17_10_1f: u32,
    /// 0x20: BIOS directory for family 17 models 30 to 3f and family 19
    /// models 00 to 0f.
    pub bios_17_30_3f_19_00_0f: u32,
    /// 0x24: bit 0 is zero for a second-generation structure.
    pub second_gen: u32,
    /// 0x28: BIOS directory for family 17 model 60 and later.
    pub bios: u32,
    pub rsvd_2c: u32,
    /// 0x30: promontory firmware.
    pub promontory: u32,
    /// 0x34: low-power promontory firmware.
    pub lp_promontory: u32,
    pub rsvd_38: u32,
    pub rsvd_3c: u32,
    /// 0x40: SPI mode for family 15 models 60 to 6f.
    pub spi_mode_15_60_6f: u8,
    /// 0x41: SPI speed for family 15 models 60 to 6f.
    pub spi_speed_15_60_6f: u8,
    pub rsvd_42: u8,
    /// 0x43: SPI mode for family 17 models 00 to 1f.
    pub spi_mode_17_00_1f: u8,
    /// 0x44: SPI speed for family 17 models 00 to 1f.
    pub spi_speed_17_00_1f: u8,
    /// 0x45: Micron flag for family 17 models 00 to 1f.
    pub micron_17_00_1f: u8,
    pub rsvd_46: u8,
    /// 0x47: SPI mode for family 17 model 30 and later.
    pub spi_mode: u8,
    /// 0x48: SPI speed for family 17 model 30 and later.
    pub spi_speed: u8,
    /// 0x49: Micron flag for family 17 model 30 and later.
    pub micron: u8,
    pub rsvd_4a: u8,
}

/// The EFS decoded from `d` at `pos`.
pub open spec fn spec_efs(d: Seq<u8>, pos: int) -> EFS {
    EFS {
        magic: le32(d, pos) as u32,
        rsvd_04: le32(d, pos + 0x04) as u32,
        rsvd_08: le32(d, pos + 0x08) as u32,
        rsvd_0c: le32(d, pos + 0x0c) as u32,
        rsvd_10: le32(d, pos + 0x10) as u32,
        psp: le32(d, pos + 0x14) as u32,
        bios_17_00_0f: le32(d, pos + 0x18) as u32,
        bios_17_10_1f: le32(d, pos + 0x1c) as u32,
        bios_17_30_3f_19_00_0f: le32(d, pos + 0x20) as u32,
        second_gen: le32(d, pos + 0x24) as u32,
        bios: le32(d, pos + 0x28) as u32,
        rsvd_2c: le32(d, pos + 0x2c) as u32,
        promontory: le32(d, pos + 0x30) as u32,
        lp_promontory: le32(d, pos + 0x34) as u32,
        rsvd_38: le32(d, pos + 0x38) as u32,
        rsvd_3c: le32(d, pos + 0x3c) as u32,
        spi_mode_15_60_6f: d[pos + 0x40],
        spi_speed_15_60_6f: d[pos + 0x41],
        rsvd_42: d[pos + 0x42],
        spi_mode_17_00_1f: d[pos + 0x43],
        spi_speed_17_00_1f: d[pos + 0x44],
        micron_17_00_1f: d[pos + 0x45],
        rsvd_46: d[pos + 0x46],
        spi_mode: d[pos + 0x47],
        spi_speed: d[pos + 0x48],
        micron: d[pos + 0x49],
        rsvd_4a: d[pos + 0x4a],
    }
}

/// Decoding is the inverse of encoding: a buffer that holds the
/// little-endian bytes of every field of `e` at `pos` decodes to `e`.
pub proof fn lemma_efs_round_trip(d: Seq<u8>, pos: int, e: EFS)
    requires
        0 <= pos,
        pos + EFS_SIZE <= d.len(),
        d.subrange(pos, pos + 4) == crate::bytes::u32_le_bytes(e.magic),
        d.subrange(pos + 0x04, pos + 0x08) == crate::bytes::u32_le_bytes(e.rsvd_04),
        d.subrange(pos + 0x08, pos + 0x0c) == crate::bytes::u32_le_bytes(e.rsvd_08),
        d.subrange(pos + 0x0c, pos + 0x10) == crate::bytes::u32_le_bytes(e.rsvd_0c),
        d.subrange(pos + 0x10, pos + 0x14) == crate::bytes::u32_le_bytes(e.rsvd_10),
        d.subrange(pos + 0x14, pos + 0x18) == crate::bytes::u32_le_bytes(e.psp),
        d.subrange(pos + 0x18, pos + 0x1c) == crate::bytes::u32_le_bytes(e.bios_17_00_0f),
        d.subrange(pos + 0x1c, pos + 0x20) == crate::bytes::u32_le_bytes(e.bios_17_10_1f),
        d.subrange(pos + 0x20, pos + 0x24) == crate::bytes::u32_le_bytes(e.bios_17_30_3f_19_00_0f),
        d.subrange(pos + 0x24, pos + 0x28) == crate::bytes::u32_le_bytes(e.second_gen),
        d.subrange(pos + 0x28, pos + 0x2c) == crate::bytes::u32_le_bytes(e.bios),
        d.subrange(pos + 0x2c, pos + 0x30) == crate::bytes::u32_le_bytes(e.rsvd_2c),
        d.subrange(pos + 0x30, pos + 0x34) == crate::bytes::u32_le_bytes(e.promontory),
        d.subrange(pos + 0x34, pos + 0x38) == crate::bytes::u32_le_bytes(e.lp_promontory),
        d.subrange(pos + 0x38, pos + 0x3c) == crate::bytes::u32_le_bytes(e.rsvd_38),
        d.subrange(pos + 0x3c, pos + 0x40) == crate::bytes::u32_le_bytes(e.rsvd_3c),
        d[pos + 0x40] == e.spi_mode_15_60_6f,
        d[pos + 0x41] == e.spi_speed_15_60_6f,
        d[pos + 0x42] == e.rsvd_42,
        d[pos + 0x43] == e.spi_mode_17_00_1f,
        d[pos + 0x44] == e.spi_speed_17_00_1f,
        d[pos + 0x45] == e.micron_17_00_1f,
        d[pos + 0x46] == e.rsvd_46,
        d[pos + 0x47] == e.spi_mode,
        d[pos + 0x48] == e.spi_speed,
        d[pos + 0x49] == e.micron,
        d[pos + 0x4a] == e.rsvd_4a,
    ensures
        spec_efs(d, pos) == e,
{
    crate::bytes::lemma_le32_of_u32(d, pos, e.magic);
    crate::bytes::lemma_le32_of_u32(d, pos + 0x04, e.rsvd_04);
    crate::bytes::lemma_le32_of_u32(d, pos + 0x08, e.rsvd_08);
    crate::bytes::lemma_le32_of_u32(d, pos + 0x0c, e.rsvd_0c);
    crate::bytes::lemma_le32_of_u32(d, pos + 0x10, e.rsvd_10);
    crate::bytes::lemma_le32_of_u32(d, pos + 0x14, e.psp);
    crate::bytes::lemma_le32_of_u32(d, pos + 0x18, e.bios_17_00_0f);
    crate::bytes::lemma_le32_of_u32(d, pos + 0x1c, e.bios_17_10_1f);
    crate::bytes::lemma_le32_of_u32(d, pos + 0x20, e.bios_17_30_3f_19_00_0f);
    crate::bytes::lemma_le32_of_u32(d, pos + 0x24, e.second_gen);
    crate::bytes::lemma_le32_of_u32(d, pos + 0x28, e.bios);
    crate::bytes::lemma_le32_of_u32(d, pos + 0x2c, e.rsvd_2c);
    crate::bytes::lemma_le32_of_u32(d, pos + 0x30, e.promontory);
    crate::bytes::lemma_le32_of_u32(d, pos + 0x34, e.lp_promontory);
    crate::bytes::lemma_le32_of_u32(d, pos + 0x38, e.rsvd_38);
    crate::bytes::lemma_le32_of_u32(d, pos + 0x3c, e.rsvd_3c);
}

/// Decodes the EFS of `d` at `pos`.
pub(crate) fn read_efs(d: &[u8], pos: usize) -> (r: EFS)
    requires
        pos + EFS_SIZE <= d@.len(),
    ensures
        r == spec_efs(d@, pos as int),
{
    let _len: usize = d.len();
    EFS {
        magic: crate::bytes::read_u32(d, pos),
        rsvd_04: crate::bytes::read_u32(d, pos + 0x04),
        rsvd_08: crate::bytes::read_u32(d, pos + 0x08),
        rsvd_0c: crate::bytes::read_u32(d, pos + 0x0c),
        rsvd_10: crate::bytes::read_u32(d, pos + 0x10),
        psp: crate::bytes::read_u32(d, pos + 0x14),
        bios_17_00_0f: crate::bytes::read_u32(d, pos + 0x18),
        bios_17_10_1f: crate::bytes::read_u32(d, pos + 0x1c),
        bios_17_30_3f_19_00_0f: crate::bytes::read_u32(d, pos + 0x20),
        second_gen: crate::bytes::read_u32(d, pos + 0x24),
        bios: crate::bytes::read_u32(d, pos + 0x28),
        rsvd_2c: crate::bytes::read_u32(d, pos + 0x2c),
        promontory: crate::bytes::read_u32(d, pos + 0x30),
        lp_promontory: crate::bytes::read_u32(d, pos + 0x34),
        rsvd_38: crate::bytes::read_u32(d, pos + 0x38),
        rsvd_3c: crate::bytes::read_u32(d, pos + 0x3c),
        spi_mode_15_60_6f: d[pos + 0x40],
        spi_speed_15_60_6f: d[pos + 0x41],
        rsvd_42: d[pos + 0x42],
        spi_mode_17_00_1f: d[pos + 0x43],
        spi_speed_17_00_1f: d[pos + 0x44],
        micron_17_00_1f: d[pos + 0x45],
        rsvd_46: d[pos + 0x46],
        spi_mode: d[pos + 0x47],
        spi_speed: d[pos + 0x48],
        micron: d[pos + 0x49],
        rsvd_4a: d[pos + 0x4a],
    }
}

impl EFS {
    /// Decodes the EFS from a prefix of `d`; fails when the prefix is
    /// shorter than the record.
    pub fn from_prefix(d: &[u8]) -> (r: Result<EFS, Error>)
        ensures
            match r {
                Ok(e) => d@.len() >= EFS_SIZE && e == spec_efs(d@, 0),
                Err(e) => d@.len() < EFS_SIZE && e == Error::RecordTruncated(
                    "EFS",
                    EFS_SIZE as u64,
                    d@.len() as u64,
                ),
            },
    {
        if d.len() < EFS_SIZE {
            return Err(Error::RecordTruncated("EFS", EFS_SIZE as u64, d.len() as u64));
        }
        Ok(read_efs(d, 0))
    }

    /// The directory pointers the traversal starts from, oldest family
    /// first, each included only when it is set.
    pub open spec fn spec_directory_pointers(self) -> Seq<u32> {
        let s = Seq::<u32>::empty();
        let s = if self.psp != POINTER_UNSET {
            s.push(self.psp)
        } else {
            s
        };
        let s = if self.bios_17_00_0f != POINTER_UNSET {
            s.push(self.bios_17_00_0f)
        } else {
            s
        };
        let s = if self.bios_17_10_1f != POINTER_UNSET {
            s.push(self.bios_17_10_1f)
        } else {
            s
        };
        let s = if self.bios_17_30_3f_19_00_0f != POINTER_UNSET {
            s.push(self.bios_17_30_3f_19_00_0f)
        } else {
            s
        };
        if self.bios != POINTER_UNSET {
            s.push(self.bios)
        } else {
            s
        }
    }

    /// The directory pointers the traversal starts from: the PSP pointer,
    /// the three legacy BIOS pointers, then the modern BIOS pointer, each
    /// included only when it is set.
    pub fn directory_pointers(&self) -> (r: Vec<u32>)
        ensures
            r@ == self.spec_directory_pointers(),
    {
        let mut r: Vec<u32> = Vec::new();
        if self.psp != POINTER_UNSET {
            r.push(self.psp);
        }
        if self.bios_17_00_0f != POINTER_UNSET {
            r.push(self.bios_17_00_0f);
        }
        if self.bios_17_10_1f != POINTER_UNSET {
            r.push(self.bios_17_10_1f);
        }
        if self.bios_17_30_3f_19_00_0f != POINTER_UNSET {
            r.push(self.bios_17_30_3f_19_00_0f);
        }
        if self.bios != POINTER_UNSET {
            r.push(self.bios);
        }
        proof {
            assert(r@ =~= self.spec_directory_pointers());
        }
        r
    }
}

} // verus!
