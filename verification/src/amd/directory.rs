//! AMD PSP and BIOS directories.
//!
//! A directory stands at a masked flash offset and is dispatched on its
//! four-byte magic: `$PSP`/`$PL2` and `$BHD`/`$BL2` head arrays of typed
//! payload entries; `2PSP` and `2BHD` head combo directories whose entries
//! select further directories. The traversal descends through level-2
//! pointers and combo selectors under a fixed depth bound.

use vstd::prelude::*;
use vstd::slice::slice_subrange;
use crate::bytes::{le32, le64, u64_le_bytes};
use crate::err::Error;

verus! {

/// The mask that turns a directory address into a flash offset.
pub const ADDRESS_MASK: u64 = 0x1FFFFFF;

/// Bytes of a `$PSP`/`$BHD` directory header.
pub const DIRECTORY_HEADER_SIZE: usize = 16;

/// Bytes of a `2PSP`/`2BHD` combo directory header.
pub const COMBO_HEADER_SIZE: usize = 32;

/// Bytes of a BIOS directory entry.
pub const BIOS_ENTRY_SIZE: usize = 24;

/// Bytes of a PSP directory entry.
pub const PSP_ENTRY_SIZE: usize = 16;

/// Bytes of a combo directory entry.
pub const COMBO_ENTRY_SIZE: usize = 16;

/// The BIOS entry kind that points at a level-2 BIOS directory.
pub const BIOS_LEVEL2_KIND: u8 = 0x70;

/// The PSP entry kind that points at a level-2 PSP directory.
pub const PSP_LEVEL2_KIND: u8 = 0x40;

/// True when `d` starts with the four bytes `m0 m1 m2 m3`.
pub open spec fn magic_is(d: Seq<u8>, m0: u8, m1: u8, m2: u8, m3: u8) -> bool {
    d.len() >= 4 && d[0] == m0 && d[1] == m1 && d[2] == m2 && d[3] == m3
}

/// True when `d` starts with `$BHD`.
pub open spec fn is_bhd(d: Seq<u8>) -> bool {
    magic_is(d, 0x24, 0x42, 0x48, 0x44)
}

/// True when `d` starts with `$BL2`.
pub open spec fn is_bl2(d: Seq<u8>) -> bool {
    magic_is(d, 0x24, 0x42, 0x4c, 0x32)
}

/// True when `d` starts with `2BHD`.
pub open spec fn is_bhd_combo(d: Seq<u8>) -> bool {
    magic_is(d, 0x32, 0x42, 0x48, 0x44)
}

/// True when `d` starts with `$PSP`.
pub open spec fn is_psp(d: Seq<u8>) -> bool {
    magic_is(d, 0x24, 0x50, 0x53, 0x50)
}

/// True when `d` starts with `$PL2`.
pub open spec fn is_pl2(d: Seq<u8>) -> bool {
    magic_is(d, 0x24, 0x50, 0x4c, 0x32)
}

/// True when `d` starts with `2PSP`.
pub open spec fn is_psp_combo(d: Seq<u8>) -> bool {
    magic_is(d, 0x32, 0x50, 0x53, 0x50)
}

/// The header of a `$PSP`/`$PL2`/`$BHD`/`$BL2` directory.
#[derive(Copy, Clone, Debug, PartialEq, Eq, Structural)]
pub struct DirectoryHeader {
    /// 0x00: the directory magic.
    pub magic: u32,
    /// 0x04: CRC of all directory data after this field.
    pub checksum: u32,
    /// 0x08: how many entries follow the header.
    pub entries: u32,
    pub rsvd_0c: u32,
}

/// The directory header decoded from `d` at `pos`.
pub open spec fn spec_directory_header(d: Seq<u8>, pos: int) -> DirectoryHeader {
    DirectoryHeader {
        magic: le32(d, pos) as u32,
        checksum: le32(d, pos + 4) as u32,
        entries: le32(d, pos + 8) as u32,
        rsvd_0c: le32(d, pos + 12) as u32,
    }
}

/// The header of a `2PSP`/`2BHD` combo directory.
#[derive(Copy, Clone, Debug, PartialEq, Eq, Structural)]
pub struct ComboDirectoryHeader {
    /// 0x00: the directory magic.
    pub magic: u32,
    /// 0x04: CRC of all directory data after this field.
    pub checksum: u32,
    /// 0x08: how many entries follow the header.
    pub entries: u32,
    /// 0x0C: 0 for dynamic look-up through all entries, 1 for a PSP or
    /// chip ID match; meaningful for the PSP combo directory.
    pub look_up_mode: u32,
    pub rsvd_10: u32,
    pub rsvd_14: u32,
    pub rsvd_18: u32,
    pub rsvd_1c: u32,
}

/// The combo directory header decoded from `d` at `pos`.
pub open spec fn spec_combo_header(d: Seq<u8>, pos: int) -> ComboDirectoryHeader {
    ComboDirectoryHeader {
        magic: le32(d, pos) as u32,
        checksum: le32(d, pos + 4) as u32,
        entries: le32(d, pos + 8) as u32,
        look_up_mode: le32(d, pos + 12) as u32,
        rsvd_10: le32(d, pos + 16) as u32,
        rsvd_14: le32(d, pos + 20) as u32,
        rsvd_18: le32(d, pos + 24) as u32,
        rsvd_1c: le32(d, pos + 28) as u32,
    }
}

/// An entry of a BIOS directory.
#[derive(Copy, Clone, Debug, PartialEq, Eq, Structural)]
pub struct BiosDirectoryEntry {
    /// 0x00: what the payload is.
    pub kind: u8,
    /// 0x01: memory region security attributes.
    pub region_kind: u8,
    /// 0x02: flags specific to the kind; bits 4..8 are the instance.
    pub flags: u8,
    /// 0x03: filters entries by model.
    pub sub_program: u8,
    /// 0x04: size of the payload.
    pub size: u32,
    /// 0x08: where the payload lives.
    pub source: u64,
    /// 0x10: where the payload is loaded.
    pub destination: u64,
}

/// The BIOS directory entry decoded from `d` at `pos`.
pub open spec fn spec_bios_entry(d: Seq<u8>, pos: int) -> BiosDirectoryEntry {
    BiosDirectoryEntry {
        kind: d[pos],
        region_kind: d[pos + 1],
        flags: d[pos + 2],
        sub_program: d[pos + 3],
        size: le32(d, pos + 4) as u32,
        source: le64(d, pos + 8) as u64,
        destination: le64(d, pos + 16) as u64,
    }
}

/// The BIOS entries of a directory at `base` in `d`, `n` of them.
pub open spec fn spec_bios_entries(d: Seq<u8>, base: int, n: int) -> Seq<BiosDirectoryEntry> {
    Seq::new(n as nat, |j: int| spec_bios_entry(d, base + BIOS_ENTRY_SIZE * j))
}

/// An entry of a PSP directory.
#[derive(Copy, Clone, Debug, PartialEq, Eq, Structural)]
pub struct PspDirectoryEntry {
    /// 0x00: what the payload is.
    pub kind: u8,
    /// 0x01: filters entries by model.
    pub sub_program: u8,
    /// 0x02: which ROM contains the entry.
    pub rom_id: u8,
    pub rsvd_03: u8,
    /// 0x04: size of the payload, or `0xFFFFFFFF` for a value entry.
    pub size: u32,
    /// 0x08: where the payload lives, or its literal value.
    pub value: u64,
}

/// The PSP directory entry decoded from `d` at `pos`.
pub open spec fn spec_psp_entry(d: Seq<u8>, pos: int) -> PspDirectoryEntry {
    PspDirectoryEntry {
        kind: d[pos],
        sub_program: d[pos + 1],
        rom_id: d[pos + 2],
        rsvd_03: d[pos + 3],
        size: le32(d, pos + 4) as u32,
        value: le64(d, pos + 8) as u64,
    }
}

/// The PSP entries of a directory at `base` in `d`, `n` of them.
pub open spec fn spec_psp_entries(d: Seq<u8>, base: int, n: int) -> Seq<PspDirectoryEntry> {
    Seq::new(n as nat, |j: int| spec_psp_entry(d, base + PSP_ENTRY_SIZE * j))
}

/// An entry of a combo directory: a selector to a concrete directory.
#[derive(Copy, Clone, Debug, PartialEq, Eq, Structural)]
pub struct ComboDirectoryEntry {
    /// 0x00: 0 to compare the PSP ID, 1 to compare the chip ID.
    pub id_select: u32,
    /// 0x04: the PSP or chip ID.
    pub id: u32,
    /// 0x08: the address of the selected directory.
    pub directory: u64,
}

/// The combo directory entry decoded from `d` at `pos`.
pub open spec fn spec_combo_entry(d: Seq<u8>, pos: int) -> ComboDirectoryEntry {
    ComboDirectoryEntry {
        id_select: le32(d, pos) as u32,
        id: le32(d, pos + 4) as u32,
        directory: le64(d, pos + 8) as u64,
    }
}

/// The combo entries of a directory at `base` in `d`, `n` of them.
pub open spec fn spec_combo_entries(d: Seq<u8>, base: int, n: int) -> Seq<ComboDirectoryEntry> {
    Seq::new(n as nat, |j: int| spec_combo_entry(d, base + COMBO_ENTRY_SIZE * j))
}

impl BiosDirectoryEntry {
    /// The payload offset: the source address masked to the flash window.
    pub open spec fn spec_start(self) -> int {
        (self.source & ADDRESS_MASK) as int
    }

    /// Copies the payload out of the image: `size` bytes at the masked
    /// source address. Fails when the payload would end past the buffer.
    pub fn data(&self, data: &[u8]) -> (r: Result<Vec<u8>, Error>)
        ensures
            match r {
                Ok(v) => self.spec_start() + self.size <= data@.len() && v@ == data@.subrange(
                    self.spec_start(),
                    self.spec_start() + self.size,
                ),
                Err(e) => self.spec_start() + self.size > data@.len() && e
                    == Error::EntryOutOfRange(
                    "BiosDirectoryEntry",
                    (self.source & ADDRESS_MASK),
                    ((self.source & ADDRESS_MASK) + self.size as u64) as u64,
                    data@.len() as u64,
                ),
            },
    {
        let start64 = self.source & ADDRESS_MASK;
        proof {
            let s = self.source;
            assert(s & 0x1FFFFFF <= 0x1FFFFFF) by (bit_vector);
        }
        let end64 = start64 + self.size as u64;
        if end64 <= data.len() as u64 {
            let start = start64 as usize;
            let end = end64 as usize;
            Ok(vstd::slice::slice_to_vec(slice_subrange(data, start, end)))
        } else {
            Err(
                Error::EntryOutOfRange(
                    "BiosDirectoryEntry",
                    start64,
                    end64,
                    data.len() as u64,
                ),
            )
        }
    }

    /// The instance of a sub-typed entry: bits 4..8 of the flags.
    pub fn instance(&self) -> (r: u8)
        ensures
            r == (self.flags >> 4) & 0xF,
    {
        (self.flags >> 4) & 0xF
    }

    /// What the entry kind means.
    pub open spec fn spec_description(self) -> Seq<char> {
        let instance = (self.flags >> 4) & 0xF;
        if self.kind == 0x05 {
            "BIOS Signing Key"@
        } else if self.kind == 0x07 {
            "BIOS Signature"@
        } else if self.kind == 0x60 {
            "AGESA PSP Customization Block"@
        } else if self.kind == 0x61 {
            "AGESA PSP Output Block"@
        } else if self.kind == 0x62 {
            "BIOS Binary"@
        } else if self.kind == 0x63 {
            "AGESA PSP Output Block NVRAM"@
        } else if self.kind == 0x64 {
            if instance == 0x01 {
                "PMU Firmware Code (DDR4 UDIMM 1D)"@
            } else if instance == 0x02 {
                "PMU Firmware Code (DDR4 RDIMM 1D)"@
            } else if instance == 0x03 {
                "PMU Firmware Code (DDR4 LRDIMM 1D)"@
            } else if instance == 0x04 {
                "PMU Firmware Code (DDR4 2D)"@
            } else if instance == 0x05 {
                "PMU Firmware Code (DDR4 2D Diagnostic)"@
            } else {
                "PMU Firmware Code (Unknown)"@
            }
        } else if self.kind == 0x65 {
            if instance == 0x01 {
                "PMU Firmware Data (DDR4 UDIMM 1D)"@
            } else if instance == 0x02 {
                "PMU Firmware Data (DDR4 RDIMM 1D)"@
            } else if instance == 0x03 {
                "PMU Firmware Data (DDR4 LRDIMM 1D)"@
            } else if instance == 0x04 {
                "PMU Firmware Data (DDR4 2D)"@
            } else if instance == 0x05 {
                "PMU Firmware Data (DDR4 2D Diagnostic)"@
            } else {
                "PMU Firmware Data (Unknown)"@
            }
        } else if self.kind == 0x66 {
            "Microcode"@
        } else if self.kind == 0x67 {
            "Machine Check Exception Data"@
        } else if self.kind == 0x68 {
            "AGESA PSP Customization Block Backup"@
        } else if self.kind == 0x6A {
            "MP2 Firmware"@
        } else if self.kind == 0x70 {
            "BIOS Level 2 Directory"@
        } else {
            "Unknown"@
        }
    }

    /// What the entry kind means.
    pub fn description(&self) -> (r: &'static str)
        ensures
            r@ == self.spec_description(),
    {
        match self.kind {
            0x05 => "BIOS Signing Key",
            0x07 => "BIOS Signature",
            0x60 => "AGESA PSP Customization Block",
            0x61 => "AGESA PSP Output Block",
            0x62 => "BIOS Binary",
            0x63 => "AGESA PSP Output Block NVRAM",
            0x64 => match self.instance() {
                0x01 => "PMU Firmware Code (DDR4 UDIMM 1D)",
                0x02 => "PMU Firmware Code (DDR4 RDIMM 1D)",
                0x03 => "PMU Firmware Code (DDR4 LRDIMM 1D)",
                0x04 => "PMU Firmware Code (DDR4 2D)",
                0x05 => "PMU Firmware Code (DDR4 2D Diagnostic)",
                _ => "PMU Firmware Code (Unknown)",
            },
            0x65 => match self.instance() {
                0x01 => "PMU Firmware Data (DDR4 UDIMM 1D)",
                0x02 => "PMU Firmware Data (DDR4 RDIMM 1D)",
                0x03 => "PMU Firmware Data (DDR4 LRDIMM 1D)",
                0x04 => "PMU Firmware Data (DDR4 2D)",
                0x05 => "PMU Firmware Data (DDR4 2D Diagnostic)",
                _ => "PMU Firmware Data (Unknown)",
            },
            0x66 => "Microcode",
            0x67 => "Machine Check Exception Data",
            0x68 => "AGESA PSP Customization Block Backup",
            0x6A => "MP2 Firmware",
            0x70 => "BIOS Level 2 Directory",
            _ => "Unknown",
        }
    }
}

impl PspDirectoryEntry {
    /// The payload offset: the value masked to the flash window.
    pub open spec fn spec_start(self) -> int {
        (self.value & ADDRESS_MASK) as int
    }

    /// True when the entry carries its payload literally in `value`.
    pub open spec fn spec_is_value_entry(self) -> bool {
        self.size == 0xFFFFFFFFu32
    }

    /// Copies the payload out of the image. A value entry yields the eight
    /// little-endian bytes of `value`; any other entry yields `size` bytes
    /// at the masked value address, and fails when the payload would end
    /// past the buffer.
    pub fn data(&self, data: &[u8]) -> (r: Result<Vec<u8>, Error>)
        ensures
            match r {
                Ok(v) => if self.spec_is_value_entry() {
                    v@ == u64_le_bytes(self.value)
                } else {
                    self.spec_start() + self.size <= data@.len() && v@ == data@.subrange(
                        self.spec_start(),
                        self.spec_start() + self.size,
                    )
                },
                Err(e) => !self.spec_is_value_entry() && self.spec_start() + self.size
                    > data@.len() && e == Error::EntryOutOfRange(
                    "PspDirectoryEntry",
                    (self.value & ADDRESS_MASK),
                    ((self.value & ADDRESS_MASK) + self.size as u64) as u64,
                    data@.len() as u64,
                ),
            },
    {
        if self.size == 0xFFFFFFFF {
            let v = self.value;
            let bytes: Vec<u8> = vec![
                (v & 0xFF) as u8,
                ((v >> 8) & 0xFF) as u8,
                ((v >> 16) & 0xFF) as u8,
                ((v >> 24) & 0xFF) as u8,
                ((v >> 32) & 0xFF) as u8,
                ((v >> 40) & 0xFF) as u8,
                ((v >> 48) & 0xFF) as u8,
                ((v >> 56) & 0xFF) as u8,
            ];
            proof {
                assert(bytes@ =~= u64_le_bytes(self.value));
            }
            return Ok(bytes);
        }
        let start64 = self.value & ADDRESS_MASK;
        proof {
            let s = self.value;
            assert(s & 0x1FFFFFF <= 0x1FFFFFF) by (bit_vector);
        }
        let end64 = start64 + self.size as u64;
        if end64 <= data.len() as u64 {
            let start = start64 as usize;
            let end = end64 as usize;
            Ok(vstd::slice::slice_to_vec(slice_subrange(data, start, end)))
        } else {
            Err(
                Error::EntryOutOfRange("PspDirectoryEntry", start64, end64, data.len() as u64),
            )
        }
    }

    /// What the entry kind means.
    pub open spec fn spec_description(self) -> Seq<char> {
        if self.kind == 0x00 {
            "AMD Public Key"@
        } else if self.kind == 0x01 {
            "PSP Boot Loader"@
        } else if self.kind == 0x02 {
            "PSP Secure OS"@
        } else if self.kind == 0x03 {
            "PSP Recovery Boot Loader"@
        } else if self.kind == 0x04 {
            "PSP Non-volatile Data"@
        } else if self.kind == 0x08 {
            "SMU Firmware"@
        } else if self.kind == 0x09 {
            "AMD Secure Debug Key"@
        } else if self.kind == 0x0A {
            "OEM Public Key"@
        } else if self.kind == 0x0B {
            "PSP Soft Fuse Chain"@
        } else if self.kind == 0x0C {
            "PSP Trustlet"@
        } else if self.kind == 0x0D {
            "PSP Trustlet Public Key"@
        } else if self.kind == 0x12 {
            "SMU Firmware"@
        } else if self.kind == 0x13 {
            "PSP Early Secure Unlock Debug"@
        } else if self.kind == 0x20 {
            "IP Discovery"@
        } else if self.kind == 0x21 {
            "Wrapped iKEK"@
        } else if self.kind == 0x22 {
            "PSP Token Unlock"@
        } else if self.kind == 0x24 {
            "Security Policy"@
        } else if self.kind == 0x25 {
            "MP2 Firmware"@
        } else if self.kind == 0x26 {
            "MP2 Firmware Part 2"@
        } else if self.kind == 0x27 {
            "User Mode Unit Test"@
        } else if self.kind == 0x28 {
            "System Driver"@
        } else if self.kind == 0x29 {
            "KVM Image"@
        } else if self.kind == 0x2A {
            "MP5 Firmware"@
        } else if self.kind == 0x2B {
            "Embedded Firmware Signature"@
        } else if self.kind == 0x2C {
            "TEE Write-once NVRAM"@
        } else if self.kind == 0x2D {
            "External Chipset PSP Boot Loader"@
        } else if self.kind == 0x2E {
            "External Chipset MP0 Firmware"@
        } else if self.kind == 0x2F {
            "External Chipset MP1 Firmware"@
        } else if self.kind == 0x30 {
            "PSP AGESA Binary 0"@
        } else if self.kind == 0x31 {
            "PSP AGESA Binary 1"@
        } else if self.kind == 0x32 {
            "PSP AGESA Binary 2"@
        } else if self.kind == 0x33 {
            "PSP AGESA Binary 3"@
        } else if self.kind == 0x34 {
            "PSP AGESA Binary 4"@
        } else if self.kind == 0x35 {
            "PSP AGESA Binary 5"@
        } else if self.kind == 0x36 {
            "PSP AGESA Binary 6"@
        } else if self.kind == 0x37 {
            "PSP AGESA Binary 7"@
        } else if self.kind == 0x38 {
            "SEV Data"@
        } else if self.kind == 0x39 {
            "SEV Code"@
        } else if self.kind == 0x3A {
            "Processor Serial Number Allow List"@
        } else if self.kind == 0x3B {
            "SERDES Microcode"@
        } else if self.kind == 0x3C {
            "VBIOS Pre-load"@
        } else if self.kind == 0x3D {
            "WLAN Umac"@
        } else if self.kind == 0x3E {
            "WLAN Imac"@
        } else if self.kind == 0x3F {
            "WLAN Bluetooth"@
        } else if self.kind == 0x40 {
            "PSP Level 2 Directory"@
        } else if self.kind == 0x41 {
            "External Chipset MP0 Boot Loader"@
        } else if self.kind == 0x42 {
            "DXIO PHY SRAM Firmware"@
        } else if self.kind == 0x43 {
            "DXIO PHY SRAM Firmware Public Key"@
        } else if self.kind == 0x44 {
            "USB PHY Firmware"@
        } else if self.kind == 0x45 {
            "Security Policy for tOS"@
        } else if self.kind == 0x46 {
            "External Chipset PSP Boot Loader"@
        } else if self.kind == 0x47 {
            "DRTM TA"@
        } else if self.kind == 0x48 {
            "Recovery L2A PSP Directory"@
        } else if self.kind == 0x49 {
            "Recovery L2 BIOS Directory"@
        } else if self.kind == 0x4A {
            "Recovery L2B PSP Directory"@
        } else if self.kind == 0x4C {
            "External Chipset Security Policy"@
        } else if self.kind == 0x4D {
            "External Chipset Secure Debug Unlock"@
        } else if self.kind == 0x4E {
            "PMU Public Key"@
        } else if self.kind == 0x4F {
            "UMC Firmware"@
        } else if self.kind == 0x50 {
            "PSP Boot Loader Public Keys Table"@
        } else if self.kind == 0x51 {
            "PSP tOS Public Keys Table"@
        } else if self.kind == 0x52 {
            "OEM PSP Boot Loader Application"@
        } else if self.kind == 0x53 {
            "OEM PSP Boot Loader Application Public Key"@
        } else if self.kind == 0x54 {
            "PSP RPMC NVRAM"@
        } else if self.kind == 0x55 {
            "PSP Boot Loader Anti-rollback"@
        } else if self.kind == 0x56 {
            "PSP Secure OS Anti-rollback"@
        } else if self.kind == 0x57 {
            "CVIP Configuration Table"@
        } else if self.kind == 0x58 {
            "DMCU-ERAM"@
        } else if self.kind == 0x59 {
            "DMCU-ISR"@
        } else if self.kind == 0x5A {
            "MSMU Binary 0"@
        } else if self.kind == 0x5B {
            "MSMU Binary 1"@
        } else if self.kind == 0x73 {
            "PSP Boot Loader AB"@
        } else if self.kind == 0x80 {
            "OEM Sys-TA"@
        } else if self.kind == 0x81 {
            "OEM Sys-TA Signing Key"@
        } else {
            "Unknown"@
        }
    }

    /// What the entry kind means.
    pub fn description(&self) -> (r: &'static str)
        ensures
            r@ == self.spec_description(),
    {
        match self.kind {
            0x00 => "AMD Public Key",
            0x01 => "PSP Boot Loader",
            0x02 => "PSP Secure OS",
            0x03 => "PSP Recovery Boot Loader",
            0x04 => "PSP Non-volatile Data",
            0x08 => "SMU Firmware",
            0x09 => "AMD Secure Debug Key",
            0x0A => "OEM Public Key",
            0x0B => "PSP Soft Fuse Chain",
            0x0C => "PSP Trustlet",
            0x0D => "PSP Trustlet Public Key",
            0x12 => "SMU Firmware",
            0x13 => "PSP Early Secure Unlock Debug",
            0x20 => "IP Discovery",
            0x21 => "Wrapped iKEK",
            0x22 => "PSP Token Unlock",
            0x24 => "Security Policy",
            0x25 => "MP2 Firmware",
            0x26 => "MP2 Firmware Part 2",
            0x27 => "User Mode Unit Test",
            0x28 => "System Driver",
            0x29 => "KVM Image",
            0x2A => "MP5 Firmware",
            0x2B => "Embedded Firmware Signature",
            0x2C => "TEE Write-once NVRAM",
            0x2D => "External Chipset PSP Boot Loader",
            0x2E => "External Chipset MP0 Firmware",
            0x2F => "External Chipset MP1 Firmware",
            0x30 => "PSP AGESA Binary 0",
            0x31 => "PSP AGESA Binary 1",
            0x32 => "PSP AGESA Binary 2",
            0x33 => "PSP AGESA Binary 3",
            0x34 => "PSP AGESA Binary 4",
            0x35 => "PSP AGESA Binary 5",
            0x36 => "PSP AGESA Binary 6",
            0x37 => "PSP AGESA Binary 7",
            0x38 => "SEV Data",
            0x39 => "SEV Code",
            0x3A => "Processor Serial Number Allow List",
            0x3B => "SERDES Microcode",
            0x3C => "VBIOS Pre-load",
            0x3D => "WLAN Umac",
            0x3E => "WLAN Imac",
            0x3F => "WLAN Bluetooth",
            0x40 => "PSP Level 2 Directory",
            0x41 => "External Chipset MP0 Boot Loader",
            0x42 => "DXIO PHY SRAM Firmware",
            0x43 => "DXIO PHY SRAM Firmware Public Key",
            0x44 => "USB PHY Firmware",
            0x45 => "Security Policy for tOS",
            0x46 => "External Chipset PSP Boot Loader",
            0x47 => "DRTM TA",
            0x48 => "Recovery L2A PSP Directory",
            0x49 => "Recovery L2 BIOS Directory",
            0x4A => "Recovery L2B PSP Directory",
            0x4C => "External Chipset Security Policy",
            0x4D => "External Chipset Secure Debug Unlock",
            0x4E => "PMU Public Key",
            0x4F => "UMC Firmware",
            0x50 => "PSP Boot Loader Public Keys Table",
            0x51 => "PSP tOS Public Keys Table",
            0x52 => "OEM PSP Boot Loader Application",
            0x53 => "OEM PSP Boot Loader Application Public Key",
            0x54 => "PSP RPMC NVRAM",
            0x55 => "PSP Boot Loader Anti-rollback",
            0x56 => "PSP Secure OS Anti-rollback",
            0x57 => "CVIP Configuration Table",
            0x58 => "DMCU-ERAM",
            0x59 => "DMCU-ISR",
            0x5A => "MSMU Binary 0",
            0x5B => "MSMU Binary 1",
            0x73 => "PSP Boot Loader AB",
            0x80 => "OEM Sys-TA",
            0x81 => "OEM Sys-TA Signing Key",
            _ => "Unknown",
        }
    }
}

/// Decodes the directory header of `d` at `pos`.
pub(crate) fn read_directory_header(d: &[u8], pos: usize) -> (r: DirectoryHeader)
    requires
        pos + DIRECTORY_HEADER_SIZE <= d@.len(),
    ensures
        r == spec_directory_header(d@, pos as int),
{
    let _len: usize = d.len();
    DirectoryHeader {
        magic: crate::bytes::read_u32(d, pos),
        checksum: crate::bytes::read_u32(d, pos + 4),
        entries: crate::bytes::read_u32(d, pos + 8),
        rsvd_0c: crate::bytes::read_u32(d, pos + 12),
    }
}

/// Decodes the combo directory header of `d` at `pos`.
pub(crate) fn read_combo_header(d: &[u8], pos: usize) -> (r: ComboDirectoryHeader)
    requires
        pos + COMBO_HEADER_SIZE <= d@.len(),
    ensures
        r == spec_combo_header(d@, pos as int),
{
    let _len: usize = d.len();
    ComboDirectoryHeader {
        magic: crate::bytes::read_u32(d, pos),
        checksum: crate::bytes::read_u32(d, pos + 4),
        entries: crate::bytes::read_u32(d, pos + 8),
        look_up_mode: crate::bytes::read_u32(d, pos + 12),
        rsvd_10: crate::bytes::read_u32(d, pos + 16),
        rsvd_14: crate::bytes::read_u32(d, pos + 20),
        rsvd_18: crate::bytes::read_u32(d, pos + 24),
        rsvd_1c: crate::bytes::read_u32(d, pos + 28),
    }
}

/// Why parsing a BIOS directory at the start of `d` fails, or `None` when
/// it succeeds: the magic must read `$BHD` or `$BL2`, the header must fit,
/// and the buffer must hold the declared number of entries.
pub open spec fn bios_directory_error(d: Seq<u8>) -> Option<Error> {
    if d.len() < 4 {
        Some(Error::RecordTruncated("Directory", 4, d.len() as u64))
    } else if !(is_bhd(d) || is_bl2(d)) {
        Some(Error::UnknownDirectorySignature([d[0], d[1], d[2], d[3]]))
    } else if d.len() < DIRECTORY_HEADER_SIZE {
        Some(
            Error::RecordTruncated("DirectoryHeader", DIRECTORY_HEADER_SIZE as u64, d.len() as u64),
        )
    } else if DIRECTORY_HEADER_SIZE + BIOS_ENTRY_SIZE * le32(d, 8) > d.len() {
        Some(
            Error::RecordTruncated(
                "BiosDirectoryEntry",
                (DIRECTORY_HEADER_SIZE + BIOS_ENTRY_SIZE * le32(d, 8)) as u64,
                d.len() as u64,
            ),
        )
    } else {
        None
    }
}

/// Why parsing a PSP directory at the start of `d` fails, or `None` when
/// it succeeds; as the BIOS case, with the magics `$PSP` and `$PL2`.
pub open spec fn psp_directory_error(d: Seq<u8>) -> Option<Error> {
    if d.len() < 4 {
        Some(Error::RecordTruncated("Directory", 4, d.len() as u64))
    } else if !(is_psp(d) || is_pl2(d)) {
        Some(Error::UnknownDirectorySignature([d[0], d[1], d[2], d[3]]))
    } else if d.len() < DIRECTORY_HEADER_SIZE {
        Some(
            Error::RecordTruncated("DirectoryHeader", DIRECTORY_HEADER_SIZE as u64, d.len() as u64),
        )
    } else if DIRECTORY_HEADER_SIZE + PSP_ENTRY_SIZE * le32(d, 8) > d.len() {
        Some(
            Error::RecordTruncated(
                "PspDirectoryEntry",
                (DIRECTORY_HEADER_SIZE + PSP_ENTRY_SIZE * le32(d, 8)) as u64,
                d.len() as u64,
            ),
        )
    } else {
        None
    }
}

/// Why parsing a combo directory at the start of `d` fails, or `None` when
/// it succeeds; `bios` selects the `2BHD` magic over `2PSP`.
pub open spec fn combo_directory_error(d: Seq<u8>, bios: bool) -> Option<Error> {
    if d.len() < 4 {
        Some(Error::RecordTruncated("Directory", 4, d.len() as u64))
    } else if !(if bios {
        is_bhd_combo(d)
    } else {
        is_psp_combo(d)
    }) {
        Some(Error::UnknownDirectorySignature([d[0], d[1], d[2], d[3]]))
    } else if d.len() < COMBO_HEADER_SIZE {
        Some(
            Error::RecordTruncated("ComboDirectoryHeader", COMBO_HEADER_SIZE as u64, d.len() as u64),
        )
    } else if COMBO_HEADER_SIZE + COMBO_ENTRY_SIZE * le32(d, 8) > d.len() {
        Some(
            Error::RecordTruncated(
                "ComboDirectoryEntry",
                (COMBO_HEADER_SIZE + COMBO_ENTRY_SIZE * le32(d, 8)) as u64,
                d.len() as u64,
            ),
        )
    } else {
        None
    }
}

/// A `$BHD` or `$BL2` directory: its header and its decoded entries.
#[derive(Clone, Debug)]
pub struct BiosDirectory {
    /// The decoded header.
    pub header: DirectoryHeader,
    /// The decoded entries, `header.entries` of them.
    pub entries: Vec<BiosDirectoryEntry>,
}

impl BiosDirectory {
    /// True when this directory was decoded from the start of `d`.
    pub open spec fn decoded_from(self, d: Seq<u8>) -> bool {
        &&& bios_directory_error(d) is None
        &&& self.header == spec_directory_header(d, 0)
        &&& self.entries@ == spec_bios_entries(d, DIRECTORY_HEADER_SIZE as int, le32(d, 8))
    }

    /// Parses a BIOS directory from the start of `d`: the magic must read
    /// `$BHD` or `$BL2`, and the buffer must hold the header and the
    /// declared number of entries.
    pub fn new(data: &[u8]) -> (r: Result<BiosDirectory, Error>)
        ensures
            match r {
                Ok(dir) => dir.decoded_from(data@),
                Err(e) => bios_directory_error(data@) == Some(e),
            },
    {
        let len = data.len();
        if len < 4 {
            return Err(Error::RecordTruncated("Directory", 4, len as u64));
        }
        let bhd = data[0] == 0x24 && data[1] == 0x42 && data[2] == 0x48 && data[3] == 0x44;
        let bl2 = data[0] == 0x24 && data[1] == 0x42 && data[2] == 0x4c && data[3] == 0x32;
        if !(bhd || bl2) {
            return Err(Error::UnknownDirectorySignature([data[0], data[1], data[2], data[3]]));
        }
        if len < DIRECTORY_HEADER_SIZE {
            return Err(
                Error::RecordTruncated("DirectoryHeader", DIRECTORY_HEADER_SIZE as u64, len as u64),
            );
        }
        let header = read_directory_header(data, 0);
        let n = header.entries;
        let need: u64 = DIRECTORY_HEADER_SIZE as u64 + BIOS_ENTRY_SIZE as u64 * n as u64;
        if need > len as u64 {
            return Err(Error::RecordTruncated("BiosDirectoryEntry", need, len as u64));
        }
        let n = n as usize;
        let mut entries: Vec<BiosDirectoryEntry> = Vec::new();
        let mut j: usize = 0;
        while j < n
            invariant
                len == data@.len(),
                j <= n,
                DIRECTORY_HEADER_SIZE + BIOS_ENTRY_SIZE * n <= len,
                entries@ == spec_bios_entries(data@, DIRECTORY_HEADER_SIZE as int, j as int),
            decreases n - j,
        {
            let pos = DIRECTORY_HEADER_SIZE + BIOS_ENTRY_SIZE * j;
            let e = BiosDirectoryEntry {
                kind: data[pos],
                region_kind: data[pos + 1],
                flags: data[pos + 2],
                sub_program: data[pos + 3],
                size: crate::bytes::read_u32(data, pos + 4),
                source: crate::bytes::read_u64(data, pos + 8),
                destination: crate::bytes::read_u64(data, pos + 16),
            };
            entries.push(e);
            proof {
                assert(entries@ =~= spec_bios_entries(
                    data@,
                    DIRECTORY_HEADER_SIZE as int,
                    j + 1,
                ));
            }
            j = j + 1;
        }
        Ok(BiosDirectory { header, entries })
    }

    /// The decoded header.
    pub fn header(&self) -> (r: DirectoryHeader)
        ensures
            r == self.header,
    {
        self.header
    }

    /// A copy of the decoded entries.
    pub fn entries(&self) -> (r: Vec<BiosDirectoryEntry>)
        ensures
            r@ == self.entries@,
    {
        let r = self.entries.clone();
        proof {
            assert(r@ =~= self.entries@);
        }
        r
    }
}

/// A `$PSP` or `$PL2` directory: its header and its decoded entries.
#[derive(Clone, Debug)]
pub struct PspDirectory {
    /// The decoded header.
    pub header: DirectoryHeader,
    /// The decoded entries, `header.entries` of them.
    pub entries: Vec<PspDirectoryEntry>,
}

impl PspDirectory {
    /// True when this directory was decoded from the start of `d`.
    pub open spec fn decoded_from(self, d: Seq<u8>) -> bool {
        &&& psp_directory_error(d) is None
        &&& self.header == spec_directory_header(d, 0)
        &&& self.entries@ == spec_psp_entries(d, DIRECTORY_HEADER_SIZE as int, le32(d, 8))
    }

    /// Parses a PSP directory from the start of `d`: the magic must read
    /// `$PSP` or `$PL2`, and the buffer must hold the header and the
    /// declared number of entries.
    pub fn new(data: &[u8]) -> (r: Result<PspDirectory, Error>)
        ensures
            match r {
                Ok(dir) => dir.decoded_from(data@),
                Err(e) => psp_directory_error(data@) == Some(e),
            },
    {
        let len = data.len();
        if len < 4 {
            return Err(Error::RecordTruncated("Directory", 4, len as u64));
        }
        let psp = data[0] == 0x24 && data[1] == 0x50 && data[2] == 0x53 && data[3] == 0x50;
        let pl2 = data[0] == 0x24 && data[1] == 0x50 && data[2] == 0x4c && data[3] == 0x32;
        if !(psp || pl2) {
            return Err(Error::UnknownDirectorySignature([data[0], data[1], data[2], data[3]]));
        }
        if len < DIRECTORY_HEADER_SIZE {
            return Err(
                Error::RecordTruncated("DirectoryHeader", DIRECTORY_HEADER_SIZE as u64, len as u64),
            );
        }
        let header = read_directory_header(data, 0);
        let n = header.entries;
        let need: u64 = DIRECTORY_HEADER_SIZE as u64 + PSP_ENTRY_SIZE as u64 * n as u64;
        if need > len as u64 {
            return Err(Error::RecordTruncated("PspDirectoryEntry", need, len as u64));
        }
        let n = n as usize;
        let mut entries: Vec<PspDirectoryEntry> = Vec::new();
        let mut j: usize = 0;
        while j < n
            invariant
                len == data@.len(),
                j <= n,
                DIRECTORY_HEADER_SIZE + PSP_ENTRY_SIZE * n <= len,
                entries@ == spec_psp_entries(data@, DIRECTORY_HEADER_SIZE as int, j as int),
            decreases n - j,
        {
            let pos = DIRECTORY_HEADER_SIZE + PSP_ENTRY_SIZE * j;
            let e = PspDirectoryEntry {
                kind: data[pos],
                sub_program: data[pos + 1],
                rom_id: data[pos + 2],
                rsvd_03: data[pos + 3],
                size: crate::bytes::read_u32(data, pos + 4),
                value: crate::bytes::read_u64(data, pos + 8),
            };
            entries.push(e);
            proof {
                assert(entries@ =~= spec_psp_entries(data@, DIRECTORY_HEADER_SIZE as int, j + 1));
            }
            j = j + 1;
        }
        Ok(PspDirectory { header, entries })
    }

    /// The decoded header.
    pub fn header(&self) -> (r: DirectoryHeader)
        ensures
            r == self.header,
    {
        self.header
    }

    /// A copy of the decoded entries.
    pub fn entries(&self) -> (r: Vec<PspDirectoryEntry>)
        ensures
            r@ == self.entries@,
    {
        let r = self.entries.clone();
        proof {
            assert(r@ =~= self.entries@);
        }
        r
    }
}

/// A `2BHD` combo directory: its header and its selector entries.
#[derive(Clone, Debug)]
pub struct BiosComboDirectory {
    /// The decoded header.
    pub header: ComboDirectoryHeader,
    /// The decoded selector entries, `header.entries` of them.
    pub entries: Vec<ComboDirectoryEntry>,
}

impl BiosComboDirectory {
    /// True when this directory was decoded from the start of `d`.
    pub open spec fn decoded_from(self, d: Seq<u8>) -> bool {
        &&& combo_directory_error(d, true) is None
        &&& self.header == spec_combo_header(d, 0)
        &&& self.entries@ == spec_combo_entries(d, COMBO_HEADER_SIZE as int, le32(d, 8))
    }

    /// Parses a BIOS combo directory from the start of `d`: the magic must
    /// read `2BHD`, and the buffer must hold the header and the declared
    /// number of entries.
    pub fn new(data: &[u8]) -> (r: Result<BiosComboDirectory, Error>)
        ensures
            match r {
                Ok(dir) => dir.decoded_from(data@),
                Err(e) => combo_directory_error(data@, true) == Some(e),
            },
    {
        match combo_new(data, true) {
            Ok((header, entries)) => Ok(BiosComboDirectory { header, entries }),
            Err(e) => Err(e),
        }
    }

    /// The decoded header.
    pub fn header(&self) -> (r: ComboDirectoryHeader)
        ensures
            r == self.header,
    {
        self.header
    }

    /// A copy of the decoded selector entries.
    pub fn entries(&self) -> (r: Vec<ComboDirectoryEntry>)
        ensures
            r@ == self.entries@,
    {
        let r = self.entries.clone();
        proof {
            assert(r@ =~= self.entries@);
        }
        r
    }
}

/// A `2PSP` combo directory: its header and its selector entries.
#[derive(Clone, Debug)]
pub struct PspComboDirectory {
    /// The decoded header.
    pub header: ComboDirectoryHeader,
    /// The decoded selector entries, `header.entries` of them.
    pub entries: Vec<ComboDirectoryEntry>,
}

impl PspComboDirectory {
    /// True when this directory was decoded from the start of `d`.
    pub open spec fn decoded_from(self, d: Seq<u8>) -> bool {
        &&& combo_directory_error(d, false) is None
        &&& self.header == spec_combo_header(d, 0)
        &&& self.entries@ == spec_combo_entries(d, COMBO_HEADER_SIZE as int, le32(d, 8))
    }

    /// Parses a PSP combo directory from the start of `d`: the magic must
    /// read `2PSP`, and the buffer must hold the header and the declared
    /// number of entries.
    pub fn new(data: &[u8]) -> (r: Result<PspComboDirectory, Error>)
        ensures
            match r {
                Ok(dir) => dir.decoded_from(data@),
                Err(e) => combo_directory_error(data@, false) == Some(e),
            },
    {
        match combo_new(data, false) {
            Ok((header, entries)) => Ok(PspComboDirectory { header, entries }),
            Err(e) => Err(e),
        }
    }

    /// The decoded header.
    pub fn header(&self) -> (r: ComboDirectoryHeader)
        ensures
            r == self.header,
    {
        self.header
    }

    /// A copy of the decoded selector entries.
    pub fn entries(&self) -> (r: Vec<ComboDirectoryEntry>)
        ensures
            r@ == self.entries@,
    {
        let r = self.entries.clone();
        proof {
            assert(r@ =~= self.entries@);
        }
        r
    }
}

/// Parses a combo directory of either flavour from the start of `d`.
fn combo_new(data: &[u8], bios: bool) -> (r: Result<
    (ComboDirectoryHeader, Vec<ComboDirectoryEntry>),
    Error,
>)
    ensures
        match r {
            Ok((header, entries)) => {
                &&& combo_directory_error(data@, bios) is None
                &&& header == spec_combo_header(data@, 0)
                &&& entries@ == spec_combo_entries(data@, COMBO_HEADER_SIZE as int, le32(data@, 8))
            },
            Err(e) => combo_directory_error(data@, bios) == Some(e),
        },
{
    let len = data.len();
    if len < 4 {
        return Err(Error::RecordTruncated("Directory", 4, len as u64));
    }
    let magic_ok = if bios {
        data[0] == 0x32 && data[1] == 0x42 && data[2] == 0x48 && data[3] == 0x44
    } else {
        data[0] == 0x32 && data[1] == 0x50 && data[2] == 0x53 && data[3] == 0x50
    };
    if !magic_ok {
        return Err(Error::UnknownDirectorySignature([data[0], data[1], data[2], data[3]]));
    }
    if len < COMBO_HEADER_SIZE {
        return Err(Error::RecordTruncated("ComboDirectoryHeader", COMBO_HEADER_SIZE as u64, len as u64));
    }
    let header = read_combo_header(data, 0);
    let n = header.entries;
    let need: u64 = COMBO_HEADER_SIZE as u64 + COMBO_ENTRY_SIZE as u64 * n as u64;
    if need > len as u64 {
        return Err(Error::RecordTruncated("ComboDirectoryEntry", need, len as u64));
    }
    let n = n as usize;
    let mut entries: Vec<ComboDirectoryEntry> = Vec::new();
    let mut j: usize = 0;
    while j < n
        invariant
            len == data@.len(),
            j <= n,
            COMBO_HEADER_SIZE + COMBO_ENTRY_SIZE * n <= len,
            entries@ == spec_combo_entries(data@, COMBO_HEADER_SIZE as int, j as int),
        decreases n - j,
    {
        let pos = COMBO_HEADER_SIZE + COMBO_ENTRY_SIZE * j;
        let e = ComboDirectoryEntry {
            id_select: crate::bytes::read_u32(data, pos),
            id: crate::bytes::read_u32(data, pos + 4),
            directory: crate::bytes::read_u64(data, pos + 8),
        };
        entries.push(e);
        proof {
            assert(entries@ =~= spec_combo_entries(data@, COMBO_HEADER_SIZE as int, j + 1));
        }
        j = j + 1;
    }
    Ok((header, entries))
}

/// A directory of any of the six flavours, dispatched on its magic.
#[derive(Clone, Debug)]
pub enum Directory {
    /// A `$BHD` level-1 BIOS directory.
    Bios(BiosDirectory),
    /// A `2BHD` BIOS combo directory.
    BiosCombo(BiosComboDirectory),
    /// A `$BL2` level-2 BIOS directory.
    BiosLevel2(BiosDirectory),
    /// A `$PSP` level-1 PSP directory.
    Psp(PspDirectory),
    /// A `2PSP` PSP combo directory.
    PspCombo(PspComboDirectory),
    /// A `$PL2` level-2 PSP directory.
    PspLevel2(PspDirectory),
}

/// Why dispatching a directory at the start of `d` fails, or `None` when
/// it succeeds.
pub open spec fn directory_error(d: Seq<u8>) -> Option<Error> {
    if d.len() < 4 {
        Some(Error::RecordTruncated("Directory", 4, d.len() as u64))
    } else if is_bhd(d) || is_bl2(d) {
        bios_directory_error(d)
    } else if is_psp(d) || is_pl2(d) {
        psp_directory_error(d)
    } else if is_bhd_combo(d) {
        combo_directory_error(d, true)
    } else if is_psp_combo(d) {
        combo_directory_error(d, false)
    } else {
        Some(Error::UnknownDirectorySignature([d[0], d[1], d[2], d[3]]))
    }
}

impl Directory {
    /// True when this directory was dispatched and decoded from the start
    /// of `d`, in the variant its magic selects.
    pub open spec fn decoded_from(self, d: Seq<u8>) -> bool {
        match self {
            Directory::Bios(dir) => is_bhd(d) && dir.decoded_from(d),
            Directory::BiosLevel2(dir) => is_bl2(d) && dir.decoded_from(d),
            Directory::BiosCombo(dir) => is_bhd_combo(d) && dir.decoded_from(d),
            Directory::Psp(dir) => is_psp(d) && dir.decoded_from(d),
            Directory::PspLevel2(dir) => is_pl2(d) && dir.decoded_from(d),
            Directory::PspCombo(dir) => is_psp_combo(d) && dir.decoded_from(d),
        }
    }

    /// Resolves `address` to a flash offset — masked to the flash window
    /// and capped at the end of the buffer — and parses the directory
    /// there.
    pub fn open(data: &[u8], address: u64) -> (r: Result<Directory, Error>)
        ensures
            ({
                let sub = data@.skip(spec_masked_offset(address, data@.len() as int));
                match r {
                    Ok(dir) => directory_error(sub) is None && dir.decoded_from(sub),
                    Err(e) => directory_error(sub) == Some(e),
                }
            }),
    {
        let len = data.len();
        let off64 = address & ADDRESS_MASK;
        proof {
            let a = address;
            assert(a & 0x1FFFFFF <= 0x1FFFFFF) by (bit_vector);
        }
        let off = if off64 as usize > len {
            len
        } else {
            off64 as usize
        };
        let sub = slice_subrange(data, off, len);
        proof {
            assert(sub@ =~= data@.skip(spec_masked_offset(address, data@.len() as int)));
        }
        Directory::new(sub)
    }

    /// Dispatches on the four magic bytes at the start of `d` and parses
    /// the directory they select.
    pub fn new(data: &[u8]) -> (r: Result<Directory, Error>)
        ensures
            match r {
                Ok(dir) => directory_error(data@) is None && dir.decoded_from(data@),
                Err(e) => directory_error(data@) == Some(e),
            },
    {
        let len = data.len();
        if len < 4 {
            return Err(Error::RecordTruncated("Directory", 4, len as u64));
        }
        let b0 = data[0];
        let b1 = data[1];
        let b2 = data[2];
        let b3 = data[3];
        if b0 == 0x24 && b1 == 0x42 && b2 == 0x48 && b3 == 0x44 {
            match BiosDirectory::new(data) {
                Ok(dir) => Ok(Directory::Bios(dir)),
                Err(e) => Err(e),
            }
        } else if b0 == 0x24 && b1 == 0x42 && b2 == 0x4c && b3 == 0x32 {
            match BiosDirectory::new(data) {
                Ok(dir) => Ok(Directory::BiosLevel2(dir)),
                Err(e) => Err(e),
            }
        } else if b0 == 0x24 && b1 == 0x50 && b2 == 0x53 && b3 == 0x50 {
            match PspDirectory::new(data) {
                Ok(dir) => Ok(Directory::Psp(dir)),
                Err(e) => Err(e),
            }
        } else if b0 == 0x24 && b1 == 0x50 && b2 == 0x4c && b3 == 0x32 {
            match PspDirectory::new(data) {
                Ok(dir) => Ok(Directory::PspLevel2(dir)),
                Err(e) => Err(e),
            }
        } else if b0 == 0x32 && b1 == 0x42 && b2 == 0x48 && b3 == 0x44 {
            match BiosComboDirectory::new(data) {
                Ok(dir) => Ok(Directory::BiosCombo(dir)),
                Err(e) => Err(e),
            }
        } else if b0 == 0x32 && b1 == 0x50 && b2 == 0x53 && b3 == 0x50 {
            match PspComboDirectory::new(data) {
                Ok(dir) => Ok(Directory::PspCombo(dir)),
                Err(e) => Err(e),
            }
        } else {
            Err(Error::UnknownDirectorySignature([b0, b1, b2, b3]))
        }
    }
}

/// How deep the traversal may descend before it reports
/// `DirectoryRecursionTooDeep` instead of recursing further.
pub const MAX_DIRECTORY_DEPTH: u32 = 16;

/// One step of a directory traversal, in visiting order: a directory that
/// was entered, an entry that was seen, or a position that failed to parse.
#[derive(Clone, Debug, PartialEq, Eq)]
pub enum TraversalStep {
    /// A `$BHD` directory was entered.
    Bios { address: u64, depth: u32, header: DirectoryHeader },
    /// A `$BL2` directory was entered.
    BiosLevel2 { address: u64, depth: u32, header: DirectoryHeader },
    /// A `2BHD` combo directory was entered.
    BiosCombo { address: u64, depth: u32, header: ComboDirectoryHeader },
    /// A `$PSP` directory was entered.
    Psp { address: u64, depth: u32, header: DirectoryHeader },
    /// A `$PL2` directory was entered.
    PspLevel2 { address: u64, depth: u32, header: DirectoryHeader },
    /// A `2PSP` combo directory was entered.
    PspCombo { address: u64, depth: u32, header: ComboDirectoryHeader },
    /// An entry of a BIOS directory was seen.
    BiosEntry { depth: u32, entry: BiosDirectoryEntry },
    /// An entry of a PSP directory was seen.
    PspEntry { depth: u32, entry: PspDirectoryEntry },
    /// A selector entry of a combo directory was seen.
    ComboEntry { depth: u32, entry: ComboDirectoryEntry },
    /// The directory at `address` could not be parsed; the traversal goes
    /// on with its siblings.
    Failed { address: u64, depth: u32, error: Error },
}

/// The flash offset an address resolves to: masked to the flash window and
/// capped at the end of the buffer.
pub open spec fn spec_masked_offset(address: u64, len: int) -> int {
    let off = (address & ADDRESS_MASK) as int;
    if off > len {
        len
    } else {
        off
    }
}

/// The steps of a traversal that starts at `address` with `depth` levels
/// already entered: the directory the masked address resolves to, then for
/// each entry the entry itself followed by the traversal of the directory
/// it points at, where it points at one.
pub open spec fn spec_traverse(d: Seq<u8>, address: u64, depth: u32) -> Seq<TraversalStep>
    decreases MAX_DIRECTORY_DEPTH - depth, 1int, 0int,
{
    if depth >= MAX_DIRECTORY_DEPTH {
        seq![
            TraversalStep::Failed { address, depth, error: Error::DirectoryRecursionTooDeep },
        ]
    } else {
        let sub = d.skip(spec_masked_offset(address, d.len() as int));
        if directory_error(sub) is Some {
            seq![
                TraversalStep::Failed { address, depth, error: directory_error(sub)->Some_0 },
            ]
        } else if is_bhd(sub) {
            seq![
                TraversalStep::Bios { address, depth, header: spec_directory_header(sub, 0) },
            ] + spec_bios_children(
                d,
                spec_bios_entries(sub, DIRECTORY_HEADER_SIZE as int, le32(sub, 8)),
                depth,
            )
        } else if is_bl2(sub) {
            seq![
                TraversalStep::BiosLevel2 {
                    address,
                    depth,
                    header: spec_directory_header(sub, 0),
                },
            ] + spec_bios_children(
                d,
                spec_bios_entries(sub, DIRECTORY_HEADER_SIZE as int, le32(sub, 8)),
                depth,
            )
        } else if is_psp(sub) {
            seq![
                TraversalStep::Psp { address, depth, header: spec_directory_header(sub, 0) },
            ] + spec_psp_children(
                d,
                spec_psp_entries(sub, DIRECTORY_HEADER_SIZE as int, le32(sub, 8)),
                depth,
            )
        } else if is_pl2(sub) {
            seq![
                TraversalStep::PspLevel2 {
                    address,
                    depth,
                    header: spec_directory_header(sub, 0),
                },
            ] + spec_psp_children(
                d,
                spec_psp_entries(sub, DIRECTORY_HEADER_SIZE as int, le32(sub, 8)),
                depth,
            )
        } else if is_bhd_combo(sub) {
            seq![
                TraversalStep::BiosCombo { address, depth, header: spec_combo_header(sub, 0) },
            ] + spec_combo_children(
                d,
                spec_combo_entries(sub, COMBO_HEADER_SIZE as int, le32(sub, 8)),
                depth,
            )
        } else {
            seq![
                TraversalStep::PspCombo { address, depth, header: spec_combo_header(sub, 0) },
            ] + spec_combo_children(
                d,
                spec_combo_entries(sub, COMBO_HEADER_SIZE as int, le32(sub, 8)),
                depth,
            )
        }
    }
}

/// The steps for the entries of a BIOS directory at `depth`: each entry,
/// followed by the traversal of its level-2 directory when its kind points
/// at one.
pub open spec fn spec_bios_children(
    d: Seq<u8>,
    es: Seq<BiosDirectoryEntry>,
    depth: u32,
) -> Seq<TraversalStep>
    decreases MAX_DIRECTORY_DEPTH - depth, 0int, es.len(),
{
    if es.len() == 0 || depth >= MAX_DIRECTORY_DEPTH {
        Seq::empty()
    } else {
        spec_bios_children(d, es.drop_last(), depth) + seq![
            TraversalStep::BiosEntry { depth, entry: es.last() },
        ] + if es.last().kind == BIOS_LEVEL2_KIND {
            spec_traverse(d, es.last().source, (depth + 1) as u32)
        } else {
            Seq::empty()
        }
    }
}

/// The steps for the entries of a PSP directory at `depth`: each entry,
/// followed by the traversal of its level-2 directory when its kind points
/// at one.
pub open spec fn spec_psp_children(
    d: Seq<u8>,
    es: Seq<PspDirectoryEntry>,
    depth: u32,
) -> Seq<TraversalStep>
    decreases MAX_DIRECTORY_DEPTH - depth, 0int, es.len(),
{
    if es.len() == 0 || depth >= MAX_DIRECTORY_DEPTH {
        Seq::empty()
    } else {
        spec_psp_children(d, es.drop_last(), depth) + seq![
            TraversalStep::PspEntry { depth, entry: es.last() },
        ] + if es.last().kind == PSP_LEVEL2_KIND {
            spec_traverse(d, es.last().value, (depth + 1) as u32)
        } else {
            Seq::empty()
        }
    }
}

/// The steps for the selector entries of a combo directory at `depth`:
/// each entry, followed by the traversal of the directory it selects.
pub open spec fn spec_combo_children(
    d: Seq<u8>,
    es: Seq<ComboDirectoryEntry>,
    depth: u32,
) -> Seq<TraversalStep>
    decreases MAX_DIRECTORY_DEPTH - depth, 0int, es.len(),
{
    if es.len() == 0 || depth >= MAX_DIRECTORY_DEPTH {
        Seq::empty()
    } else {
        spec_combo_children(d, es.drop_last(), depth) + seq![
            TraversalStep::ComboEntry { depth, entry: es.last() },
        ] + spec_traverse(d, es.last().directory, (depth + 1) as u32)
    }
}

/// The depth bound is honoured: a traversal that has already entered the
/// bounded number of levels reports exactly one failure step and descends
/// no further.
pub proof fn lemma_traversal_depth_bounded(d: Seq<u8>, address: u64, depth: u32)
    requires
        depth >= MAX_DIRECTORY_DEPTH,
    ensures
        spec_traverse(d, address, depth) == seq![
            TraversalStep::Failed { address, depth, error: Error::DirectoryRecursionTooDeep },
        ],
{
}

/// Walks the directory tree that starts at `address` inside `data` and
/// returns every step in visiting order. A branch that fails to parse is
/// reported in place and does not stop its siblings; descent past the
/// depth bound is reported as `DirectoryRecursionTooDeep`.
pub fn traverse(data: &[u8], address: u64) -> (r: Vec<TraversalStep>)
    ensures
        r@ == spec_traverse(data@, address, 0),
{
    let mut out: Vec<TraversalStep> = Vec::new();
    walk_directory(data, address, 0, &mut out);
    proof {
        assert(Seq::<TraversalStep>::empty() + spec_traverse(data@, address, 0) =~= spec_traverse(
            data@,
            address,
            0,
        ));
    }
    out
}

/// Resolves `address`, parses the directory there, and appends its steps.
fn walk_directory(data: &[u8], address: u64, depth: u32, out: &mut Vec<TraversalStep>)
    ensures
        final(out)@ == old(out)@ + spec_traverse(data@, address, depth),
    decreases MAX_DIRECTORY_DEPTH - depth, 1int, 0int,
{
    if depth >= MAX_DIRECTORY_DEPTH {
        out.push(
            TraversalStep::Failed { address, depth, error: Error::DirectoryRecursionTooDeep },
        );
        proof {
            assert(final(out)@ =~= old(out)@ + spec_traverse(data@, address, depth));
        }
        return ;
    }
    match Directory::open(data, address) {
        Err(e) => {
            out.push(TraversalStep::Failed { address, depth, error: e });
            proof {
                assert(final(out)@ =~= old(out)@ + spec_traverse(data@, address, depth));
            }
        },
        Ok(Directory::Bios(dir)) => {
            out.push(TraversalStep::Bios { address, depth, header: dir.header });
            walk_bios_entries(data, &dir.entries, depth, out);
            proof {
                assert(final(out)@ =~= old(out)@ + spec_traverse(data@, address, depth));
            }
        },
        Ok(Directory::BiosLevel2(dir)) => {
            out.push(TraversalStep::BiosLevel2 { address, depth, header: dir.header });
            walk_bios_entries(data, &dir.entries, depth, out);
            proof {
                assert(final(out)@ =~= old(out)@ + spec_traverse(data@, address, depth));
            }
        },
        Ok(Directory::Psp(dir)) => {
            out.push(TraversalStep::Psp { address, depth, header: dir.header });
            walk_psp_entries(data, &dir.entries, depth, out);
            proof {
                assert(final(out)@ =~= old(out)@ + spec_traverse(data@, address, depth));
            }
        },
        Ok(Directory::PspLevel2(dir)) => {
            out.push(TraversalStep::PspLevel2 { address, depth, header: dir.header });
            walk_psp_entries(data, &dir.entries, depth, out);
            proof {
                assert(final(out)@ =~= old(out)@ + spec_traverse(data@, address, depth));
            }
        },
        Ok(Directory::BiosCombo(dir)) => {
            out.push(TraversalStep::BiosCombo { address, depth, header: dir.header });
            walk_combo_entries(data, &dir.entries, depth, out);
            proof {
                assert(final(out)@ =~= old(out)@ + spec_traverse(data@, address, depth));
            }
        },
        Ok(Directory::PspCombo(dir)) => {
            out.push(TraversalStep::PspCombo { address, depth, header: dir.header });
            walk_combo_entries(data, &dir.entries, depth, out);
            proof {
                assert(final(out)@ =~= old(out)@ + spec_traverse(data@, address, depth));
            }
        },
    }
}

/// Appends the steps for the entries of a BIOS directory.
fn walk_bios_entries(
    data: &[u8],
    entries: &Vec<BiosDirectoryEntry>,
    depth: u32,
    out: &mut Vec<TraversalStep>,
)
    requires
        depth < MAX_DIRECTORY_DEPTH,
    ensures
        final(out)@ == old(out)@ + spec_bios_children(data@, entries@, depth),
    decreases MAX_DIRECTORY_DEPTH - depth, 0int, 0int,
{
    let n = entries.len();
    let mut j: usize = 0;
    proof {
        assert(entries@.take(0) =~= Seq::<BiosDirectoryEntry>::empty());
        assert(out@ =~= out@ + spec_bios_children(data@, entries@.take(0), depth));
    }
    while j < n
        invariant
            depth < MAX_DIRECTORY_DEPTH,
            n == entries@.len(),
            j <= n,
            out@ == old(out)@ + spec_bios_children(data@, entries@.take(j as int), depth),
        decreases n - j,
    {
        let e = entries[j];
        out.push(TraversalStep::BiosEntry { depth, entry: e });
        if e.kind == BIOS_LEVEL2_KIND {
            walk_directory(data, e.source, depth + 1, out);
        }
        proof {
            let k = j as int;
            assert(entries@.take(k + 1).drop_last() =~= entries@.take(k));
            assert(entries@.take(k + 1).last() == entries@[k]);
            assert(out@ =~= old(out)@ + spec_bios_children(data@, entries@.take(k + 1), depth));
        }
        j = j + 1;
    }
    proof {
        assert(entries@.take(n as int) =~= entries@);
    }
}

/// Appends the steps for the entries of a PSP directory.
fn walk_psp_entries(
    data: &[u8],
    entries: &Vec<PspDirectoryEntry>,
    depth: u32,
    out: &mut Vec<TraversalStep>,
)
    requires
        depth < MAX_DIRECTORY_DEPTH,
    ensures
        final(out)@ == old(out)@ + spec_psp_children(data@, entries@, depth),
    decreases MAX_DIRECTORY_DEPTH - depth, 0int, 0int,
{
    let n = entries.len();
    let mut j: usize = 0;
    proof {
        assert(entries@.take(0) =~= Seq::<PspDirectoryEntry>::empty());
        assert(out@ =~= out@ + spec_psp_children(data@, entries@.take(0), depth));
    }
    while j < n
        invariant
            depth < MAX_DIRECTORY_DEPTH,
            n == entries@.len(),
            j <= n,
            out@ == old(out)@ + spec_psp_children(data@, entries@.take(j as int), depth),
        decreases n - j,
    {
        let e = entries[j];
        out.push(TraversalStep::PspEntry { depth, entry: e });
        if e.kind == PSP_LEVEL2_KIND {
            walk_directory(data, e.value, depth + 1, out);
        }
        proof {
            let k = j as int;
            assert(entries@.take(k + 1).drop_last() =~= entries@.take(k));
            assert(entries@.take(k + 1).last() == entries@[k]);
            assert(out@ =~= old(out)@ + spec_psp_children(data@, entries@.take(k + 1), depth));
        }
        j = j + 1;
    }
    proof {
        assert(entries@.take(n as int) =~= entries@);
    }
}

/// Appends the steps for the selector entries of a combo directory.
fn walk_combo_entries(
    data: &[u8],
    entries: &Vec<ComboDirectoryEntry>,
    depth: u32,
    out: &mut Vec<TraversalStep>,
)
    requires
        depth < MAX_DIRECTORY_DEPTH,
    ensures
        final(out)@ == old(out)@ + spec_combo_children(data@, entries@, depth),
    decreases MAX_DIRECTORY_DEPTH - depth, 0int, 0int,
{
    let n = entries.len();
    let mut j: usize = 0;
    proof {
        assert(entries@.take(0) =~= Seq::<ComboDirectoryEntry>::empty());
        assert(out@ =~= out@ + spec_combo_children(data@, entries@.take(0), depth));
    }
    while j < n
        invariant
            depth < MAX_DIRECTORY_DEPTH,
            n == entries@.len(),
            j <= n,
            out@ == old(out)@ + spec_combo_children(data@, entries@.take(j as int), depth),
        decreases n - j,
    {
        let e = entries[j];
        out.push(TraversalStep::ComboEntry { depth, entry: e });
        walk_directory(data, e.directory, depth + 1, out);
        proof {
            let k = j as int;
            assert(entries@.take(k + 1).drop_last() =~= entries@.take(k));
            assert(entries@.take(k + 1).last() == entries@[k]);
            assert(out@ =~= old(out)@ + spec_combo_children(data@, entries@.take(k + 1), depth));
        }
        j = j + 1;
    }
    proof {
        assert(entries@.take(n as int) =~= entries@);
    }
}

} // verus!
