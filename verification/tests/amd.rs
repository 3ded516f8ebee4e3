use romulan::amd::directory::{
    BiosDirectoryEntry, Directory, PspDirectoryEntry, TraversalStep, traverse,
};
use romulan::amd::Rom;
use romulan::err::Error;

/// A buffer with an EFS whose magic sits at `offset` and whose pointer
/// fields are the given values.
fn efs_image(len: usize, offset: usize, psp: u32, bios: u32) -> Vec<u8> {
    let mut data = vec![0u8; len];
    data[offset..offset + 4].copy_from_slice(&[0xAA, 0x55, 0xAA, 0x55]);
    data[offset + 0x14..offset + 0x18].copy_from_slice(&psp.to_le_bytes());
    data[offset + 0x18..offset + 0x1C].copy_from_slice(&0xFFFF_FFFFu32.to_le_bytes());
    data[offset + 0x1C..offset + 0x20].copy_from_slice(&0xFFFF_FFFFu32.to_le_bytes());
    data[offset + 0x20..offset + 0x24].copy_from_slice(&0xFFFF_FFFFu32.to_le_bytes());
    data[offset + 0x28..offset + 0x2C].copy_from_slice(&bios.to_le_bytes());
    data
}

/// Writes a PSP directory at `pos`: the magic, a count, and the entries.
fn put_psp_directory(data: &mut [u8], pos: usize, magic: &[u8; 4], entries: &[(u8, u32, u64)]) {
    data[pos..pos + 4].copy_from_slice(magic);
    data[pos + 8..pos + 12].copy_from_slice(&(entries.len() as u32).to_le_bytes());
    for (j, (kind, size, value)) in entries.iter().enumerate() {
        let e = pos + 16 + 16 * j;
        data[e] = *kind;
        data[e + 4..e + 8].copy_from_slice(&size.to_le_bytes());
        data[e + 8..e + 16].copy_from_slice(&value.to_le_bytes());
    }
}

#[test]
fn efs_round_trip_at_4k_boundary() {
    let data = efs_image(0x3000, 0x1000, 0x2400, 0x2500);
    let rom = Rom::new(&data).unwrap();
    let efs = rom.efs();
    assert_eq!(efs.magic, 0x55AA55AA);
    assert_eq!(efs.psp, 0x2400);
    assert_eq!(efs.bios, 0x2500);
    assert_eq!(efs.bios_17_00_0f, 0xFFFF_FFFF);
    assert_eq!(rom.data().len(), 0x2000);
}

#[test]
fn efs_anchor_must_be_4k_aligned() {
    // The magic at 0x800 is off the 4 KiB grid and must not be found.
    let data = efs_image(0x3000, 0x800, 0x2400, 0x2500);
    assert_eq!(Rom::new(&data).unwrap_err(), Error::EfsNotFound);
    // The same image with the magic at 0x1000 must be accepted.
    let data = efs_image(0x3000, 0x1000, 0x2400, 0x2500);
    assert!(Rom::new(&data).is_ok());
}

#[test]
fn efs_not_found_on_empty_and_short_buffers() {
    assert_eq!(Rom::new(&[]).unwrap_err(), Error::EfsNotFound);
    let data = vec![0u8; 0x4A];
    assert_eq!(Rom::new(&data).unwrap_err(), Error::EfsNotFound);
}

#[test]
fn efs_record_truncated() {
    let data = vec![0u8; 0x10];
    match romulan::amd::flash::EFS::from_prefix(&data) {
        Err(Error::RecordTruncated(name, need, have)) => {
            assert_eq!(name, "EFS");
            assert_eq!(need, 0x4B);
            assert_eq!(have, 0x10);
        },
        other => panic!("unexpected: {:?}", other),
    }
}

#[test]
fn efs_directory_pointers_skip_unset() {
    let data = efs_image(0x3000, 0x1000, 0x2400, 0x2500);
    let rom = Rom::new(&data).unwrap();
    assert_eq!(rom.efs().directory_pointers(), vec![0x2400, 0x2500]);
}

#[test]
fn psp_value_entry_yields_value_bytes() {
    let entry = PspDirectoryEntry {
        kind: 0x0B,
        sub_program: 0,
        rom_id: 0,
        rsvd_03: 0,
        size: 0xFFFF_FFFF,
        value: 0x01_02_03_04_05_06_07_08,
    };
    let data = vec![0u8; 4];
    let payload = entry.data(&data).unwrap();
    assert_eq!(payload, vec![0x08, 0x07, 0x06, 0x05, 0x04, 0x03, 0x02, 0x01]);
}

#[test]
fn bios_entry_data_is_the_masked_range() {
    let mut data = vec![0u8; 0x100];
    for i in 0x20..0x30 {
        data[i] = i as u8;
    }
    let entry = BiosDirectoryEntry {
        kind: 0x62,
        region_kind: 0,
        flags: 0,
        sub_program: 0,
        size: 0x10,
        // High bits above the 25-bit window must be masked away.
        source: 0xFF00_0000_0000_0020,
        destination: 0,
    };
    let payload = entry.data(&data).unwrap();
    assert_eq!(payload.as_slice(), &data[0x20..0x30]);
}

#[test]
fn bios_entry_data_boundary() {
    let data = vec![0u8; 0x100];
    // source + size == len succeeds.
    let entry = BiosDirectoryEntry {
        kind: 0x62,
        region_kind: 0,
        flags: 0,
        sub_program: 0,
        size: 0x20,
        source: 0xE0,
        destination: 0,
    };
    assert_eq!(entry.data(&data).unwrap().len(), 0x20);
    // One byte more fails with the exact bounds.
    let entry = BiosDirectoryEntry { size: 0x21, ..entry };
    match entry.data(&data) {
        Err(Error::EntryOutOfRange(name, start, end, len)) => {
            assert_eq!(name, "BiosDirectoryEntry");
            assert_eq!(start, 0xE0);
            assert_eq!(end, 0x101);
            assert_eq!(len, 0x100);
        },
        other => panic!("unexpected: {:?}", other),
    }
}

#[test]
fn psp_entry_data_out_of_range() {
    let data = vec![0u8; 0x40];
    let entry = PspDirectoryEntry {
        kind: 0x01,
        sub_program: 0,
        rom_id: 0,
        rsvd_03: 0,
        size: 0x41,
        value: 0,
    };
    match entry.data(&data) {
        Err(Error::EntryOutOfRange(name, start, end, len)) => {
            assert_eq!(name, "PspDirectoryEntry");
            assert_eq!(start, 0);
            assert_eq!(end, 0x41);
            assert_eq!(len, 0x40);
        },
        other => panic!("unexpected: {:?}", other),
    }
}

#[test]
fn directory_dispatch_and_headers() {
    let mut data = vec![0u8; 0x100];
    put_psp_directory(&mut data, 0, b"$PSP", &[(0x01, 0x10, 0x80)]);
    match Directory::new(&data) {
        Ok(Directory::Psp(dir)) => {
            assert_eq!(dir.header().entries, 1);
            let entries = dir.entries();
            assert_eq!(entries.len(), 1);
            assert_eq!(entries[0].kind, 0x01);
            assert_eq!(entries[0].size, 0x10);
            assert_eq!(entries[0].value, 0x80);
        },
        other => panic!("unexpected: {:?}", other),
    }
}

#[test]
fn directory_unknown_signature() {
    let data = [0x41u8, 0x42, 0x43, 0x44, 0, 0, 0, 0];
    match Directory::new(&data) {
        Err(Error::UnknownDirectorySignature(bytes)) => {
            assert_eq!(bytes, [0x41, 0x42, 0x43, 0x44]);
        },
        other => panic!("unexpected: {:?}", other),
    }
}

#[test]
fn directory_truncated_below_magic() {
    let data = [0x24u8, 0x50];
    match Directory::new(&data) {
        Err(Error::RecordTruncated(name, need, have)) => {
            assert_eq!(name, "Directory");
            assert_eq!(need, 4);
            assert_eq!(have, 2);
        },
        other => panic!("unexpected: {:?}", other),
    }
}

#[test]
fn directory_entry_array_truncated() {
    let mut data = vec![0u8; 0x20];
    data[..4].copy_from_slice(b"$PSP");
    data[8..12].copy_from_slice(&2u32.to_le_bytes());
    match Directory::new(&data) {
        Err(Error::RecordTruncated(name, need, have)) => {
            assert_eq!(name, "PspDirectoryEntry");
            assert_eq!(need, 16 + 2 * 16);
            assert_eq!(have, 0x20);
        },
        other => panic!("unexpected: {:?}", other),
    }
}

#[test]
fn address_masking_resolves_high_addresses() {
    // Only the low 25 bits of an address reach the flash window:
    // 0xFE200000 & 0x1FFFFFF == 0x200000.
    let mut data = vec![0u8; 0x20_1000];
    put_psp_directory(&mut data, 0x20_0000, b"$PL2", &[(0x01, 0x10, 0x80)]);
    let steps = traverse(&data, 0xFE20_0000);
    match &steps[0] {
        TraversalStep::PspLevel2 { address, depth, header } => {
            assert_eq!(*address, 0xFE20_0000);
            assert_eq!(*depth, 0);
            assert_eq!(header.entries, 1);
        },
        other => panic!("unexpected: {:?}", other),
    }
}

#[test]
fn recursive_descent_visits_level2_entries() {
    let mut data = vec![0u8; 0x2000];
    put_psp_directory(&mut data, 0, b"$PSP", &[(0x40, 0x100, 0x1000)]);
    put_psp_directory(&mut data, 0x1000, b"$PL2", &[(0x01, 0x10, 0x80), (0x02, 0x10, 0x90)]);
    let steps = traverse(&data, 0);
    assert_eq!(steps.len(), 5);
    assert!(matches!(steps[0], TraversalStep::Psp { depth: 0, .. }));
    match &steps[1] {
        TraversalStep::PspEntry { depth: 0, entry } => assert_eq!(entry.kind, 0x40),
        other => panic!("unexpected: {:?}", other),
    }
    assert!(matches!(steps[2], TraversalStep::PspLevel2 { depth: 1, address: 0x1000, .. }));
    match &steps[3] {
        TraversalStep::PspEntry { depth: 1, entry } => assert_eq!(entry.kind, 0x01),
        other => panic!("unexpected: {:?}", other),
    }
    match &steps[4] {
        TraversalStep::PspEntry { depth: 1, entry } => assert_eq!(entry.kind, 0x02),
        other => panic!("unexpected: {:?}", other),
    }
}

#[test]
fn recursion_depth_is_bounded() {
    // A level-2 pointer that points back at its own directory recurses
    // until the bound and then reports the failure.
    let mut data = vec![0u8; 0x100];
    put_psp_directory(&mut data, 0, b"$PSP", &[(0x40, 0x100, 0)]);
    let steps = traverse(&data, 0);
    // Sixteen levels of directory + entry, then one failure step.
    assert_eq!(steps.len(), 33);
    match steps.last().unwrap() {
        TraversalStep::Failed { depth, error, .. } => {
            assert_eq!(*depth, 16);
            assert_eq!(*error, Error::DirectoryRecursionTooDeep);
        },
        other => panic!("unexpected: {:?}", other),
    }
}

#[test]
fn failed_branch_does_not_stop_siblings() {
    let mut data = vec![0u8; 0x2000];
    // The first entry points into garbage, the second at a good directory.
    data[..4].copy_from_slice(b"2PSP");
    data[8..12].copy_from_slice(&2u32.to_le_bytes());
    data[0x20 + 8..0x20 + 16].copy_from_slice(&0x500u64.to_le_bytes());
    data[0x30 + 8..0x30 + 16].copy_from_slice(&0x1000u64.to_le_bytes());
    put_psp_directory(&mut data, 0x1000, b"$PSP", &[(0x01, 0x10, 0x80)]);
    let steps = traverse(&data, 0);
    assert!(matches!(steps[0], TraversalStep::PspCombo { .. }));
    assert!(matches!(steps[1], TraversalStep::ComboEntry { .. }));
    assert!(matches!(steps[2], TraversalStep::Failed { address: 0x500, .. }));
    assert!(matches!(steps[3], TraversalStep::ComboEntry { .. }));
    assert!(matches!(steps[4], TraversalStep::Psp { address: 0x1000, depth: 1, .. }));
    assert!(matches!(steps[5], TraversalStep::PspEntry { .. }));
}

#[test]
fn psp_descriptions() {
    let mut entry = PspDirectoryEntry {
        kind: 0x00,
        sub_program: 0,
        rom_id: 0,
        rsvd_03: 0,
        size: 0,
        value: 0,
    };
    assert_eq!(entry.description(), "AMD Public Key");
    entry.kind = 0x40;
    assert_eq!(entry.description(), "PSP Level 2 Directory");
    entry.kind = 0x81;
    assert_eq!(entry.description(), "OEM Sys-TA Signing Key");
    entry.kind = 0xF2;
    assert_eq!(entry.description(), "Unknown");
}

#[test]
fn bios_descriptions_and_instance() {
    let mut entry = BiosDirectoryEntry {
        kind: 0x64,
        region_kind: 0,
        flags: 0x25,
        sub_program: 0,
        size: 0,
        source: 0,
        destination: 0,
    };
    assert_eq!(entry.instance(), 2);
    assert_eq!(entry.description(), "PMU Firmware Code (DDR4 RDIMM 1D)");
    entry.flags = 0x90;
    assert_eq!(entry.description(), "PMU Firmware Code (Unknown)");
    entry.kind = 0x70;
    assert_eq!(entry.description(), "BIOS Level 2 Directory");
    entry.kind = 0x11;
    assert_eq!(entry.description(), "Unknown");
}

#[test]
fn directory_open_applies_the_mask() {
    let mut data = vec![0u8; 0x2000];
    put_psp_directory(&mut data, 0x1000, b"$PSP", &[(0x01, 0x10, 0x80)]);
    match Directory::open(&data, 0xFE00_1000) {
        Ok(Directory::Psp(dir)) => assert_eq!(dir.header().entries, 1),
        other => panic!("unexpected: {:?}", other),
    }
    // An address past the end of the buffer resolves to an empty tail.
    match Directory::open(&data, 0x1FF_FFFF) {
        Err(Error::RecordTruncated("Directory", 4, have)) => assert_eq!(have, 0),
        other => panic!("unexpected: {:?}", other),
    }
}
