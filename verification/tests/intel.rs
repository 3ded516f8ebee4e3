use romulan::err::Error;
use romulan::guid::Guid;
use romulan::intel::Bios;
use romulan::intel::Me;
use romulan::intel::RegionKind;
use romulan::intel::Rom;

fn put_u32(data: &mut [u8], pos: usize, v: u32) {
    data[pos..pos + 4].copy_from_slice(&v.to_le_bytes());
}

/// Writes a volume header at `pos`: signature, total length, header
/// length, and attributes.
fn put_volume(data: &mut [u8], pos: usize, length: u64, header_length: u16, attributes: u32) {
    data[pos + 40..pos + 44].copy_from_slice(b"_FVH");
    data[pos + 32..pos + 40].copy_from_slice(&length.to_le_bytes());
    put_u32(data, pos + 44, attributes);
    data[pos + 48..pos + 50].copy_from_slice(&header_length.to_le_bytes());
}

/// Writes a file header at `pos` with a 24-bit size.
fn put_file(data: &mut [u8], pos: usize, kind: u8, size: u32, state: u8) {
    data[pos + 18] = kind;
    data[pos + 20] = size as u8;
    data[pos + 21] = (size >> 8) as u8;
    data[pos + 22] = (size >> 16) as u8;
    data[pos + 23] = state;
}

/// Writes a section header at `pos` with a 24-bit size.
fn put_section(data: &mut [u8], pos: usize, kind: u8, size: u32) {
    data[pos] = size as u8;
    data[pos + 1] = (size >> 8) as u8;
    data[pos + 2] = (size >> 16) as u8;
    data[pos + 3] = kind;
}

/// A full little image: descriptor at 16, region table at 0x40, straps at
/// 0x80, a BIOS region at 0x1000 with one volume, an ME region at 0x2000.
fn intel_image() -> Vec<u8> {
    let mut data = vec![0u8; 0x4000];
    data[16..20].copy_from_slice(&[0x5A, 0xA5, 0xF0, 0x0F]);
    put_u32(&mut data, 20, 0x0004_0000); // map0: region table at 0x40
    put_u32(&mut data, 24, 0x0008_0000); // map1: PCH straps at 0x80
    put_u32(&mut data, 28, 0x1234_5678); // map2
    // Region table: descriptor, BIOS at [0x1000, 0x1FFF], ME at
    // [0x2000, 0x2FFF], the rest the unused sentinel.
    put_u32(&mut data, 0x40, 0x0000_0000);
    put_u32(&mut data, 0x44, 0x0001_0001);
    put_u32(&mut data, 0x48, 0x0002_0002);
    for k in 3..9 {
        put_u32(&mut data, 0x40 + 4 * k, 0x0000_7FFF);
    }
    // PCH strap word 0 carries the HAP bit.
    put_u32(&mut data, 0x80, 0x0001_0000);
    // One volume filling the BIOS region, erase polarity set, 0x48 bytes
    // of full header.
    put_volume(&mut data, 0x1000, 0x1000, 0x48, 0x0000_0800);
    // One sectioned file of 0x60 bytes; its stored state is inverted.
    put_file(&mut data, 0x1048, 0x07, 0x60, !0x07);
    // Two sections inside the file body.
    put_section(&mut data, 0x1048 + 24, 0x19, 0x14);
    put_section(&mut data, 0x1048 + 24 + 0x14, 0x02, 0x28);
    // Free space after the file ends the file walk.
    data[0x10A8 + 20] = 0xFF;
    data[0x10A8 + 21] = 0xFF;
    data[0x10A8 + 22] = 0xFF;
    // ME region: an $FPT marker, version words 1.2.3.4, a module count.
    data[0x2030..0x2034].copy_from_slice(b"$FPT");
    data[0x2048..0x204A].copy_from_slice(&1u16.to_le_bytes());
    data[0x204A..0x204C].copy_from_slice(&2u16.to_le_bytes());
    data[0x204C..0x204E].copy_from_slice(&3u16.to_le_bytes());
    data[0x204E..0x2050].copy_from_slice(&4u16.to_le_bytes());
    put_u32(&mut data, 0x2014, 7);
    data
}

#[test]
fn descriptor_round_trip() {
    let data = intel_image();
    let rom = Rom::new(&data).unwrap();
    let desc = rom.flash_descriptor();
    assert_eq!(desc.valsig, 0x0FF0_A55A);
    assert_eq!(desc.map0, 0x0004_0000);
    assert_eq!(desc.map1, 0x0008_0000);
    assert_eq!(desc.map2, 0x1234_5678);
    assert_eq!(rom.data().len(), 0x4000);
}

#[test]
fn descriptor_found_past_leading_garbage() {
    // The anchor at offset 0x20 is aligned to 4 and at least 16 in: the
    // search must find it and the view must start 16 bytes before it.
    let mut data = vec![0u8; 0x2000];
    data[0x20..0x24].copy_from_slice(&[0x5A, 0xA5, 0xF0, 0x0F]);
    put_u32(&mut data, 0x24, 0x0004_0000);
    let rom = Rom::new(&data).unwrap();
    assert_eq!(rom.data().len(), 0x2000 - 0x10);
    assert_eq!(rom.flash_descriptor().map0, 0x0004_0000);
}

#[test]
fn descriptor_not_found() {
    let data = vec![0u8; 0x2000];
    assert_eq!(Rom::new(&data).unwrap_err(), Error::FlashDescriptorNotFound);
    assert_eq!(Rom::new(&[]).unwrap_err(), Error::FlashDescriptorNotFound);
}

#[test]
fn region_table_truncated() {
    // The descriptor names a region table at 0xFF0, past the end of this
    // buffer.
    let mut data = vec![0u8; 0xF00];
    data[16..20].copy_from_slice(&[0x5A, 0xA5, 0xF0, 0x0F]);
    put_u32(&mut data, 20, 0x00FF_0000);
    let rom = Rom::new(&data).unwrap();
    assert_eq!(rom.flash_region().unwrap_err(), Error::RegionTableTruncated);
    assert_eq!(
        rom.get_region_base_limit(RegionKind::Bios).unwrap_err(),
        Error::RegionTableTruncated,
    );
}

#[test]
fn pchstrap_truncated_and_hap() {
    let mut data = vec![0u8; 0xF00];
    data[16..20].copy_from_slice(&[0x5A, 0xA5, 0xF0, 0x0F]);
    put_u32(&mut data, 24, 0x00FF_0000);
    let rom = Rom::new(&data).unwrap();
    assert_eq!(rom.flash_pchstrap().unwrap_err(), Error::PchstrapTruncated);
    assert_eq!(rom.high_assurance_platform().unwrap_err(), Error::PchstrapTruncated);
    let data = intel_image();
    let rom = Rom::new(&data).unwrap();
    assert!(rom.high_assurance_platform().unwrap());
    assert_eq!(rom.flash_pchstrap().unwrap().data[0], 0x0001_0000);
}

#[test]
fn region_base_limit_formulas() {
    let data = intel_image();
    let rom = Rom::new(&data).unwrap();
    // A zero record decodes to base 0, limit 0xFFF.
    assert_eq!(
        rom.get_region_base_limit(RegionKind::Descriptor).unwrap(),
        Some((0x0000, 0x0FFF)),
    );
    assert_eq!(rom.get_region_base_limit(RegionKind::Bios).unwrap(), Some((0x1000, 0x1FFF)));
    // The all-ones sentinel decodes to base 0x07FFF000, limit 0xFFF:
    // limit is not above base, so the region is absent.
    assert_eq!(rom.get_region_base_limit(RegionKind::Ethernet).unwrap(), None);
    assert_eq!(rom.get_region(RegionKind::Ethernet).unwrap(), None);
}

#[test]
fn region_out_of_range() {
    // The BIOS record promises [0x1000, 0x1FFF] but the buffer ends at
    // 0x1800.
    let mut data = intel_image();
    data.truncate(0x1800);
    let rom = Rom::new(&data).unwrap();
    match rom.get_region(RegionKind::Bios) {
        Err(Error::RegionOutOfRange(RegionKind::Bios, limit, len)) => {
            assert_eq!(limit, 0x1FFF);
            assert_eq!(len, 0x1800);
        },
        other => panic!("unexpected: {:?}", other),
    }
}

#[test]
fn region_extraction() {
    let data = intel_image();
    let rom = Rom::new(&data).unwrap();
    let bios = rom.get_region(RegionKind::Bios).unwrap().unwrap();
    assert_eq!(bios.len(), 0x1000);
    assert_eq!(bios, &data[0x1000..0x2000]);
}

#[test]
fn volume_file_section_walk() {
    let data = intel_image();
    let rom = Rom::new(&data).unwrap();
    let bios = rom.bios().unwrap().unwrap();
    let mut volumes = bios.volumes();
    let vol = volumes.next().unwrap();
    assert!(vol.header().valid());
    assert_eq!(vol.header().length, 0x1000);
    assert_eq!(vol.header().header_length, 0x48);
    assert!(vol.header().erase_polarity());
    assert_eq!(vol.data().len(), 0x1000 - 0x48);
    assert!(volumes.next().is_none());

    let mut files = vol.files();
    let f = files.next().unwrap();
    assert_eq!(f.header().kind(), romulan::intel::file::HeaderKind::Driver);
    assert!(f.header().sectioned());
    assert_eq!(f.header().size(), 0x60);
    assert_eq!(f.header().state(true), 0x07);
    assert_eq!(f.data().len(), 0x60 - 24);
    assert!(files.next().is_none());

    let mut sections = f.sections();
    let s1 = sections.next().unwrap();
    assert_eq!(s1.header().kind(), romulan::intel::section::HeaderKind::Raw);
    assert_eq!(s1.header().size(), 0x14);
    assert_eq!(s1.data().len(), 0x10);
    let s2 = sections.next().unwrap();
    assert_eq!(s2.header().kind(), romulan::intel::section::HeaderKind::GuidDefined);
    assert_eq!(s2.data().len(), 0x24);
    assert!(sections.next().is_none());
}

#[test]
fn volume_walker_resyncs_in_8_byte_strides() {
    // Garbage in front of a volume at offset 8: the walker must step over
    // it in 8-byte strides, not skip by a bogus length.
    let mut region = vec![0u8; 0x800];
    region[0] = 0x41;
    put_volume(&mut region, 8, 0x400, 0x38, 0);
    let bios = Bios::new(&region).unwrap();
    let mut volumes = bios.volumes();
    let vol = volumes.next().unwrap();
    assert_eq!(vol.header().length, 0x400);
    // The cursor stands at the end of the found volume: 8 + 0x400.
    assert_eq!(volumes.i, 0x408);
}

#[test]
fn file_free_space_ends_iteration() {
    // A body whose first file header carries the free-space size must end
    // the walk with no file emitted.
    let mut body = vec![0u8; 0x200];
    body[20] = 0xFF;
    body[21] = 0xFF;
    body[22] = 0xFF;
    let mut files = romulan::intel::BiosFiles::new(&body);
    assert!(files.next().is_none());
}

#[test]
fn section_free_space_ends_iteration() {
    let mut body = vec![0u8; 0x200];
    put_section(&mut body, 0, 0x19, 0xFF_FFFF);
    let mut sections = romulan::intel::BiosSections::new(&body);
    assert!(sections.next().is_none());
}

#[test]
fn guid_defined_header_and_lzma_guid() {
    let mut data = vec![0u8; 0x40];
    let lzma: [u8; 16] = [
        0x98, 0x58, 0x4E, 0xEE, 0x14, 0x39, 0x59, 0x42, 0x9D, 0x6E, 0xDC, 0x7B, 0xD7, 0x94,
        0x03, 0xCF,
    ];
    data[..16].copy_from_slice(&lzma);
    data[16..18].copy_from_slice(&20u16.to_le_bytes());
    data[18..20].copy_from_slice(&1u16.to_le_bytes());
    let g = romulan::intel::section::GuidDefined::from_prefix(&data).unwrap();
    assert_eq!(g.data_offset, 20);
    assert_eq!(g.attributes, 1);
    assert!(g.is_lzma_compressed());
    let other = romulan::intel::section::GuidDefined { guid: Guid { bytes: [0; 16] }, ..g };
    assert!(!other.is_lzma_compressed());
}

#[test]
fn decompressed_payload_walks_as_sections() {
    // What the external decompressor hands back is walked by the same
    // section walker.
    let mut plain = vec![0u8; 0x20];
    put_section(&mut plain, 0, 0x19, 0x20);
    let mut sections = romulan::intel::BiosSections::new(&plain);
    let s = sections.next().unwrap();
    assert_eq!(s.header().kind(), romulan::intel::section::HeaderKind::Raw);
    assert_eq!(s.data().len(), 0x1C);
    assert!(sections.next().is_none());
}

#[test]
fn me_version_and_modules() {
    let data = intel_image();
    let rom = Rom::new(&data).unwrap();
    let me = rom.me().unwrap().unwrap();
    assert_eq!(me.data().len(), 0x1000);
    assert_eq!(me.version().unwrap(), "1.2.3.4");
    assert_eq!(me.modules(), Some(7));
}

#[test]
fn me_version_absent_without_marker() {
    let region = vec![0u8; 0x100];
    let me = Me::new(&region).unwrap();
    assert_eq!(me.version(), None);
    let short = vec![0u8; 0x10];
    let me = Me::new(&short).unwrap();
    assert_eq!(me.modules(), None);
}

#[test]
fn file_kind_table() {
    let mut h = romulan::intel::file::Header {
        guid: Guid { bytes: [0; 16] },
        integrity_check: 0,
        kind: 0x01,
        attributes: 0,
        size: [0; 3],
        state: 0,
    };
    assert_eq!(h.kind(), romulan::intel::file::HeaderKind::Raw);
    assert!(!h.sectioned());
    h.kind = 0x0B;
    assert_eq!(h.kind(), romulan::intel::file::HeaderKind::VolumeImage);
    assert!(h.sectioned());
    h.kind = 0xC5;
    assert_eq!(h.kind(), romulan::intel::file::HeaderKind::Oem(0xC5));
    h.kind = 0xE1;
    assert_eq!(h.kind(), romulan::intel::file::HeaderKind::Debug(0xE1));
    h.kind = 0xF7;
    assert_eq!(h.kind(), romulan::intel::file::HeaderKind::Ffs(0xF7));
    h.kind = 0x42;
    assert_eq!(h.kind(), romulan::intel::file::HeaderKind::Unknown(0x42));
    assert!(!h.sectioned());
}

#[test]
fn file_state_and_alignment() {
    let h = romulan::intel::file::Header {
        guid: Guid { bytes: [0; 16] },
        integrity_check: 0,
        kind: 0x01,
        attributes: 0x28,
        size: [0; 3],
        state: 0b1100_0101,
    };
    // Alignment class is bits 3..6 of the attributes.
    assert_eq!(h.alignment(), 5);
    // Polarity zero keeps the stored bits, truncated to the known six.
    assert_eq!(h.state(false), 0b0000_0101);
    // Polarity one inverts them first.
    assert_eq!(h.state(true), 0b0011_1010);
}

#[test]
fn section_kind_table() {
    let mut h = romulan::intel::section::Header { size: [0; 3], kind: 0x01 };
    assert_eq!(h.kind(), romulan::intel::section::HeaderKind::Compression);
    h.kind = 0x17;
    assert_eq!(h.kind(), romulan::intel::section::HeaderKind::VolumeImage);
    h.kind = 0x1C;
    assert_eq!(h.kind(), romulan::intel::section::HeaderKind::MmDepex);
    h.kind = 0x42;
    assert_eq!(h.kind(), romulan::intel::section::HeaderKind::Unknown(0x42));
}

#[test]
fn record_constructors_reject_short_prefixes() {
    let short = vec![0u8; 8];
    assert!(matches!(
        romulan::intel::flash::Region::from_prefix(&short),
        Err(Error::RecordTruncated("Region", 36, 8)),
    ));
    assert!(matches!(
        romulan::intel::flash::PchStrap::from_prefix(&short),
        Err(Error::RecordTruncated("PchStrap", 72, 8)),
    ));
    assert!(matches!(
        romulan::intel::volume::Header::from_prefix(&short),
        Err(Error::RecordTruncated("VolumeHeader", 56, 8)),
    ));
    assert!(matches!(
        romulan::intel::file::Header::from_prefix(&short),
        Err(Error::RecordTruncated("FileHeader", 24, 8)),
    ));
    assert!(matches!(
        romulan::intel::section::Header::from_prefix(&[0u8; 2]),
        Err(Error::RecordTruncated("SectionHeader", 4, 2)),
    ));
}

#[test]
fn descriptor_area_records_decode() {
    let mut data = vec![0u8; 0x60];
    for (k, b) in data.iter_mut().enumerate() {
        *b = k as u8;
    }
    let c = romulan::intel::flash::Component::from_prefix(&data).unwrap();
    assert_eq!(c.comp, u32::from_le_bytes([0, 1, 2, 3]));
    assert_eq!(c.ill, u32::from_le_bytes([4, 5, 6, 7]));
    assert_eq!(c.pb, u32::from_le_bytes([8, 9, 10, 11]));
    let m = romulan::intel::flash::Master::from_prefix(&data).unwrap();
    assert_eq!(m.mstr1, u32::from_le_bytes([0, 1, 2, 3]));
    assert_eq!(m.mstr5, u32::from_le_bytes([16, 17, 18, 19]));
    let p = romulan::intel::flash::ProcStrap::from_prefix(&data).unwrap();
    assert_eq!(p.data[7], u32::from_le_bytes([28, 29, 30, 31]));
    let b = romulan::intel::volume::BlockEntry::from_prefix(&data).unwrap();
    assert_eq!(b.num_blocks, u32::from_le_bytes([0, 1, 2, 3]));
    assert_eq!(b.block_length, u32::from_le_bytes([4, 5, 6, 7]));
}

#[test]
fn region_names() {
    assert_eq!(RegionKind::Bios.name(), "BIOS");
    assert_eq!(RegionKind::ManagementEngine.name(), "Intel ME");
    assert_eq!(RegionKind::Reserved6.name(), "Reserved");
}

#[test]
fn me_version_absent_when_marker_near_end() {
    // The marker is found, but the version words would run past the end.
    let mut region = vec![0u8; 0x40];
    region[0x30..0x34].copy_from_slice(b"$FPT");
    let me = Me::new(&region).unwrap();
    assert_eq!(me.version(), None);
}
