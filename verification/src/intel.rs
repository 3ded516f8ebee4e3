//! Intel flash images.
//!
//! An Intel image starts with a flash descriptor found by anchor search,
//! whose map words locate the region table and the PCH strap table. The BIOS
//! region nests UEFI firmware volumes, files and sections, walked lazily by
//! the iterators of this module.

use vstd::prelude::*;
use vstd::slice::slice_subrange;
use crate::bytes::{le16, le24, le32, le64};
use crate::render::dec_digits;
use crate::err::Error;

pub mod file;
pub mod flash;
pub mod section;
pub mod volume;

verus! {

/// The nine named slots of the flash region table.
#[derive(Copy, Clone, Debug, PartialEq, Eq, Structural)]
pub enum RegionKind {
    Descriptor,
    Bios,
    ManagementEngine,
    Ethernet,
    PlatformData,
    Reserved5,
    Reserved6,
    Reserved7,
    EmbeddedController,
}

impl RegionKind {
    /// The slot of this region in the region table.
    pub open spec fn spec_index(self) -> int {
        match self {
            RegionKind::Descriptor => 0,
            RegionKind::Bios => 1,
            RegionKind::ManagementEngine => 2,
            RegionKind::Ethernet => 3,
            RegionKind::PlatformData => 4,
            RegionKind::Reserved5 => 5,
            RegionKind::Reserved6 => 6,
            RegionKind::Reserved7 => 7,
            RegionKind::EmbeddedController => 8,
        }
    }

    /// The slot of this region in the region table.
    pub fn index(self) -> (r: usize)
        ensures
            r == self.spec_index(),
            r < 9,
    {
        match self {
            RegionKind::Descriptor => 0,
            RegionKind::Bios => 1,
            RegionKind::ManagementEngine => 2,
            RegionKind::Ethernet => 3,
            RegionKind::PlatformData => 4,
            RegionKind::Reserved5 => 5,
            RegionKind::Reserved6 => 6,
            RegionKind::Reserved7 => 7,
            RegionKind::EmbeddedController => 8,
        }
    }

    /// The region's conventional name.
    pub open spec fn spec_name(self) -> Seq<char> {
        match self {
            RegionKind::Descriptor => "Flash Descriptor"@,
            RegionKind::Bios => "BIOS"@,
            RegionKind::ManagementEngine => "Intel ME"@,
            RegionKind::Ethernet => "GbE"@,
            RegionKind::PlatformData => "Platform Data"@,
            RegionKind::EmbeddedController => "EC"@,
            _ => "Reserved"@,
        }
    }

    /// The region's conventional name.
    pub fn name(self) -> (r: &'static str)
        ensures
            r@ == self.spec_name(),
    {
        match self {
            RegionKind::Descriptor => "Flash Descriptor",
            RegionKind::Bios => "BIOS",
            RegionKind::ManagementEngine => "Intel ME",
            RegionKind::Ethernet => "GbE",
            RegionKind::PlatformData => "Platform Data",
            RegionKind::EmbeddedController => "EC",
            _ => "Reserved",
        }
    }
}

/// Bit 16 of PCH strap word 0: the High Assurance Platform flag.
pub const HAP: u32 = 0x10000;

/// True when the four descriptor anchor bytes `5A A5 F0 0F` stand at `i`.
pub open spec fn descriptor_anchor_at(d: Seq<u8>, i: int) -> bool {
    &&& d[i] == 0x5a
    &&& d[i + 1] == 0xa5
    &&& d[i + 2] == 0xf0
    &&& d[i + 3] == 0x0f
}

/// The position of the first descriptor anchor at or after `i`, stepping by
/// four bytes, such that the whole descriptor record still fits; `None` when
/// the end of the buffer is reached first.
pub open spec fn descriptor_pos(d: Seq<u8>, i: int) -> Option<int>
    decreases d.len() - i,
{
    if i + flash::DESCRIPTOR_SIZE > d.len() {
        None
    } else if descriptor_anchor_at(d, i) {
        Some(i)
    } else {
        descriptor_pos(d, i + 4)
    }
}

/// The anchor search is complete: when the signature stands at some
/// four-byte step from 16 with room for the record, the search from a step
/// at or before it finds a step with the signature, no later than it.
proof fn lemma_descriptor_pos_finds(d: Seq<u8>, m: int, t: int)
    requires
        0 <= m <= t,
        16 + 4 * t + flash::DESCRIPTOR_SIZE <= d.len(),
        descriptor_anchor_at(d, 16 + 4 * t),
    ensures
        descriptor_pos(d, 16 + 4 * m) matches Some(p) && 16 + 4 * m <= p <= 16 + 4 * t && p % 4
            == 0 && descriptor_anchor_at(d, p),
    decreases t - m,
{
    let i = 16 + 4 * m;
    assert((16 + 4 * m) % 4 == 0) by (nonlinear_arith);
    if descriptor_anchor_at(d, i) {
    } else {
        assert(m < t);
        lemma_descriptor_pos_finds(d, m + 1, t);
    }
}

/// The descriptor anchor search succeeds whenever the signature stands at
/// any offset of 16 or more that is aligned to 4: the search finds the
/// first such offset that carries it.
pub proof fn lemma_descriptor_anchor_found(d: Seq<u8>, t: int)
    requires
        0 <= t,
        16 + 4 * t + flash::DESCRIPTOR_SIZE <= d.len(),
        descriptor_anchor_at(d, 16 + 4 * t),
    ensures
        descriptor_pos(d, 16) matches Some(p) && 16 <= p <= 16 + 4 * t && p % 4 == 0
            && descriptor_anchor_at(d, p),
{
    lemma_descriptor_pos_finds(d, 0, t);
}

/// A view of an Intel flash image, anchored 16 bytes before the descriptor.
#[derive(Clone, Copy, Debug)]
pub struct Rom<'a> {
    /// The image from the start of the flash valid signature.
    pub data: &'a [u8],
    /// The descriptor record, decoded from offset 16 of `data`.
    pub descriptor: flash::Descriptor,
}

impl<'a> Rom<'a> {
    /// The bytes of the image from the start of the flash valid signature.
    pub open spec fn spec_data(self) -> Seq<u8> {
        self.data@
    }

    /// The decoded descriptor record.
    pub open spec fn spec_descriptor(self) -> flash::Descriptor {
        self.descriptor
    }

    /// The descriptor record stands 16 bytes into the view and was decoded
    /// from it. Established by `new`; every method keeps it.
    pub open spec fn wf(self) -> bool {
        &&& self.data@.len() >= 16 + flash::DESCRIPTOR_SIZE
        &&& self.descriptor == flash::spec_descriptor(self.data@, 16)
    }

    /// Finds the descriptor anchor: starting at offset 16, each four-byte
    /// step is tested for the signature `5A A5 F0 0F`. On a hit the view
    /// starts 16 bytes before the anchor; with no hit the search fails.
    pub fn new(data: &'a [u8]) -> (r: Result<Rom<'a>, Error>)
        ensures
            match descriptor_pos(data@, 16) {
                Some(p) => r matches Ok(rom) && rom.data@ == data@.subrange(
                    p - 16,
                    data@.len() as int,
                ) && rom.descriptor == flash::spec_descriptor(data@, p) && rom.wf(),
                None => r matches Err(e) && e == Error::FlashDescriptorNotFound,
            },
    {
        let len = data.len();
        if len < flash::DESCRIPTOR_SIZE {
            return Err(Error::FlashDescriptorNotFound);
        }
        let mut i: usize = 16;
        while i <= len - flash::DESCRIPTOR_SIZE
            invariant
                16 <= i,
                len == data@.len(),
                len >= flash::DESCRIPTOR_SIZE,
                descriptor_pos(data@, 16) == descriptor_pos(data@, i as int),
            decreases data@.len() - i,
        {
            if data[i] == 0x5a && data[i + 1] == 0xa5 && data[i + 2] == 0xf0 && data[i + 3] == 0x0f {
                let rest = slice_subrange(data, i, len);
                let descriptor = flash::Descriptor::from_prefix(rest).unwrap();
                proof {
                    assert(descriptor == flash::spec_descriptor(data@, i as int));
                }
                let view = slice_subrange(data, i - 16, len);
                proof {
                    assert(flash::spec_descriptor(view@, 16) == flash::spec_descriptor(
                        data@,
                        i as int,
                    ));
                }
                return Ok(Rom { data: view, descriptor });
            }
            i = i + 4;
        }
        Err(Error::FlashDescriptorNotFound)
    }

    /// The bytes of the image from the start of the flash valid signature.
    pub fn data(&self) -> (r: &'a [u8])
        ensures
            r@ == self.spec_data(),
    {
        self.data
    }

    /// The decoded flash descriptor.
    pub fn flash_descriptor(&self) -> (r: flash::Descriptor)
        ensures
            r == self.spec_descriptor(),
    {
        self.descriptor
    }

    /// The offset of the flash region table: bits 16..24 of the first map
    /// word, times 16.
    pub open spec fn frba_offset(self) -> int {
        (((self.descriptor.map0 >> 16) & 0xff) << 4) as int
    }

    /// The offset of the PCH strap table: bits 16..24 of the second map
    /// word, times 16.
    pub open spec fn pchstrap_offset(self) -> int {
        (((self.descriptor.map1 >> 16) & 0xff) << 4) as int
    }

    /// Reads the flash region table at the offset the descriptor names;
    /// fails when the table would straddle the end of the buffer.
    pub fn flash_region(&self) -> (r: Result<flash::Region, Error>)
        requires
            self.wf(),
        ensures
            match r {
                Ok(reg) => self.frba_offset() + flash::REGION_SIZE <= self.data@.len() && reg
                    == flash::spec_region(self.data@, self.frba_offset()),
                Err(e) => self.frba_offset() + flash::REGION_SIZE > self.data@.len() && e
                    == Error::RegionTableTruncated,
            },
    {
        let offset = (((self.descriptor.map0 >> 16) & 0xff) << 4) as usize;
        proof {
            let m = self.descriptor.map0;
            assert(((m >> 16) & 0xff) << 4 <= 0xff0) by (bit_vector);
        }
        if offset + flash::REGION_SIZE > self.data.len() {
            return Err(Error::RegionTableTruncated);
        }
        let reg = flash::Region::from_prefix(slice_subrange(self.data, offset, self.data.len())).unwrap();
        proof {
            assert(reg == flash::spec_region(self.data@, self.frba_offset()));
        }
        Ok(reg)
    }

    /// Reads the PCH strap table at the offset the descriptor names; fails
    /// when the table would straddle the end of the buffer.
    #[verifier::rlimit(50)]
    pub fn flash_pchstrap(&self) -> (r: Result<flash::PchStrap, Error>)
        requires
            self.wf(),
        ensures
            match r {
                Ok(p) => self.pchstrap_offset() + flash::PCHSTRAP_SIZE <= self.data@.len() && p
                    == flash::spec_pchstrap(self.data@, self.pchstrap_offset()),
                Err(e) => self.pchstrap_offset() + flash::PCHSTRAP_SIZE > self.data@.len() && e
                    == Error::PchstrapTruncated,
            },
    {
        let offset = (((self.descriptor.map1 >> 16) & 0xff) << 4) as usize;
        proof {
            let m = self.descriptor.map1;
            assert(((m >> 16) & 0xff) << 4 <= 0xff0) by (bit_vector);
        }
        if offset + flash::PCHSTRAP_SIZE > self.data.len() {
            return Err(Error::PchstrapTruncated);
        }
        let p = flash::PchStrap::from_prefix(slice_subrange(self.data, offset, self.data.len())).unwrap();
        proof {
            assert(p == flash::spec_pchstrap(self.data@, self.pchstrap_offset()));
        }
        Ok(p)
    }

    /// True when bit 16 of PCH strap word 0 is set; fails as
    /// `flash_pchstrap` does.
    pub fn high_assurance_platform(&self) -> (r: Result<bool, Error>)
        requires
            self.wf(),
        ensures
            match r {
                Ok(b) => self.pchstrap_offset() + flash::PCHSTRAP_SIZE <= self.data@.len() && b == (
                flash::spec_pchstrap(self.data@, self.pchstrap_offset()).data@[0] & HAP == HAP),
                Err(e) => self.pchstrap_offset() + flash::PCHSTRAP_SIZE > self.data@.len() && e
                    == Error::PchstrapTruncated,
            },
    {
        let pchstrap = self.flash_pchstrap()?;
        Ok(pchstrap.data[0] & HAP == HAP)
    }

    /// The base of the region in slot `kind` of record word `reg`: bits
    /// 0..15, in 4 KiB units.
    pub open spec fn region_base(reg: u32) -> u32 {
        (reg & 0x7fff) << 12
    }

    /// The limit of the region of record word `reg`: bits 16..31 in 4 KiB
    /// units, with the low twelve bits set.
    pub open spec fn region_limit(reg: u32) -> u32 {
        ((reg & 0x7fff0000) >> 4) | 0xfff
    }

    /// The region table word for `kind`, assuming the table fits.
    pub open spec fn region_record(self, kind: RegionKind) -> u32 {
        flash::spec_region(self.data@, self.frba_offset()).data@[kind.spec_index()]
    }

    /// The byte range `[base, limit]` of the region `kind`, or `None` when
    /// the record marks the region absent (`limit <= base`); fails when the
    /// region table is truncated.
    pub fn get_region_base_limit(&self, kind: RegionKind) -> (r: Result<
        Option<(usize, usize)>,
        Error,
    >)
        requires
            self.wf(),
        ensures
            match r {
                Ok(range) => {
                    &&& self.frba_offset() + flash::REGION_SIZE <= self.data@.len()
                    &&& {
                        let reg = self.region_record(kind);
                        if Self::region_limit(reg) > Self::region_base(reg) {
                            range == Some(
                                (
                                    Self::region_base(reg) as usize,
                                    Self::region_limit(reg) as usize,
                                ),
                            )
                        } else {
                            range is None
                        }
                    }
                },
                Err(e) => self.frba_offset() + flash::REGION_SIZE > self.data@.len() && e
                    == Error::RegionTableTruncated,
            },
    {
        let frba = self.flash_region()?;
        let reg = frba.data[kind.index()];
        let base = (reg & 0x7fff) << 12;
        let limit = ((reg & 0x7fff0000) >> 4) | 0xfff;
        if limit > base {
            Ok(Some((base as usize, limit as usize)))
        } else {
            Ok(None)
        }
    }

    /// The bytes `[base, limit]` of the region `kind`, or `None` when the
    /// record marks it absent; fails when the region table is truncated or
    /// a present region ends past the buffer.
    pub fn get_region(&self, kind: RegionKind) -> (r: Result<Option<&'a [u8]>, Error>)
        requires
            self.wf(),
        ensures
            self.region_result_matches(kind, r),
    {
        match self.get_region_base_limit(kind)? {
            Some((base, limit)) => {
                if limit < self.data.len() {
                    proof {
                        assert(Self::region_base(self.region_record(kind)) < Self::region_limit(
                            self.region_record(kind),
                        ));
                    }
                    Ok(Some(slice_subrange(self.data, base, limit + 1)))
                } else {
                    Err(Error::RegionOutOfRange(kind, limit, self.data.len()))
                }
            },
            None => Ok(None),
        }
    }

    /// What extracting region `kind` yields: the region's bytes when its
    /// record is present and in range, `None` when the record marks it
    /// absent, and the exact error otherwise.
    pub open spec fn spec_get_region(self, kind: RegionKind) -> Result<Option<Seq<u8>>, Error> {
        if self.frba_offset() + flash::REGION_SIZE > self.data@.len() {
            Err(Error::RegionTableTruncated)
        } else {
            let reg = self.region_record(kind);
            let base = Self::region_base(reg) as int;
            let limit = Self::region_limit(reg) as int;
            if !(limit > base) {
                Ok(None)
            } else if limit < self.data@.len() {
                Ok(Some(self.data@.subrange(base, limit + 1)))
            } else {
                Err(Error::RegionOutOfRange(
                    kind,
                    Self::region_limit(reg) as usize,
                    self.data@.len() as usize,
                ))
            }
        }
    }

    /// True when `r` returns exactly what `spec_get_region(kind)` names.
    pub open spec fn region_result_matches(
        self,
        kind: RegionKind,
        r: Result<Option<&'a [u8]>, Error>,
    ) -> bool {
        match self.spec_get_region(kind) {
            Ok(Some(s)) => r matches Ok(range) && range matches Some(b) && b@ == s,
            Ok(None) => r matches Ok(range) && range is None,
            Err(e) => r matches Err(e2) && e2 == e,
        }
    }

    /// The BIOS region as a volume container, `None` when the region is
    /// absent; fails as `get_region` does.
    pub fn bios(&self) -> (r: Result<Option<Bios<'a>>, Error>)
        requires
            self.wf(),
        ensures
            match self.spec_get_region(RegionKind::Bios) {
                Ok(Some(s)) => r matches Ok(range) && range matches Some(b) && b.data@ == s,
                Ok(None) => r matches Ok(range) && range is None,
                Err(e) => r matches Err(e2) && e2 == e,
            },
    {
        match self.get_region(RegionKind::Bios)? {
            Some(data) => Ok(Some(Bios { data })),
            None => Ok(None),
        }
    }

    /// The management engine region, `None` when the region is absent;
    /// fails as `get_region` does.
    pub fn me(&self) -> (r: Result<Option<Me<'a>>, Error>)
        requires
            self.wf(),
        ensures
            match self.spec_get_region(RegionKind::ManagementEngine) {
                Ok(Some(s)) => r matches Ok(range) && range matches Some(m) && m.data@ == s,
                Ok(None) => r matches Ok(range) && range is None,
                Err(e) => r matches Err(e2) && e2 == e,
            },
    {
        match self.get_region(RegionKind::ManagementEngine)? {
            Some(data) => Ok(Some(Me { data })),
            None => Ok(None),
        }
    }
}

/// True when a whole well-formed volume stands at `i`: the header fits, the
/// signature reads `_FVH`, and the header length and volume length are
/// consistent and inside the buffer.
pub open spec fn volume_ok(d: Seq<u8>, i: int) -> bool {
    &&& i + volume::HEADER_SIZE <= d.len()
    &&& volume::signature_at(d, i)
    &&& volume::HEADER_SIZE <= le16(d, i + 48)
    &&& le16(d, i + 48) <= le64(d, i + 32)
    &&& i + le64(d, i + 32) <= d.len()
}

/// Where the volume walker emits next, starting at `i`: positions without
/// the signature are skipped in 8-byte strides; a signature over an
/// inconsistent header, or the end of the buffer, ends the walk.
pub open spec fn next_volume(d: Seq<u8>, i: int) -> Option<int>
    decreases d.len() - i,
{
    if i + volume::HEADER_SIZE > d.len() {
        None
    } else if volume::signature_at(d, i) {
        if volume_ok(d, i) {
            Some(i)
        } else {
            None
        }
    } else {
        next_volume(d, i + 8)
    }
}

/// The BIOS region: a sequence of UEFI firmware volumes.
#[derive(Clone, Copy, Debug)]
pub struct Bios<'a> {
    /// The bytes of the BIOS region.
    pub data: &'a [u8],
}

impl<'a> Bios<'a> {
    /// Wraps the bytes of a BIOS region.
    pub fn new(data: &'a [u8]) -> (r: Result<Bios<'a>, Error>)
        ensures
            r matches Ok(b) && b.data@ == data@,
    {
        Ok(Bios { data })
    }

    /// The bytes of the region.
    pub fn data(&self) -> (r: &'a [u8])
        ensures
            r@ == self.data@,
    {
        self.data
    }

    /// A walker over the volumes of the region, from its start.
    pub fn volumes(&self) -> (r: BiosVolumes<'a>)
        ensures
            r.data@ == self.data@,
            r.i == 0,
    {
        BiosVolumes::new(self.data)
    }
}

/// A lazy, forward-only walker over the volumes of a BIOS region.
#[derive(Clone, Copy, Debug)]
pub struct BiosVolumes<'a> {
    /// The bytes of the BIOS region.
    pub data: &'a [u8],
    /// The cursor: where the next candidate header is read.
    pub i: usize,
}

impl<'a> BiosVolumes<'a> {
    /// A walker over the volumes of `data`, from its start.
    pub fn new(data: &'a [u8]) -> (r: Self)
        ensures
            r.data@ == data@,
            r.i == 0,
    {
        Self { data, i: 0 }
    }

    /// The next volume, or `None` at the end. A position without the
    /// signature advances the cursor by 8 bytes; a signature over an
    /// inconsistent header ends the walk for good.
    pub fn next(&mut self) -> (r: Option<BiosVolume<'a>>)
        ensures
            final(self).data@ == old(self).data@,
            match next_volume(old(self).data@, old(self).i as int) {
                Some(p) => {
                    let hl = le16(old(self).data@, p + 48);
                    let l = le64(old(self).data@, p + 32);
                    &&& r matches Some(v)
                    &&& v.header == volume::spec_header(old(self).data@, p)
                    &&& v.data@ == old(self).data@.subrange(p + hl, p + l)
                    &&& final(self).i == p + l
                },
                None => r is None && next_volume(final(self).data@, final(self).i as int) is None,
            },
    {
        let len = self.data.len();
        if len < volume::HEADER_SIZE {
            return None;
        }
        while self.i <= len - volume::HEADER_SIZE
            invariant
                self.data == old(self).data,
                len == self.data@.len(),
                volume::HEADER_SIZE <= len,
                next_volume(self.data@, old(self).i as int) == next_volume(
                    self.data@,
                    self.i as int,
                ),
            decreases self.data@.len() - self.i,
        {
            let i = self.i;
            if self.data[i + 40] == 0x5f && self.data[i + 41] == 0x46 && self.data[i + 42] == 0x56
                && self.data[i + 43] == 0x48 {
                let header = volume::read_header(self.data, i);
                let hl = header.header_length as usize;
                let l64 = header.length;
                if volume::HEADER_SIZE <= hl && (hl as u64) <= l64 && l64 <= (len - i) as u64 {
                    let l = l64 as usize;
                    self.i = i + l;
                    return Some(
                        BiosVolume { header, data: slice_subrange(self.data, i + hl, i + l) },
                    );
                } else {
                    self.i = len;
                    return None;
                }
            }
            self.i = i + 8;
        }
        self.i = len;
        None
    }
}

/// A firmware volume: its fixed header and its body, which begins after
/// the full header (block map included).
#[derive(Clone, Copy, Debug)]
pub struct BiosVolume<'a> {
    /// The decoded fixed header.
    pub header: volume::Header,
    /// The body: from the end of the full header to the end of the volume.
    pub data: &'a [u8],
}

impl<'a> BiosVolume<'a> {
    /// The decoded fixed header.
    pub fn header(&self) -> (r: volume::Header)
        ensures
            r == self.header,
    {
        self.header
    }

    /// The body of the volume.
    pub fn data(&self) -> (r: &'a [u8])
        ensures
            r@ == self.data@,
    {
        self.data
    }

    /// A walker over the files of the volume body.
    pub fn files(&self) -> (r: BiosFiles<'a>)
        ensures
            r.data@ == self.data@,
            r.i == 0,
    {
        BiosFiles::new(self.data)
    }
}

/// Where the file walker emits next: `Some(i)` when a file header fits at
/// `i` and declares a consistent size, `None` when the free-space size
/// `0xFFFFFF`, a malformed size, or the end of the buffer stops the walk.
pub open spec fn next_file(d: Seq<u8>, i: int) -> Option<int> {
    if i + file::HEADER_SIZE > d.len() {
        None
    } else {
        let sz = le24(d, i + 20);
        if sz == 0xFFFFFF || sz < file::HEADER_SIZE || i + sz > d.len() {
            None
        } else {
            Some(i)
        }
    }
}

/// The cursor after emitting the file at `p` with size `sz`: the size
/// rounded up to 8 bytes, capped at the end of the buffer.
pub open spec fn file_advance(d: Seq<u8>, p: int) -> int {
    let sz = le24(d, p + 20);
    let next = p + ((sz + 7) / 8) * 8;
    if next > d.len() {
        d.len() as int
    } else {
        next
    }
}

/// A lazy, forward-only walker over the files of a volume body.
#[derive(Clone, Copy, Debug)]
pub struct BiosFiles<'a> {
    /// The bytes of the volume body.
    pub data: &'a [u8],
    /// The cursor: where the next file header is read.
    pub i: usize,
}

impl<'a> BiosFiles<'a> {
    /// A walker over the files of `data`, from its start.
    pub fn new(data: &'a [u8]) -> (r: Self)
        ensures
            r.data@ == data@,
            r.i == 0,
    {
        Self { data, i: 0 }
    }

    /// The next file, or `None` at the end. The size `0xFFFFFF` marks free
    /// space to the end; the cursor advances in 8-byte alignment.
    pub fn next(&mut self) -> (r: Option<BiosFile<'a>>)
        ensures
            final(self).data@ == old(self).data@,
            match next_file(old(self).data@, old(self).i as int) {
                Some(p) => {
                    let sz = le24(old(self).data@, p + 20);
                    &&& r matches Some(f)
                    &&& f.header == file::spec_header(old(self).data@, p)
                    &&& f.data@ == old(self).data@.subrange(p + file::HEADER_SIZE, p + sz)
                    &&& final(self).i == file_advance(old(self).data@, p)
                },
                None => r is None && final(self).i == final(self).data@.len(),
            },
    {
        let len = self.data.len();
        let i = self.i;
        if len < file::HEADER_SIZE || i > len - file::HEADER_SIZE {
            self.i = len;
            return None;
        }
        let header = file::read_header(self.data, i);
        let sz = header.size();
        if sz == 0xFFFFFF || sz < file::HEADER_SIZE || sz > len - i {
            self.i = len;
            return None;
        }
        let adv = ((sz + 7) / 8) * 8;
        self.i = if adv > len - i {
            len
        } else {
            i + adv
        };
        Some(BiosFile { header, data: slice_subrange(self.data, i + file::HEADER_SIZE, i + sz) })
    }
}

/// A firmware file: its header and its body.
#[derive(Clone, Copy, Debug)]
pub struct BiosFile<'a> {
    /// The decoded file header.
    pub header: file::Header,
    /// The body: from the end of the header to the declared size.
    pub data: &'a [u8],
}

impl<'a> BiosFile<'a> {
    /// The decoded file header.
    pub fn header(&self) -> (r: file::Header)
        ensures
            r == self.header,
    {
        self.header
    }

    /// The body of the file.
    pub fn data(&self) -> (r: &'a [u8])
        ensures
            r@ == self.data@,
    {
        self.data
    }

    /// A walker over the sections of the file body; meaningful for the
    /// sectioned file kinds.
    pub fn sections(&self) -> (r: BiosSections<'a>)
        ensures
            r.data@ == self.data@,
            r.i == 0,
    {
        BiosSections::new(self.data)
    }
}

/// Where the section walker emits next: `Some(i)` when a section header
/// fits at `i` and declares a consistent size, `None` when the free-space
/// size `0xFFFFFF`, a malformed size, or the end of the buffer stops the
/// walk.
pub open spec fn next_section(d: Seq<u8>, i: int) -> Option<int> {
    if i + section::HEADER_SIZE > d.len() {
        None
    } else {
        let sz = le24(d, i);
        if sz == 0xFFFFFF || sz < section::HEADER_SIZE || i + sz > d.len() {
            None
        } else {
            Some(i)
        }
    }
}

/// The cursor after emitting the section at `p`: the size rounded up to 4
/// bytes, capped at the end of the buffer.
pub open spec fn section_advance(d: Seq<u8>, p: int) -> int {
    let sz = le24(d, p);
    let next = p + ((sz + 3) / 4) * 4;
    if next > d.len() {
        d.len() as int
    } else {
        next
    }
}

/// A lazy, forward-only walker over the sections of a file body.
#[derive(Clone, Copy, Debug)]
pub struct BiosSections<'a> {
    /// The bytes of the file body.
    pub data: &'a [u8],
    /// The cursor: where the next section header is read.
    pub i: usize,
}

impl<'a> BiosSections<'a> {
    /// A walker over the sections of `data`, from its start.
    pub fn new(data: &'a [u8]) -> (r: Self)
        ensures
            r.data@ == data@,
            r.i == 0,
    {
        Self { data, i: 0 }
    }

    /// The next section, or `None` at the end. The size `0xFFFFFF` marks
    /// free space to the end; the cursor advances in 4-byte alignment.
    pub fn next(&mut self) -> (r: Option<BiosSection<'a>>)
        ensures
            final(self).data@ == old(self).data@,
            match next_section(old(self).data@, old(self).i as int) {
                Some(p) => {
                    let sz = le24(old(self).data@, p);
                    &&& r matches Some(s)
                    &&& s.header == section::spec_header(old(self).data@, p)
                    &&& s.data@ == old(self).data@.subrange(p + section::HEADER_SIZE, p + sz)
                    &&& final(self).i == section_advance(old(self).data@, p)
                },
                None => r is None && final(self).i == final(self).data@.len(),
            },
    {
        let len = self.data.len();
        let i = self.i;
        if len < section::HEADER_SIZE || i > len - section::HEADER_SIZE {
            self.i = len;
            return None;
        }
        let header = section::read_header(self.data, i);
        let sz = header.size();
        if sz == 0xFFFFFF || sz < section::HEADER_SIZE || sz > len - i {
            self.i = len;
            return None;
        }
        let adv = ((sz + 3) / 4) * 4;
        self.i = if adv > len - i {
            len
        } else {
            i + adv
        };
        Some(
            BiosSection { header, data: slice_subrange(self.data, i + section::HEADER_SIZE, i + sz) },
        )
    }
}

/// A firmware section: its header and its body.
#[derive(Clone, Copy, Debug)]
pub struct BiosSection<'a> {
    /// The decoded section header.
    pub header: section::Header,
    /// The body: from the end of the header to the declared size.
    pub data: &'a [u8],
}

impl<'a> BiosSection<'a> {
    /// The decoded section header.
    pub fn header(&self) -> (r: section::Header)
        ensures
            r == self.header,
    {
        self.header
    }

    /// The body of the section.
    pub fn data(&self) -> (r: &'a [u8])
        ensures
            r@ == self.data@,
    {
        self.data
    }
}

/// The position of the first `$FPT` marker at or after `i`, or `None` when
/// the end of the buffer is reached first.
pub open spec fn fpt_pos(d: Seq<u8>, i: int) -> Option<int>
    decreases d.len() - i,
{
    if i + 4 > d.len() {
        None
    } else if d[i] == 0x24 && d[i + 1] == 0x46 && d[i + 2] == 0x50 && d[i + 3] == 0x54 {
        Some(i)
    } else {
        fpt_pos(d, i + 1)
    }
}

/// The version text at an `$FPT` marker at `p`: the four little-endian
/// words at `p + 0x18` in decimal, joined by dots.
pub open spec fn spec_me_version(d: Seq<u8>, p: int) -> Seq<char> {
    dec_digits(le16(d, p + 0x18)) + seq!['.'] + dec_digits(le16(d, p + 0x1a)) + seq!['.']
        + dec_digits(le16(d, p + 0x1c)) + seq!['.'] + dec_digits(le16(d, p + 0x1e))
}

/// The management engine region.
#[derive(Clone, Copy, Debug)]
pub struct Me<'a> {
    /// The bytes of the region.
    pub data: &'a [u8],
}

impl<'a> Me<'a> {
    /// Wraps the bytes of a management engine region.
    pub fn new(data: &'a [u8]) -> (r: Result<Me<'a>, Error>)
        ensures
            r matches Ok(m) && m.data@ == data@,
    {
        Ok(Me { data })
    }

    /// The bytes of the region.
    pub fn data(&self) -> (r: &'a [u8])
        ensures
            r@ == self.data@,
    {
        self.data
    }

    /// The firmware version: the region is scanned byte by byte for the
    /// `$FPT` marker, and the four version words 0x18 bytes after it are
    /// rendered in decimal, joined by dots. `None` when no marker is found
    /// or the version words do not fit.
    pub fn version(&self) -> (r: Option<String>)
        ensures
            match fpt_pos(self.data@, 0) {
                Some(p) => if p + 0x20 <= self.data@.len() {
                    r matches Some(v) && v@ == spec_me_version(self.data@, p)
                } else {
                    r is None
                },
                None => r is None,
            },
    {
        let len = self.data.len();
        if len < 4 {
            return None;
        }
        let mut i: usize = 0;
        while i <= len - 4
            invariant
                len == self.data@.len(),
                4 <= len,
                i <= len,
                fpt_pos(self.data@, 0) == fpt_pos(self.data@, i as int),
            decreases len - i,
        {
            if self.data[i] == 0x24 && self.data[i + 1] == 0x46 && self.data[i + 2] == 0x50
                && self.data[i + 3] == 0x54 {
                if len < 0x20 || i > len - 0x20 {
                    return None;
                }
                let mut v = crate::render::u16_decimal(crate::bytes::read_u16(self.data, i + 0x18));
                v.append(".");
                v.append(crate::render::u16_decimal(crate::bytes::read_u16(self.data, i + 0x1a)).as_str());
                v.append(".");
                v.append(crate::render::u16_decimal(crate::bytes::read_u16(self.data, i + 0x1c)).as_str());
                v.append(".");
                v.append(crate::render::u16_decimal(crate::bytes::read_u16(self.data, i + 0x1e)).as_str());
                proof {
                    reveal_strlit(".");
                    assert(v@ =~= spec_me_version(self.data@, i as int));
                }
                return Some(v);
            }
            i = i + 1;
        }
        None
    }

    /// The module count: the little-endian word at offset 0x14, present
    /// when the region is at least 0x18 bytes long.
    pub fn modules(&self) -> (r: Option<u32>)
        ensures
            match r {
                Some(m) => self.data@.len() >= 0x18 && m == le32(self.data@, 0x14),
                None => self.data@.len() < 0x18,
            },
    {
        if self.data.len() >= 0x18 {
            Some(crate::bytes::read_u32(self.data, 0x14))
        } else {
            None
        }
    }
}

} // verus!
