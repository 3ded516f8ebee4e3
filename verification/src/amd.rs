//! AMD flash images.
//!
//! An AMD image is entered through the Embedded Firmware Structure, found
//! by stepping over 4 KiB boundaries, and descends from its pointers into
//! PSP and BIOS directories.

use vstd::prelude::*;
use vstd::slice::slice_subrange;
use crate::err::Error;

pub mod directory;
pub mod flash;

verus! {

/// True when the four EFS magic bytes `AA 55 AA 55` stand at `i`.
pub open spec fn efs_anchor_at(d: Seq<u8>, i: int) -> bool {
    &&& d[i] == 0xaa
    &&& d[i + 1] == 0x55
    &&& d[i + 2] == 0xaa
    &&& d[i + 3] == 0x55
}

/// The position of the first EFS anchor at or after `i`, stepping by 4 KiB,
/// such that the whole record still fits; `None` when the end of the
/// buffer is reached first.
pub open spec fn efs_pos(d: Seq<u8>, i: int) -> Option<int>
    decreases d.len() + 0x1000 - i,
{
    if i + flash::EFS_SIZE > d.len() {
        None
    } else if efs_anchor_at(d, i) {
        Some(i)
    } else {
        efs_pos(d, i + 0x1000)
    }
}

/// The anchor search is complete: when the magic stands on some 4 KiB
/// boundary with room for the record, the search from a boundary at or
/// before it finds a boundary with the magic, no later than it.
proof fn lemma_efs_pos_finds(d: Seq<u8>, m: int, k: int)
    requires
        0 <= m <= k,
        0x1000 * k + flash::EFS_SIZE <= d.len(),
        efs_anchor_at(d, 0x1000 * k),
    ensures
        efs_pos(d, 0x1000 * m) matches Some(p) && 0x1000 * m <= p <= 0x1000 * k && p % 0x1000 == 0
            && efs_anchor_at(d, p),
    decreases k - m,
{
    let i = 0x1000 * m;
    assert((0x1000 * m) % 0x1000 == 0) by (nonlinear_arith);
    if efs_anchor_at(d, i) {
    } else {
        assert(m < k);
        lemma_efs_pos_finds(d, m + 1, k);
    }
}

/// The EFS anchor search succeeds whenever a well-formed EFS stands on any
/// 4 KiB boundary: the search finds the first such boundary that carries
/// the magic.
pub proof fn lemma_efs_anchor_found(d: Seq<u8>, k: int)
    requires
        0 <= k,
        0x1000 * k + flash::EFS_SIZE <= d.len(),
        efs_anchor_at(d, 0x1000 * k),
    ensures
        efs_pos(d, 0) matches Some(p) && 0 <= p <= 0x1000 * k && p % 0x1000 == 0 && efs_anchor_at(
            d,
            p,
        ),
{
    lemma_efs_pos_finds(d, 0, k);
}

/// A view of an AMD flash image, anchored at the EFS.
#[derive(Clone, Copy, Debug)]
pub struct Rom<'a> {
    /// The image from the EFS anchor.
    pub data: &'a [u8],
    /// The decoded EFS record, from the first bytes of `data`.
    pub efs: flash::EFS,
}

impl<'a> Rom<'a> {
    /// Finds the EFS anchor: every 4 KiB boundary is tested for the magic
    /// `AA 55 AA 55`. On a hit the view starts at the anchor; with no hit
    /// the search fails.
    pub fn new(data: &'a [u8]) -> (r: Result<Rom<'a>, Error>)
        ensures
            match efs_pos(data@, 0) {
                Some(p) => r matches Ok(rom) && rom.data@ == data@.subrange(
                    p,
                    data@.len() as int,
                ) && rom.efs == flash::spec_efs(data@, p),
                None => r matches Err(e) && e == Error::EfsNotFound,
            },
    {
        let len = data.len();
        if len < flash::EFS_SIZE {
            return Err(Error::EfsNotFound);
        }
        let mut i: usize = 0;
        while i <= len - flash::EFS_SIZE
            invariant
                len == data@.len(),
                len >= flash::EFS_SIZE,
                efs_pos(data@, 0) == efs_pos(data@, i as int),
            decreases data@.len() - i,
        {
            if data[i] == 0xaa && data[i + 1] == 0x55 && data[i + 2] == 0xaa && data[i + 3] == 0x55 {
                let efs = flash::read_efs(data, i);
                let view = slice_subrange(data, i, len);
                return Ok(Rom { data: view, efs });
            }
            if len - i < 0x1000 {
                proof {
                    assert(efs_pos(data@, i + 0x1000) is None);
                }
                i = len;
            } else {
                i = i + 0x1000;
            }
        }
        Err(Error::EfsNotFound)
    }

    /// The bytes of the image from the EFS anchor.
    pub fn data(&self) -> (r: &'a [u8])
        ensures
            r@ == self.data@,
    {
        self.data
    }

    /// The decoded EFS record.
    pub fn efs(&self) -> (r: flash::EFS)
        ensures
            r == self.efs,
    {
        self.efs
    }
}

} // verus!
