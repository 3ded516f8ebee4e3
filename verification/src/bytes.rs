//! Little-endian scalar decoding.
//!
//! Every on-media record of a flash image stores its numeric fields as
//! little-endian bytes at fixed offsets, with no alignment guarantee. The
//! readers here copy such a field out of the buffer by value; the spec
//! functions state the value of each field as a sum over the bytes.

use vstd::prelude::*;

verus! {

/// Little-endian value of the two bytes of `d` at `off`.
pub open spec fn le16(d: Seq<u8>, off: int) -> int {
    d[off] + 0x100 * d[off + 1]
}

/// Little-endian value of the three bytes of `d` at `off`.
pub open spec fn le24(d: Seq<u8>, off: int) -> int {
    d[off] + 0x100 * d[off + 1] + 0x10000 * d[off + 2]
}

/// Little-endian value of the four bytes of `d` at `off`.
pub open spec fn le32(d: Seq<u8>, off: int) -> int {
    d[off] + 0x100 * d[off + 1] + 0x10000 * d[off + 2] + 0x1000000 * d[off + 3]
}

/// Little-endian value of the eight bytes of `d` at `off`.
pub open spec fn le64(d: Seq<u8>, off: int) -> int {
    le32(d, off) + 0x100000000 * le32(d, off + 4)
}

/// The eight bytes that encode `v` in little-endian order.
pub open spec fn u64_le_bytes(v: u64) -> Seq<u8> {
    seq![
        (v & 0xFF) as u8,
        ((v >> 8) & 0xFF) as u8,
        ((v >> 16) & 0xFF) as u8,
        ((v >> 24) & 0xFF) as u8,
        ((v >> 32) & 0xFF) as u8,
        ((v >> 40) & 0xFF) as u8,
        ((v >> 48) & 0xFF) as u8,
        ((v >> 56) & 0xFF) as u8,
    ]
}

pub fn read_u16(d: &[u8], off: usize) -> (r: u16)
    requires
        off + 2 <= d@.len(),
    ensures
        r == le16(d@, off as int),
{
    let b0 = d[off] as u16;
    let b1 = d[off + 1] as u16;
    b0 + 0x100 * b1
}

pub fn read_u24(d: &[u8], off: usize) -> (r: u32)
    requires
        off + 3 <= d@.len(),
    ensures
        r == le24(d@, off as int),
{
    let b0 = d[off] as u32;
    let b1 = d[off + 1] as u32;
    let b2 = d[off + 2] as u32;
    b0 + 0x100 * b1 + 0x10000 * b2
}

pub fn read_u32(d: &[u8], off: usize) -> (r: u32)
    requires
        off + 4 <= d@.len(),
    ensures
        r == le32(d@, off as int),
{
    let b0 = d[off] as u32;
    let b1 = d[off + 1] as u32;
    let b2 = d[off + 2] as u32;
    let b3 = d[off + 3] as u32;
    b0 + 0x100 * b1 + 0x10000 * b2 + 0x1000000 * b3
}

pub fn read_u64(d: &[u8], off: usize) -> (r: u64)
    requires
        off + 8 <= d@.len(),
    ensures
        r == le64(d@, off as int),
{
    let b0 = d[off] as u64;
    let b1 = d[off + 1] as u64;
    let b2 = d[off + 2] as u64;
    let b3 = d[off + 3] as u64;
    let b4 = d[off + 4] as u64;
    let b5 = d[off + 5] as u64;
    let b6 = d[off + 6] as u64;
    let b7 = d[off + 7] as u64;
    b0 + 0x100 * b1 + 0x10000 * b2 + 0x1000000 * b3 + 0x100000000 * (b4 + 0x100 * b5 + 0x10000 * b6
        + 0x1000000 * b7)
}

/// The four bytes that encode `v` in little-endian order.
pub open spec fn u32_le_bytes(v: u32) -> Seq<u8> {
    seq![
        (v & 0xFF) as u8,
        ((v >> 8) & 0xFF) as u8,
        ((v >> 16) & 0xFF) as u8,
        ((v >> 24) & 0xFF) as u8,
    ]
}

/// A little-endian field decodes to the value it was encoded from.
pub proof fn lemma_le32_of_u32(d: Seq<u8>, off: int, v: u32)
    requires
        0 <= off,
        off + 4 <= d.len(),
        d.subrange(off, off + 4) == u32_le_bytes(v),
    ensures
        le32(d, off) == v,
{
    assert forall|k: int| 0 <= k < 4 implies d[off + k] == u32_le_bytes(v)[k] by {
        assert(d.subrange(off, off + 4)[k] == d[off + k]);
    }
    assert(v & 0xFF < 0x100 && (v >> 8) & 0xFF < 0x100 && (v >> 16) & 0xFF < 0x100 && (v >> 24)
        & 0xFF < 0x100) by (bit_vector);
    assert((v & 0xFF) + 0x100 * ((v >> 8) & 0xFF) + 0x10000 * ((v >> 16) & 0xFF) + 0x1000000 * ((v
        >> 24) & 0xFF) == v) by (bit_vector);
}

/// A little-endian field decodes to the value it was encoded from.
pub proof fn lemma_le64_of_u64(d: Seq<u8>, off: int, v: u64)
    requires
        0 <= off,
        off + 8 <= d.len(),
        d.subrange(off, off + 8) == u64_le_bytes(v),
    ensures
        le64(d, off) == v,
{
    assert forall|k: int| 0 <= k < 8 implies d[off + k] == u64_le_bytes(v)[k] by {
        assert(d.subrange(off, off + 8)[k] == d[off + k]);
    }
    assert(v & 0xFF < 0x100 && (v >> 8) & 0xFF < 0x100 && (v >> 16) & 0xFF < 0x100 && (v >> 24)
        & 0xFF < 0x100 && (v >> 32) & 0xFF < 0x100 && (v >> 40) & 0xFF < 0x100 && (v >> 48) & 0xFF
        < 0x100 && (v >> 56) & 0xFF < 0x100) by (bit_vector);
    assert((v & 0xFF) + 0x100 * ((v >> 8) & 0xFF) + 0x10000 * ((v >> 16) & 0xFF) + 0x1000000 * ((v
        >> 24) & 0xFF) + 0x100000000 * (((v >> 32) & 0xFF) + 0x100 * ((v >> 40) & 0xFF) + 0x10000
        * ((v >> 48) & 0xFF) + 0x1000000 * ((v >> 56) & 0xFF)) == v) by (bit_vector);
}

} // verus!
