//! The uniform failure channel of the parsers.
//!
//! Every eager constructor reports which rule rejected the input and, where
//! that helps a caller, at which position. The lazy walkers never return an
//! error: a malformed tail simply ends the iteration.

use vstd::prelude::*;
use crate::intel::RegionKind;

verus! {

/// Why a parser rejected its input.
#[derive(Clone, Debug, PartialEq, Eq)]
pub enum Error {
    /// No Intel flash descriptor anchor anywhere in the buffer.
    FlashDescriptorNotFound,
    /// No AMD embedded firmware structure on any 4 KiB boundary.
    EfsNotFound,
    /// The buffer is too short for a fixed record: its name, the bytes it
    /// needs, and the bytes that were there.
    RecordTruncated(&'static str, u64, u64),
    /// The flash region table does not fit inside the buffer.
    RegionTableTruncated,
    /// The PCH strap table does not fit inside the buffer.
    PchstrapTruncated,
    /// A present region ends past the buffer: the region, its limit, and the
    /// buffer length.
    RegionOutOfRange(RegionKind, usize, usize),
    /// The four magic bytes at a directory address match no known directory.
    UnknownDirectorySignature([u8; 4]),
    /// A directory entry's payload falls outside the buffer: the entry kind's
    /// name, the payload bounds, and the buffer length.
    EntryOutOfRange(&'static str, u64, u64, u64),
    /// Directory recursion went past the traversal depth bound.
    DirectoryRecursionTooDeep,
    /// The external decompressor rejected a compressed section payload.
    DecompressionFailed(String),
}

} // verus!
