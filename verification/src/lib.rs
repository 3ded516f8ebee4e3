//! Parser and inspector for x86 platform firmware images.
//!
//! A flash image is a single immutable byte buffer. The library locates the
//! Intel flash descriptor or the AMD embedded firmware structure inside it,
//! exposes the fixed-layout records as plain values, and walks the nested
//! containers (UEFI volumes, files and sections on the Intel side; PSP and
//! BIOS directories on the AMD side) without ever reading past the end of
//! the buffer.

pub mod amd;
pub mod bytes;
pub mod err;
pub mod guid;
pub mod render;
pub mod intel;
