//! Structured parse errors.
use vstd::prelude::*;

use crate::directory::DirectoryKind;

verus! {

/// What went wrong while reading a firmware image.
#[derive(Clone, Copy, Debug, PartialEq, Eq, Structural)]
pub enum ParseError {
    /// No Embedded Firmware Structure anchor in the image.
    EfsNotFound,
    /// A pointer that holds one of the two "absent" values.
    EmptyPointer { addr: usize },
    /// A directory offset that lies outside the image.
    OffsetOutsideImage { offset: usize, image_len: usize },
    /// Fewer than four bytes are left for a directory signature.
    SignatureTruncated { offset: usize },
    /// The first four bytes of a directory, read little-endian, match no known magic.
    UnknownDirectorySignature { magic: u32, offset: usize },
    /// The signature was asked for one kind of directory and names another.
    WrongDirectoryKind { expected: DirectoryKind, found: DirectoryKind, offset: usize },
    /// Not enough bytes for the header of a directory.
    HeaderTruncated { kind: DirectoryKind, offset: usize },
    /// Not enough bytes for the entry array that the header declares.
    EntriesTruncated { kind: DirectoryKind, offset: usize, count: u32 },
    /// A resolved payload range `[start, end)` does not lie inside the image;
    /// both ends saturate at `usize::MAX`.
    RangeExceedsImage { start: usize, end: usize, image_len: usize },
    /// A compressed BIOS binary whose body does not start with a zlib header.
    MissingZlibMagic { offset: usize, observed: u16 },
    /// A PSP level-2 A/B indirection record that cannot be read.
    BackupDirectoryUnparsable { offset: usize },
    /// A PSP entry kind outside the known set; informational only.
    UnknownEntryKind { entry_kind: u8 },
    /// The operation applies to another kind of directory.
    NotCombo,
    NotBios,
    NotPsp,
}

} // verus!
