//! Locating the EFS in an image and reaching the directories it points at.
use vstd::prelude::*;

use crate::bytes::{le_u32, read_u32};
use crate::directory::{spec_parse_directory, view_result, Directory, DirectoryView, MAPPING_MASK};
use crate::error::ParseError;
use crate::flash::{efs_at, read_efs, EFS, EFS_MAGIC, EFS_SIZE};

verus! {

/// The EFS sits on a 4 KiB boundary.
pub const STEP_SIZE: usize = 0x1000;

/// The first offset at or past `i`, in steps of `STEP_SIZE`, that starts an EFS
/// (with room for all of it), if any.
pub open spec fn find_efs_from(img: Seq<u8>, i: int) -> Option<int>
    decreases img.len() + STEP_SIZE - i,
{
    if i < 0 || i + EFS_SIZE > img.len() {
        None
    } else if le_u32(img, i) == EFS_MAGIC {
        Some(i)
    } else {
        find_efs_from(img, i + STEP_SIZE)
    }
}

/// The offset of the EFS in `img`: the first multiple of 0x1000 that starts one.
pub open spec fn find_efs(img: Seq<u8>) -> Option<int> {
    find_efs_from(img, 0)
}

/// A firmware image with its EFS located.
#[derive(Clone, Copy, Debug)]
pub struct Rom<'a> {
    pub data: &'a [u8],
    pub efs: EFS,
    /// Offset of the EFS in `data`.
    pub efs_offset: usize,
}

/// `addr` masked to the 24 bits that locate a directory in the image.
pub open spec fn dir_base(addr: usize) -> usize {
    (addr as u64 & MAPPING_MASK) as usize
}

/// The directory that EFS pointer `addr` names in `img`.
pub open spec fn spec_get_dir(addr: usize, img: Seq<u8>) -> Result<DirectoryView, ParseError> {
    let base = dir_base(addr);
    if base == 0 || base == MAPPING_MASK {
        Err(ParseError::EmptyPointer { addr: base })
    } else if base >= img.len() {
        Err(ParseError::OffsetOutsideImage { offset: base, image_len: img.len() as usize })
    } else {
        spec_parse_directory(img.subrange(base as int, img.len() as int), base)
    }
}

/// Parses the directory that EFS pointer `addr` names, after masking it to 24 bits.
pub fn get_dir(addr: usize, data: &[u8]) -> (r: Result<Directory, ParseError>)
    ensures
        view_result(r) == spec_get_dir(addr, data@),
{
    let base = ((addr as u64) & MAPPING_MASK) as usize;
    if base == 0 || base as u64 == MAPPING_MASK {
        return Err(ParseError::EmptyPointer { addr: base });
    }
    let len = data.len();
    if base >= len {
        return Err(ParseError::OffsetOutsideImage { offset: base, image_len: len });
    }
    Directory::new(vstd::slice::slice_subrange(data, base, len), base)
}

impl<'a> Rom<'a> {
    /// Scans `data` in steps of 0x1000 for the EFS magic and reads the EFS there.
    pub fn new(data: &'a [u8]) -> (r: Result<Rom<'a>, ParseError>)
        ensures
            match find_efs(data@) {
                Some(i) => r matches Ok(rom) && rom.data@ == data@ && rom.efs_offset == i
                    && rom.efs == efs_at(data@, i),
                None => r == Err::<Rom<'a>, ParseError>(ParseError::EfsNotFound),
            },
    {
        let len = data.len();
        let mut i: usize = 0;
        while i <= len && len - i >= EFS_SIZE
            invariant
                len == data@.len(),
                i as int % STEP_SIZE as int == 0,
                find_efs(data@) == find_efs_from(data@, i as int),
            decreases len - i,
        {
            if read_u32(data, i) == EFS_MAGIC {
                let efs = read_efs(data, i);
                return Ok(Rom { data, efs, efs_offset: i });
            }
            if len - i < STEP_SIZE {
                assert(find_efs_from(data@, i + STEP_SIZE) == None::<int>);
                return Err(ParseError::EfsNotFound);
            }
            i = i + STEP_SIZE;
        }
        Err(ParseError::EfsNotFound)
    }

    pub fn data(&self) -> (r: &'a [u8])
        ensures
            r@ == self.data@,
    {
        self.data
    }

    pub fn efs(&self) -> (r: EFS)
        ensures
            r == self.efs,
    {
        self.efs
    }

    /// The legacy PSP directory.
    pub fn psp_legacy(&self) -> (r: Result<Directory, ParseError>)
        ensures
            view_result(r) == spec_get_dir(self.efs.psp_legacy as usize, self.data@),
    {
        get_dir(self.efs.psp_legacy as usize, self.data)
    }

    /// The PSP directory of family 17h and later.
    pub fn psp(&self) -> (r: Result<Directory, ParseError>)
        ensures
            view_result(r) == spec_get_dir(self.efs.psp_17_00 as usize, self.data@),
    {
        get_dir(self.efs.psp_17_00 as usize, self.data)
    }

    /// The BIOS directory of family 17h models 00h to 0fh.
    pub fn bios_17_00_0f(&self) -> (r: Result<Directory, ParseError>)
        ensures
            view_result(r) == spec_get_dir(self.efs.bios_17_00_0f as usize, self.data@),
    {
        get_dir(self.efs.bios_17_00_0f as usize, self.data)
    }

    /// The BIOS directory of family 17h models 10h to 1fh.
    pub fn bios_17_10_1f(&self) -> (r: Result<Directory, ParseError>)
        ensures
            view_result(r) == spec_get_dir(self.efs.bios_17_10_1f as usize, self.data@),
    {
        get_dir(self.efs.bios_17_10_1f as usize, self.data)
    }

    /// The BIOS directory of family 17h models 30h to 3fh and family 19h models 00h to 0fh.
    pub fn bios_17_30_3f_19_00_0f(&self) -> (r: Result<Directory, ParseError>)
        ensures
            view_result(r) == spec_get_dir(self.efs.bios_17_30_3f_19_00_0f as usize, self.data@),
    {
        get_dir(self.efs.bios_17_30_3f_19_00_0f as usize, self.data)
    }

    /// The BIOS directory of family 17h model 60h and later.
    pub fn bios_17_60(&self) -> (r: Result<Directory, ParseError>)
        ensures
            view_result(r) == spec_get_dir(self.efs.bios_17_60 as usize, self.data@),
    {
        get_dir(self.efs.bios_17_60 as usize, self.data)
    }
}

} // verus!
