//! PSP directories, their entries, and the PSP binary header.
use vstd::prelude::*;

use crate::bytes::{be_u16, le_u16, le_u32, le_u64, read_u16, read_u32, read_u64};
use crate::directory::{
    addr_mode, addr_mode_of, check_layout, copy_range, parse_combo, spec_parse_combo, header_at, layout_error, read_header,
    read_signature, resolve, resolve_addr, resolve_addr_masked, resolve_masked, MAPPING_MASK, sat, signature, AddrMode,
    ComboDirectoryEntry, ComboDirectoryHeader, ComboView, DirView, DirectoryHeader, DirectoryKind,
};
use crate::error::ParseError;

verus! {

pub const PSP_BIN_HEADER_SIZE: usize = 256;

/// Bits of `value` that a soft-fuse style entry (size `0xFFFFFFFF`) carries.
pub const ADDR_MASK: u64 = 0x3fff_ffff;

/// Entry size that marks an entry whose payload is its value.
pub const INLINE_VALUE_SIZE: u32 = 0xffff_ffff;

/// Version of a PSP binary.
#[derive(Clone, Copy, Debug, PartialEq, Eq, Structural)]
pub struct Version {
    pub major: u8,
    pub minor: u8,
    pub patch: u8,
    pub rev: u8,
}

impl Version {
    /// All four parts zero, or all four `0xff`.
    pub fn is_unversioned(&self) -> (r: bool)
        ensures
            r == ((self.major == 0 && self.minor == 0 && self.patch == 0 && self.rev == 0) || (
            self.major == 0xff && self.minor == 0xff && self.patch == 0xff && self.rev == 0xff)),
    {
        (self.major == 0 && self.minor == 0 && self.patch == 0 && self.rev == 0) || (self.major
            == 0xff && self.minor == 0xff && self.patch == 0xff && self.rev == 0xff)
    }
}

/// The four bytes at offset 0x10 of a PSP binary header.
#[derive(Clone, Copy, Debug)]
pub struct Magic(pub [u8; 4]);

/// One of the magics seen in PSP binaries: `$PS1`, `0BAB`, `0BAW`, `ACnB` and
/// `AWnB` for a digit n from 0 to 8.
pub open spec fn known_magic(m: Seq<u8>) -> bool {
    ||| m == seq![0x24u8, 0x50u8, 0x53u8, 0x31u8]
    ||| m == seq![0x30u8, 0x42u8, 0x41u8, 0x42u8]
    ||| m == seq![0x30u8, 0x42u8, 0x41u8, 0x57u8]
    ||| (m.len() == 4 && m[0] == 0x41 && (m[1] == 0x43 || m[1] == 0x57) && 0x30 <= m[2] <= 0x38
        && m[3] == 0x42)
}

impl Magic {
    pub fn is_known(&self) -> (r: bool)
        ensures
            r == known_magic(self.0@),
    {
        let m = self.0;
        let a = m[0];
        let b = m[1];
        let c = m[2];
        let d = m[3];
        let r = (a == 0x24 && b == 0x50 && c == 0x53 && d == 0x31) || (a == 0x30 && b == 0x42
            && c == 0x41 && (d == 0x42 || d == 0x57)) || (a == 0x41 && (b == 0x43 || b == 0x57)
            && 0x30 <= c && c <= 0x38 && d == 0x42);
        proof {
            assert(m@.len() == 4);
            if a == 0x24 && b == 0x50 && c == 0x53 && d == 0x31 {
                assert(m@ =~= seq![0x24u8, 0x50u8, 0x53u8, 0x31u8]);
            }
            if a == 0x30 && b == 0x42 && c == 0x41 && d == 0x42 {
                assert(m@ =~= seq![0x30u8, 0x42u8, 0x41u8, 0x42u8]);
            }
            if a == 0x30 && b == 0x42 && c == 0x41 && d == 0x57 {
                assert(m@ =~= seq![0x30u8, 0x42u8, 0x41u8, 0x57u8]);
            }
        }
        r
    }
}

/// Signature record of a PSP binary header.
#[derive(Clone, Copy, Debug)]
pub struct PspBinarySignature {
    /// 1 if the image is signed, 0 otherwise
    pub opt: u32,
    pub id: u32,
    pub param: [u8; 16],
}

impl PspBinarySignature {
    pub fn is_signed(&self) -> (r: bool)
        ensures
            r == (self.opt == 1),
    {
        self.opt == 1
    }

    /// The first two parameter bytes, most significant first: the short form of the
    /// signing key's ID.
    pub fn key_id(&self) -> (r: u16)
        ensures
            r == be_u16(self.param@, 0),
    {
        (self.param[0] as u16) * 0x100 + (self.param[1] as u16)
    }
}

/// The named fields of the 256-byte header in front of most PSP binaries; the
/// bytes in between are reserved.
#[derive(Clone, Copy, Debug)]
pub struct PspBinaryHeader {
    pub maybe_magic: Magic,
    pub fw_size_signed: u32,
    pub sig: PspBinarySignature,
    pub comp_opt: u32,
    pub uncomp_size: u32,
    pub comp_size: u32,
    /// populated instead of `fw_type` from Mendocino on
    pub fw_id: u16,
    pub version: Version,
    pub size_total: u32,
    pub fw_type: u8,
    pub fw_subtype: u8,
    pub fw_subprog: u8,
    pub reserved_7f: u8,
}

/// `h` holds the fields of the PSP binary header at offset `i` of `b`.
pub open spec fn psp_header_at(h: PspBinaryHeader, b: Seq<u8>, i: int) -> bool {
    &&& h.maybe_magic.0@ == b.subrange(i + 0x10, i + 0x14)
    &&& h.fw_size_signed == le_u32(b, i + 0x14)
    &&& h.sig.opt == le_u32(b, i + 0x30)
    &&& h.sig.id == le_u32(b, i + 0x34)
    &&& h.sig.param@ == b.subrange(i + 0x38, i + 0x48)
    &&& h.comp_opt == le_u32(b, i + 0x48)
    &&& h.uncomp_size == le_u32(b, i + 0x50)
    &&& h.comp_size == le_u32(b, i + 0x54)
    &&& h.fw_id == le_u16(b, i + 0x58)
    &&& h.version == Version {
        major: b[i + 0x60],
        minor: b[i + 0x61],
        patch: b[i + 0x62],
        rev: b[i + 0x63],
    }
    &&& h.size_total == le_u32(b, i + 0x6c)
    &&& h.fw_type == b[i + 0x7c]
    &&& h.fw_subtype == b[i + 0x7d]
    &&& h.fw_subprog == b[i + 0x7e]
    &&& h.reserved_7f == b[i + 0x7f]
}

/// Reads the PSP binary header at offset `i`.
pub fn read_psp_binary_header(b: &[u8], i: usize) -> (r: PspBinaryHeader)
    requires
        i + PSP_BIN_HEADER_SIZE <= b@.len(),
    ensures
        psp_header_at(r, b@, i as int),
{
    let _n: usize = b.len();
    let magic = [b[i + 0x10], b[i + 0x11], b[i + 0x12], b[i + 0x13]];
    let param = [
        b[i + 0x38],
        b[i + 0x39],
        b[i + 0x3a],
        b[i + 0x3b],
        b[i + 0x3c],
        b[i + 0x3d],
        b[i + 0x3e],
        b[i + 0x3f],
        b[i + 0x40],
        b[i + 0x41],
        b[i + 0x42],
        b[i + 0x43],
        b[i + 0x44],
        b[i + 0x45],
        b[i + 0x46],
        b[i + 0x47],
    ];
    assert(magic@ =~= b@.subrange(i + 0x10, i + 0x14));
    assert(param@ =~= b@.subrange(i + 0x38, i + 0x48));
    PspBinaryHeader {
        maybe_magic: Magic(magic),
        fw_size_signed: read_u32(b, i + 0x14),
        sig: PspBinarySignature { opt: read_u32(b, i + 0x30), id: read_u32(b, i + 0x34), param },
        comp_opt: read_u32(b, i + 0x48),
        uncomp_size: read_u32(b, i + 0x50),
        comp_size: read_u32(b, i + 0x54),
        fw_id: read_u16(b, i + 0x58),
        version: Version {
            major: b[i + 0x60],
            minor: b[i + 0x61],
            patch: b[i + 0x62],
            rev: b[i + 0x63],
        },
        size_total: read_u32(b, i + 0x6c),
        fw_type: b[i + 0x7c],
        fw_subtype: b[i + 0x7d],
        fw_subprog: b[i + 0x7e],
        reserved_7f: b[i + 0x7f],
    }
}

} // verus!
verus! {

/// The PSP entry kinds that the parser acts on.
#[derive(Clone, Copy, Debug, PartialEq, Eq, Structural)]
pub enum PspEntryType {
    AmdPublicKey,
    PspNonVolatileData,
    SmuFirmware,
    AmdSecureDebugKey,
    OemPublicKey,
    SoftFuseChain,
    PspTrustletPublicKey,
    SmuFirmware2,
    WrappedIKEK,
    PspTokenUnlock,
    PspLevel2Dir,
    DxioPhySramFirmwarePublicKey,
    UsbPhyFirmware,
    PspLevel2ADir,
    BiosLevel2Dir,
    PspLevel2BDir,
    PmuPublicKey,
    PspBootLoaderPublicKeysTable,
    PspTrustedOSPublicKeysTable,
    PspRpmcNvram,
    DmcuEram,
    DmcuIsr,
}

/// The known entry type of kind byte `v`.
pub open spec fn entry_type_of(v: u8) -> Option<PspEntryType> {
    if v == 0x00 {
        Some(PspEntryType::AmdPublicKey)
    } else if v == 0x04 {
        Some(PspEntryType::PspNonVolatileData)
    } else if v == 0x08 {
        Some(PspEntryType::SmuFirmware)
    } else if v == 0x09 {
        Some(PspEntryType::AmdSecureDebugKey)
    } else if v == 0x0a {
        Some(PspEntryType::OemPublicKey)
    } else if v == 0x0b {
        Some(PspEntryType::SoftFuseChain)
    } else if v == 0x0d {
        Some(PspEntryType::PspTrustletPublicKey)
    } else if v == 0x12 {
        Some(PspEntryType::SmuFirmware2)
    } else if v == 0x21 {
        Some(PspEntryType::WrappedIKEK)
    } else if v == 0x22 {
        Some(PspEntryType::PspTokenUnlock)
    } else if v == 0x40 {
        Some(PspEntryType::PspLevel2Dir)
    } else if v == 0x43 {
        Some(PspEntryType::DxioPhySramFirmwarePublicKey)
    } else if v == 0x44 {
        Some(PspEntryType::UsbPhyFirmware)
    } else if v == 0x48 {
        Some(PspEntryType::PspLevel2ADir)
    } else if v == 0x49 {
        Some(PspEntryType::BiosLevel2Dir)
    } else if v == 0x4a {
        Some(PspEntryType::PspLevel2BDir)
    } else if v == 0x4e {
        Some(PspEntryType::PmuPublicKey)
    } else if v == 0x50 {
        Some(PspEntryType::PspBootLoaderPublicKeysTable)
    } else if v == 0x51 {
        Some(PspEntryType::PspTrustedOSPublicKeysTable)
    } else if v == 0x54 {
        Some(PspEntryType::PspRpmcNvram)
    } else if v == 0x58 {
        Some(PspEntryType::DmcuEram)
    } else if v == 0x59 {
        Some(PspEntryType::DmcuIsr)
    } else {
        None
    }
}

impl PspEntryType {
    pub open spec fn spec_code(self) -> u8 {
        match self {
            PspEntryType::AmdPublicKey => 0x00,
            PspEntryType::PspNonVolatileData => 0x04,
            PspEntryType::SmuFirmware => 0x08,
            PspEntryType::AmdSecureDebugKey => 0x09,
            PspEntryType::OemPublicKey => 0x0a,
            PspEntryType::SoftFuseChain => 0x0b,
            PspEntryType::PspTrustletPublicKey => 0x0d,
            PspEntryType::SmuFirmware2 => 0x12,
            PspEntryType::WrappedIKEK => 0x21,
            PspEntryType::PspTokenUnlock => 0x22,
            PspEntryType::PspLevel2Dir => 0x40,
            PspEntryType::DxioPhySramFirmwarePublicKey => 0x43,
            PspEntryType::UsbPhyFirmware => 0x44,
            PspEntryType::PspLevel2ADir => 0x48,
            PspEntryType::BiosLevel2Dir => 0x49,
            PspEntryType::PspLevel2BDir => 0x4a,
            PspEntryType::PmuPublicKey => 0x4e,
            PspEntryType::PspBootLoaderPublicKeysTable => 0x50,
            PspEntryType::PspTrustedOSPublicKeysTable => 0x51,
            PspEntryType::PspRpmcNvram => 0x54,
            PspEntryType::DmcuEram => 0x58,
            PspEntryType::DmcuIsr => 0x59,
        }
    }

    /// The entry kind byte of this type.
    pub fn code(self) -> (r: u8)
        ensures
            r == self.spec_code(),
    {
        match self {
            PspEntryType::AmdPublicKey => 0x00,
            PspEntryType::PspNonVolatileData => 0x04,
            PspEntryType::SmuFirmware => 0x08,
            PspEntryType::AmdSecureDebugKey => 0x09,
            PspEntryType::OemPublicKey => 0x0a,
            PspEntryType::SoftFuseChain => 0x0b,
            PspEntryType::PspTrustletPublicKey => 0x0d,
            PspEntryType::SmuFirmware2 => 0x12,
            PspEntryType::WrappedIKEK => 0x21,
            PspEntryType::PspTokenUnlock => 0x22,
            PspEntryType::PspLevel2Dir => 0x40,
            PspEntryType::DxioPhySramFirmwarePublicKey => 0x43,
            PspEntryType::UsbPhyFirmware => 0x44,
            PspEntryType::PspLevel2ADir => 0x48,
            PspEntryType::BiosLevel2Dir => 0x49,
            PspEntryType::PspLevel2BDir => 0x4a,
            PspEntryType::PmuPublicKey => 0x4e,
            PspEntryType::PspBootLoaderPublicKeysTable => 0x50,
            PspEntryType::PspTrustedOSPublicKeysTable => 0x51,
            PspEntryType::PspRpmcNvram => 0x54,
            PspEntryType::DmcuEram => 0x58,
            PspEntryType::DmcuIsr => 0x59,
        }
    }

    /// The known entry type of kind byte `v`.
    pub fn try_from(v: u8) -> (r: Result<PspEntryType, ParseError>)
        ensures
            match entry_type_of(v) {
                Some(t) => r == Ok::<PspEntryType, ParseError>(t),
                None => r == Err::<PspEntryType, ParseError>(ParseError::UnknownEntryKind { entry_kind: v }),
            },
    {
        match v {
            0x00 => Ok(PspEntryType::AmdPublicKey),
            0x04 => Ok(PspEntryType::PspNonVolatileData),
            0x08 => Ok(PspEntryType::SmuFirmware),
            0x09 => Ok(PspEntryType::AmdSecureDebugKey),
            0x0a => Ok(PspEntryType::OemPublicKey),
            0x0b => Ok(PspEntryType::SoftFuseChain),
            0x0d => Ok(PspEntryType::PspTrustletPublicKey),
            0x12 => Ok(PspEntryType::SmuFirmware2),
            0x21 => Ok(PspEntryType::WrappedIKEK),
            0x22 => Ok(PspEntryType::PspTokenUnlock),
            0x40 => Ok(PspEntryType::PspLevel2Dir),
            0x43 => Ok(PspEntryType::DxioPhySramFirmwarePublicKey),
            0x44 => Ok(PspEntryType::UsbPhyFirmware),
            0x48 => Ok(PspEntryType::PspLevel2ADir),
            0x49 => Ok(PspEntryType::BiosLevel2Dir),
            0x4a => Ok(PspEntryType::PspLevel2BDir),
            0x4e => Ok(PspEntryType::PmuPublicKey),
            0x50 => Ok(PspEntryType::PspBootLoaderPublicKeysTable),
            0x51 => Ok(PspEntryType::PspTrustedOSPublicKeysTable),
            0x54 => Ok(PspEntryType::PspRpmcNvram),
            0x58 => Ok(PspEntryType::DmcuEram),
            0x59 => Ok(PspEntryType::DmcuIsr),
            _ => Err(ParseError::UnknownEntryKind { entry_kind: v }),
        }
    }
}

/// Kinds whose payload has no PSP binary header: keys, key tables, non-volatile data, directory pointers and a few firmware blobs.
pub open spec fn no_generic_header_kind(k: u8) -> bool {
    ||| k == 0x00
    ||| k == 0x04
    ||| k == 0x09
    ||| k == 0x0a
    ||| k == 0x0d
    ||| k == 0x21
    ||| k == 0x22
    ||| k == 0x40
    ||| k == 0x48
    ||| k == 0x4a
    ||| k == 0x43
    ||| k == 0x44
    ||| k == 0x4e
    ||| k == 0x50
    ||| k == 0x51
    ||| k == 0x54
    ||| k == 0x58
    ||| k == 0x59
}

/// Kinds that point at a level-2 PSP directory.
pub open spec fn dir_kind(k: u8) -> bool {
    ||| k == 0x40
    ||| k == 0x48
    ||| k == 0x4a
}

/// Kinds that hold a key or a key table.
pub open spec fn key_kind(k: u8) -> bool {
    ||| k == 0x00
    ||| k == 0x09
    ||| k == 0x0a
    ||| k == 0x0d
    ||| k == 0x21
    ||| k == 0x22
    ||| k == 0x43
    ||| k == 0x4e
    ||| k == 0x50
    ||| k == 0x51
}

/// Kinds that hold a signing key.
pub open spec fn sig_key_kind(k: u8) -> bool {
    ||| k == 0x00
    ||| k == 0x0a
    ||| k == 0x0d
    ||| k == 0x43
    ||| k == 0x4e
}

} // verus!

verus! {

/// An entry of a PSP directory (16 bytes).
#[derive(Clone, Copy, Debug, PartialEq, Eq, Structural)]
pub struct PspDirectoryEntry {
    /// 0x00: type of entry
    pub kind: u8,
    /// 0x01: used to filter entries by model
    pub sub_program: u8,
    /// 0x02: specifies which ROM contains the entry
    pub rom_id: u8,
    pub _03: u8,
    /// 0x04: size of the entry
    pub size: u32,
    /// 0x08: address mode and location, or the value of the entry
    pub value: u64,
}

pub open spec fn psp_entry_at(b: Seq<u8>, i: int) -> PspDirectoryEntry {
    PspDirectoryEntry {
        kind: b[i],
        sub_program: b[i + 1],
        rom_id: b[i + 2],
        _03: b[i + 3],
        size: le_u32(b, i + 4) as u32,
        value: le_u64(b, i + 8) as u64,
    }
}

pub open spec fn psp_entries(b: Seq<u8>, start: int, n: nat) -> Seq<PspDirectoryEntry> {
    Seq::new(n, |k: int| psp_entry_at(b, start + 16 * k))
}

pub fn read_psp_entries(b: &[u8], start: usize, n: u32) -> (r: Vec<PspDirectoryEntry>)
    requires
        start + 16 * n <= b@.len(),
    ensures
        r@ == psp_entries(b@, start as int, n as nat),
{
    let blen: usize = b.len();
    let mut v: Vec<PspDirectoryEntry> = Vec::new();
    let mut k: u32 = 0;
    while k < n
        invariant
            blen == b@.len(),
            k <= n,
            start + 16 * n <= b@.len(),
            v@ == psp_entries(b@, start as int, k as nat),
        decreases n - k,
    {
        let i = start + 16 * (k as usize);
        let e = PspDirectoryEntry {
            kind: b[i],
            sub_program: b[i + 1],
            rom_id: b[i + 2],
            _03: b[i + 3],
            size: read_u32(b, i + 4),
            value: read_u64(b, i + 8),
        };
        v.push(e);
        k = k + 1;
        assert(v@ =~= psp_entries(b@, start as int, k as nat));
    }
    v
}

/// The `n` bytes of `x`, least significant first.
pub open spec fn le_bytes(x: nat, n: nat) -> Seq<u8>
    decreases n,
{
    if n == 0 {
        seq![]
    } else {
        seq![(x % 256) as u8] + le_bytes(x / 256, (n - 1) as nat)
    }
}

/// The eight bytes of `x`, least significant first.
pub fn u64_le_bytes(x: u64) -> (r: Vec<u8>)
    ensures
        r@ == le_bytes(x as nat, 8),
{
    let mut v: Vec<u8> = Vec::new();
    let mut rest: u64 = x;
    let mut k: usize = 0;
    while k < 8
        invariant
            k <= 8,
            v@ + le_bytes(rest as nat, (8 - k) as nat) == le_bytes(x as nat, 8),
        decreases 8 - k,
    {
        proof {
            assert(le_bytes(rest as nat, (8 - k) as nat) == seq![(rest as nat % 256) as u8]
                + le_bytes(rest as nat / 256, (8 - k - 1) as nat));
        }
        let ghost before = v@;
        v.push((rest % 256) as u8);
        assert(v@ + le_bytes((rest / 256) as nat, (8 - (k + 1)) as nat) =~= before
            + le_bytes(rest as nat, (8 - k) as nat));
        rest = rest / 256;
        k = k + 1;
    }
    assert(le_bytes(rest as nat, 0) =~= Seq::<u8>::empty());
    assert(v@ + Seq::<u8>::empty() =~= v@);
    v
}

/// The payload of PSP entry `e` of the directory at `dir_offset` in `img`, with
/// whether a PSP binary header was split off in front of it.
pub open spec fn psp_payload(e: PspDirectoryEntry, img: Seq<u8>, dir_offset: usize) -> Result<
    (bool, Seq<u8>),
    ParseError,
> {
    psp_payload_masked(e, img, dir_offset, MAPPING_MASK)
}

/// `psp_payload` with `mask` selecting the location bits of the entry's pointer.
pub open spec fn psp_payload_masked(
    e: PspDirectoryEntry,
    img: Seq<u8>,
    dir_offset: usize,
    mask: u64,
) -> Result<(bool, Seq<u8>), ParseError> {
    if e.size == INLINE_VALUE_SIZE {
        Ok((false, le_bytes((e.value & ADDR_MASK) as nat, 8)))
    } else {
        let start = resolve_addr_masked(e.value, dir_offset as int, mask);
        let end = start + e.size;
        if end > img.len() {
            Err(
                ParseError::RangeExceedsImage {
                    start: sat(start) as usize,
                    end: sat(end) as usize,
                    image_len: img.len() as usize,
                },
            )
        } else if no_generic_header_kind(e.kind) || start + PSP_BIN_HEADER_SIZE > end {
            Ok((false, img.subrange(start, end)))
        } else {
            Ok((true, img.subrange(start + PSP_BIN_HEADER_SIZE, end)))
        }
    }
}

/// A payload result with the header replaced by whether there is one, and the
/// bytes by their view.
pub open spec fn payload_view(r: Result<(Option<PspBinaryHeader>, Vec<u8>), ParseError>) -> Result<
    (bool, Seq<u8>),
    ParseError,
> {
    match r {
        Ok((h, b)) => Ok((h is Some, b@)),
        Err(e) => Err(e),
    }
}

/// What a listing shows for a PSP entry besides its fields.
#[derive(Clone, Copy, Debug)]
pub enum EntrySummary {
    /// A soft fuse chain, whose value is the payload.
    SoftFuse,
    /// A pointer to a level-2 directory.
    Directory,
    /// A payload with a PSP binary header.
    Header(PspBinaryHeader),
    /// A signing key, with the two bytes at offset 4 read most significant first.
    SigKey(u16),
    /// A payload without a header.
    NoHeader,
    /// A payload that cannot be extracted.
    Unavailable(ParseError),
}

} // verus!

verus! {

impl PspDirectoryEntry {
    /// Extracts the payload of this entry of the directory at `offset` in `data`:
    /// the value itself for a size of `0xFFFFFFFF`, otherwise the bytes that the
    /// entry points at, with a PSP binary header split off where there is one.
    pub fn data(&self, data: &[u8], offset: usize) -> (r: Result<
        (Option<PspBinaryHeader>, Vec<u8>),
        ParseError,
    >)
        ensures
            payload_view(r) == psp_payload(*self, data@, offset),
            r matches Ok((Some(h), _)) ==> psp_header_at(
                h,
                data@,
                resolve_addr(self.value, offset as int),
            ),
    {
        self.data_masked(data, offset, MAPPING_MASK)
    }

    /// Extracts the payload as `data` does, with `mask` selecting the location bits
    /// of the entry's pointer.
    pub fn data_masked(&self, data: &[u8], offset: usize, mask: u64) -> (r: Result<
        (Option<PspBinaryHeader>, Vec<u8>),
        ParseError,
    >)
        ensures
            payload_view(r) == psp_payload_masked(*self, data@, offset, mask),
            r matches Ok((Some(h), _)) ==> psp_header_at(
                h,
                data@,
                resolve_addr_masked(self.value, offset as int, mask),
            ),
    {
        if self.size == INLINE_VALUE_SIZE {
            let body = u64_le_bytes(self.value & ADDR_MASK);
            return Ok((None, body));
        }
        let len = data.len();
        let start = match resolve_masked(self.value, offset, mask) {
            Some(s) => s,
            None => {
                return Err(
                    ParseError::RangeExceedsImage { start: usize::MAX, end: usize::MAX, image_len: len },
                );
            },
        };
        let size = self.size as u64;
        if start > len || ((len - start) as u64) < size {
            let end = if size > (usize::MAX - start) as u64 {
                usize::MAX
            } else {
                start + size as usize
            };
            return Err(ParseError::RangeExceedsImage { start, end, image_len: len });
        }
        let end = start + size as usize;
        if self.has_no_generic_header() || end - start < PSP_BIN_HEADER_SIZE {
            Ok((None, copy_range(data, start, end)))
        } else {
            let h = read_psp_binary_header(data, start);
            Ok((Some(h), copy_range(data, start + PSP_BIN_HEADER_SIZE, end)))
        }
    }

    /// The absolute offset that this entry points at, for a directory at `offset`.
    pub fn addr(&self, offset: usize) -> (r: usize)
        requires
            resolve_addr(self.value, offset as int) <= usize::MAX,
        ensures
            r == resolve_addr(self.value, offset as int),
    {
        resolve(self.value, offset)
    }

    pub fn addr_mode(&self) -> (r: AddrMode)
        ensures
            r == addr_mode_of(self.value),
    {
        addr_mode(self.value)
    }

    /// What a listing shows for this entry of the directory at `offset` in `data`.
    pub fn display(&self, data: &[u8], offset: usize) -> (r: EntrySummary)
        ensures
            self.kind == 0x0b ==> r is SoftFuse,
            self.kind != 0x0b && dir_kind(self.kind) ==> r is Directory,
            self.kind != 0x0b && !dir_kind(self.kind) ==> match psp_payload(*self, data@, offset) {
                Err(e) => r == EntrySummary::Unavailable(e),
                Ok((true, _)) => r matches EntrySummary::Header(h) && psp_header_at(
                    h,
                    data@,
                    resolve_addr(self.value, offset as int),
                ),
                Ok((false, body)) => if sig_key_kind(self.kind) && body.len() >= 6 {
                    r == EntrySummary::SigKey(be_u16(body, 4) as u16)
                } else {
                    r is NoHeader
                },
            },
    {
        if self.kind == PspEntryType::SoftFuseChain.code() {
            return EntrySummary::SoftFuse;
        }
        if self.is_dir() {
            return EntrySummary::Directory;
        }
        match self.data(data, offset) {
            Ok((Some(h), _)) => EntrySummary::Header(h),
            Ok((None, b)) => {
                if self.is_sig_key() && b.len() >= 6 {
                    EntrySummary::SigKey(crate::bytes::read_u16_be(b.as_slice(), 4))
                } else {
                    EntrySummary::NoHeader
                }
            },
            Err(e) => EntrySummary::Unavailable(e),
        }
    }

    /// Whether the payload of this entry comes without a PSP binary header.
    pub fn has_no_generic_header(&self) -> (r: bool)
        ensures
            r == no_generic_header_kind(self.kind),
    {
        match PspEntryType::try_from(self.kind) {
            Ok(
                PspEntryType::AmdPublicKey
                | PspEntryType::PspNonVolatileData
                | PspEntryType::AmdSecureDebugKey
                | PspEntryType::OemPublicKey
                | PspEntryType::PspTrustletPublicKey
                | PspEntryType::WrappedIKEK
                | PspEntryType::PspTokenUnlock
                | PspEntryType::PspLevel2Dir
                | PspEntryType::PspLevel2ADir
                | PspEntryType::PspLevel2BDir
                | PspEntryType::DxioPhySramFirmwarePublicKey
                | PspEntryType::UsbPhyFirmware
                | PspEntryType::PmuPublicKey
                | PspEntryType::PspBootLoaderPublicKeysTable
                | PspEntryType::PspTrustedOSPublicKeysTable
                | PspEntryType::PspRpmcNvram
                | PspEntryType::DmcuEram
                | PspEntryType::DmcuIsr,
            ) => true,
            _ => false,
        }
    }

    /// Whether this entry points at a level-2 PSP directory.
    pub fn is_dir(&self) -> (r: bool)
        ensures
            r == dir_kind(self.kind),
    {
        match PspEntryType::try_from(self.kind) {
            Ok(
                PspEntryType::PspLevel2Dir
                | PspEntryType::PspLevel2ADir
                | PspEntryType::PspLevel2BDir,
            ) => true,
            _ => false,
        }
    }

    /// Whether this entry holds a key.
    pub fn is_key(&self) -> (r: bool)
        ensures
            r == key_kind(self.kind),
    {
        match PspEntryType::try_from(self.kind) {
            Ok(
                PspEntryType::AmdPublicKey
                | PspEntryType::AmdSecureDebugKey
                | PspEntryType::OemPublicKey
                | PspEntryType::PspTrustletPublicKey
                | PspEntryType::WrappedIKEK
                | PspEntryType::PspTokenUnlock
                | PspEntryType::DxioPhySramFirmwarePublicKey
                | PspEntryType::PmuPublicKey
                | PspEntryType::PspBootLoaderPublicKeysTable
                | PspEntryType::PspTrustedOSPublicKeysTable,
            ) => true,
            _ => false,
        }
    }

    /// Whether this entry holds a signing key.
    pub fn is_sig_key(&self) -> (r: bool)
        ensures
            r == sig_key_kind(self.kind),
    {
        match PspEntryType::try_from(self.kind) {
            Ok(
                PspEntryType::AmdPublicKey
                | PspEntryType::OemPublicKey
                | PspEntryType::PspTrustletPublicKey
                | PspEntryType::DxioPhySramFirmwarePublicKey
                | PspEntryType::PmuPublicKey,
            ) => true,
            _ => false,
        }
    }
    /// The name of this entry's kind.
    pub fn description(&self) -> (r: &'static str)
        ensures
            r@ == psp_description(self.kind),
    {
        match self.kind {
            0x00 => "AMD Public Key",
            0x01 => "PSP Boot Loader",
            0x02 => "PSP Secure OS",
            0x03 => "PSP Recovery Boot Loader",
            0x04 => "PSP Non-volatile Data",
            0x05 => "PSP RTM public key",
            0x06 => "Unknown (seen in A3MSTX_3.60K legacy PSP)",
            0x08 => "SMU Firmware",
            0x09 => "AMD Secure Debug Key",
            0x0a => "OEM Public Key",
            0x0b => "PSP Soft Fuse Chain",
            0x0c => "PSP Trustlet",
            0x0d => "PSP Trustlet Public Key",
            0x10 => "Unknown (seen in A3MSTX_3.60K legacy PSP)",
            0x12 => "SMU Firmware 2",
            0x13 => "PSP Early Secure Unlock Debug",
            0x14 => "Unknown (seen in A3MSTX_3.60K legacy PSP)",
            0x1a => "Unknown (seen in A3MSTX_3.60K legacy PSP)",
            0x1b => "Boot Driver",
            0x1c => "SoC Driver",
            0x1d => "Debug Driver",
            0x1f => "Interface Driver",
            0x20 => "IP Discovery",
            0x21 => "Wrapped iKEK",
            0x22 => "PSP Token Unlock",
            0x24 => "Security Policy",
            0x25 => "MP2 Firmware",
            0x26 => "MP2 Firmware Part 2",
            0x27 => "User Mode Unit Test",
            0x28 => "System Driver",
            0x29 => "KVM Image",
            0x2a => "MP5 Firmware",
            0x2b => "Embedded Firmware Signature",
            0x2c => "TEE Write-once NVRAM",
            0x2d => "External Chipset PSP Boot Loader",
            0x2e => "External Chipset MP0 Firmware",
            0x2f => "External Chipset MP1 Firmware",
            0x30 => "PSP AGESA Binary 0",
            0x31 => "PSP AGESA Binary 1",
            0x32 => "PSP AGESA Binary 2",
            0x33 => "PSP AGESA Binary 3",
            0x34 => "PSP AGESA Binary 4",
            0x35 => "PSP AGESA Binary 5",
            0x36 => "PSP AGESA Binary 6",
            0x37 => "PSP AGESA Binary 7",
            0x38 => "SEV Data",
            0x39 => "SEV Code",
            0x3a => "Processor Serial Number Allow List",
            0x3b => "SERDES Microcode",
            0x3c => "VBIOS Pre-load",
            0x3d => "WLAN Umac",
            0x3e => "WLAN Imac",
            0x3f => "WLAN Bluetooth",
            0x40 => "PSP Level 2 Directory",
            0x41 => "External Chipset MP0 Boot Loader",
            0x42 => "DXIO PHY SRAM Firmware",
            0x43 => "DXIO PHY SRAM Firmware Public Key",
            0x44 => "USB PHY Firmware",
            0x45 => "Security Policy for tOS",
            0x46 => "External Chipset PSP Boot Loader",
            0x47 => "DRTM TA",
            0x48 => "Recovery L2A PSP Directory",
            0x49 => "Recovery L2 BIOS Directory",
            0x4a => "Recovery L2B PSP Directory",
            0x4c => "External Chipset Security Policy",
            0x4d => "External Chipset Secure Debug Unlock",
            0x4e => "PMU Public Key",
            0x4f => "UMC Firmware",
            0x50 => "PSP Boot Loader Public Keys Table",
            0x51 => "PSP Trusted OS Public Keys Table",
            0x52 => "OEM PSP Boot Loader Application",
            0x53 => "OEM PSP Boot Loader Application Public Key",
            0x54 => "PSP RPMC NVRAM",
            0x55 => "PSP Boot Loader Anti-rollback",
            0x56 => "PSP Secure OS Anti-rollback",
            0x57 => "CVIP Configuration Table",
            0x58 => "DMCU-ERAM",
            0x59 => "DMCU-ISR",
            0x5a => "MSMU Binary 0",
            0x5b => "MSMU Binary 1",
            0x5c => "SPI ROM Configuration",
            0x5d => "MPIO",
            0x5f => "PSP SMU SCS (Fam. 15h+16h), TPM lite (Fam. 17h+19h)",
            0x71 => "DMCUB",
            0x73 => "PSP Boot Loader AB",
            0x76 => "RIB",
            0x80 => "OEM Sys-TA",
            0x81 => "OEM Sys-TA Signing Key",
            0x85 => "FW AMF SRAM",
            0x86 => "FW AMF DRAM",
            0x88 => "FW AMF WLAN",
            0x89 => "FW AMF MFD",
            0x8c => "FW MPDMA TF",
            0x8d => "TA IKEK",
            0x90 => "FW MPCCX",
            0x91 => "FW GMI3 PHY",
            0x92 => "FW MPDMA PM",
            0x93 => "FW RCFG 3328A",
            0x94 => "FW LSDMA",
            0x95 => "FW C20 MP",
            0x98 => "FW FCFG TABLE",
            0x9a => "FW MINIMSMU",
            0x9d => "FW SRAM FW EXT",
            0xa2 => "FW UMSMU",
            _ => "Unknown",
        }
    }
}

pub open spec fn psp_description(kind: u8) -> Seq<char> {
    if kind == 0x00 {
        "AMD Public Key"@
    } else if kind == 0x01 {
        "PSP Boot Loader"@
    } else if kind == 0x02 {
        "PSP Secure OS"@
    } else if kind == 0x03 {
        "PSP Recovery Boot Loader"@
    } else if kind == 0x04 {
        "PSP Non-volatile Data"@
    } else if kind == 0x05 {
        "PSP RTM public key"@
    } else if kind == 0x06 {
        "Unknown (seen in A3MSTX_3.60K legacy PSP)"@
    } else if kind == 0x08 {
        "SMU Firmware"@
    } else if kind == 0x09 {
        "AMD Secure Debug Key"@
    } else if kind == 0x0a {
        "OEM Public Key"@
    } else if kind == 0x0b {
        "PSP Soft Fuse Chain"@
    } else if kind == 0x0c {
        "PSP Trustlet"@
    } else if kind == 0x0d {
        "PSP Trustlet Public Key"@
    } else if kind == 0x10 {
        "Unknown (seen in A3MSTX_3.60K legacy PSP)"@
    } else if kind == 0x12 {
        "SMU Firmware 2"@
    } else if kind == 0x13 {
        "PSP Early Secure Unlock Debug"@
    } else if kind == 0x14 {
        "Unknown (seen in A3MSTX_3.60K legacy PSP)"@
    } else if kind == 0x1a {
        "Unknown (seen in A3MSTX_3.60K legacy PSP)"@
    } else if kind == 0x1b {
        "Boot Driver"@
    } else if kind == 0x1c {
        "SoC Driver"@
    } else if kind == 0x1d {
        "Debug Driver"@
    } else if kind == 0x1f {
        "Interface Driver"@
    } else if kind == 0x20 {
        "IP Discovery"@
    } else if kind == 0x21 {
        "Wrapped iKEK"@
    } else if kind == 0x22 {
        "PSP Token Unlock"@
    } else if kind == 0x24 {
        "Security Policy"@
    } else if kind == 0x25 {
        "MP2 Firmware"@
    } else if kind == 0x26 {
        "MP2 Firmware Part 2"@
    } else if kind == 0x27 {
        "User Mode Unit Test"@
    } else if kind == 0x28 {
        "System Driver"@
    } else if kind == 0x29 {
        "KVM Image"@
    } else if kind == 0x2a {
        "MP5 Firmware"@
    } else if kind == 0x2b {
        "Embedded Firmware Signature"@
    } else if kind == 0x2c {
        "TEE Write-once NVRAM"@
    } else if kind == 0x2d {
        "External Chipset PSP Boot Loader"@
    } else if kind == 0x2e {
        "External Chipset MP0 Firmware"@
    } else if kind == 0x2f {
        "External Chipset MP1 Firmware"@
    } else if kind == 0x30 {
        "PSP AGESA Binary 0"@
    } else if kind == 0x31 {
        "PSP AGESA Binary 1"@
    } else if kind == 0x32 {
        "PSP AGESA Binary 2"@
    } else if kind == 0x33 {
        "PSP AGESA Binary 3"@
    } else if kind == 0x34 {
        "PSP AGESA Binary 4"@
    } else if kind == 0x35 {
        "PSP AGESA Binary 5"@
    } else if kind == 0x36 {
        "PSP AGESA Binary 6"@
    } else if kind == 0x37 {
        "PSP AGESA Binary 7"@
    } else if kind == 0x38 {
        "SEV Data"@
    } else if kind == 0x39 {
        "SEV Code"@
    } else if kind == 0x3a {
        "Processor Serial Number Allow List"@
    } else if kind == 0x3b {
        "SERDES Microcode"@
    } else if kind == 0x3c {
        "VBIOS Pre-load"@
    } else if kind == 0x3d {
        "WLAN Umac"@
    } else if kind == 0x3e {
        "WLAN Imac"@
    } else if kind == 0x3f {
        "WLAN Bluetooth"@
    } else if kind == 0x40 {
        "PSP Level 2 Directory"@
    } else if kind == 0x41 {
        "External Chipset MP0 Boot Loader"@
    } else if kind == 0x42 {
        "DXIO PHY SRAM Firmware"@
    } else if kind == 0x43 {
        "DXIO PHY SRAM Firmware Public Key"@
    } else if kind == 0x44 {
        "USB PHY Firmware"@
    } else if kind == 0x45 {
        "Security Policy for tOS"@
    } else if kind == 0x46 {
        "External Chipset PSP Boot Loader"@
    } else if kind == 0x47 {
        "DRTM TA"@
    } else if kind == 0x48 {
        "Recovery L2A PSP Directory"@
    } else if kind == 0x49 {
        "Recovery L2 BIOS Directory"@
    } else if kind == 0x4a {
        "Recovery L2B PSP Directory"@
    } else if kind == 0x4c {
        "External Chipset Security Policy"@
    } else if kind == 0x4d {
        "External Chipset Secure Debug Unlock"@
    } else if kind == 0x4e {
        "PMU Public Key"@
    } else if kind == 0x4f {
        "UMC Firmware"@
    } else if kind == 0x50 {
        "PSP Boot Loader Public Keys Table"@
    } else if kind == 0x51 {
        "PSP Trusted OS Public Keys Table"@
    } else if kind == 0x52 {
        "OEM PSP Boot Loader Application"@
    } else if kind == 0x53 {
        "OEM PSP Boot Loader Application Public Key"@
    } else if kind == 0x54 {
        "PSP RPMC NVRAM"@
    } else if kind == 0x55 {
        "PSP Boot Loader Anti-rollback"@
    } else if kind == 0x56 {
        "PSP Secure OS Anti-rollback"@
    } else if kind == 0x57 {
        "CVIP Configuration Table"@
    } else if kind == 0x58 {
        "DMCU-ERAM"@
    } else if kind == 0x59 {
        "DMCU-ISR"@
    } else if kind == 0x5a {
        "MSMU Binary 0"@
    } else if kind == 0x5b {
        "MSMU Binary 1"@
    } else if kind == 0x5c {
        "SPI ROM Configuration"@
    } else if kind == 0x5d {
        "MPIO"@
    } else if kind == 0x5f {
        "PSP SMU SCS (Fam. 15h+16h), TPM lite (Fam. 17h+19h)"@
    } else if kind == 0x71 {
        "DMCUB"@
    } else if kind == 0x73 {
        "PSP Boot Loader AB"@
    } else if kind == 0x76 {
        "RIB"@
    } else if kind == 0x80 {
        "OEM Sys-TA"@
    } else if kind == 0x81 {
        "OEM Sys-TA Signing Key"@
    } else if kind == 0x85 {
        "FW AMF SRAM"@
    } else if kind == 0x86 {
        "FW AMF DRAM"@
    } else if kind == 0x88 {
        "FW AMF WLAN"@
    } else if kind == 0x89 {
        "FW AMF MFD"@
    } else if kind == 0x8c {
        "FW MPDMA TF"@
    } else if kind == 0x8d {
        "TA IKEK"@
    } else if kind == 0x90 {
        "FW MPCCX"@
    } else if kind == 0x91 {
        "FW GMI3 PHY"@
    } else if kind == 0x92 {
        "FW MPDMA PM"@
    } else if kind == 0x93 {
        "FW RCFG 3328A"@
    } else if kind == 0x94 {
        "FW LSDMA"@
    } else if kind == 0x95 {
        "FW C20 MP"@
    } else if kind == 0x98 {
        "FW FCFG TABLE"@
    } else if kind == 0x9a {
        "FW MINIMSMU"@
    } else if kind == 0x9d {
        "FW SRAM FW EXT"@
    } else if kind == 0xa2 {
        "FW UMSMU"@
    } else {
        "Unknown"@
    }
}
} // verus!

verus! {

pub const PSP_BACKUP_DIR_SIZE: usize = 24;

/// The record that a level-2 A/B entry points at; `addr` locates the PSP directory.
#[derive(Clone, Copy, Debug, PartialEq, Eq, Structural)]
pub struct PspBackupDir {
    pub _00: u32,
    pub _04: u32,
    pub _08: u32,
    pub _0c: u32,
    pub addr: u32,
    pub _14: u32,
}

pub open spec fn spec_parse_backup_dir(b: Seq<u8>, addr: usize) -> Result<PspBackupDir, ParseError> {
    if b.len() < PSP_BACKUP_DIR_SIZE {
        Err(ParseError::BackupDirectoryUnparsable { offset: addr })
    } else {
        Ok(
            PspBackupDir {
                _00: le_u32(b, 0) as u32,
                _04: le_u32(b, 4) as u32,
                _08: le_u32(b, 8) as u32,
                _0c: le_u32(b, 12) as u32,
                addr: le_u32(b, 16) as u32,
                _14: le_u32(b, 20) as u32,
            },
        )
    }
}

impl PspBackupDir {
    /// Reads the record that starts `data`, found at offset `addr`.
    pub fn new(data: &[u8], addr: usize) -> (r: Result<Self, ParseError>)
        ensures
            r == spec_parse_backup_dir(data@, addr),
    {
        if data.len() < PSP_BACKUP_DIR_SIZE {
            return Err(ParseError::BackupDirectoryUnparsable { offset: addr });
        }
        Ok(
            PspBackupDir {
                _00: read_u32(data, 0),
                _04: read_u32(data, 4),
                _08: read_u32(data, 8),
                _0c: read_u32(data, 12),
                addr: read_u32(data, 16),
                _14: read_u32(data, 20),
            },
        )
    }
}

/// A simple or level-2 PSP directory.
#[derive(Clone, Debug)]
pub struct PspDirectory {
    pub addr: usize,
    pub header: DirectoryHeader,
    pub entries: Vec<PspDirectoryEntry>,
}

impl View for PspDirectory {
    type V = DirView<PspDirectoryEntry>;

    open spec fn view(&self) -> DirView<PspDirectoryEntry> {
        DirView { addr: self.addr, header: self.header, entries: self.entries@ }
    }
}

/// The PSP directory (`$PSP` or `$PL2`) that starts `b`, at offset `addr`.
pub open spec fn spec_parse_psp_directory(b: Seq<u8>, addr: usize) -> Result<
    DirView<PspDirectoryEntry>,
    ParseError,
> {
    match signature(b, addr) {
        Err(e) => Err(e),
        Ok(k) => if k != DirectoryKind::Psp && k != DirectoryKind::PspLevel2 {
            Err(ParseError::WrongDirectoryKind { expected: DirectoryKind::Psp, found: k, offset: addr })
        } else {
            match layout_error(b, addr, k) {
                Some(e) => Err(e),
                None => Ok(
                    DirView {
                        addr,
                        header: header_at(b, 0),
                        entries: psp_entries(b, 16, header_at(b, 0).entries as nat),
                    },
                ),
            }
        },
    }
}

impl PspDirectory {
    /// Parses the PSP directory that starts `data`, found at offset `addr`.
    pub fn new(data: &[u8], addr: usize) -> (r: Result<Self, ParseError>)
        ensures
            crate::directory::view_result(r) == spec_parse_psp_directory(data@, addr),
    {
        let k = read_signature(data, addr)?;
        if k != DirectoryKind::Psp && k != DirectoryKind::PspLevel2 {
            return Err(
                ParseError::WrongDirectoryKind { expected: DirectoryKind::Psp, found: k, offset: addr },
            );
        }
        let count = check_layout(data, addr, k)?;
        let header = read_header(data, 0);
        let entries = read_psp_entries(data, 16, count);
        Ok(PspDirectory { addr, header, entries })
    }
}

/// A PSP combo directory.
#[derive(Clone, Debug)]
pub struct PspComboDirectory {
    pub addr: usize,
    pub header: ComboDirectoryHeader,
    pub entries: Vec<ComboDirectoryEntry>,
}

impl View for PspComboDirectory {
    type V = ComboView;

    open spec fn view(&self) -> ComboView {
        ComboView { addr: self.addr, header: self.header, entries: self.entries@ }
    }
}

pub open spec fn spec_parse_psp_combo_directory(b: Seq<u8>, addr: usize) -> Result<
    ComboView,
    ParseError,
> {
    spec_parse_combo(b, addr, DirectoryKind::PspCombo)
}

impl PspComboDirectory {
    /// Parses the PSP combo directory (`2PSP`) that starts `data`, found at offset `addr`.
    pub fn new(data: &[u8], addr: usize) -> (r: Result<Self, ParseError>)
        ensures
            crate::directory::view_result(r) == spec_parse_psp_combo_directory(data@, addr),
    {
        let (header, entries) = parse_combo(data, addr, DirectoryKind::PspCombo)?;
        Ok(PspComboDirectory { addr, header, entries })
    }

    pub fn header(&self) -> (r: ComboDirectoryHeader)
        ensures
            r == self.header,
    {
        self.header
    }

    pub fn entries(&self) -> (r: Vec<ComboDirectoryEntry>)
        ensures
            r@ == self.entries@,
    {
        self.entries.clone()
    }
}

} // verus!
