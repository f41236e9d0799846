//! Directory headers, combo entries, address modes, and the directory sum type.
use vstd::prelude::*;

use crate::bios::{BiosComboDirectory, BiosDirectory, BiosDirectoryEntry, bios_entries};
use crate::psp::{PspComboDirectory, PspDirectory, PspDirectoryEntry, psp_entries};
use crate::bytes::{le_u32, le_u64, read_u32, read_u64};
use crate::error::ParseError;

verus! {

/// The six shapes of directory, told apart by their four-byte magic.
#[derive(Clone, Copy, Debug, PartialEq, Eq, Structural)]
pub enum DirectoryKind {
    Bios,
    BiosLevel2,
    BiosCombo,
    Psp,
    PspLevel2,
    PspCombo,
}

/// `$BHD`, read little-endian.
pub const BHD_MAGIC: u32 = 0x4448_4224;

/// `$BL2`, read little-endian.
pub const BL2_MAGIC: u32 = 0x324c_4224;

/// `2BHD`, read little-endian.
pub const BHD_COMBO_MAGIC: u32 = 0x4448_4232;

/// `$PSP`, read little-endian.
pub const PSP_MAGIC: u32 = 0x5053_5024;

/// `$PL2`, read little-endian.
pub const PL2_MAGIC: u32 = 0x324c_5024;

/// `2PSP`, read little-endian.
pub const PSP_COMBO_MAGIC: u32 = 0x5053_5032;

pub const DIRECTORY_HEADER_SIZE: usize = 16;

pub const COMBO_HEADER_SIZE: usize = 32;

/// Mask applied to a pointer in modes 0 to 2: 24 bits of location.
pub const MAPPING_MASK: u64 = 0x00ff_ffff;

pub open spec fn kind_of_magic(m: u32) -> Option<DirectoryKind> {
    if m == BHD_MAGIC {
        Some(DirectoryKind::Bios)
    } else if m == BL2_MAGIC {
        Some(DirectoryKind::BiosLevel2)
    } else if m == BHD_COMBO_MAGIC {
        Some(DirectoryKind::BiosCombo)
    } else if m == PSP_MAGIC {
        Some(DirectoryKind::Psp)
    } else if m == PL2_MAGIC {
        Some(DirectoryKind::PspLevel2)
    } else if m == PSP_COMBO_MAGIC {
        Some(DirectoryKind::PspCombo)
    } else {
        None
    }
}

pub open spec fn magic_of_kind(k: DirectoryKind) -> u32 {
    match k {
        DirectoryKind::Bios => BHD_MAGIC,
        DirectoryKind::BiosLevel2 => BL2_MAGIC,
        DirectoryKind::BiosCombo => BHD_COMBO_MAGIC,
        DirectoryKind::Psp => PSP_MAGIC,
        DirectoryKind::PspLevel2 => PL2_MAGIC,
        DirectoryKind::PspCombo => PSP_COMBO_MAGIC,
    }
}

pub open spec fn is_combo_kind(k: DirectoryKind) -> bool {
    k == DirectoryKind::BiosCombo || k == DirectoryKind::PspCombo
}

pub open spec fn header_size(k: DirectoryKind) -> int {
    if is_combo_kind(k) {
        COMBO_HEADER_SIZE as int
    } else {
        DIRECTORY_HEADER_SIZE as int
    }
}

pub open spec fn entry_size(k: DirectoryKind) -> int {
    match k {
        DirectoryKind::Bios | DirectoryKind::BiosLevel2 => 24,
        _ => 16,
    }
}

/// The kind named by the first four bytes of `b`, the directory at `addr`.
pub open spec fn signature(b: Seq<u8>, addr: usize) -> Result<DirectoryKind, ParseError> {
    if b.len() < 4 {
        Err(ParseError::SignatureTruncated { offset: addr })
    } else {
        match kind_of_magic(le_u32(b, 0) as u32) {
            Some(k) => Ok(k),
            None => Err(ParseError::UnknownDirectorySignature { magic: le_u32(b, 0) as u32, offset: addr }),
        }
    }
}

/// Where `b` is too short for the header or the entries of a directory of kind `k`,
/// the error that says so.
pub open spec fn layout_error(b: Seq<u8>, addr: usize, k: DirectoryKind) -> Option<ParseError> {
    if b.len() < header_size(k) {
        Some(ParseError::HeaderTruncated { kind: k, offset: addr })
    } else if le_u32(b, 8) * entry_size(k) > b.len() - header_size(k) {
        Some(ParseError::EntriesTruncated { kind: k, offset: addr, count: le_u32(b, 8) as u32 })
    } else {
        None
    }
}

/// Reads the kind of the directory that starts `data`.
pub fn read_signature(data: &[u8], addr: usize) -> (r: Result<DirectoryKind, ParseError>)
    ensures
        r == signature(data@, addr),
{
    if data.len() < 4 {
        return Err(ParseError::SignatureTruncated { offset: addr });
    }
    let m = read_u32(data, 0);
    if m == BHD_MAGIC {
        Ok(DirectoryKind::Bios)
    } else if m == BL2_MAGIC {
        Ok(DirectoryKind::BiosLevel2)
    } else if m == BHD_COMBO_MAGIC {
        Ok(DirectoryKind::BiosCombo)
    } else if m == PSP_MAGIC {
        Ok(DirectoryKind::Psp)
    } else if m == PL2_MAGIC {
        Ok(DirectoryKind::PspLevel2)
    } else if m == PSP_COMBO_MAGIC {
        Ok(DirectoryKind::PspCombo)
    } else {
        Err(ParseError::UnknownDirectorySignature { magic: m, offset: addr })
    }
}

/// Checks that `data` holds the header and the declared entries of a directory of
/// kind `k`, and returns the entry count.
pub fn check_layout(data: &[u8], addr: usize, k: DirectoryKind) -> (r: Result<u32, ParseError>)
    ensures
        match layout_error(data@, addr, k) {
            Some(e) => r == Err::<u32, ParseError>(e),
            None => r == Ok::<u32, ParseError>(le_u32(data@, 8) as u32),
        },
{
    let hs: usize = if k == DirectoryKind::BiosCombo || k == DirectoryKind::PspCombo {
        COMBO_HEADER_SIZE
    } else {
        DIRECTORY_HEADER_SIZE
    };
    let es: u64 = match k {
        DirectoryKind::Bios | DirectoryKind::BiosLevel2 => 24,
        _ => 16,
    };
    if data.len() < hs {
        return Err(ParseError::HeaderTruncated { kind: k, offset: addr });
    }
    let count = read_u32(data, 8);
    let room = (data.len() - hs) as u64;
    if (count as u64) * es > room {
        return Err(ParseError::EntriesTruncated { kind: k, offset: addr, count });
    }
    Ok(count)
}

/// Header of a simple or level-2 directory (16 bytes).
#[derive(Clone, Copy, Debug, PartialEq, Eq, Structural)]
pub struct DirectoryHeader {
    /// "$BHD", "$BL2", "$PSP" or "$PL2"
    pub magic: u32,
    /// Fletcher-32 of all directory data after this field
    pub checksum: u32,
    /// number of entries
    pub entries: u32,
    pub _0c: u32,
}

pub open spec fn header_at(b: Seq<u8>, i: int) -> DirectoryHeader {
    DirectoryHeader {
        magic: le_u32(b, i) as u32,
        checksum: le_u32(b, i + 4) as u32,
        entries: le_u32(b, i + 8) as u32,
        _0c: le_u32(b, i + 12) as u32,
    }
}

pub fn read_header(b: &[u8], i: usize) -> (r: DirectoryHeader)
    requires
        i + DIRECTORY_HEADER_SIZE <= b@.len(),
    ensures
        r == header_at(b@, i as int),
{
    let _n: usize = b.len();
    DirectoryHeader {
        magic: read_u32(b, i),
        checksum: read_u32(b, i + 4),
        entries: read_u32(b, i + 8),
        _0c: read_u32(b, i + 12),
    }
}

/// Header of a combo directory (32 bytes).
#[derive(Clone, Copy, Debug, PartialEq, Eq, Structural)]
pub struct ComboDirectoryHeader {
    /// "2BHD" or "2PSP"
    pub magic: u32,
    /// Fletcher-32 of all directory data after this field
    pub checksum: u32,
    /// number of entries
    pub entries: u32,
    /// 0 for a look-up through all entries, 1 for a PSP or chip ID match
    pub look_up_mode: u32,
    pub _10: u32,
    pub _14: u32,
    pub _18: u32,
    pub _1c: u32,
}

pub open spec fn combo_header_at(b: Seq<u8>, i: int) -> ComboDirectoryHeader {
    ComboDirectoryHeader {
        magic: le_u32(b, i) as u32,
        checksum: le_u32(b, i + 4) as u32,
        entries: le_u32(b, i + 8) as u32,
        look_up_mode: le_u32(b, i + 12) as u32,
        _10: le_u32(b, i + 16) as u32,
        _14: le_u32(b, i + 20) as u32,
        _18: le_u32(b, i + 24) as u32,
        _1c: le_u32(b, i + 28) as u32,
    }
}

pub fn read_combo_header(b: &[u8], i: usize) -> (r: ComboDirectoryHeader)
    requires
        i + COMBO_HEADER_SIZE <= b@.len(),
    ensures
        r == combo_header_at(b@, i as int),
{
    let _n: usize = b.len();
    ComboDirectoryHeader {
        magic: read_u32(b, i),
        checksum: read_u32(b, i + 4),
        entries: read_u32(b, i + 8),
        look_up_mode: read_u32(b, i + 12),
        _10: read_u32(b, i + 16),
        _14: read_u32(b, i + 20),
        _18: read_u32(b, i + 24),
        _1c: read_u32(b, i + 28),
    }
}

/// A PSP ID or a chip family ID, as a combo entry selects it.
#[derive(Clone, Copy, Debug, PartialEq, Eq, Structural)]
pub struct PspOrFamId(pub u32);

pub open spec fn psp_or_fam_name(id: u32) -> Option<Seq<char>> {
    if id == 0x0000_0000 {
        Some("Carrizo"@)
    } else if id == 0x1022_0b00 {
        Some("Stoneyridge"@)
    } else if id == 0xbc09_0000 {
        Some("(maybe Summit Ridge; seen on A300 3.60S + X570)"@)
    } else if id == 0xbc0a_0000 {
        Some("Raven Ridge or Picasso"@)
    } else if id == 0xbc0a_0100 {
        Some("(maybe Pinnacle Ridge or Matisse/2; seen on A300 3.60K + X570)"@)
    } else if id == 0xbc0b_0500 {
        Some("(maybe Vermeer; seen on ASRock A520M + X370)"@)
    } else if id == 0xbc0c_0000 {
        Some("Renoir or Lucienne"@)
    } else if id == 0xbc0c_0111 {
        Some("Genoa"@)
    } else if id == 0xbc0c_0140 {
        Some("Cezanne"@)
    } else if id == 0xbc0d_0400 {
        Some("Phoenix"@)
    } else if id == 0xbc0d_0900 {
        Some("Mendocino"@)
    } else if id == 0xbc0e_0200 {
        Some("Glinda"@)
    } else {
        None
    }
}

impl PspOrFamId {
    /// The name of a known SoC, `None` for an unknown ID.
    pub fn name(&self) -> (r: Option<&'static str>)
        ensures
            crate::flash::name_view(r) == psp_or_fam_name(self.0),
    {
        match self.0 {
            0x0000_0000 => Some("Carrizo"),
            0x1022_0b00 => Some("Stoneyridge"),
            0xbc09_0000 => Some("(maybe Summit Ridge; seen on A300 3.60S + X570)"),
            0xbc0a_0000 => Some("Raven Ridge or Picasso"),
            0xbc0a_0100 => Some("(maybe Pinnacle Ridge or Matisse/2; seen on A300 3.60K + X570)"),
            0xbc0b_0500 => Some("(maybe Vermeer; seen on ASRock A520M + X370)"),
            0xbc0c_0000 => Some("Renoir or Lucienne"),
            0xbc0c_0111 => Some("Genoa"),
            0xbc0c_0140 => Some("Cezanne"),
            0xbc0d_0400 => Some("Phoenix"),
            0xbc0d_0900 => Some("Mendocino"),
            0xbc0e_0200 => Some("Glinda"),
            _ => None,
        }
    }
}

/// An entry of a combo directory (16 bytes).
#[derive(Clone, Copy, Debug, PartialEq, Eq, Structural)]
pub struct ComboDirectoryEntry {
    /// 0 to compare the PSP ID, 1 to compare the chip family ID
    pub id_select: u32,
    pub id: PspOrFamId,
    /// Address of the directory
    pub directory: u64,
}

pub open spec fn combo_entry_at(b: Seq<u8>, i: int) -> ComboDirectoryEntry {
    ComboDirectoryEntry {
        id_select: le_u32(b, i) as u32,
        id: PspOrFamId(le_u32(b, i + 4) as u32),
        directory: le_u64(b, i + 8) as u64,
    }
}

pub open spec fn combo_entries(b: Seq<u8>, start: int, n: nat) -> Seq<ComboDirectoryEntry> {
    Seq::new(n, |k: int| combo_entry_at(b, start + 16 * k))
}

pub fn read_combo_entries(b: &[u8], start: usize, n: u32) -> (r: Vec<ComboDirectoryEntry>)
    requires
        start + 16 * n <= b@.len(),
    ensures
        r@ == combo_entries(b@, start as int, n as nat),
{
    let blen: usize = b.len();
    let mut v: Vec<ComboDirectoryEntry> = Vec::new();
    let mut k: u32 = 0;
    while k < n
        invariant
            blen == b@.len(),
            k <= n,
            start + 16 * n <= b@.len(),
            v@ == combo_entries(b@, start as int, k as nat),
        decreases n - k,
    {
        let i = start + 16 * (k as usize);
        let e = ComboDirectoryEntry {
            id_select: read_u32(b, i),
            id: PspOrFamId(read_u32(b, i + 4)),
            directory: read_u64(b, i + 8),
        };
        v.push(e);
        k = k + 1;
        assert(v@ =~= combo_entries(b@, start as int, k as nat));
    }
    v
}

/// The four interpretations of an entry pointer, chosen by its top two bits.
#[derive(Clone, Copy, Debug, PartialEq, Eq, Structural)]
pub enum AddrMode {
    PhysAddr,
    FlashOffset,
    DirHeaderOffset,
    PartitionOffset,
}

pub open spec fn addr_mode_of(v: u64) -> AddrMode {
    let t = v >> 62u64;
    if t == 0 {
        AddrMode::PhysAddr
    } else if t == 1 {
        AddrMode::FlashOffset
    } else if t == 2 {
        AddrMode::DirHeaderOffset
    } else {
        AddrMode::PartitionOffset
    }
}

pub fn addr_mode(v: u64) -> (r: AddrMode)
    ensures
        r == addr_mode_of(v),
{
    let t = v >> 62u64;
    if t == 0 {
        AddrMode::PhysAddr
    } else if t == 1 {
        AddrMode::FlashOffset
    } else if t == 2 {
        AddrMode::DirHeaderOffset
    } else {
        AddrMode::PartitionOffset
    }
}

/// The absolute offset that pointer `v` names, for a directory at `dir_offset`,
/// with `mask` selecting the location bits: the masked value in modes 0 and 1, the
/// masked value past the directory in mode 2, and the raw value in mode 3.
pub open spec fn resolve_addr_masked(v: u64, dir_offset: int, mask: u64) -> int {
    match addr_mode_of(v) {
        AddrMode::PhysAddr | AddrMode::FlashOffset => (v & mask) as int,
        AddrMode::DirHeaderOffset => dir_offset + (v & mask),
        AddrMode::PartitionOffset => v as int,
    }
}

/// `resolve_addr_masked` with the 24-bit mask that current firmware needs.
pub open spec fn resolve_addr(v: u64, dir_offset: int) -> int {
    resolve_addr_masked(v, dir_offset, MAPPING_MASK)
}

/// `x`, or `usize::MAX` where `x` is larger.
pub open spec fn sat(x: int) -> int {
    if x > usize::MAX {
        usize::MAX as int
    } else {
        x
    }
}

/// Resolves pointer `v` of an entry of the directory at `dir_offset`.
pub fn resolve(v: u64, dir_offset: usize) -> (r: usize)
    requires
        resolve_addr(v, dir_offset as int) <= usize::MAX,
    ensures
        r == resolve_addr(v, dir_offset as int),
{
    let m = v & MAPPING_MASK;
    assert(m <= 0xff_ffff) by (bit_vector)
        requires
            m == v & 0xff_ffffu64,
    ;
    match addr_mode(v) {
        AddrMode::PhysAddr | AddrMode::FlashOffset => m as usize,
        AddrMode::DirHeaderOffset => dir_offset + (m as usize),
        AddrMode::PartitionOffset => v as usize,
    }
}

/// The offset that pointer `v` resolves to, where it fits in a `usize`.
pub open spec fn resolved(v: u64, dir_offset: usize) -> Option<usize> {
    if resolve_addr(v, dir_offset as int) <= usize::MAX {
        Some(resolve_addr(v, dir_offset as int) as usize)
    } else {
        None
    }
}

/// Resolves pointer `v` of an entry of the directory at `dir_offset` with location
/// mask `mask`, or `None` where the result does not fit in a `usize`.
pub fn resolve_masked(v: u64, dir_offset: usize, mask: u64) -> (r: Option<usize>)
    ensures
        r == (if resolve_addr_masked(v, dir_offset as int, mask) <= usize::MAX {
            Some(resolve_addr_masked(v, dir_offset as int, mask) as usize)
        } else {
            None::<usize>
        }),
{
    let m = v & mask;
    match addr_mode(v) {
        AddrMode::PhysAddr | AddrMode::FlashOffset => {
            if m > usize::MAX as u64 {
                None
            } else {
                Some(m as usize)
            }
        },
        AddrMode::DirHeaderOffset => {
            if m > usize::MAX as u64 || dir_offset > usize::MAX - (m as usize) {
                None
            } else {
                Some(dir_offset + (m as usize))
            }
        },
        AddrMode::PartitionOffset => {
            if v > usize::MAX as u64 {
                None
            } else {
                Some(v as usize)
            }
        },
    }
}

/// Resolves pointer `v` as `resolve` does, or `None` where the result does not fit
/// in a `usize`.
pub fn resolve_checked(v: u64, dir_offset: usize) -> (r: Option<usize>)
    ensures
        r == resolved(v, dir_offset),
{
    resolve_masked(v, dir_offset, MAPPING_MASK)
}

} // verus!

verus! {

/// The combo directory of kind `kind` that starts `b`, at offset `addr`.
pub open spec fn spec_parse_combo(b: Seq<u8>, addr: usize, kind: DirectoryKind) -> Result<
    ComboView,
    ParseError,
> {
    match signature(b, addr) {
        Err(e) => Err(e),
        Ok(k) => if k != kind {
            Err(ParseError::WrongDirectoryKind { expected: kind, found: k, offset: addr })
        } else {
            match layout_error(b, addr, k) {
                Some(e) => Err(e),
                None => Ok(
                    ComboView {
                        addr,
                        header: combo_header_at(b, 0),
                        entries: combo_entries(b, 32, combo_header_at(b, 0).entries as nat),
                    },
                ),
            }
        },
    }
}

/// Reads the header and entries of a combo directory of kind `kind`.
pub fn parse_combo(data: &[u8], addr: usize, kind: DirectoryKind) -> (r: Result<
    (ComboDirectoryHeader, Vec<ComboDirectoryEntry>),
    ParseError,
>)
    requires
        kind == DirectoryKind::BiosCombo || kind == DirectoryKind::PspCombo,
    ensures
        match r {
            Ok((h, es)) => spec_parse_combo(data@, addr, kind) == Ok::<ComboView, ParseError>(
                ComboView { addr, header: h, entries: es@ },
            ),
            Err(e) => spec_parse_combo(data@, addr, kind) == Err::<ComboView, ParseError>(e),
        },
{
    let k = read_signature(data, addr)?;
    if k != kind {
        return Err(ParseError::WrongDirectoryKind { expected: kind, found: k, offset: addr });
    }
    let count = check_layout(data, addr, k)?;
    let header = read_combo_header(data, 0);
    let entries = read_combo_entries(data, 32, count);
    Ok((header, entries))
}

/// What a parsed simple or level-2 directory holds: its offset, its header, its entries.
pub struct DirView<E> {
    pub addr: usize,
    pub header: DirectoryHeader,
    pub entries: Seq<E>,
}

/// What a parsed combo directory holds.
pub struct ComboView {
    pub addr: usize,
    pub header: ComboDirectoryHeader,
    pub entries: Seq<ComboDirectoryEntry>,
}

/// A parse result with the parsed value replaced by its view.
pub open spec fn view_result<T: View>(r: Result<T, ParseError>) -> Result<T::V, ParseError> {
    match r {
        Ok(t) => Ok(t@),
        Err(e) => Err(e),
    }
}

/// The bytes `[start, start + length)` of `img`, or the error for a range that
/// leaves the image.
pub open spec fn image_range(img: Seq<u8>, start: int, length: int) -> Result<Seq<u8>, ParseError> {
    if start + length > img.len() {
        Err(
            ParseError::RangeExceedsImage {
                start: sat(start) as usize,
                end: sat(start + length) as usize,
                image_len: img.len() as usize,
            },
        )
    } else {
        Ok(img.subrange(start, start + length))
    }
}

/// A payload result with the bytes replaced by their view.
pub open spec fn bytes_result(r: Result<Vec<u8>, ParseError>) -> Result<Seq<u8>, ParseError> {
    match r {
        Ok(v) => Ok(v@),
        Err(e) => Err(e),
    }
}

/// Copies the `length` bytes at `start`, or fails where they leave the image.
pub fn take_range(data: &[u8], start: usize, length: u64) -> (r: Result<Vec<u8>, ParseError>)
    ensures
        bytes_result(r) == image_range(data@, start as int, length as int),
{
    let len = data.len();
    if start > len || ((len - start) as u64) < length {
        let end = if length > (usize::MAX - start) as u64 {
            usize::MAX
        } else {
            start + length as usize
        };
        return Err(ParseError::RangeExceedsImage { start, end, image_len: len });
    }
    Ok(copy_range(data, start, start + length as usize))
}

/// The bytes `[start, end)` of `data`, copied.
pub fn copy_range(data: &[u8], start: usize, end: usize) -> (r: Vec<u8>)
    requires
        start <= end <= data@.len(),
    ensures
        r@ == data@.subrange(start as int, end as int),
{
    let s = vstd::slice::slice_subrange(data, start, end);
    vstd::slice::slice_to_vec(s)
}

} // verus!

verus! {

/// A parsed directory of any of the six shapes.
#[derive(Clone, Debug)]
pub enum Directory {
    Bios(BiosDirectory),
    BiosLevel2(BiosDirectory),
    BiosCombo(BiosComboDirectory),
    Psp(PspDirectory),
    PspLevel2(PspDirectory),
    PspCombo(PspComboDirectory),
}

/// What a parsed directory holds, by shape.
pub enum DirectoryView {
    Bios(DirView<BiosDirectoryEntry>),
    BiosLevel2(DirView<BiosDirectoryEntry>),
    BiosCombo(ComboView),
    Psp(DirView<PspDirectoryEntry>),
    PspLevel2(DirView<PspDirectoryEntry>),
    PspCombo(ComboView),
}

impl View for Directory {
    type V = DirectoryView;

    open spec fn view(&self) -> DirectoryView {
        match self {
            Directory::Bios(d) => DirectoryView::Bios(d@),
            Directory::BiosLevel2(d) => DirectoryView::BiosLevel2(d@),
            Directory::BiosCombo(d) => DirectoryView::BiosCombo(d@),
            Directory::Psp(d) => DirectoryView::Psp(d@),
            Directory::PspLevel2(d) => DirectoryView::PspLevel2(d@),
            Directory::PspCombo(d) => DirectoryView::PspCombo(d@),
        }
    }
}

impl DirectoryView {
    pub open spec fn kind(self) -> DirectoryKind {
        match self {
            DirectoryView::Bios(_) => DirectoryKind::Bios,
            DirectoryView::BiosLevel2(_) => DirectoryKind::BiosLevel2,
            DirectoryView::BiosCombo(_) => DirectoryKind::BiosCombo,
            DirectoryView::Psp(_) => DirectoryKind::Psp,
            DirectoryView::PspLevel2(_) => DirectoryKind::PspLevel2,
            DirectoryView::PspCombo(_) => DirectoryKind::PspCombo,
        }
    }

    pub open spec fn magic(self) -> u32 {
        match self {
            DirectoryView::Bios(d) => d.header.magic,
            DirectoryView::BiosLevel2(d) => d.header.magic,
            DirectoryView::BiosCombo(d) => d.header.magic,
            DirectoryView::Psp(d) => d.header.magic,
            DirectoryView::PspLevel2(d) => d.header.magic,
            DirectoryView::PspCombo(d) => d.header.magic,
        }
    }

    pub open spec fn checksum(self) -> u32 {
        match self {
            DirectoryView::Bios(d) => d.header.checksum,
            DirectoryView::BiosLevel2(d) => d.header.checksum,
            DirectoryView::BiosCombo(d) => d.header.checksum,
            DirectoryView::Psp(d) => d.header.checksum,
            DirectoryView::PspLevel2(d) => d.header.checksum,
            DirectoryView::PspCombo(d) => d.header.checksum,
        }
    }

    pub open spec fn addr(self) -> usize {
        match self {
            DirectoryView::Bios(d) => d.addr,
            DirectoryView::BiosLevel2(d) => d.addr,
            DirectoryView::BiosCombo(d) => d.addr,
            DirectoryView::Psp(d) => d.addr,
            DirectoryView::PspLevel2(d) => d.addr,
            DirectoryView::PspCombo(d) => d.addr,
        }
    }
}

/// The directory of any shape that starts `b`, at offset `addr`.
pub open spec fn spec_parse_directory(b: Seq<u8>, addr: usize) -> Result<DirectoryView, ParseError> {
    match signature(b, addr) {
        Err(e) => Err(e),
        Ok(k) => match layout_error(b, addr, k) {
            Some(e) => Err(e),
            None => {
                let h = header_at(b, 0);
                let c = combo_header_at(b, 0);
                Ok(
                    match k {
                        DirectoryKind::Bios => DirectoryView::Bios(
                            DirView { addr, header: h, entries: bios_entries(b, 16, h.entries as nat) },
                        ),
                        DirectoryKind::BiosLevel2 => DirectoryView::BiosLevel2(
                            DirView { addr, header: h, entries: bios_entries(b, 16, h.entries as nat) },
                        ),
                        DirectoryKind::BiosCombo => DirectoryView::BiosCombo(
                            ComboView { addr, header: c, entries: combo_entries(b, 32, c.entries as nat) },
                        ),
                        DirectoryKind::Psp => DirectoryView::Psp(
                            DirView { addr, header: h, entries: psp_entries(b, 16, h.entries as nat) },
                        ),
                        DirectoryKind::PspLevel2 => DirectoryView::PspLevel2(
                            DirView { addr, header: h, entries: psp_entries(b, 16, h.entries as nat) },
                        ),
                        DirectoryKind::PspCombo => DirectoryView::PspCombo(
                            ComboView { addr, header: c, entries: combo_entries(b, 32, c.entries as nat) },
                        ),
                    },
                )
            },
        },
    }
}

impl PartialEq for Directory {
    /// Two directories are equal when they have the same shape.
    fn eq(&self, rhs: &Self) -> (r: bool) {
        self.kind() == rhs.kind()
    }
}

impl vstd::std_specs::cmp::PartialEqSpecImpl for Directory {
    open spec fn obeys_eq_spec() -> bool {
        true
    }

    open spec fn eq_spec(&self, rhs: &Directory) -> bool {
        self@.kind() == rhs@.kind()
    }
}

impl Directory {
    /// Parses the directory that starts `data`, found at offset `addr`, dispatching
    /// on its magic.
    pub fn new(data: &[u8], addr: usize) -> (r: Result<Self, ParseError>)
        ensures
            view_result(r) == spec_parse_directory(data@, addr),
    {
        let k = read_signature(data, addr)?;
        match k {
            DirectoryKind::Bios => Ok(Directory::Bios(BiosDirectory::new(data, addr)?)),
            DirectoryKind::BiosLevel2 => Ok(Directory::BiosLevel2(BiosDirectory::new(data, addr)?)),
            DirectoryKind::BiosCombo => Ok(Directory::BiosCombo(BiosComboDirectory::new(data, addr)?)),
            DirectoryKind::Psp => Ok(Directory::Psp(PspDirectory::new(data, addr)?)),
            DirectoryKind::PspLevel2 => Ok(Directory::PspLevel2(PspDirectory::new(data, addr)?)),
            DirectoryKind::PspCombo => Ok(Directory::PspCombo(PspComboDirectory::new(data, addr)?)),
        }
    }

    pub fn kind(&self) -> (r: DirectoryKind)
        ensures
            r == self@.kind(),
    {
        match self {
            Directory::Bios(_) => DirectoryKind::Bios,
            Directory::BiosLevel2(_) => DirectoryKind::BiosLevel2,
            Directory::BiosCombo(_) => DirectoryKind::BiosCombo,
            Directory::Psp(_) => DirectoryKind::Psp,
            Directory::PspLevel2(_) => DirectoryKind::PspLevel2,
            Directory::PspCombo(_) => DirectoryKind::PspCombo,
        }
    }

    /// The offset of this directory in the image.
    pub fn addr(&self) -> (r: usize)
        ensures
            r == self@.addr(),
    {
        match self {
            Directory::Bios(d) => d.addr,
            Directory::BiosLevel2(d) => d.addr,
            Directory::BiosCombo(d) => d.addr,
            Directory::Psp(d) => d.addr,
            Directory::PspLevel2(d) => d.addr,
            Directory::PspCombo(d) => d.addr,
        }
    }

    pub fn get_checksum(&self) -> (r: u32)
        ensures
            r == self@.checksum(),
    {
        match self {
            Directory::Bios(d) => d.header.checksum,
            Directory::BiosCombo(d) => d.header.checksum,
            Directory::BiosLevel2(d) => d.header.checksum,
            Directory::Psp(d) => d.header.checksum,
            Directory::PspCombo(d) => d.header.checksum,
            Directory::PspLevel2(d) => d.header.checksum,
        }
    }

    pub fn get_magic(&self) -> (r: u32)
        ensures
            r == self@.magic(),
    {
        match self {
            Directory::Bios(d) => d.header.magic,
            Directory::BiosCombo(d) => d.header.magic,
            Directory::BiosLevel2(d) => d.header.magic,
            Directory::Psp(d) => d.header.magic,
            Directory::PspCombo(d) => d.header.magic,
            Directory::PspLevel2(d) => d.header.magic,
        }
    }

    /// The header of a combo directory.
    pub fn get_combo_header(&self) -> (r: Result<&ComboDirectoryHeader, ParseError>)
        ensures
            match self {
                Directory::BiosCombo(d) => r == Ok::<&ComboDirectoryHeader, ParseError>(&d.header),
                Directory::PspCombo(d) => r == Ok::<&ComboDirectoryHeader, ParseError>(&d.header),
                _ => r == Err::<&ComboDirectoryHeader, ParseError>(ParseError::NotCombo),
            },
    {
        match self {
            Directory::BiosCombo(d) => Ok(&d.header),
            Directory::PspCombo(d) => Ok(&d.header),
            _ => Err(ParseError::NotCombo),
        }
    }

    /// The entries of a combo directory.
    pub fn get_combo_entries(&self) -> (r: Result<&Vec<ComboDirectoryEntry>, ParseError>)
        ensures
            match self {
                Directory::BiosCombo(d) => r == Ok::<&Vec<ComboDirectoryEntry>, ParseError>(&d.entries),
                Directory::PspCombo(d) => r == Ok::<&Vec<ComboDirectoryEntry>, ParseError>(&d.entries),
                _ => r == Err::<&Vec<ComboDirectoryEntry>, ParseError>(ParseError::NotCombo),
            },
    {
        match self {
            Directory::BiosCombo(d) => Ok(&d.entries),
            Directory::PspCombo(d) => Ok(&d.entries),
            _ => Err(ParseError::NotCombo),
        }
    }

    /// The entries of a simple BIOS directory.
    pub fn get_bios_entries(&self) -> (r: Result<&Vec<BiosDirectoryEntry>, ParseError>)
        ensures
            match self {
                Directory::Bios(d) => r == Ok::<&Vec<BiosDirectoryEntry>, ParseError>(&d.entries),
                _ => r == Err::<&Vec<BiosDirectoryEntry>, ParseError>(ParseError::NotBios),
            },
    {
        match self {
            Directory::Bios(d) => Ok(&d.entries),
            _ => Err(ParseError::NotBios),
        }
    }

    /// The entries of a simple PSP directory.
    pub fn get_psp_entries(&self) -> (r: Result<&Vec<PspDirectoryEntry>, ParseError>)
        ensures
            match self {
                Directory::Psp(d) => r == Ok::<&Vec<PspDirectoryEntry>, ParseError>(&d.entries),
                _ => r == Err::<&Vec<PspDirectoryEntry>, ParseError>(ParseError::NotPsp),
            },
    {
        match self {
            Directory::Psp(d) => Ok(&d.entries),
            _ => Err(ParseError::NotPsp),
        }
    }
}

} // verus!
