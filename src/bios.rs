//! BIOS directories and their entries.
use vstd::prelude::*;

use crate::bytes::{be_u16, le_u32, le_u64, read_u16_be, read_u32, read_u64};
use crate::directory::{
    addr_mode, addr_mode_of, check_layout, header_at, layout_error, parse_combo, read_header,
    read_signature, resolve, resolve_addr, resolve_addr_masked, resolve_masked, MAPPING_MASK, take_range, image_range, bytes_result,
    signature, spec_parse_combo, AddrMode,
    ComboDirectoryEntry, ComboDirectoryHeader, ComboView, DirView, DirectoryHeader, DirectoryKind,
};
use crate::error::ParseError;

verus! {

/// Size of the header in front of a compressed BIOS binary.
pub const BIOS_HEADER_SIZE: usize = 256;

/// First two bytes of a zlib stream at default compression.
pub const ZLIB_DEFAULT_COMPRESSION_MAGIC: u16 = 0x789c;

/// First two bytes of a zlib stream at best compression.
pub const ZLIB_BEST_COMPRESSION_MAGIC: u16 = 0x78da;

/// The header of a compressed BIOS binary (256 bytes); offset 0x14 holds the
/// uncompressed size, the other bytes are opaque.
#[derive(Clone, Copy, Debug, PartialEq, Eq, Structural)]
pub struct BiosBinaryHeader {
    pub _00: u32,
    pub _04: u32,
    pub _08: u32,
    pub _0c: u32,
    pub _10: u32,
    /// the uncompressed size
    pub size: u32,
}

pub open spec fn bios_binary_header_at(b: Seq<u8>, i: int) -> BiosBinaryHeader {
    BiosBinaryHeader {
        _00: le_u32(b, i) as u32,
        _04: le_u32(b, i + 4) as u32,
        _08: le_u32(b, i + 8) as u32,
        _0c: le_u32(b, i + 12) as u32,
        _10: le_u32(b, i + 16) as u32,
        size: le_u32(b, i + 20) as u32,
    }
}

pub fn read_bios_binary_header(b: &[u8], i: usize) -> (r: BiosBinaryHeader)
    requires
        i + BIOS_HEADER_SIZE <= b@.len(),
    ensures
        r == bios_binary_header_at(b@, i as int),
{
    let _n: usize = b.len();
    BiosBinaryHeader {
        _00: read_u32(b, i),
        _04: read_u32(b, i + 4),
        _08: read_u32(b, i + 8),
        _0c: read_u32(b, i + 12),
        _10: read_u32(b, i + 16),
        size: read_u32(b, i + 20),
    }
}

/// The BIOS entry kinds that the parser acts on.
#[derive(Clone, Copy, Debug, PartialEq, Eq, Structural)]
pub enum BiosEntryType {
    BiosBinary,
    BiosLevel2Dir,
}

impl BiosEntryType {
    pub open spec fn spec_code(self) -> u8 {
        match self {
            BiosEntryType::BiosBinary => 0x62,
            BiosEntryType::BiosLevel2Dir => 0x70,
        }
    }

    /// The entry kind byte of this type.
    pub fn code(self) -> (r: u8)
        ensures
            r == self.spec_code(),
    {
        match self {
            BiosEntryType::BiosBinary => 0x62,
            BiosEntryType::BiosLevel2Dir => 0x70,
        }
    }
}

/// An entry of a BIOS directory (24 bytes).
#[derive(Clone, Copy, Debug, PartialEq, Eq, Structural)]
pub struct BiosDirectoryEntry {
    /// 0x00: type of entry
    pub kind: u8,
    /// 0x01: memory region security attributes
    pub region_kind: u8,
    /// 0x02: flags; bit 0 marks a zlib-compressed binary, bits 4 to 7 the instance
    pub flags: u8,
    /// 0x03: used to filter entries by model
    pub sub_program: u8,
    /// 0x04: size of the entry
    pub size: u32,
    /// 0x08: source address
    pub source: u64,
    /// 0x10: destination address
    pub destination: u64,
}

pub open spec fn bios_entry_at(b: Seq<u8>, i: int) -> BiosDirectoryEntry {
    BiosDirectoryEntry {
        kind: b[i],
        region_kind: b[i + 1],
        flags: b[i + 2],
        sub_program: b[i + 3],
        size: le_u32(b, i + 4) as u32,
        source: le_u64(b, i + 8) as u64,
        destination: le_u64(b, i + 16) as u64,
    }
}

pub open spec fn bios_entries(b: Seq<u8>, start: int, n: nat) -> Seq<BiosDirectoryEntry> {
    Seq::new(n, |k: int| bios_entry_at(b, start + 24 * k))
}

pub fn read_bios_entries(b: &[u8], start: usize, n: u32) -> (r: Vec<BiosDirectoryEntry>)
    requires
        start + 24 * n <= b@.len(),
    ensures
        r@ == bios_entries(b@, start as int, n as nat),
{
    let blen: usize = b.len();
    let mut v: Vec<BiosDirectoryEntry> = Vec::new();
    let mut k: u32 = 0;
    while k < n
        invariant
            blen == b@.len(),
            k <= n,
            start + 24 * n <= b@.len(),
            v@ == bios_entries(b@, start as int, k as nat),
        decreases n - k,
    {
        let i = start + 24 * (k as usize);
        let e = BiosDirectoryEntry {
            kind: b[i],
            region_kind: b[i + 1],
            flags: b[i + 2],
            sub_program: b[i + 3],
            size: read_u32(b, i + 4),
            source: read_u64(b, i + 8),
            destination: read_u64(b, i + 16),
        };
        v.push(e);
        k = k + 1;
        assert(v@ =~= bios_entries(b@, start as int, k as nat));
    }
    v
}

/// Whether the flags mark a zlib-compressed binary.
pub open spec fn flags_compressed(flags: u8) -> bool {
    flags & 1u8 == 1u8
}

/// The instance index held in bits 4 to 7 of the flags.
pub open spec fn flags_instance(flags: u8) -> u8 {
    (flags >> 4u8) & 0xfu8
}

/// The payload of BIOS entry `e` of the directory at `dir_offset` in `img`: for a
/// compressed BIOS binary whose body starts with a zlib header, the 256-byte
/// header and as many bytes as it declares; otherwise `e.size` bytes.
pub open spec fn bios_payload(e: BiosDirectoryEntry, img: Seq<u8>, dir_offset: usize) -> Result<
    Seq<u8>,
    ParseError,
> {
    bios_payload_masked(e, img, dir_offset, MAPPING_MASK)
}

/// `bios_payload` with `mask` selecting the location bits of the source pointer.
pub open spec fn bios_payload_masked(
    e: BiosDirectoryEntry,
    img: Seq<u8>,
    dir_offset: usize,
    mask: u64,
) -> Result<Seq<u8>, ParseError> {
    let start = resolve_addr_masked(e.source, dir_offset as int, mask);
    if e.kind == 0x62 && flags_compressed(e.flags) {
        let b = start + BIOS_HEADER_SIZE;
        if b + 2 > img.len() {
            image_range(img, start, BIOS_HEADER_SIZE + 2)
        } else if be_u16(img, b) != ZLIB_DEFAULT_COMPRESSION_MAGIC && be_u16(img, b)
            != ZLIB_BEST_COMPRESSION_MAGIC {
            Err(ParseError::MissingZlibMagic { offset: b as usize, observed: be_u16(img, b) as u16 })
        } else {
            image_range(img, start, le_u32(img, start + 0x14) + BIOS_HEADER_SIZE)
        }
    } else {
        image_range(img, start, e.size as int)
    }
}

pub open spec fn bios_description(kind: u8, instance: u8) -> Seq<char> {
    if kind == 0x05 {
        "BIOS Signing Key"@
    } else if kind == 0x07 {
        "BIOS Signature"@
    } else if kind == 0x60 {
        "AGESA PSP Customization Block"@
    } else if kind == 0x61 {
        "AGESA PSP Output Block"@
    } else if kind == 0x62 {
        "BIOS Binary"@
    } else if kind == 0x63 {
        "AGESA PSP Output Block NVRAM"@
    } else if kind == 0x64 {
        if instance == 1 {
            "PMU Firmware Code (DDR4 UDIMM 1D)"@
        } else if instance == 2 {
            "PMU Firmware Code (DDR4 RDIMM 1D)"@
        } else if instance == 3 {
            "PMU Firmware Code (DDR4 LRDIMM 1D)"@
        } else if instance == 4 {
            "PMU Firmware Code (DDR4 2D)"@
        } else if instance == 5 {
            "PMU Firmware Code (DDR4 2D Diagnostic)"@
        } else {
            "PMU Firmware Code (Unknown)"@
        }
    } else if kind == 0x65 {
        if instance == 1 {
            "PMU Firmware Data (DDR4 UDIMM 1D)"@
        } else if instance == 2 {
            "PMU Firmware Data (DDR4 RDIMM 1D)"@
        } else if instance == 3 {
            "PMU Firmware Data (DDR4 LRDIMM 1D)"@
        } else if instance == 4 {
            "PMU Firmware Data (DDR4 2D)"@
        } else if instance == 5 {
            "PMU Firmware Data (DDR4 2D Diagnostic)"@
        } else {
            "PMU Firmware Data (Unknown)"@
        }
    } else if kind == 0x66 {
        "Microcode"@
    } else if kind == 0x67 {
        "Machine Check Exception Data"@
    } else if kind == 0x68 {
        "AGESA PSP Customization Block Backup"@
    } else if kind == 0x6a {
        "MP2 Firmware"@
    } else if kind == 0x6d {
        "Maybe NVAR (seen in ASRock A520M-HVS)"@
    } else if kind == 0x70 {
        "BIOS Level 2 Directory"@
    } else {
        "Unknown"@
    }
}

impl BiosDirectoryEntry {
    /// Extracts the payload of this entry of the directory at `offset` in `data`.
    pub fn data(&self, data: &[u8], offset: usize) -> (r: Result<Vec<u8>, ParseError>)
        ensures
            bytes_result(r) == bios_payload(*self, data@, offset),
    {
        self.data_masked(data, offset, MAPPING_MASK)
    }

    /// Extracts the payload as `data` does, with `mask` selecting the location bits
    /// of the source pointer.
    pub fn data_masked(&self, data: &[u8], offset: usize, mask: u64) -> (r: Result<
        Vec<u8>,
        ParseError,
    >)
        ensures
            bytes_result(r) == bios_payload_masked(*self, data@, offset, mask),
    {
        let len = data.len();
        let start = match resolve_masked(self.source, offset, mask) {
            Some(s) => s,
            None => {
                return Err(
                    ParseError::RangeExceedsImage { start: usize::MAX, end: usize::MAX, image_len: len },
                );
            },
        };
        let length: u64 = if self.kind == BiosEntryType::BiosBinary.code() && self.is_compressed() {
            if start > len || len - start < BIOS_HEADER_SIZE + 2 {
                return take_range(data, start, (BIOS_HEADER_SIZE + 2) as u64);
            }
            let b = start + BIOS_HEADER_SIZE;
            let magic = read_u16_be(data, b);
            if magic != ZLIB_DEFAULT_COMPRESSION_MAGIC && magic != ZLIB_BEST_COMPRESSION_MAGIC {
                return Err(ParseError::MissingZlibMagic { offset: b, observed: magic });
            }
            let h = read_bios_binary_header(data, start);
            h.size as u64 + BIOS_HEADER_SIZE as u64
        } else {
            self.size as u64
        };
        take_range(data, start, length)
    }

    /// The absolute offset of this entry's source, for a directory at `offset`.
    pub fn addr(&self, offset: usize) -> (r: usize)
        requires
            resolve_addr(self.source, offset as int) <= usize::MAX,
        ensures
            r == resolve_addr(self.source, offset as int),
    {
        resolve(self.source, offset)
    }

    pub fn addr_mode(&self) -> (r: AddrMode)
        ensures
            r == addr_mode_of(self.source),
    {
        addr_mode(self.source)
    }

    pub fn is_compressed(&self) -> (r: bool)
        ensures
            r == flags_compressed(self.flags),
    {
        (self.flags & 0x1) == 1
    }

    pub fn instance(&self) -> (r: u8)
        ensures
            r == flags_instance(self.flags),
    {
        (self.flags >> 4) & 0xf
    }

    /// The name of this entry's kind; PMU entries are told apart by their instance.
    pub fn description(&self) -> (r: &'static str)
        ensures
            r@ == bios_description(self.kind, flags_instance(self.flags)),
    {
        match self.kind {
            0x05 => "BIOS Signing Key",
            0x07 => "BIOS Signature",
            0x60 => "AGESA PSP Customization Block",
            0x61 => "AGESA PSP Output Block",
            0x62 => "BIOS Binary",
            0x63 => "AGESA PSP Output Block NVRAM",
            0x64 => match self.instance() {
                0x01 => "PMU Firmware Code (DDR4 UDIMM 1D)",
                0x02 => "PMU Firmware Code (DDR4 RDIMM 1D)",
                0x03 => "PMU Firmware Code (DDR4 LRDIMM 1D)",
                0x04 => "PMU Firmware Code (DDR4 2D)",
                0x05 => "PMU Firmware Code (DDR4 2D Diagnostic)",
                _ => "PMU Firmware Code (Unknown)",
            },
            0x65 => match self.instance() {
                0x01 => "PMU Firmware Data (DDR4 UDIMM 1D)",
                0x02 => "PMU Firmware Data (DDR4 RDIMM 1D)",
                0x03 => "PMU Firmware Data (DDR4 LRDIMM 1D)",
                0x04 => "PMU Firmware Data (DDR4 2D)",
                0x05 => "PMU Firmware Data (DDR4 2D Diagnostic)",
                _ => "PMU Firmware Data (Unknown)",
            },
            0x66 => "Microcode",
            0x67 => "Machine Check Exception Data",
            0x68 => "AGESA PSP Customization Block Backup",
            0x6a => "MP2 Firmware",
            0x6d => "Maybe NVAR (seen in ASRock A520M-HVS)",
            0x70 => "BIOS Level 2 Directory",
            _ => "Unknown",
        }
    }
}

/// A simple or level-2 BIOS directory.
#[derive(Clone, Debug)]
pub struct BiosDirectory {
    pub addr: usize,
    pub header: DirectoryHeader,
    pub entries: Vec<BiosDirectoryEntry>,
}

impl View for BiosDirectory {
    type V = DirView<BiosDirectoryEntry>;

    open spec fn view(&self) -> DirView<BiosDirectoryEntry> {
        DirView { addr: self.addr, header: self.header, entries: self.entries@ }
    }
}

/// The BIOS directory (`$BHD` or `$BL2`) that starts `b`, at offset `addr`.
pub open spec fn spec_parse_bios_directory(b: Seq<u8>, addr: usize) -> Result<
    DirView<BiosDirectoryEntry>,
    ParseError,
> {
    match signature(b, addr) {
        Err(e) => Err(e),
        Ok(k) => if k != DirectoryKind::Bios && k != DirectoryKind::BiosLevel2 {
            Err(ParseError::WrongDirectoryKind { expected: DirectoryKind::Bios, found: k, offset: addr })
        } else {
            match layout_error(b, addr, k) {
                Some(e) => Err(e),
                None => Ok(
                    DirView {
                        addr,
                        header: header_at(b, 0),
                        entries: bios_entries(b, 16, header_at(b, 0).entries as nat),
                    },
                ),
            }
        },
    }
}

impl BiosDirectory {
    /// Parses the BIOS directory that starts `data`, found at offset `addr`.
    pub fn new(data: &[u8], addr: usize) -> (r: Result<Self, ParseError>)
        ensures
            crate::directory::view_result(r) == spec_parse_bios_directory(data@, addr),
    {
        let k = read_signature(data, addr)?;
        if k != DirectoryKind::Bios && k != DirectoryKind::BiosLevel2 {
            return Err(
                ParseError::WrongDirectoryKind { expected: DirectoryKind::Bios, found: k, offset: addr },
            );
        }
        let count = check_layout(data, addr, k)?;
        let header = read_header(data, 0);
        let entries = read_bios_entries(data, 16, count);
        Ok(BiosDirectory { addr, header, entries })
    }

    pub fn header(&self) -> (r: DirectoryHeader)
        ensures
            r == self.header,
    {
        self.header
    }

    pub fn entries(&self) -> (r: Vec<BiosDirectoryEntry>)
        ensures
            r@ == self.entries@,
    {
        self.entries.clone()
    }
}

/// A BIOS combo directory.
#[derive(Clone, Debug)]
pub struct BiosComboDirectory {
    pub addr: usize,
    pub header: ComboDirectoryHeader,
    pub entries: Vec<ComboDirectoryEntry>,
}

impl View for BiosComboDirectory {
    type V = ComboView;

    open spec fn view(&self) -> ComboView {
        ComboView { addr: self.addr, header: self.header, entries: self.entries@ }
    }
}

pub open spec fn spec_parse_bios_combo_directory(b: Seq<u8>, addr: usize) -> Result<
    ComboView,
    ParseError,
> {
    spec_parse_combo(b, addr, DirectoryKind::BiosCombo)
}

impl BiosComboDirectory {
    /// Parses the BIOS combo directory (`2BHD`) that starts `data`, found at offset `addr`.
    pub fn new(data: &[u8], addr: usize) -> (r: Result<Self, ParseError>)
        ensures
            crate::directory::view_result(r) == spec_parse_bios_combo_directory(data@, addr),
    {
        let (header, entries) = parse_combo(data, addr, DirectoryKind::BiosCombo)?;
        Ok(BiosComboDirectory { addr, header, entries })
    }

    pub fn header(&self) -> (r: ComboDirectoryHeader)
        ensures
            r == self.header,
    {
        self.header
    }

    pub fn entries(&self) -> (r: Vec<ComboDirectoryEntry>)
        ensures
            r@ == self.entries@,
    {
        self.entries.clone()
    }
}

} // verus!
