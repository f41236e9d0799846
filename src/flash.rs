//! The Embedded Firmware Structure (EFS), the anchor of an AMD flash image.
use vstd::prelude::*;

use crate::bytes::{le_u32, read_u32};

verus! {

/// Size in bytes of the EFS record.
pub const EFS_SIZE: usize = 76;

/// Magic of the EFS, `AA 55 AA 55` in the image.
pub const EFS_MAGIC: u32 = 0x55aa_55aa;

#[derive(Clone, Copy, Debug, PartialEq, Eq, Structural)]
pub struct SpiMode(pub u8);

#[derive(Clone, Copy, Debug, PartialEq, Eq, Structural)]
pub struct SpiSpeed(pub u8);

#[derive(Clone, Copy, Debug, PartialEq, Eq, Structural)]
pub struct Micron(pub u8);

#[derive(Clone, Copy, Debug, PartialEq, Eq, Structural)]
pub struct Micron2(pub u8);

/// SPI flash configuration of the earliest generation (offset 0x40).
#[derive(Clone, Copy, Debug, PartialEq, Eq, Structural)]
pub struct SpiCfg {
    pub mode: SpiMode,
    pub speed: SpiSpeed,
}

/// SPI flash configuration with a Micron flag (offset 0x43).
#[derive(Clone, Copy, Debug, PartialEq, Eq, Structural)]
pub struct SpiCfg2 {
    pub mode: SpiMode,
    pub speed: SpiSpeed,
    pub micron: Micron,
}

/// SPI flash configuration of later generations (offset 0x47).
#[derive(Clone, Copy, Debug, PartialEq, Eq, Structural)]
pub struct SpiCfg3 {
    pub mode: SpiMode,
    pub speed: SpiSpeed,
    pub micron: Micron2,
}

/// Embedded Firmware Structure: 76 bytes, packed, little-endian.
#[derive(Clone, Copy, Debug, PartialEq, Eq, Structural)]
pub struct EFS {
    /// 0x00: magic of the EFS (0x55AA55AA)
    pub magic: u32,
    pub imc_fw: u32,
    pub gbe_fw: u32,
    pub xhci_fw: u32,
    /// 0x10: PSP directory for families before 17h
    pub psp_legacy: u32,
    /// 0x14: PSP directory for family 17h models 00h and later
    pub psp_17_00: u32,
    /// 0x18: BIOS directory for family 17h models 00h to 0fh
    pub bios_17_00_0f: u32,
    /// 0x1c: BIOS directory for family 17h models 10h to 1fh
    pub bios_17_10_1f: u32,
    /// 0x20: BIOS directory for family 17h models 30h to 3fh and family 19h models 00h to 0fh
    pub bios_17_30_3f_19_00_0f: u32,
    /// 0x24: bit 0 is clear in a second generation structure
    pub second_gen: u32,
    /// 0x28: BIOS directory for family 17h model 60h and later
    pub bios_17_60: u32,
    pub _2c: u32,
    /// 0x30: Promontory firmware
    pub promontory: u32,
    /// 0x34: low power Promontory firmware
    pub lp_promontory: u32,
    pub _38: u32,
    pub _3c: u32,
    /// 0x40: SPI flash configuration for family 15h models 60h to 6fh
    pub spi_cfg_15_60_6f: SpiCfg,
    pub _42: u8,
    /// 0x43: SPI flash configuration for family 17h models 00h to 1fh
    pub spi_cfg_17_00_1f: SpiCfg2,
    pub _46: u8,
    /// 0x47: SPI flash configuration for family 17h model 30h and later
    pub spi_cfg_17_30: SpiCfg3,
    pub _4a: u8,
    pub _4b: u8,
}

/// The EFS record held by the 76 bytes at `i`.
pub open spec fn efs_at(b: Seq<u8>, i: int) -> EFS {
    EFS {
        magic: le_u32(b, i) as u32,
        imc_fw: le_u32(b, i + 0x04) as u32,
        gbe_fw: le_u32(b, i + 0x08) as u32,
        xhci_fw: le_u32(b, i + 0x0c) as u32,
        psp_legacy: le_u32(b, i + 0x10) as u32,
        psp_17_00: le_u32(b, i + 0x14) as u32,
        bios_17_00_0f: le_u32(b, i + 0x18) as u32,
        bios_17_10_1f: le_u32(b, i + 0x1c) as u32,
        bios_17_30_3f_19_00_0f: le_u32(b, i + 0x20) as u32,
        second_gen: le_u32(b, i + 0x24) as u32,
        bios_17_60: le_u32(b, i + 0x28) as u32,
        _2c: le_u32(b, i + 0x2c) as u32,
        promontory: le_u32(b, i + 0x30) as u32,
        lp_promontory: le_u32(b, i + 0x34) as u32,
        _38: le_u32(b, i + 0x38) as u32,
        _3c: le_u32(b, i + 0x3c) as u32,
        spi_cfg_15_60_6f: SpiCfg { mode: SpiMode(b[i + 0x40]), speed: SpiSpeed(b[i + 0x41]) },
        _42: b[i + 0x42],
        spi_cfg_17_00_1f: SpiCfg2 {
            mode: SpiMode(b[i + 0x43]),
            speed: SpiSpeed(b[i + 0x44]),
            micron: Micron(b[i + 0x45]),
        },
        _46: b[i + 0x46],
        spi_cfg_17_30: SpiCfg3 {
            mode: SpiMode(b[i + 0x47]),
            speed: SpiSpeed(b[i + 0x48]),
            micron: Micron2(b[i + 0x49]),
        },
        _4a: b[i + 0x4a],
        _4b: b[i + 0x4b],
    }
}

/// Reads the EFS record at offset `i`.
pub fn read_efs(b: &[u8], i: usize) -> (r: EFS)
    requires
        i + EFS_SIZE <= b@.len(),
    ensures
        r == efs_at(b@, i as int),
{
    let _n: usize = b.len();
    EFS {
        magic: read_u32(b, i),
        imc_fw: read_u32(b, i + 0x04),
        gbe_fw: read_u32(b, i + 0x08),
        xhci_fw: read_u32(b, i + 0x0c),
        psp_legacy: read_u32(b, i + 0x10),
        psp_17_00: read_u32(b, i + 0x14),
        bios_17_00_0f: read_u32(b, i + 0x18),
        bios_17_10_1f: read_u32(b, i + 0x1c),
        bios_17_30_3f_19_00_0f: read_u32(b, i + 0x20),
        second_gen: read_u32(b, i + 0x24),
        bios_17_60: read_u32(b, i + 0x28),
        _2c: read_u32(b, i + 0x2c),
        promontory: read_u32(b, i + 0x30),
        lp_promontory: read_u32(b, i + 0x34),
        _38: read_u32(b, i + 0x38),
        _3c: read_u32(b, i + 0x3c),
        spi_cfg_15_60_6f: SpiCfg { mode: SpiMode(b[i + 0x40]), speed: SpiSpeed(b[i + 0x41]) },
        _42: b[i + 0x42],
        spi_cfg_17_00_1f: SpiCfg2 {
            mode: SpiMode(b[i + 0x43]),
            speed: SpiSpeed(b[i + 0x44]),
            micron: Micron(b[i + 0x45]),
        },
        _46: b[i + 0x46],
        spi_cfg_17_30: SpiCfg3 {
            mode: SpiMode(b[i + 0x47]),
            speed: SpiSpeed(b[i + 0x48]),
            micron: Micron2(b[i + 0x49]),
        },
        _4a: b[i + 0x4a],
        _4b: b[i + 0x4b],
    }
}

/// A pointer of the EFS, or `None` where it holds one of the two "absent" values.
pub open spec fn real_addr(addr: u32) -> Option<u32> {
    if addr == 0 || addr == 0xffff_ffff {
        None
    } else {
        Some(addr)
    }
}

pub fn get_real_addr(addr: u32) -> (r: Option<u32>)
    ensures
        r == real_addr(addr),
{
    if addr == 0x0000_0000 || addr == 0xffff_ffff {
        None
    } else {
        Some(addr)
    }
}

impl EFS {
    /// Bit 0 of `second_gen` is clear in a second generation structure.
    pub fn is_second_gen(&self) -> (r: bool)
        ensures
            r == (self.second_gen % 2 == 0),
    {
        self.second_gen % 2 == 0
    }
}

pub open spec fn spi_mode_name(m: u8) -> Option<Seq<char>> {
    if m == 0 {
        Some("Normal (up to 33M)"@)
    } else if m == 1 {
        Some("Reserved (error?)"@)
    } else if m == 2 {
        Some("Dual IO (1-1-2)"@)
    } else if m == 3 {
        Some("Quad IO (1-1-4)"@)
    } else if m == 4 {
        Some("Dual IO (1-2-2)"@)
    } else if m == 5 {
        Some("Quad IO (1-4-4)"@)
    } else if m == 6 {
        Some("Normal (up to 66M)"@)
    } else if m == 7 {
        Some("Fast Read"@)
    } else {
        None
    }
}

/// The view of an optional static name.
pub open spec fn name_view(r: Option<&'static str>) -> Option<Seq<char>> {
    match r {
        Some(s) => Some(s@),
        None => None,
    }
}

impl SpiMode {
    /// The name of a known read mode, `None` for an unknown code.
    pub fn name(&self) -> (r: Option<&'static str>)
        ensures
            name_view(r) == spi_mode_name(self.0),
    {
        match self.0 {
            0 => Some("Normal (up to 33M)"),
            1 => Some("Reserved (error?)"),
            2 => Some("Dual IO (1-1-2)"),
            3 => Some("Quad IO (1-1-4)"),
            4 => Some("Dual IO (1-2-2)"),
            5 => Some("Quad IO (1-4-4)"),
            6 => Some("Normal (up to 66M)"),
            7 => Some("Fast Read"),
            _ => None,
        }
    }
}

pub open spec fn spi_speed_name(s: u8) -> Option<Seq<char>> {
    if s == 0 {
        Some("66.66Mhz"@)
    } else if s == 1 {
        Some("33.33Mhz"@)
    } else if s == 2 {
        Some("22.22Mhz"@)
    } else if s == 3 {
        Some("16.66MHz"@)
    } else if s == 4 {
        Some("100MHz"@)
    } else if s == 5 {
        Some("800KHz"@)
    } else {
        None
    }
}

impl SpiSpeed {
    /// The name of a known clock speed, `None` for an unknown code.
    pub fn name(&self) -> (r: Option<&'static str>)
        ensures
            name_view(r) == spi_speed_name(self.0),
    {
        match self.0 {
            0 => Some("66.66Mhz"),
            1 => Some("33.33Mhz"),
            2 => Some("22.22Mhz"),
            3 => Some("16.66MHz"),
            4 => Some("100MHz"),
            5 => Some("800KHz"),
            _ => None,
        }
    }
}

pub open spec fn micron_name(m: u8) -> Option<Seq<char>> {
    if m == 0x0a {
        Some("always"@)
    } else if m == 0xff {
        Some("unused"@)
    } else {
        None
    }
}

impl Micron {
    pub fn name(&self) -> (r: Option<&'static str>)
        ensures
            name_view(r) == micron_name(self.0),
    {
        match self.0 {
            0x0a => Some("always"),
            0xff => Some("unused"),
            _ => None,
        }
    }
}

pub open spec fn micron2_name(m: u8) -> Option<Seq<char>> {
    if m == 0xaa {
        Some("always"@)
    } else if m == 0x55 {
        Some("automatic"@)
    } else if m == 0xff {
        Some("unused"@)
    } else {
        None
    }
}

impl Micron2 {
    pub fn name(&self) -> (r: Option<&'static str>)
        ensures
            name_view(r) == micron2_name(self.0),
    {
        match self.0 {
            0xaa => Some("always"),
            0x55 => Some("automatic"),
            0xff => Some("unused"),
            _ => None,
        }
    }
}

} // verus!
