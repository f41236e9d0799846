use romulan::bios::{BiosComboDirectory, BiosDirectory, BiosDirectoryEntry, BiosEntryType};
use romulan::directory::{
    resolve_checked, resolve_masked, AddrMode, Directory, DirectoryKind, PspOrFamId,
};
use romulan::error::ParseError;
use romulan::flash::{get_real_addr, Micron, Micron2, SpiMode, SpiSpeed, EFS_SIZE};
use romulan::psp::{
    EntrySummary, Magic, PspBackupDir, PspComboDirectory, PspDirectory, PspDirectoryEntry,
    PspEntryType, Version,
};
use romulan::rom::{get_dir, Rom};

fn put_u32(img: &mut [u8], off: usize, v: u32) {
    img[off..off + 4].copy_from_slice(&v.to_le_bytes());
}

fn put_u64(img: &mut [u8], off: usize, v: u64) {
    img[off..off + 8].copy_from_slice(&v.to_le_bytes());
}

/// Writes a 16-byte directory header and PSP entries (kind, sub-program, size, value).
fn put_psp_dir(img: &mut [u8], off: usize, magic: &[u8; 4], entries: &[(u8, u8, u32, u64)]) {
    img[off..off + 4].copy_from_slice(magic);
    put_u32(img, off + 4, 0x1234_5678);
    put_u32(img, off + 8, entries.len() as u32);
    put_u32(img, off + 12, 0);
    for (i, (kind, sub, size, value)) in entries.iter().enumerate() {
        let e = off + 16 + 16 * i;
        img[e] = *kind;
        img[e + 1] = *sub;
        img[e + 2] = 0;
        img[e + 3] = 0;
        put_u32(img, e + 4, *size);
        put_u64(img, e + 8, *value);
    }
}

/// Writes a 16-byte directory header and BIOS entries (kind, flags, size, source).
fn put_bios_dir(img: &mut [u8], off: usize, magic: &[u8; 4], entries: &[(u8, u8, u32, u64)]) {
    img[off..off + 4].copy_from_slice(magic);
    put_u32(img, off + 4, 0);
    put_u32(img, off + 8, entries.len() as u32);
    put_u32(img, off + 12, 0);
    for (i, (kind, flags, size, source)) in entries.iter().enumerate() {
        let e = off + 16 + 24 * i;
        img[e] = *kind;
        img[e + 1] = 0;
        img[e + 2] = *flags;
        img[e + 3] = 0;
        put_u32(img, e + 4, *size);
        put_u64(img, e + 8, *source);
        put_u64(img, e + 16, 0xffff_ffff_ffff_ffff);
    }
}

const MODE1: u64 = 0x4000_0000_0000_0000;
const MODE2: u64 = 0x8000_0000_0000_0000;

#[test]
fn efs_located_at_second_block() {
    let mut img = vec![0xffu8; 0x2000];
    for b in img[0x1000..].iter_mut() {
        *b = 0;
    }
    img[0x1000..0x1004].copy_from_slice(&[0xaa, 0x55, 0xaa, 0x55]);
    let rom = Rom::new(&img).unwrap();
    assert_eq!(rom.efs_offset, 0x1000);
    let efs = rom.efs();
    assert_eq!(efs.magic, 0x55aa_55aa);
    for p in [
        efs.imc_fw,
        efs.gbe_fw,
        efs.xhci_fw,
        efs.psp_legacy,
        efs.psp_17_00,
        efs.bios_17_00_0f,
        efs.bios_17_10_1f,
        efs.bios_17_30_3f_19_00_0f,
        efs.bios_17_60,
        efs.promontory,
        efs.lp_promontory,
    ] {
        assert_eq!(get_real_addr(p), None);
    }
}

#[test]
fn efs_not_found() {
    let img = vec![0xffu8; 0x3000];
    assert_eq!(Rom::new(&img).unwrap_err(), ParseError::EfsNotFound);
    // magic off the 4 KiB grid is not an anchor
    let mut img = vec![0u8; 0x3000];
    img[0x800..0x804].copy_from_slice(&[0xaa, 0x55, 0xaa, 0x55]);
    assert_eq!(Rom::new(&img).unwrap_err(), ParseError::EfsNotFound);
}

#[test]
fn efs_needs_room_for_whole_record() {
    let mut img = vec![0u8; 0x1000 + EFS_SIZE - 1];
    img[0x1000..0x1004].copy_from_slice(&[0xaa, 0x55, 0xaa, 0x55]);
    assert_eq!(Rom::new(&img).unwrap_err(), ParseError::EfsNotFound);
    let mut img = vec![0u8; 0x1000 + EFS_SIZE];
    img[0x1000..0x1004].copy_from_slice(&[0xaa, 0x55, 0xaa, 0x55]);
    assert_eq!(Rom::new(&img).unwrap().efs_offset, 0x1000);
}

#[test]
fn efs_fields_read_little_endian() {
    let mut img = vec![0u8; 0x100];
    put_u32(&mut img, 0, 0x55aa_55aa);
    put_u32(&mut img, 0x14, 0x0012_3000);
    put_u32(&mut img, 0x24, 0xffff_fffe);
    img[0x40] = 3;
    img[0x41] = 4;
    img[0x45] = 0x0a;
    img[0x49] = 0x55;
    let rom = Rom::new(&img).unwrap();
    let efs = rom.efs();
    assert_eq!(efs.psp_17_00, 0x0012_3000);
    assert!(efs.is_second_gen());
    assert_eq!(efs.spi_cfg_15_60_6f.mode.name(), Some("Quad IO (1-1-4)"));
    assert_eq!(efs.spi_cfg_15_60_6f.speed.name(), Some("100MHz"));
    assert_eq!(efs.spi_cfg_17_00_1f.micron.name(), Some("always"));
    assert_eq!(efs.spi_cfg_17_30.micron.name(), Some("automatic"));
}

#[test]
fn parse_twice_gives_identical_records() {
    let mut img = vec![0u8; 0x3000];
    put_u32(&mut img, 0, 0x55aa_55aa);
    put_u32(&mut img, 0x14, 0x1000);
    put_psp_dir(&mut img, 0x1000, b"$PSP", &[(0x01, 0, 0x10, MODE1 | 0x2000)]);
    let r1 = Rom::new(&img).unwrap();
    let r2 = Rom::new(&img).unwrap();
    assert_eq!(r1.efs(), r2.efs());
    assert_eq!(r1.efs_offset, r2.efs_offset);
    let d1 = r1.psp().unwrap();
    let d2 = r2.psp().unwrap();
    assert_eq!(d1.get_psp_entries().unwrap(), d2.get_psp_entries().unwrap());
    assert_eq!(d1.get_checksum(), d2.get_checksum());
}

#[test]
fn real_addr_absent_values() {
    assert_eq!(get_real_addr(0), None);
    assert_eq!(get_real_addr(0xffff_ffff), None);
    assert_eq!(get_real_addr(0x20_0000), Some(0x20_0000));
}

#[test]
fn spi_names_known_and_unknown() {
    assert_eq!(SpiMode(0).name(), Some("Normal (up to 33M)"));
    assert_eq!(SpiMode(7).name(), Some("Fast Read"));
    assert_eq!(SpiMode(8).name(), None);
    assert_eq!(SpiSpeed(5).name(), Some("800KHz"));
    assert_eq!(SpiSpeed(6).name(), None);
    assert_eq!(Micron(0xff).name(), Some("unused"));
    assert_eq!(Micron(0x01).name(), None);
    assert_eq!(Micron2(0xaa).name(), Some("always"));
    assert_eq!(Micron2(0x00).name(), None);
}

#[test]
fn directory_dispatch_on_magic() {
    let mut img = vec![0u8; 0x100];
    put_psp_dir(&mut img, 0, b"$PL2", &[(0x08, 0, 0x10, 0x40)]);
    let d = Directory::new(&img, 0x5000).unwrap();
    assert_eq!(d.kind(), DirectoryKind::PspLevel2);
    assert_eq!(d.addr(), 0x5000);
    // the level-2 variant is no simple PSP directory
    assert_eq!(d.get_psp_entries().unwrap_err(), ParseError::NotPsp);
    assert_eq!(d.get_combo_header().unwrap_err(), ParseError::NotCombo);
    assert_eq!(d.get_bios_entries().unwrap_err(), ParseError::NotBios);

    let mut img = vec![0u8; 0x100];
    put_bios_dir(&mut img, 0, b"$BHD", &[(0x62, 0, 0x10, 0x40)]);
    let d = Directory::new(&img, 0).unwrap();
    assert_eq!(d.kind(), DirectoryKind::Bios);
    assert_eq!(d.get_bios_entries().unwrap().len(), 1);
}

#[test]
fn directory_equality_by_kind_only() {
    let mut a = vec![0u8; 0x100];
    put_psp_dir(&mut a, 0, b"$PSP", &[(0x08, 0, 0x10, 0x40)]);
    let mut b = vec![0u8; 0x100];
    put_psp_dir(&mut b, 0, b"$PSP", &[]);
    let mut c = vec![0u8; 0x100];
    put_bios_dir(&mut c, 0, b"$BHD", &[]);
    let da = Directory::new(&a, 0).unwrap();
    let db = Directory::new(&b, 0x40).unwrap();
    let dc = Directory::new(&c, 0).unwrap();
    assert!(da == db);
    assert!(da != dc);
}

#[test]
fn magic_round_trip_all_kinds() {
    for m in [b"$BHD", b"$BL2", b"$PSP", b"$PL2"] {
        let mut img = vec![0u8; 0x40];
        put_psp_dir(&mut img, 0, m, &[]);
        let d = Directory::new(&img, 0).unwrap();
        assert_eq!(&d.get_magic().to_le_bytes(), &img[0..4]);
    }
    for m in [b"2BHD", b"2PSP"] {
        let mut img = vec![0u8; 0x40];
        img[0..4].copy_from_slice(m);
        let d = Directory::new(&img, 0).unwrap();
        assert_eq!(&d.get_magic().to_le_bytes(), &img[0..4]);
        assert!(d.get_combo_header().is_ok());
        assert_eq!(d.get_combo_entries().unwrap().len(), 0);
    }
}

#[test]
fn unknown_directory_signature() {
    let img = b"ABCDxxxxxxxxxxxxxxxxxxxx".to_vec();
    assert_eq!(
        Directory::new(&img, 0x40).unwrap_err(),
        ParseError::UnknownDirectorySignature { magic: 0x4443_4241, offset: 0x40 }
    );
}

#[test]
fn signature_truncated() {
    assert_eq!(
        Directory::new(b"$PS", 7).unwrap_err(),
        ParseError::SignatureTruncated { offset: 7 }
    );
}

#[test]
fn header_truncated() {
    assert_eq!(
        Directory::new(b"$PSP\0\0\0\0", 3).unwrap_err(),
        ParseError::HeaderTruncated { kind: DirectoryKind::Psp, offset: 3 }
    );
    let mut img = vec![0u8; 20];
    img[0..4].copy_from_slice(b"2PSP");
    assert_eq!(
        Directory::new(&img, 0).unwrap_err(),
        ParseError::HeaderTruncated { kind: DirectoryKind::PspCombo, offset: 0 }
    );
}

#[test]
fn entries_truncated() {
    let mut img = vec![0u8; 16 + 24 * 2 - 1];
    put_bios_dir(&mut img[..], 0, b"$BHD", &[]);
    put_u32(&mut img, 8, 2);
    assert_eq!(
        BiosDirectory::new(&img, 0x10).unwrap_err(),
        ParseError::EntriesTruncated { kind: DirectoryKind::Bios, offset: 0x10, count: 2 }
    );
    let mut img = vec![0u8; 16];
    put_psp_dir(&mut img, 0, b"$PSP", &[]);
    put_u32(&mut img, 8, 0xffff_ffff);
    assert_eq!(
        Directory::new(&img, 0).unwrap_err(),
        ParseError::EntriesTruncated { kind: DirectoryKind::Psp, offset: 0, count: 0xffff_ffff }
    );
}

#[test]
fn wrong_directory_kind() {
    let mut img = vec![0u8; 0x40];
    put_bios_dir(&mut img, 0, b"$BHD", &[]);
    assert_eq!(
        PspDirectory::new(&img, 0).unwrap_err(),
        ParseError::WrongDirectoryKind {
            expected: DirectoryKind::Psp,
            found: DirectoryKind::Bios,
            offset: 0
        }
    );
    assert!(PspComboDirectory::new(&img, 0).is_err());
}

#[test]
fn entries_parsed_in_order() {
    let mut img = vec![0u8; 0x100];
    put_psp_dir(
        &mut img,
        0,
        b"$PSP",
        &[(0x00, 1, 0x240, 0x0003_7000), (0x0b, 0, 0xffff_ffff, 1)],
    );
    let d = PspDirectory::new(&img, 0).unwrap();
    assert_eq!(d.header.entries, 2);
    assert_eq!(d.header.checksum, 0x1234_5678);
    assert_eq!(
        d.entries[0],
        PspDirectoryEntry { kind: 0, sub_program: 1, rom_id: 0, _03: 0, size: 0x240, value: 0x37000 }
    );
    assert_eq!(d.entries[1].kind, 0x0b);
    assert_eq!(d.entries[1].size, 0xffff_ffff);
}

#[test]
fn combo_directory_entries() {
    let mut img = vec![0u8; 0x60];
    img[0..4].copy_from_slice(b"2PSP");
    put_u32(&mut img, 8, 2);
    put_u32(&mut img, 12, 1);
    put_u32(&mut img, 32, 0);
    put_u32(&mut img, 36, 0xbc0c_0140);
    put_u64(&mut img, 40, 0x0012_0000);
    put_u32(&mut img, 48, 1);
    put_u32(&mut img, 52, 0x1022_0b00);
    put_u64(&mut img, 56, 0x0013_0000);
    let d = PspComboDirectory::new(&img, 0x800).unwrap();
    assert_eq!(d.header().look_up_mode, 1);
    let es = d.entries();
    assert_eq!(es.len(), 2);
    assert_eq!(es[0].id, PspOrFamId(0xbc0c_0140));
    assert_eq!(es[0].id.name(), Some("Cezanne"));
    assert_eq!(es[1].id_select, 1);
    assert_eq!(es[1].id.name(), Some("Stoneyridge"));
    assert_eq!(es[1].directory, 0x0013_0000);
    assert_eq!(PspOrFamId(0x1234).name(), None);
}

#[test]
fn address_modes_and_resolution() {
    let e = |value: u64| PspDirectoryEntry { kind: 1, sub_program: 0, rom_id: 0, _03: 0, size: 0, value };
    assert_eq!(e(0x0123_4567).addr_mode(), AddrMode::PhysAddr);
    assert_eq!(e(0x0123_4567).addr(0x1000), 0x23_4567);
    assert_eq!(e(MODE1 | 0xff12_3456).addr_mode(), AddrMode::FlashOffset);
    assert_eq!(e(MODE1 | 0xff12_3456).addr(0x1000), 0x12_3456);
    assert_eq!(e(MODE2 | 0x100).addr_mode(), AddrMode::DirHeaderOffset);
    assert_eq!(e(MODE2 | 0x100).addr(0x4000), 0x4100);
    assert_eq!(e(0xc000_0000_0000_0100).addr_mode(), AddrMode::PartitionOffset);
    assert_eq!(e(0xc000_0000_0000_0100).addr(0x4000) as u64, 0xc000_0000_0000_0100);
    let b = BiosDirectoryEntry {
        kind: 0x62,
        region_kind: 0,
        flags: 0,
        sub_program: 0,
        size: 0,
        source: MODE2 | 0x20,
        destination: 0,
    };
    assert_eq!(b.addr_mode(), AddrMode::DirHeaderOffset);
    assert_eq!(b.addr(0x300), 0x320);
}

#[test]
fn bios_zlib_payload() {
    let mut img = vec![0u8; 0x2000];
    put_bios_dir(&mut img, 0, b"$BHD", &[(0x62, 0x01, 0x1234, MODE1 | 0x1000)]);
    put_u32(&mut img, 0x1000 + 0x14, 0x10);
    img[0x1100] = 0x78;
    img[0x1101] = 0xda;
    for i in 0..0x110 {
        if !(0x14..0x18).contains(&i) && i != 0x100 && i != 0x101 {
            img[0x1000 + i] = (i % 251) as u8 | 1;
        }
    }
    let d = BiosDirectory::new(&img, 0).unwrap();
    let e = d.entries()[0];
    assert!(e.is_compressed());
    let p = e.data(&img, 0).unwrap();
    assert_eq!(p.len(), 272);
    assert_eq!(&p[..], &img[0x1000..0x1000 + 272]);
}

#[test]
fn bios_missing_zlib_magic() {
    let mut img = vec![0u8; 0x2000];
    put_bios_dir(&mut img, 0, b"$BHD", &[(0x62, 0x01, 0x20, MODE1 | 0x1000)]);
    img[0x1100] = 0x1f;
    img[0x1101] = 0x8b;
    let e = BiosDirectory::new(&img, 0).unwrap().entries()[0];
    assert_eq!(
        e.data(&img, 0).unwrap_err(),
        ParseError::MissingZlibMagic { offset: 0x1100, observed: 0x1f8b }
    );
    // the default-compression header is accepted too
    img[0x1100] = 0x78;
    img[0x1101] = 0x9c;
    assert_eq!(e.data(&img, 0).unwrap().len(), 256);
}

#[test]
fn bios_uncompressed_uses_size() {
    let mut img = vec![0u8; 0x2000];
    put_bios_dir(&mut img, 0, b"$BHD", &[(0x62, 0x00, 0x30, MODE1 | 0x1000)]);
    img[0x1000] = 9;
    let e = BiosDirectory::new(&img, 0).unwrap().entries()[0];
    let p = e.data(&img, 0).unwrap();
    assert_eq!(p.len(), 0x30);
    assert_eq!(p[0], 9);
}

#[test]
fn bios_range_exceeds_image_sibling_still_read() {
    let len = 0x1000;
    let mut img = vec![0u8; len];
    put_bios_dir(
        &mut img,
        0,
        b"$BHD",
        &[(0x66, 0, 16, MODE1 | (len as u64 - 8)), (0x60, 0, 8, MODE1 | 0x200)],
    );
    let es = BiosDirectory::new(&img, 0).unwrap().entries();
    assert_eq!(
        es[0].data(&img, 0).unwrap_err(),
        ParseError::RangeExceedsImage { start: len - 8, end: len + 8, image_len: len }
    );
    assert_eq!(es[1].data(&img, 0).unwrap().len(), 8);
}

#[test]
fn bios_flags_and_descriptions() {
    let mut e = BiosDirectoryEntry {
        kind: 0x64,
        region_kind: 0,
        flags: 0x31,
        sub_program: 0,
        size: 0,
        source: 0,
        destination: 0,
    };
    assert!(e.is_compressed());
    assert_eq!(e.instance(), 3);
    assert_eq!(e.description(), "PMU Firmware Code (DDR4 LRDIMM 1D)");
    e.kind = 0x65;
    e.flags = 0x90;
    assert!(!e.is_compressed());
    assert_eq!(e.instance(), 9);
    assert_eq!(e.description(), "PMU Firmware Data (Unknown)");
    e.kind = 0x70;
    assert_eq!(e.description(), "BIOS Level 2 Directory");
    e.kind = 0x99;
    assert_eq!(e.description(), "Unknown");
    assert_eq!(BiosEntryType::BiosBinary.code(), 0x62);
    assert_eq!(BiosEntryType::BiosLevel2Dir.code(), 0x70);
}

#[test]
fn psp_soft_fuse_payload() {
    let mut img = vec![0u8; 0x100];
    put_psp_dir(&mut img, 0, b"$PSP", &[(0x0b, 0, 0xffff_ffff, 0x42)]);
    let d = PspDirectory::new(&img, 0).unwrap();
    let (h, p) = d.entries[0].data(&img, 0).unwrap();
    assert!(h.is_none());
    assert_eq!(&p[..], &[0x42, 0, 0, 0, 0, 0, 0, 0]);
}

#[test]
fn psp_soft_fuse_keeps_low_thirty_bits() {
    let e = PspDirectoryEntry {
        kind: 0x0b,
        sub_program: 0,
        rom_id: 0,
        _03: 0,
        size: 0xffff_ffff,
        value: 0xffff_ffff_ffff_ffff,
    };
    let (h, p) = e.data(&[], 0).unwrap();
    assert!(h.is_none());
    assert_eq!(&p[..], &(0x3fff_ffffu64).to_le_bytes());
}

#[test]
fn psp_payload_with_header() {
    let mut img = vec![0u8; 0x1000];
    // SMU firmware: has a generic header
    let start = 0x400;
    img[start + 0x10..start + 0x14].copy_from_slice(b"$PS1");
    put_u32(&mut img, start + 0x30, 1);
    img[start + 0x38] = 0xab;
    img[start + 0x39] = 0xcd;
    img[start + 0x60..start + 0x64].copy_from_slice(&[1, 2, 3, 4]);
    put_u32(&mut img, start + 0x6c, 0x300);
    img[start + 0x100] = 0x77;
    let e = PspDirectoryEntry { kind: 0x08, sub_program: 0, rom_id: 0, _03: 0, size: 0x300, value: start as u64 };
    let (h, p) = e.data(&img, 0).unwrap();
    let h = h.unwrap();
    assert_eq!(p.len(), 0x200);
    assert_eq!(p[0], 0x77);
    assert!(h.maybe_magic.is_known());
    assert!(h.sig.is_signed());
    assert_eq!(h.sig.key_id(), 0xabcd);
    assert_eq!(h.size_total, 0x300);
    assert!(!h.version.is_unversioned());
    match e.display(&img, 0) {
        EntrySummary::Header(_) => {}
        other => panic!("unexpected summary {other:?}"),
    }
}

#[test]
fn psp_payload_without_header() {
    let mut img = vec![0u8; 0x1000];
    img[0x404] = 0x12;
    img[0x405] = 0x34;
    // OEM public key: never a generic header
    let key = PspDirectoryEntry { kind: 0x0a, sub_program: 0, rom_id: 0, _03: 0, size: 0x240, value: 0x400 };
    let (h, p) = key.data(&img, 0).unwrap();
    assert!(h.is_none());
    assert_eq!(p.len(), 0x240);
    match key.display(&img, 0) {
        EntrySummary::SigKey(k) => assert_eq!(k, 0x1234),
        other => panic!("unexpected summary {other:?}"),
    }
    // too short for a header
    let small = PspDirectoryEntry { kind: 0x01, sub_program: 0, rom_id: 0, _03: 0, size: 0x80, value: 0x400 };
    let (h, p) = small.data(&img, 0).unwrap();
    assert!(h.is_none());
    assert_eq!(p.len(), 0x80);
}

#[test]
fn psp_range_exceeds_image() {
    let img = vec![0u8; 0x100];
    let e = PspDirectoryEntry { kind: 0x01, sub_program: 0, rom_id: 0, _03: 0, size: 0x20, value: 0xf0 };
    assert_eq!(
        e.data(&img, 0).unwrap_err(),
        ParseError::RangeExceedsImage { start: 0xf0, end: 0x110, image_len: 0x100 }
    );
    match e.display(&img, 0) {
        EntrySummary::Unavailable(ParseError::RangeExceedsImage { .. }) => {}
        other => panic!("unexpected summary {other:?}"),
    }
}

#[test]
fn psp_entry_classification() {
    let e = |kind: u8| PspDirectoryEntry { kind, sub_program: 0, rom_id: 0, _03: 0, size: 0, value: 0 };
    assert!(e(0x40).is_dir() && e(0x48).is_dir() && e(0x4a).is_dir());
    assert!(!e(0x49).is_dir());
    assert!(e(0x00).is_key() && e(0x22).is_key() && e(0x51).is_key());
    assert!(!e(0x08).is_key());
    assert!(e(0x4e).is_sig_key() && !e(0x09).is_sig_key());
    assert!(e(0x59).has_no_generic_header() && e(0x40).has_no_generic_header());
    assert!(!e(0x01).has_no_generic_header() && !e(0x0b).has_no_generic_header());
    assert_eq!(e(0x0b).description(), "PSP Soft Fuse Chain");
    assert_eq!(e(0x49).description(), "Recovery L2 BIOS Directory");
    assert_eq!(e(0xa2).description(), "FW UMSMU");
    assert_eq!(e(0x07).description(), "Unknown");
    assert!(matches!(e(0x0b).display(&[], 0), EntrySummary::SoftFuse));
    assert!(matches!(e(0x48).display(&[], 0), EntrySummary::Directory));
}

#[test]
fn psp_entry_type_codes() {
    assert_eq!(PspEntryType::try_from(0x49), Ok(PspEntryType::BiosLevel2Dir));
    assert_eq!(PspEntryType::try_from(0x4a).unwrap().code(), 0x4a);
    assert_eq!(
        PspEntryType::try_from(0x01),
        Err(ParseError::UnknownEntryKind { entry_kind: 0x01 })
    );
}

#[test]
fn magic_and_version_forms() {
    assert!(Magic(*b"AC5B").is_known());
    assert!(Magic(*b"AW0B").is_known());
    assert!(Magic(*b"0BAW").is_known());
    assert!(!Magic(*b"AC9B").is_known());
    assert!(!Magic(*b"$PS2").is_known());
    assert!(Version { major: 0, minor: 0, patch: 0, rev: 0 }.is_unversioned());
    assert!(Version { major: 0xff, minor: 0xff, patch: 0xff, rev: 0xff }.is_unversioned());
    assert!(!Version { major: 0, minor: 0, patch: 0, rev: 1 }.is_unversioned());
}

#[test]
fn backup_record() {
    let mut img = vec![0u8; 24];
    put_u32(&mut img, 16, 0x0009_0000);
    let bd = PspBackupDir::new(&img, 0x100).unwrap();
    assert_eq!(bd.addr, 0x0009_0000);
    assert_eq!(
        PspBackupDir::new(&img[..23], 0x100).unwrap_err(),
        ParseError::BackupDirectoryUnparsable { offset: 0x100 }
    );
}

#[test]
fn get_dir_masks_and_checks() {
    let mut img = vec![0u8; 0x3000];
    put_psp_dir(&mut img, 0x2000, b"$PSP", &[]);
    assert_eq!(get_dir(0xff00_2000, &img).unwrap().addr(), 0x2000);
    assert_eq!(get_dir(0, &img).unwrap_err(), ParseError::EmptyPointer { addr: 0 });
    assert_eq!(
        get_dir(0xffff_ffff, &img).unwrap_err(),
        ParseError::EmptyPointer { addr: 0xff_ffff }
    );
    assert_eq!(
        get_dir(0x8000, &img).unwrap_err(),
        ParseError::OffsetOutsideImage { offset: 0x8000, image_len: 0x3000 }
    );
}

#[test]
fn resolution_with_wider_mask() {
    let v = MODE1 | 0x0180_0000;
    assert_eq!(resolve_checked(v, 0), Some(0x80_0000));
    assert_eq!(resolve_masked(v, 0, 0x01ff_ffff), Some(0x0180_0000));
    assert_eq!(resolve_masked(MODE2 | 0x10, 0x100, 0x01ff_ffff), Some(0x110));
    assert_eq!(resolve_checked(MODE2 | 0x10, usize::MAX), None);
}

#[test]
fn bios_combo_directory() {
    let mut img = vec![0u8; 0x40];
    img[0..4].copy_from_slice(b"2BHD");
    put_u32(&mut img, 4, 0xdead_beef);
    put_u32(&mut img, 8, 1);
    put_u32(&mut img, 32, 1);
    put_u32(&mut img, 36, 0x0000_0017);
    put_u64(&mut img, 40, 0x0004_0000);
    let d = BiosComboDirectory::new(&img, 0x30).unwrap();
    assert_eq!(d.header().checksum, 0xdead_beef);
    assert_eq!(d.entries()[0].directory, 0x0004_0000);
    let any = Directory::new(&img, 0x30).unwrap();
    assert_eq!(any.kind(), DirectoryKind::BiosCombo);
    assert_eq!(any.get_checksum(), 0xdead_beef);
    assert_eq!(any.get_combo_header().unwrap().entries, 1);
    assert_eq!(
        BiosDirectory::new(&img, 0x30).unwrap_err(),
        ParseError::WrongDirectoryKind {
            expected: DirectoryKind::Bios,
            found: DirectoryKind::BiosCombo,
            offset: 0x30
        }
    );
}

#[test]
fn payloads_with_wider_mask() {
    let len = 0x0180_0100;
    let mut img = vec![0u8; len];
    img[0x0080_0000] = 3;
    img[0x0180_0000] = 7;
    let b = BiosDirectoryEntry {
        kind: 0x66,
        region_kind: 0,
        flags: 0,
        sub_program: 0,
        size: 1,
        source: MODE1 | 0x0180_0000,
        destination: 0,
    };
    assert_eq!(b.data(&img, 0).unwrap(), vec![3]);
    assert_eq!(b.data_masked(&img, 0, 0x01ff_ffff).unwrap(), vec![7]);
    let p = PspDirectoryEntry { kind: 0x0a, sub_program: 0, rom_id: 0, _03: 0, size: 1, value: MODE1 | 0x0180_0000 };
    assert_eq!(p.data(&img, 0).unwrap().1, vec![3]);
    assert_eq!(p.data_masked(&img, 0, 0x01ff_ffff).unwrap().1, vec![7]);
}
