use romulan::diff::{
    diff_addr, diff_bios, diff_efs, diff_psp, AddrComparison, Comparison, DiffItem, EntryOutcome,
    RootPointer, Side,
};
use romulan::directory::DirectoryKind;
use romulan::error::ParseError;
use romulan::rom::Rom;
use romulan::rom::get_dir;
use romulan::walk::{walk, walk_dir, WalkItem};

fn put_u32(img: &mut [u8], off: usize, v: u32) {
    img[off..off + 4].copy_from_slice(&v.to_le_bytes());
}

fn put_u64(img: &mut [u8], off: usize, v: u64) {
    img[off..off + 8].copy_from_slice(&v.to_le_bytes());
}

fn put_psp_dir(img: &mut [u8], off: usize, magic: &[u8; 4], entries: &[(u8, u8, u32, u64)]) {
    img[off..off + 4].copy_from_slice(magic);
    put_u32(img, off + 8, entries.len() as u32);
    for (i, (kind, sub, size, value)) in entries.iter().enumerate() {
        let e = off + 16 + 16 * i;
        img[e] = *kind;
        img[e + 1] = *sub;
        put_u32(img, e + 4, *size);
        put_u64(img, e + 8, *value);
    }
}

fn put_bios_dir(img: &mut [u8], off: usize, magic: &[u8; 4], entries: &[(u8, u8, u32, u64)]) {
    img[off..off + 4].copy_from_slice(magic);
    put_u32(img, off + 8, entries.len() as u32);
    for (i, (kind, flags, size, source)) in entries.iter().enumerate() {
        let e = off + 16 + 24 * i;
        img[e] = *kind;
        img[e + 2] = *flags;
        put_u32(img, e + 4, *size);
        put_u64(img, e + 8, *source);
    }
}

const MODE1: u64 = 0x4000_0000_0000_0000;

/// An image with the EFS at 0 whose modern PSP pointer is 0x1000.
fn image_with_psp(len: usize) -> Vec<u8> {
    let mut img = vec![0u8; len];
    put_u32(&mut img, 0, 0x55aa_55aa);
    put_u32(&mut img, 0x14, 0x1000);
    img
}

/// A `$PSP` directory whose level-2 entry points at a `$PL2` directory with two entries.
fn level2_image() -> Vec<u8> {
    let mut img = image_with_psp(0x4000);
    put_psp_dir(&mut img, 0x1000, b"$PSP", &[(0x40, 0, 0x40, MODE1 | 0x2000)]);
    put_psp_dir(
        &mut img,
        0x2000,
        b"$PL2",
        &[(0x01, 0, 0x20, MODE1 | 0x3000), (0x08, 0, 0x20, MODE1 | 0x3100)],
    );
    for i in 0..0x200 {
        img[0x3000 + i] = (i * 7 % 256) as u8;
    }
    img
}

fn psp_pairs(items: &[DiffItem]) -> Vec<(u8, EntryOutcome)> {
    items
        .iter()
        .filter_map(|it| match it {
            DiffItem::PspPair { psp_a, outcome, .. } => Some((psp_a.kind, *outcome)),
            _ => None,
        })
        .collect()
}

#[test]
fn level2_walk_and_identical_diff() {
    let img = level2_image();
    let rom = Rom::new(&img).unwrap();
    let items = walk(&rom);
    assert_eq!(items.len(), 2);
    match &items[0] {
        WalkItem::Found { depth: 0, path, dir } => {
            assert!(path.is_empty());
            assert_eq!(dir.kind(), DirectoryKind::Psp);
            assert_eq!(dir.addr(), 0x1000);
        }
        other => panic!("unexpected {other:?}"),
    }
    match &items[1] {
        WalkItem::Found { depth: 1, path, dir } => {
            assert_eq!(path, &vec![(DirectoryKind::Psp, 0)]);
            assert_eq!(dir.kind(), DirectoryKind::PspLevel2);
            assert_eq!(dir.addr(), 0x2000);
            assert_eq!(dir.get_psp_entries().is_err(), true);
        }
        other => panic!("unexpected {other:?}"),
    }

    let img2 = img.clone();
    let rom2 = Rom::new(&img2).unwrap();
    let report = diff_psp(&rom, &rom2);
    let pairs = psp_pairs(&report);
    assert_eq!(pairs.len(), 3);
    for (_, o) in &pairs {
        assert_eq!(*o, EntryOutcome::Compared(Comparison::Same));
    }
    assert!(!report.iter().any(|it| matches!(it, DiffItem::PspOnly { .. })));
    assert_eq!(report[0], DiffItem::Root { pointer: RootPointer::PspLegacy });
    assert_eq!(
        report[1],
        DiffItem::Warning { depth: 0, side: Side::A, error: ParseError::EmptyPointer { addr: 0 } }
    );
    assert_eq!(report[3], DiffItem::Root { pointer: RootPointer::Psp });
}

#[test]
fn one_payload_differs() {
    let a = level2_image();
    let mut b = level2_image();
    b[0x3110] ^= 0xff;
    let ra = Rom::new(&a).unwrap();
    let rb = Rom::new(&b).unwrap();
    let report = diff_psp(&ra, &rb);
    let pairs = psp_pairs(&report);
    assert_eq!(
        pairs,
        vec![
            (0x40, EntryOutcome::Compared(Comparison::Same)),
            (0x01, EntryOutcome::Compared(Comparison::Same)),
            (0x08, EntryOutcome::Compared(Comparison::Diff)),
        ]
    );
    assert!(!report.iter().any(|it| matches!(it, DiffItem::PspOnly { .. })));
}

#[test]
fn entries_only_on_one_side() {
    let mut a = image_with_psp(0x3000);
    put_psp_dir(&mut a, 0x1000, b"$PSP", &[(0x01, 0, 0x10, 0x2000), (0x08, 0, 0x10, 0x2000)]);
    let mut b = image_with_psp(0x3000);
    put_psp_dir(&mut b, 0x1000, b"$PSP", &[(0x08, 0, 0x10, 0x2000), (0x08, 1, 0x10, 0x2000)]);
    let ra = Rom::new(&a).unwrap();
    let rb = Rom::new(&b).unwrap();
    let report = diff_psp(&ra, &rb);
    let only: Vec<(Side, u8, u8)> = report
        .iter()
        .filter_map(|it| match it {
            DiffItem::PspOnly { side, psp_entry, .. } => {
                Some((*side, psp_entry.kind, psp_entry.sub_program))
            }
            _ => None,
        })
        .collect();
    assert_eq!(only, vec![(Side::A, 0x01, 0), (Side::B, 0x08, 1)]);
    assert_eq!(psp_pairs(&report), vec![(0x08, EntryOutcome::Compared(Comparison::Same))]);
}

#[test]
fn duplicate_keys_flagged() {
    let mut a = image_with_psp(0x3000);
    put_psp_dir(&mut a, 0x1000, b"$PSP", &[(0x08, 0, 0x10, 0x2000), (0x08, 0, 0x10, 0x2010)]);
    let mut b = image_with_psp(0x3000);
    put_psp_dir(&mut b, 0x1000, b"$PSP", &[(0x08, 0, 0x10, 0x2000)]);
    let ra = Rom::new(&a).unwrap();
    let rb = Rom::new(&b).unwrap();
    let report = diff_psp(&ra, &rb);
    let dir = report
        .iter()
        .find(|it| matches!(it, DiffItem::PspDir { .. }))
        .unwrap();
    match dir {
        DiffItem::PspDir { duplicate_keys_a, duplicate_keys_b, .. } => {
            assert!(*duplicate_keys_a);
            assert!(!*duplicate_keys_b);
        }
        _ => unreachable!(),
    }
    // both entries of the first side pair with the one of the second
    assert_eq!(psp_pairs(&report).len(), 2);
}

#[test]
fn directory_kinds_differ() {
    let mut a = image_with_psp(0x3000);
    put_psp_dir(&mut a, 0x1000, b"$PSP", &[]);
    let mut b = image_with_psp(0x3000);
    put_bios_dir(&mut b, 0x1000, b"$BHD", &[]);
    let ra = Rom::new(&a).unwrap();
    let rb = Rom::new(&b).unwrap();
    let report = diff_psp(&ra, &rb);
    assert!(report.contains(&DiffItem::KindMismatch {
        depth: 0,
        kind_a: DirectoryKind::Psp,
        kind_b: DirectoryKind::Bios
    }));
}

#[test]
fn one_side_unparsable() {
    let mut a = image_with_psp(0x3000);
    put_psp_dir(&mut a, 0x1000, b"$PSP", &[]);
    let mut b = image_with_psp(0x3000);
    b[0x1000..0x1004].copy_from_slice(b"XXXX");
    let ra = Rom::new(&a).unwrap();
    let rb = Rom::new(&b).unwrap();
    let report = diff_psp(&ra, &rb);
    assert_eq!(
        &report[3..6],
        &[
            DiffItem::Root { pointer: RootPointer::Psp },
            DiffItem::Unpaired { depth: 0, side: Side::A, kind: DirectoryKind::Psp, addr: 0x1000 },
            DiffItem::Warning {
                depth: 0,
                side: Side::B,
                error: ParseError::UnknownDirectorySignature { magic: 0x5858_5858, offset: 0x1000 }
            },
        ]
    );
}

/// A chain of `n` PSP directories, each pointing at the next through a level-2 entry.
fn chain_image(n: usize) -> Vec<u8> {
    let mut img = image_with_psp(0x1000 + 0x100 * (n + 1));
    for k in 0..n {
        let off = 0x1000 + 0x100 * k;
        put_psp_dir(&mut img, off, b"$PSP", &[(0x40, 0, 0x10, MODE1 | (off as u64 + 0x100))]);
    }
    img
}

#[test]
fn walk_stops_at_depth_limit() {
    let img = chain_image(12);
    let rom = Rom::new(&img).unwrap();
    let items = walk(&rom);
    let found = items.iter().filter(|w| matches!(w, WalkItem::Found { .. })).count();
    assert_eq!(found, 9);
    match items.last().unwrap() {
        WalkItem::TooDeep { depth: 9, path } => assert_eq!(path, &vec![(DirectoryKind::Psp, 0); 9]),
        other => panic!("unexpected {other:?}"),
    }
}

#[test]
fn diff_stops_at_depth_limit() {
    let img = chain_image(12);
    let rom = Rom::new(&img).unwrap();
    let report = diff_psp(&rom, &rom);
    assert!(report.contains(&DiffItem::DepthLimit { depth: 9 }));
    let dirs = report.iter().filter(|it| matches!(it, DiffItem::PspDir { .. })).count();
    assert_eq!(dirs, 9);
}

#[test]
fn walk_detects_cycle() {
    let mut img = image_with_psp(0x2000);
    put_psp_dir(&mut img, 0x1000, b"$PSP", &[(0x40, 0, 0x10, MODE1 | 0x1000)]);
    let rom = Rom::new(&img).unwrap();
    let items = walk(&rom);
    assert_eq!(items.len(), 2);
    match &items[1] {
        WalkItem::Revisit { depth: 1, path, kind: DirectoryKind::Psp, offset: 0x1000 } => {
            assert_eq!(path, &vec![(DirectoryKind::Psp, 0)]);
        }
        other => panic!("unexpected {other:?}"),
    }
}

#[test]
fn walk_reports_backup_failure() {
    let mut img = image_with_psp(0x2000);
    put_psp_dir(&mut img, 0x1000, b"$PSP", &[(0x48, 0, 0x10, MODE1 | 0x1ff0)]);
    let rom = Rom::new(&img).unwrap();
    let items = walk(&rom);
    assert!(matches!(
        items[1],
        WalkItem::Failed {
            depth: 1,
            error: ParseError::BackupDirectoryUnparsable { offset: 0x1ff0 },
            ..
        }
    ));
}

#[test]
fn walk_follows_backup_record() {
    let mut img = image_with_psp(0x4000);
    put_psp_dir(&mut img, 0x1000, b"$PSP", &[(0x4a, 0, 0x10, MODE1 | 0x1800)]);
    put_u32(&mut img, 0x1800 + 16, 0x2000);
    put_psp_dir(&mut img, 0x2000, b"$PL2", &[(0x49, 0, 0x10, MODE1 | 0x3000)]);
    put_bios_dir(&mut img, 0x3000, b"$BL2", &[]);
    let rom = Rom::new(&img).unwrap();
    let items = walk(&rom);
    let kinds: Vec<(usize, DirectoryKind, usize)> = items
        .iter()
        .filter_map(|w| match w {
            WalkItem::Found { depth, dir, .. } => Some((*depth, dir.kind(), dir.addr())),
            _ => None,
        })
        .collect();
    assert_eq!(
        kinds,
        vec![
            (0, DirectoryKind::Psp, 0x1000),
            (1, DirectoryKind::PspLevel2, 0x2000),
            (2, DirectoryKind::BiosLevel2, 0x3000),
        ]
    );
}

#[test]
fn bios_diff_range_error_and_sibling() {
    let len = 0x2000;
    let mut img = vec![0u8; len];
    put_u32(&mut img, 0, 0x55aa_55aa);
    put_u32(&mut img, 0x18, 0x1000);
    put_bios_dir(
        &mut img,
        0x1000,
        b"$BHD",
        &[(0x66, 0, 16, MODE1 | (len as u64 - 8)), (0x60, 0, 8, MODE1 | 0x200)],
    );
    let rom = Rom::new(&img).unwrap();
    let report = diff_bios(&rom, &rom);
    let outcomes: Vec<(u8, EntryOutcome)> = report
        .iter()
        .filter_map(|it| match it {
            DiffItem::BiosPair { bios_a, outcome, .. } => Some((bios_a.kind, *outcome)),
            _ => None,
        })
        .collect();
    assert_eq!(
        outcomes,
        vec![
            (
                0x66,
                EntryOutcome::Failed(
                    Side::A,
                    ParseError::RangeExceedsImage { start: len - 8, end: len + 8, image_len: len }
                )
            ),
            (0x60, EntryOutcome::Compared(Comparison::Same)),
        ]
    );
    assert_eq!(report[0], DiffItem::Root { pointer: RootPointer::BiosFam17Models00To0f });
}

#[test]
fn bios_level2_nested_diff() {
    let mut a = vec![0u8; 0x4000];
    put_u32(&mut a, 0, 0x55aa_55aa);
    put_u32(&mut a, 0x28, 0x1000);
    put_bios_dir(&mut a, 0x1000, b"$BHD", &[(0x70, 0, 0x100, MODE1 | 0x2000)]);
    put_bios_dir(&mut a, 0x2000, b"$BL2", &[(0x62, 0, 0x10, MODE1 | 0x3000)]);
    let mut b = a.clone();
    b[0x3004] = 1;
    let ra = Rom::new(&a).unwrap();
    let rb = Rom::new(&b).unwrap();
    let report = diff_bios(&ra, &rb);
    let outcomes: Vec<(usize, u8, EntryOutcome)> = report
        .iter()
        .filter_map(|it| match it {
            DiffItem::BiosPair { depth, bios_a, outcome, .. } => Some((*depth, bios_a.kind, *outcome)),
            _ => None,
        })
        .collect();
    assert_eq!(
        outcomes,
        vec![
            (0, 0x70, EntryOutcome::Nested),
            (1, 0x62, EntryOutcome::Compared(Comparison::Diff)),
        ]
    );
}

#[test]
fn combo_directories_paired_by_id() {
    let mut a = image_with_psp(0x4000);
    a[0x1000..0x1004].copy_from_slice(b"2PSP");
    put_u32(&mut a, 0x1008, 2);
    put_u32(&mut a, 0x1020, 0);
    put_u32(&mut a, 0x1024, 0xbc0c_0140);
    put_u64(&mut a, 0x1028, 0x2000);
    put_u32(&mut a, 0x1030, 0);
    put_u32(&mut a, 0x1034, 0xbc0d_0900);
    put_u64(&mut a, 0x1038, 0x3000);
    put_psp_dir(&mut a, 0x2000, b"$PSP", &[(0x01, 0, 0x10, 0x2800)]);
    put_psp_dir(&mut a, 0x3000, b"$PSP", &[(0x01, 0, 0x10, 0x3800)]);
    let ra = Rom::new(&a).unwrap();
    let report = diff_psp(&ra, &ra);
    let combos = report.iter().filter(|it| matches!(it, DiffItem::ComboPair { .. })).count();
    assert_eq!(combos, 2);
    let dirs: Vec<(usize, usize)> = report
        .iter()
        .filter_map(|it| match it {
            DiffItem::PspDir { depth, addr_a, .. } => Some((*depth, *addr_a)),
            _ => None,
        })
        .collect();
    assert_eq!(dirs, vec![(1, 0x2000), (1, 0x3000)]);
}

#[test]
fn addr_comparison_cases() {
    assert_eq!(diff_addr(None, None), AddrComparison::BothEmpty);
    assert_eq!(diff_addr(None, Some(5)), AddrComparison::OnlyB(5));
    assert_eq!(diff_addr(Some(5), None), AddrComparison::OnlyA(5));
    assert_eq!(diff_addr(Some(5), Some(5)), AddrComparison::BothEqual(5));
    assert_eq!(diff_addr(Some(5), Some(6)), AddrComparison::BothDiffer(5, 6));
}

#[test]
fn efs_field_comparison() {
    let mut a = vec![0u8; 0x100];
    put_u32(&mut a, 0, 0x55aa_55aa);
    let mut b = a.clone();
    put_u32(&mut a, 0x04, 0x100);
    put_u32(&mut b, 0x04, 0x100);
    put_u32(&mut b, 0x08, 0x200);
    put_u32(&mut a, 0x0c, 0x300);
    put_u32(&mut b, 0x0c, 0xffff_ffff);
    put_u32(&mut a, 0x14, 1);
    put_u32(&mut b, 0x14, 2);
    put_u32(&mut b, 0x24, 1);
    let ea = Rom::new(&a).unwrap().efs();
    let eb = Rom::new(&b).unwrap().efs();
    let d = diff_efs(&ea, &eb);
    assert_eq!(d.imc_fw, AddrComparison::BothEqual(0x100));
    assert_eq!(d.gbe_fw, AddrComparison::OnlyB(0x200));
    assert_eq!(d.xhci_fw, AddrComparison::OnlyA(0x300));
    assert_eq!(d.psp_17_00, AddrComparison::BothDiffer(1, 2));
    assert_eq!(d.psp_legacy, AddrComparison::BothEmpty);
    assert_eq!(d.lp_promontory, AddrComparison::BothEmpty);
    assert!(d.second_gen_a);
    assert!(!d.second_gen_b);
}

/// An image whose first BIOS pointer names a `2BHD` combo directory selecting one
/// `$BHD` directory at 0x2000.
fn bios_combo_image() -> Vec<u8> {
    let mut img = vec![0u8; 0x4000];
    put_u32(&mut img, 0, 0x55aa_55aa);
    put_u32(&mut img, 0x18, 0x1000);
    img[0x1000..0x1004].copy_from_slice(b"2BHD");
    put_u32(&mut img, 0x1008, 1);
    put_u32(&mut img, 0x1020, 1);
    put_u32(&mut img, 0x1024, 0x17);
    put_u64(&mut img, 0x1028, 0x2000);
    put_bios_dir(&mut img, 0x2000, b"$BHD", &[(0x66, 0, 0x10, MODE1 | 0x3000), (0x05, 0, 0x10, MODE1 | 0x3100)]);
    img
}

#[test]
fn walk_through_bios_combo() {
    let img = bios_combo_image();
    let rom = Rom::new(&img).unwrap();
    let items = walk(&rom);
    assert_eq!(items.len(), 2);
    match &items[1] {
        WalkItem::Found { depth: 1, path, dir } => {
            assert_eq!(path, &vec![(DirectoryKind::BiosCombo, 0)]);
            assert_eq!(dir.kind(), DirectoryKind::Bios);
            assert_eq!(dir.get_bios_entries().unwrap().len(), 2);
        }
        other => panic!("unexpected {other:?}"),
    }
}

#[test]
fn bios_combo_diff() {
    let a = bios_combo_image();
    let mut b = bios_combo_image();
    b[0x3100] = 0x5a;
    let ra = Rom::new(&a).unwrap();
    let rb = Rom::new(&b).unwrap();
    let report = diff_bios(&ra, &rb);
    assert!(report.iter().any(|it| matches!(it, DiffItem::ComboPair { depth: 0, .. })));
    let outcomes: Vec<(usize, u8, EntryOutcome)> = report
        .iter()
        .filter_map(|it| match it {
            DiffItem::BiosPair { depth, bios_a, outcome, .. } => Some((*depth, bios_a.kind, *outcome)),
            _ => None,
        })
        .collect();
    assert_eq!(
        outcomes,
        vec![
            (1, 0x66, EntryOutcome::Compared(Comparison::Same)),
            (1, 0x05, EntryOutcome::Compared(Comparison::Diff)),
        ]
    );
}

#[test]
fn walk_from_one_directory() {
    let img = level2_image();
    let dir = get_dir(0x2000, &img).unwrap();
    let items = walk_dir(&img, dir);
    assert_eq!(items.len(), 1);
    assert!(matches!(&items[0], WalkItem::Found { depth: 0, .. }));
}

#[test]
fn diff_self_reference_compared_once() {
    let mut img = image_with_psp(0x2000);
    put_psp_dir(&mut img, 0x1000, b"$PSP", &[(0x40, 0, 0x10, MODE1 | 0x1000)]);
    let rom = Rom::new(&img).unwrap();
    let report = diff_psp(&rom, &rom);
    assert_eq!(report.len(), 7);
    assert_eq!(
        report[6],
        DiffItem::Revisit { depth: 1, kind: DirectoryKind::Psp, addr_a: 0x1000, addr_b: 0x1000 }
    );
    assert!(matches!(report[4], DiffItem::PspDir { depth: 0, addr_a: 0x1000, .. }));
    assert!(matches!(report[5], DiffItem::PspPair { depth: 0, .. }));
}

#[test]
fn diff_fan_out_to_self_stays_small() {
    let mut img = image_with_psp(0x2000);
    let entries: Vec<(u8, u8, u32, u64)> =
        (0..16u8).map(|sub| (0x40, sub, 0x10, MODE1 | 0x1000)).collect();
    put_psp_dir(&mut img, 0x1000, b"$PSP", &entries);
    let rom = Rom::new(&img).unwrap();
    let report = diff_psp(&rom, &rom);
    let dirs = report.iter().filter(|it| matches!(it, DiffItem::PspDir { .. })).count();
    let revisits = report.iter().filter(|it| matches!(it, DiffItem::Revisit { .. })).count();
    assert_eq!(dirs, 1);
    assert_eq!(revisits, 16);
    assert!(!report.iter().any(|it| matches!(it, DiffItem::DepthLimit { .. })));
}

#[test]
fn diff_chain_still_stops_at_depth_limit() {
    let img = chain_image(12);
    let rom = Rom::new(&img).unwrap();
    let report = diff_psp(&rom, &rom);
    assert!(!report.iter().any(|it| matches!(it, DiffItem::Revisit { .. })));
}

#[test]
fn walk_level2_must_be_psp() {
    let mut img = image_with_psp(0x3000);
    put_psp_dir(&mut img, 0x1000, b"$PSP", &[(0x40, 0, 0x10, MODE1 | 0x2000)]);
    put_bios_dir(&mut img, 0x2000, b"$BL2", &[]);
    let rom = Rom::new(&img).unwrap();
    let items = walk(&rom);
    assert_eq!(items.len(), 2);
    assert!(matches!(
        items[1],
        WalkItem::Failed {
            depth: 1,
            error: ParseError::WrongDirectoryKind {
                expected: DirectoryKind::Psp,
                found: DirectoryKind::BiosLevel2,
                offset: 0x2000
            },
            ..
        }
    ));
}
