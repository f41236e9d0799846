//! The compare engine: pairs the entries of two images' directory trees by
//! stable keys and reports which payloads are the same, which differ, and
//! which entries only one side has.
use vstd::prelude::*;

use crate::bios::{bios_payload, BiosDirectory, BiosDirectoryEntry};
use crate::directory::{
    resolve_checked, resolved, spec_parse_directory, view_result, ComboDirectoryEntry, ComboView,
    DirView, Directory, DirectoryKind, DirectoryView,
};
use crate::error::ParseError;
use crate::flash::{real_addr, get_real_addr, EFS};
use crate::psp::{
    psp_payload, spec_parse_backup_dir, spec_parse_psp_directory, PspBackupDir, PspDirectory,
    PspDirectoryEntry,
};
use crate::rom::{spec_get_dir, Rom};

verus! {

/// How deep the comparison descends into level-2 and combo references.
pub const MAX_DEPTH: usize = 8;

/// Whether two paired payloads hold the same bytes.
#[derive(Clone, Copy, Debug, PartialEq, Eq, Structural)]
pub enum Comparison {
    Diff,
    Same,
}

/// One of the two images under comparison.
#[derive(Clone, Copy, Debug, PartialEq, Eq, Structural)]
pub enum Side {
    A,
    B,
}

/// How a pointer field of the two EFS records compares.
#[derive(Clone, Copy, Debug, PartialEq, Eq, Structural)]
pub enum AddrComparison {
    BothEmpty,
    OnlyA(u32),
    OnlyB(u32),
    BothEqual(u32),
    BothDiffer(u32, u32),
}

/// What became of a pair of entries with the same key.
#[derive(Clone, Copy, Debug, PartialEq, Eq, Structural)]
pub enum EntryOutcome {
    /// Both payloads were extracted and compared.
    Compared(Comparison),
    /// The payload of one side could not be extracted.
    Failed(Side, ParseError),
    /// A BIOS level-2 directory pointer: the directories it names are compared instead.
    Nested,
}

/// The EFS pointer that a part of the report starts from.
#[derive(Clone, Copy, Debug, PartialEq, Eq, Structural)]
pub enum RootPointer {
    PspLegacy,
    Psp,
    BiosFam17Models00To0f,
    BiosFam17Models10To1f,
    BiosFam17Models30To3fFam19Models00To0f,
    BiosFam17Model60On,
}

/// One record of a comparison report. Records come depth-first: the header of a
/// pair of directories, then its paired entries in the order of the first side,
/// each followed by the comparison of the directories it points at, then the
/// entries that only the first side has, then those that only the second has.
#[derive(Clone, Copy, Debug, PartialEq, Eq, Structural)]
pub enum DiffItem {
    /// The directories named by this EFS pointer follow.
    Root { pointer: RootPointer },
    /// Two directories of different shapes; they are not compared.
    KindMismatch { depth: usize, kind_a: DirectoryKind, kind_b: DirectoryKind },
    /// A directory that parsed on one side only.
    Unpaired { depth: usize, side: Side, kind: DirectoryKind, addr: usize },
    /// A directory or record that could not be parsed on one side.
    Warning { depth: usize, side: Side, error: ParseError },
    /// A reference that was not followed because the depth limit was reached.
    DepthLimit { depth: usize },
    /// A pair of directories of this shape that was compared before in the same
    /// traversal; it is not compared again.
    Revisit { depth: usize, kind: DirectoryKind, addr_a: usize, addr_b: usize },
    /// Two PSP directories; the flags mark a side whose pairing keys repeat.
    PspDir {
        depth: usize,
        addr_a: usize,
        addr_b: usize,
        checksum_a: u32,
        checksum_b: u32,
        duplicate_keys_a: bool,
        duplicate_keys_b: bool,
    },
    PspPair {
        depth: usize,
        dir_a: usize,
        dir_b: usize,
        psp_a: PspDirectoryEntry,
        psp_b: PspDirectoryEntry,
        outcome: EntryOutcome,
    },
    PspOnly { depth: usize, side: Side, dir: usize, psp_entry: PspDirectoryEntry },
    /// Two BIOS directories; the flags mark a side whose pairing keys repeat.
    BiosDir {
        depth: usize,
        addr_a: usize,
        addr_b: usize,
        checksum_a: u32,
        checksum_b: u32,
        duplicate_keys_a: bool,
        duplicate_keys_b: bool,
    },
    BiosPair {
        depth: usize,
        dir_a: usize,
        dir_b: usize,
        bios_a: BiosDirectoryEntry,
        bios_b: BiosDirectoryEntry,
        outcome: EntryOutcome,
    },
    BiosOnly { depth: usize, side: Side, dir: usize, bios_entry: BiosDirectoryEntry },
    /// Two combo directories of the same kind.
    ComboDir {
        depth: usize,
        addr_a: usize,
        addr_b: usize,
        checksum_a: u32,
        checksum_b: u32,
        duplicate_keys_a: bool,
        duplicate_keys_b: bool,
    },
    ComboPair { depth: usize, combo_a: ComboDirectoryEntry, combo_b: ComboDirectoryEntry },
    ComboOnly { depth: usize, side: Side, combo_entry: ComboDirectoryEntry },
}

/// A pair of directories met in a traversal: their shape (`Psp` for PSP and PSP
/// level-2 directories, `Bios` for BIOS and BIOS level-2 directories, the combo
/// kind for combos), and their offsets in the two images.
pub type VisitKey = (DirectoryKind, usize, usize);

// Pairing keys

/// The pairing key of a PSP entry: kind and sub-program.
pub open spec fn psp_key(e: PspDirectoryEntry) -> u64 {
    ((e.kind as u64) * 0x100 + (e.sub_program as u64)) as u64
}

/// The pairing key of a BIOS entry: kind, sub-program and flags.
pub open spec fn bios_key(e: BiosDirectoryEntry) -> u64 {
    ((e.kind as u64) * 0x1_0000 + (e.sub_program as u64) * 0x100 + (e.flags as u64)) as u64
}

/// The pairing key of a combo entry: ID selector and ID.
pub open spec fn combo_key(e: ComboDirectoryEntry) -> u64 {
    ((e.id_select as u64) * 0x1_0000_0000 + (e.id.0 as u64)) as u64
}

pub open spec fn psp_keys(es: Seq<PspDirectoryEntry>) -> Seq<u64> {
    Seq::new(es.len(), |i: int| psp_key(es[i]))
}

pub open spec fn bios_keys(es: Seq<BiosDirectoryEntry>) -> Seq<u64> {
    Seq::new(es.len(), |i: int| bios_key(es[i]))
}

pub open spec fn combo_keys(es: Seq<ComboDirectoryEntry>) -> Seq<u64> {
    Seq::new(es.len(), |i: int| combo_key(es[i]))
}

/// The first index at or past `j` that holds `k`.
pub open spec fn first_index_from(keys: Seq<u64>, k: u64, j: int) -> Option<int>
    decreases keys.len() - j,
{
    if j < 0 || j >= keys.len() {
        None
    } else if keys[j] == k {
        Some(j)
    } else {
        first_index_from(keys, k, j + 1)
    }
}

/// The first index that holds `k`.
pub open spec fn first_index(keys: Seq<u64>, k: u64) -> Option<int> {
    first_index_from(keys, k, 0)
}

/// No key occurs twice.
pub open spec fn unique_keys(keys: Seq<u64>) -> bool {
    forall|i: int, j: int| 0 <= i < j < keys.len() ==> keys[i] != keys[j]
}

// Entry comparisons

pub open spec fn compare_bytes(x: Seq<u8>, y: Seq<u8>) -> Comparison {
    if x == y {
        Comparison::Same
    } else {
        Comparison::Diff
    }
}

/// The outcome for PSP entries `a` (of the directory at `da` in `img_a`) and `b`.
pub open spec fn psp_outcome(
    a: PspDirectoryEntry,
    b: PspDirectoryEntry,
    img_a: Seq<u8>,
    img_b: Seq<u8>,
    da: usize,
    db: usize,
) -> EntryOutcome {
    match psp_payload(a, img_a, da) {
        Err(e) => EntryOutcome::Failed(Side::A, e),
        Ok((_, x)) => match psp_payload(b, img_b, db) {
            Err(e) => EntryOutcome::Failed(Side::B, e),
            Ok((_, y)) => EntryOutcome::Compared(compare_bytes(x, y)),
        },
    }
}

/// The outcome for BIOS entries `a` (of the directory at `da` in `img_a`) and `b`.
pub open spec fn bios_outcome(
    a: BiosDirectoryEntry,
    b: BiosDirectoryEntry,
    img_a: Seq<u8>,
    img_b: Seq<u8>,
    da: usize,
    db: usize,
) -> EntryOutcome {
    match bios_payload(a, img_a, da) {
        Err(e) => EntryOutcome::Failed(Side::A, e),
        Ok(x) => match bios_payload(b, img_b, db) {
            Err(e) => EntryOutcome::Failed(Side::B, e),
            Ok(y) => EntryOutcome::Compared(compare_bytes(x, y)),
        },
    }
}

// Reaching referenced directories

/// The directory of any shape at `off` in `img`.
pub open spec fn dir_at(img: Seq<u8>, off: Option<usize>) -> Result<DirectoryView, ParseError> {
    match off {
        None => Err(ParseError::OffsetOutsideImage { offset: usize::MAX, image_len: img.len() as usize }),
        Some(o) => if o >= img.len() {
            Err(ParseError::OffsetOutsideImage { offset: o, image_len: img.len() as usize })
        } else {
            spec_parse_directory(img.subrange(o as int, img.len() as int), o)
        },
    }
}

/// The PSP directory at `off` in `img`.
pub open spec fn psp_dir_at(img: Seq<u8>, off: Option<usize>) -> Result<
    DirView<PspDirectoryEntry>,
    ParseError,
> {
    match off {
        None => Err(ParseError::OffsetOutsideImage { offset: usize::MAX, image_len: img.len() as usize }),
        Some(o) => if o >= img.len() {
            Err(ParseError::OffsetOutsideImage { offset: o, image_len: img.len() as usize })
        } else {
            spec_parse_psp_directory(img.subrange(o as int, img.len() as int), o)
        },
    }
}

/// The PSP directory that the backup record at `off` in `img` points at.
pub open spec fn backup_target(img: Seq<u8>, off: Option<usize>) -> Result<
    DirView<PspDirectoryEntry>,
    ParseError,
> {
    match off {
        None => Err(ParseError::BackupDirectoryUnparsable { offset: usize::MAX }),
        Some(o) => if o >= img.len() {
            Err(ParseError::BackupDirectoryUnparsable { offset: o })
        } else {
            match spec_parse_backup_dir(img.subrange(o as int, img.len() as int), o) {
                Err(e) => Err(e),
                Ok(bd) => psp_dir_at(img, Some(bd.addr as usize)),
            }
        },
    }
}

/// The records of the entries of `es` that have no key in `other`, in order, from
/// the first `n` entries.
pub open spec fn psp_only(
    es: Seq<PspDirectoryEntry>,
    other: Seq<u64>,
    side: Side,
    dir: usize,
    depth: usize,
    n: nat,
) -> Seq<DiffItem>
    decreases n,
{
    if n == 0 || n > es.len() {
        seq![]
    } else {
        let prev = psp_only(es, other, side, dir, depth, (n - 1) as nat);
        if first_index(other, psp_key(es[n - 1])) is Some {
            prev
        } else {
            prev.push(DiffItem::PspOnly { depth, side, dir, psp_entry: es[n - 1] })
        }
    }
}

pub open spec fn bios_only(
    es: Seq<BiosDirectoryEntry>,
    other: Seq<u64>,
    side: Side,
    dir: usize,
    depth: usize,
    n: nat,
) -> Seq<DiffItem>
    decreases n,
{
    if n == 0 || n > es.len() {
        seq![]
    } else {
        let prev = bios_only(es, other, side, dir, depth, (n - 1) as nat);
        if first_index(other, bios_key(es[n - 1])) is Some {
            prev
        } else {
            prev.push(DiffItem::BiosOnly { depth, side, dir, bios_entry: es[n - 1] })
        }
    }
}

pub open spec fn combo_only(
    es: Seq<ComboDirectoryEntry>,
    other: Seq<u64>,
    side: Side,
    depth: usize,
    n: nat,
) -> Seq<DiffItem>
    decreases n,
{
    if n == 0 || n > es.len() {
        seq![]
    } else {
        let prev = combo_only(es, other, side, depth, (n - 1) as nat);
        if first_index(other, combo_key(es[n - 1])) is Some {
            prev
        } else {
            prev.push(DiffItem::ComboOnly { depth, side, combo_entry: es[n - 1] })
        }
    }
}

// The recursive report. Each function's measure is (depth budget, rank, prefix).
// A traversal threads the set of directory pairs it has compared, keyed by
// (shape, offset in the first image, offset in the second); a pair met again
// yields a `Revisit` record and is not compared twice.

/// A report and the visited set after it.
pub type Reported = (Seq<DiffItem>, Seq<VisitKey>);

/// The report for two parse results of directories at `depth`.
pub open spec fn results_report(
    img_a: Seq<u8>,
    img_b: Seq<u8>,
    ra: Result<DirectoryView, ParseError>,
    rb: Result<DirectoryView, ParseError>,
    depth: usize,
    visited: Seq<VisitKey>,
) -> Reported
    decreases MAX_DEPTH - depth, 5nat, 0nat,
{
    match ra {
        Ok(da) => match rb {
            Ok(db) => dirs_report(img_a, img_b, da, db, depth, visited),
            Err(e) => (
                seq![
                    DiffItem::Unpaired { depth, side: Side::A, kind: da.kind(), addr: da.addr() },
                    DiffItem::Warning { depth, side: Side::B, error: e },
                ],
                visited,
            ),
        },
        Err(e) => match rb {
            Ok(db) => (
                seq![
                    DiffItem::Warning { depth, side: Side::A, error: e },
                    DiffItem::Unpaired { depth, side: Side::B, kind: db.kind(), addr: db.addr() },
                ],
                visited,
            ),
            Err(f) => (
                seq![
                    DiffItem::Warning { depth, side: Side::A, error: e },
                    DiffItem::Warning { depth, side: Side::B, error: f },
                ],
                visited,
            ),
        },
    }
}

/// The report for two parse results of PSP directories at `depth`.
pub open spec fn psp_results_report(
    img_a: Seq<u8>,
    img_b: Seq<u8>,
    ra: Result<DirView<PspDirectoryEntry>, ParseError>,
    rb: Result<DirView<PspDirectoryEntry>, ParseError>,
    depth: usize,
    visited: Seq<VisitKey>,
) -> Reported
    decreases MAX_DEPTH - depth, 5nat, 0nat,
{
    match ra {
        Ok(da) => match rb {
            Ok(db) => psp_report(img_a, img_b, da, db, depth, visited),
            Err(e) => (
                seq![
                    DiffItem::Unpaired { depth, side: Side::A, kind: DirectoryKind::Psp, addr: da.addr },
                    DiffItem::Warning { depth, side: Side::B, error: e },
                ],
                visited,
            ),
        },
        Err(e) => match rb {
            Ok(db) => (
                seq![
                    DiffItem::Warning { depth, side: Side::A, error: e },
                    DiffItem::Unpaired { depth, side: Side::B, kind: DirectoryKind::Psp, addr: db.addr },
                ],
                visited,
            ),
            Err(f) => (
                seq![
                    DiffItem::Warning { depth, side: Side::A, error: e },
                    DiffItem::Warning { depth, side: Side::B, error: f },
                ],
                visited,
            ),
        },
    }
}

/// The report for two parsed directories at `depth`: compared where they have the
/// same shape.
pub open spec fn dirs_report(
    img_a: Seq<u8>,
    img_b: Seq<u8>,
    da: DirectoryView,
    db: DirectoryView,
    depth: usize,
    visited: Seq<VisitKey>,
) -> Reported
    decreases MAX_DEPTH - depth, 4nat, 0nat,
{
    let mismatch = (seq![DiffItem::KindMismatch { depth, kind_a: da.kind(), kind_b: db.kind() }], visited);
    match da {
        DirectoryView::Psp(x) | DirectoryView::PspLevel2(x) => match db {
            DirectoryView::Psp(y) | DirectoryView::PspLevel2(y) => psp_report(
                img_a,
                img_b,
                x,
                y,
                depth,
                visited,
            ),
            _ => mismatch,
        },
        DirectoryView::Bios(x) | DirectoryView::BiosLevel2(x) => match db {
            DirectoryView::Bios(y) | DirectoryView::BiosLevel2(y) => bios_report(
                img_a,
                img_b,
                x,
                y,
                depth,
                visited,
            ),
            _ => mismatch,
        },
        DirectoryView::PspCombo(x) => match db {
            DirectoryView::PspCombo(y) => combo_report(
                img_a,
                img_b,
                DirectoryKind::PspCombo,
                x,
                y,
                depth,
                visited,
            ),
            _ => mismatch,
        },
        DirectoryView::BiosCombo(x) => match db {
            DirectoryView::BiosCombo(y) => combo_report(
                img_a,
                img_b,
                DirectoryKind::BiosCombo,
                x,
                y,
                depth,
                visited,
            ),
            _ => mismatch,
        },
    }
}

/// The report for two PSP directories at `depth`: a `Revisit` record alone where
/// the pair was compared before in this traversal.
pub open spec fn psp_report(
    img_a: Seq<u8>,
    img_b: Seq<u8>,
    da: DirView<PspDirectoryEntry>,
    db: DirView<PspDirectoryEntry>,
    depth: usize,
    visited: Seq<VisitKey>,
) -> Reported
    decreases MAX_DEPTH - depth, 3nat, 0nat,
{
    let key = (DirectoryKind::Psp, da.addr, db.addr);
    if visited.contains(key) {
        (
            seq![DiffItem::Revisit { depth, kind: DirectoryKind::Psp, addr_a: da.addr, addr_b: db.addr }],
            visited,
        )
    } else {
        let ka = psp_keys(da.entries);
        let kb = psp_keys(db.entries);
        let p = psp_pairs(img_a, img_b, da, db, depth, da.entries.len(), visited.push(key));
        (
            seq![
                DiffItem::PspDir {
                    depth,
                    addr_a: da.addr,
                    addr_b: db.addr,
                    checksum_a: da.header.checksum,
                    checksum_b: db.header.checksum,
                    duplicate_keys_a: !unique_keys(ka),
                    duplicate_keys_b: !unique_keys(kb),
                },
            ] + p.0 + psp_only(da.entries, kb, Side::A, da.addr, depth, da.entries.len())
                + psp_only(db.entries, ka, Side::B, db.addr, depth, db.entries.len()),
            p.1,
        )
    }
}

/// The records of the paired entries among the first `n` of `da`, each followed by
/// the comparison of what it points at.
pub open spec fn psp_pairs(
    img_a: Seq<u8>,
    img_b: Seq<u8>,
    da: DirView<PspDirectoryEntry>,
    db: DirView<PspDirectoryEntry>,
    depth: usize,
    n: nat,
    visited: Seq<VisitKey>,
) -> Reported
    decreases MAX_DEPTH - depth, 2nat, n,
{
    if n == 0 || n > da.entries.len() {
        (seq![], visited)
    } else {
        let prev = psp_pairs(img_a, img_b, da, db, depth, (n - 1) as nat, visited);
        let a = da.entries[n - 1];
        match first_index(psp_keys(db.entries), psp_key(a)) {
            None => prev,
            Some(j) => {
                let b = db.entries[j];
                let s = psp_sub(img_a, img_b, a, b, da.addr, db.addr, depth, prev.1);
                (
                    prev.0.push(
                        DiffItem::PspPair {
                            depth,
                            dir_a: da.addr,
                            dir_b: db.addr,
                            psp_a: a,
                            psp_b: b,
                            outcome: psp_outcome(a, b, img_a, img_b, da.addr, db.addr),
                        },
                    ) + s.0,
                    s.1,
                )
            },
        }
    }
}

/// The comparison of the directories that paired PSP entries point at.
pub open spec fn psp_sub(
    img_a: Seq<u8>,
    img_b: Seq<u8>,
    a: PspDirectoryEntry,
    b: PspDirectoryEntry,
    da: usize,
    db: usize,
    depth: usize,
    visited: Seq<VisitKey>,
) -> Reported
    decreases MAX_DEPTH - depth, 1nat, 0nat,
{
    if a.kind != 0x40 && a.kind != 0x48 && a.kind != 0x4a && a.kind != 0x49 {
        (seq![], visited)
    } else if depth + 1 > MAX_DEPTH {
        (seq![DiffItem::DepthLimit { depth: (depth + 1) as usize }], visited)
    } else if a.kind == 0x40 {
        psp_results_report(
            img_a,
            img_b,
            psp_dir_at(img_a, resolved(a.value, da)),
            psp_dir_at(img_b, resolved(b.value, db)),
            (depth + 1) as usize,
            visited,
        )
    } else if a.kind == 0x49 {
        results_report(
            img_a,
            img_b,
            dir_at(img_a, resolved(a.value, da)),
            dir_at(img_b, resolved(b.value, db)),
            (depth + 1) as usize,
            visited,
        )
    } else {
        psp_results_report(
            img_a,
            img_b,
            backup_target(img_a, resolved(a.value, da)),
            backup_target(img_b, resolved(b.value, db)),
            (depth + 1) as usize,
            visited,
        )
    }
}

/// The report for two BIOS directories at `depth`: a `Revisit` record alone where
/// the pair was compared before in this traversal.
pub open spec fn bios_report(
    img_a: Seq<u8>,
    img_b: Seq<u8>,
    da: DirView<BiosDirectoryEntry>,
    db: DirView<BiosDirectoryEntry>,
    depth: usize,
    visited: Seq<VisitKey>,
) -> Reported
    decreases MAX_DEPTH - depth, 3nat, 0nat,
{
    let key = (DirectoryKind::Bios, da.addr, db.addr);
    if visited.contains(key) {
        (
            seq![DiffItem::Revisit { depth, kind: DirectoryKind::Bios, addr_a: da.addr, addr_b: db.addr }],
            visited,
        )
    } else {
        let ka = bios_keys(da.entries);
        let kb = bios_keys(db.entries);
        let p = bios_pairs(img_a, img_b, da, db, depth, da.entries.len(), visited.push(key));
        (
            seq![
                DiffItem::BiosDir {
                    depth,
                    addr_a: da.addr,
                    addr_b: db.addr,
                    checksum_a: da.header.checksum,
                    checksum_b: db.header.checksum,
                    duplicate_keys_a: !unique_keys(ka),
                    duplicate_keys_b: !unique_keys(kb),
                },
            ] + p.0 + bios_only(da.entries, kb, Side::A, da.addr, depth, da.entries.len())
                + bios_only(db.entries, ka, Side::B, db.addr, depth, db.entries.len()),
            p.1,
        )
    }
}

/// The records of the paired entries among the first `n` of `da`; a pair of BIOS
/// level-2 directory pointers is followed by the comparison of those directories.
pub open spec fn bios_pairs(
    img_a: Seq<u8>,
    img_b: Seq<u8>,
    da: DirView<BiosDirectoryEntry>,
    db: DirView<BiosDirectoryEntry>,
    depth: usize,
    n: nat,
    visited: Seq<VisitKey>,
) -> Reported
    decreases MAX_DEPTH - depth, 2nat, n,
{
    if n == 0 || n > da.entries.len() {
        (seq![], visited)
    } else {
        let prev = bios_pairs(img_a, img_b, da, db, depth, (n - 1) as nat, visited);
        let a = da.entries[n - 1];
        match first_index(bios_keys(db.entries), bios_key(a)) {
            None => prev,
            Some(j) => {
                let b = db.entries[j];
                if a.kind == 0x70 {
                    let s = bios_sub(img_a, img_b, a, b, da.addr, db.addr, depth, prev.1);
                    (
                        prev.0.push(
                            DiffItem::BiosPair {
                                depth,
                                dir_a: da.addr,
                                dir_b: db.addr,
                                bios_a: a,
                                bios_b: b,
                                outcome: EntryOutcome::Nested,
                            },
                        ) + s.0,
                        s.1,
                    )
                } else {
                    (
                        prev.0.push(
                            DiffItem::BiosPair {
                                depth,
                                dir_a: da.addr,
                                dir_b: db.addr,
                                bios_a: a,
                                bios_b: b,
                                outcome: bios_outcome(a, b, img_a, img_b, da.addr, db.addr),
                            },
                        ),
                        prev.1,
                    )
                }
            },
        }
    }
}

/// The comparison of the level-2 directories that paired BIOS entries point at.
pub open spec fn bios_sub(
    img_a: Seq<u8>,
    img_b: Seq<u8>,
    a: BiosDirectoryEntry,
    b: BiosDirectoryEntry,
    da: usize,
    db: usize,
    depth: usize,
    visited: Seq<VisitKey>,
) -> Reported
    decreases MAX_DEPTH - depth, 1nat, 0nat,
{
    if depth + 1 > MAX_DEPTH {
        (seq![DiffItem::DepthLimit { depth: (depth + 1) as usize }], visited)
    } else {
        results_report(
            img_a,
            img_b,
            dir_at(img_a, resolved(a.source, da)),
            dir_at(img_b, resolved(b.source, db)),
            (depth + 1) as usize,
            visited,
        )
    }
}

/// The report for two combo directories of kind `kind` at `depth`: a `Revisit`
/// record alone where the pair was compared before in this traversal.
pub open spec fn combo_report(
    img_a: Seq<u8>,
    img_b: Seq<u8>,
    kind: DirectoryKind,
    ca: ComboView,
    cb: ComboView,
    depth: usize,
    visited: Seq<VisitKey>,
) -> Reported
    decreases MAX_DEPTH - depth, 3nat, 0nat,
{
    let key = (kind, ca.addr, cb.addr);
    if visited.contains(key) {
        (seq![DiffItem::Revisit { depth, kind, addr_a: ca.addr, addr_b: cb.addr }], visited)
    } else {
        let ka = combo_keys(ca.entries);
        let kb = combo_keys(cb.entries);
        let p = combo_pairs(img_a, img_b, ca, cb, depth, ca.entries.len(), visited.push(key));
        (
            seq![
                DiffItem::ComboDir {
                    depth,
                    addr_a: ca.addr,
                    addr_b: cb.addr,
                    checksum_a: ca.header.checksum,
                    checksum_b: cb.header.checksum,
                    duplicate_keys_a: !unique_keys(ka),
                    duplicate_keys_b: !unique_keys(kb),
                },
            ] + p.0 + combo_only(ca.entries, kb, Side::A, depth, ca.entries.len()) + combo_only(
                cb.entries,
                ka,
                Side::B,
                depth,
                cb.entries.len(),
            ),
            p.1,
        )
    }
}

/// `d` masked to the 24 bits that locate a directory.
pub open spec fn combo_target(d: u64) -> Option<usize> {
    Some((d & crate::directory::MAPPING_MASK) as usize)
}

/// The records of the paired entries among the first `n` of `ca`, each followed by
/// the comparison of the directories they select.
pub open spec fn combo_pairs(
    img_a: Seq<u8>,
    img_b: Seq<u8>,
    ca: ComboView,
    cb: ComboView,
    depth: usize,
    n: nat,
    visited: Seq<VisitKey>,
) -> Reported
    decreases MAX_DEPTH - depth, 2nat, n,
{
    if n == 0 || n > ca.entries.len() {
        (seq![], visited)
    } else {
        let prev = combo_pairs(img_a, img_b, ca, cb, depth, (n - 1) as nat, visited);
        let a = ca.entries[n - 1];
        match first_index(combo_keys(cb.entries), combo_key(a)) {
            None => prev,
            Some(j) => {
                let b = cb.entries[j];
                let s = combo_sub(img_a, img_b, a, b, depth, prev.1);
                (prev.0.push(DiffItem::ComboPair { depth, combo_a: a, combo_b: b }) + s.0, s.1)
            },
        }
    }
}

/// The comparison of the directories that paired combo entries select.
pub open spec fn combo_sub(
    img_a: Seq<u8>,
    img_b: Seq<u8>,
    a: ComboDirectoryEntry,
    b: ComboDirectoryEntry,
    depth: usize,
    visited: Seq<VisitKey>,
) -> Reported
    decreases MAX_DEPTH - depth, 1nat, 0nat,
{
    if depth + 1 > MAX_DEPTH {
        (seq![DiffItem::DepthLimit { depth: (depth + 1) as usize }], visited)
    } else {
        results_report(
            img_a,
            img_b,
            dir_at(img_a, combo_target(a.directory)),
            dir_at(img_b, combo_target(b.directory)),
            (depth + 1) as usize,
            visited,
        )
    }
}

} // verus!

verus! {

// Keys and byte comparison

pub fn psp_entry_key(e: &PspDirectoryEntry) -> (r: u64)
    ensures
        r == psp_key(*e),
{
    (e.kind as u64) * 0x100 + (e.sub_program as u64)
}

pub fn bios_entry_key(e: &BiosDirectoryEntry) -> (r: u64)
    ensures
        r == bios_key(*e),
{
    (e.kind as u64) * 0x1_0000 + (e.sub_program as u64) * 0x100 + (e.flags as u64)
}

pub fn combo_entry_key(e: &ComboDirectoryEntry) -> (r: u64)
    ensures
        r == combo_key(*e),
{
    (e.id_select as u64) * 0x1_0000_0000 + (e.id.0 as u64)
}

pub fn psp_key_vec(es: &Vec<PspDirectoryEntry>) -> (r: Vec<u64>)
    ensures
        r@ == psp_keys(es@),
{
    let mut v: Vec<u64> = Vec::new();
    let mut i: usize = 0;
    while i < es.len()
        invariant
            i <= es@.len(),
            v@ == psp_keys(es@.take(i as int)),
        decreases es@.len() - i,
    {
        v.push(psp_entry_key(&es[i]));
        i = i + 1;
        assert(v@ =~= psp_keys(es@.take(i as int)));
    }
    assert(es@.take(i as int) =~= es@);
    v
}

pub fn bios_key_vec(es: &Vec<BiosDirectoryEntry>) -> (r: Vec<u64>)
    ensures
        r@ == bios_keys(es@),
{
    let mut v: Vec<u64> = Vec::new();
    let mut i: usize = 0;
    while i < es.len()
        invariant
            i <= es@.len(),
            v@ == bios_keys(es@.take(i as int)),
        decreases es@.len() - i,
    {
        v.push(bios_entry_key(&es[i]));
        i = i + 1;
        assert(v@ =~= bios_keys(es@.take(i as int)));
    }
    assert(es@.take(i as int) =~= es@);
    v
}

pub fn combo_key_vec(es: &Vec<ComboDirectoryEntry>) -> (r: Vec<u64>)
    ensures
        r@ == combo_keys(es@),
{
    let mut v: Vec<u64> = Vec::new();
    let mut i: usize = 0;
    while i < es.len()
        invariant
            i <= es@.len(),
            v@ == combo_keys(es@.take(i as int)),
        decreases es@.len() - i,
    {
        v.push(combo_entry_key(&es[i]));
        i = i + 1;
        assert(v@ =~= combo_keys(es@.take(i as int)));
    }
    assert(es@.take(i as int) =~= es@);
    v
}

/// The first index of `k` in `keys`.
pub fn key_index(keys: &Vec<u64>, k: u64) -> (r: Option<usize>)
    ensures
        match r {
            Some(i) => first_index(keys@, k) == Some(i as int),
            None => first_index(keys@, k) == None::<int>,
        },
        r matches Some(i) ==> i < keys@.len() && keys@[i as int] == k,
{
    let mut j: usize = 0;
    while j < keys.len()
        invariant
            j <= keys@.len(),
            first_index(keys@, k) == first_index_from(keys@, k, j as int),
        decreases keys@.len() - j,
    {
        if keys[j] == k {
            return Some(j);
        }
        j = j + 1;
    }
    None
}

/// Whether no key occurs twice in `keys`.
pub fn keys_unique(keys: &Vec<u64>) -> (r: bool)
    ensures
        r == unique_keys(keys@),
{
    let n = keys.len();
    let mut i: usize = 0;
    while i < n
        invariant
            n == keys@.len(),
            i <= n,
            forall|p: int, q: int| 0 <= p < q < n && p < i ==> keys@[p] != keys@[q],
        decreases n - i,
    {
        let mut j: usize = i + 1;
        while j < n
            invariant
                n == keys@.len(),
                i < n,
                i + 1 <= j <= n,
                forall|p: int, q: int| 0 <= p < q < n && p < i ==> keys@[p] != keys@[q],
                forall|q: int| i < q < j ==> keys@[i as int] != keys@[q],
            decreases n - j,
        {
            if keys[i] == keys[j] {
                return false;
            }
            j = j + 1;
        }
        i = i + 1;
    }
    true
}

/// Whether `x` and `y` hold the same bytes.
pub fn bytes_equal(x: &Vec<u8>, y: &Vec<u8>) -> (r: bool)
    ensures
        r == (x@ == y@),
{
    if x.len() != y.len() {
        return false;
    }
    let mut i: usize = 0;
    while i < x.len()
        invariant
            x@.len() == y@.len(),
            i <= x@.len(),
            forall|k: int| 0 <= k < i ==> x@[k] == y@[k],
        decreases x@.len() - i,
    {
        if x[i] != y[i] {
            return false;
        }
        i = i + 1;
    }
    assert(x@ =~= y@);
    true
}

// Entry comparisons

/// Compares the payloads of PSP entries `e1` (of the directory at `dir_addr1` in
/// `data1`) and `e2` (of the directory at `dir_addr2` in `data2`).
pub fn diff_psp_entry(
    e1: &PspDirectoryEntry,
    e2: &PspDirectoryEntry,
    dir_addr1: usize,
    dir_addr2: usize,
    data1: &[u8],
    data2: &[u8],
) -> (r: EntryOutcome)
    ensures
        r == psp_outcome(*e1, *e2, data1@, data2@, dir_addr1, dir_addr2),
{
    match e1.data(data1, dir_addr1) {
        Err(e) => EntryOutcome::Failed(Side::A, e),
        Ok((_, d1)) => match e2.data(data2, dir_addr2) {
            Err(e) => EntryOutcome::Failed(Side::B, e),
            Ok((_, d2)) => {
                if bytes_equal(&d1, &d2) {
                    EntryOutcome::Compared(Comparison::Same)
                } else {
                    EntryOutcome::Compared(Comparison::Diff)
                }
            },
        },
    }
}

/// Compares the payloads of BIOS entries `e1` (of the directory at `dir_addr1` in
/// `data1`) and `e2` (of the directory at `dir_addr2` in `data2`).
pub fn diff_bios_entry(
    e1: &BiosDirectoryEntry,
    e2: &BiosDirectoryEntry,
    dir_addr1: usize,
    dir_addr2: usize,
    data1: &[u8],
    data2: &[u8],
) -> (r: EntryOutcome)
    ensures
        r == bios_outcome(*e1, *e2, data1@, data2@, dir_addr1, dir_addr2),
{
    match e1.data(data1, dir_addr1) {
        Err(e) => EntryOutcome::Failed(Side::A, e),
        Ok(d1) => match e2.data(data2, dir_addr2) {
            Err(e) => EntryOutcome::Failed(Side::B, e),
            Ok(d2) => {
                if bytes_equal(&d1, &d2) {
                    EntryOutcome::Compared(Comparison::Same)
                } else {
                    EntryOutcome::Compared(Comparison::Diff)
                }
            },
        },
    }
}

// Reaching referenced directories

/// Parses the directory of any shape at `off` in `data`.
pub fn directory_at(data: &[u8], off: Option<usize>) -> (r: Result<Directory, ParseError>)
    ensures
        view_result(r) == dir_at(data@, off),
{
    let len = data.len();
    match off {
        None => Err(ParseError::OffsetOutsideImage { offset: usize::MAX, image_len: len }),
        Some(o) => {
            if o >= len {
                Err(ParseError::OffsetOutsideImage { offset: o, image_len: len })
            } else {
                Directory::new(vstd::slice::slice_subrange(data, o, len), o)
            }
        },
    }
}

/// Parses the PSP directory at `off` in `data`.
pub fn psp_directory_at(data: &[u8], off: Option<usize>) -> (r: Result<PspDirectory, ParseError>)
    ensures
        view_result(r) == psp_dir_at(data@, off),
{
    let len = data.len();
    match off {
        None => Err(ParseError::OffsetOutsideImage { offset: usize::MAX, image_len: len }),
        Some(o) => {
            if o >= len {
                Err(ParseError::OffsetOutsideImage { offset: o, image_len: len })
            } else {
                PspDirectory::new(vstd::slice::slice_subrange(data, o, len), o)
            }
        },
    }
}

/// Parses the PSP directory that the backup record at `off` in `data` points at.
pub fn backup_target_at(data: &[u8], off: Option<usize>) -> (r: Result<PspDirectory, ParseError>)
    ensures
        view_result(r) == backup_target(data@, off),
{
    let len = data.len();
    match off {
        None => Err(ParseError::BackupDirectoryUnparsable { offset: usize::MAX }),
        Some(o) => {
            if o >= len {
                Err(ParseError::BackupDirectoryUnparsable { offset: o })
            } else {
                let bd = PspBackupDir::new(vstd::slice::slice_subrange(data, o, len), o)?;
                psp_directory_at(data, Some(bd.addr as usize))
            }
        },
    }
}

// Lists of entries that only one side has

fn push_psp_only(
    es: &Vec<PspDirectoryEntry>,
    other: &Vec<u64>,
    side: Side,
    dir: usize,
    depth: usize,
    out: &mut Vec<DiffItem>,
)
    ensures
        final(out)@ == old(out)@ + psp_only(es@, other@, side, dir, depth, es@.len()),
{
    let ghost out0 = out@;
    let mut i: usize = 0;
    while i < es.len()
        invariant
            i <= es@.len(),
            out@ == out0 + psp_only(es@, other@, side, dir, depth, i as nat),
        decreases es@.len() - i,
    {
        let e = es[i];
        if key_index(other, psp_entry_key(&e)).is_none() {
            out.push(DiffItem::PspOnly { depth, side, dir, psp_entry: e });
        }
        i = i + 1;
        assert(out@ =~= out0 + psp_only(es@, other@, side, dir, depth, i as nat));
    }
}

fn push_bios_only(
    es: &Vec<BiosDirectoryEntry>,
    other: &Vec<u64>,
    side: Side,
    dir: usize,
    depth: usize,
    out: &mut Vec<DiffItem>,
)
    ensures
        final(out)@ == old(out)@ + bios_only(es@, other@, side, dir, depth, es@.len()),
{
    let ghost out0 = out@;
    let mut i: usize = 0;
    while i < es.len()
        invariant
            i <= es@.len(),
            out@ == out0 + bios_only(es@, other@, side, dir, depth, i as nat),
        decreases es@.len() - i,
    {
        let e = es[i];
        if key_index(other, bios_entry_key(&e)).is_none() {
            out.push(DiffItem::BiosOnly { depth, side, dir, bios_entry: e });
        }
        i = i + 1;
        assert(out@ =~= out0 + bios_only(es@, other@, side, dir, depth, i as nat));
    }
}

fn push_combo_only(
    es: &Vec<ComboDirectoryEntry>,
    other: &Vec<u64>,
    side: Side,
    depth: usize,
    out: &mut Vec<DiffItem>,
)
    ensures
        final(out)@ == old(out)@ + combo_only(es@, other@, side, depth, es@.len()),
{
    let ghost out0 = out@;
    let mut i: usize = 0;
    while i < es.len()
        invariant
            i <= es@.len(),
            out@ == out0 + combo_only(es@, other@, side, depth, i as nat),
        decreases es@.len() - i,
    {
        let e = es[i];
        if key_index(other, combo_entry_key(&e)).is_none() {
            out.push(DiffItem::ComboOnly { depth, side, combo_entry: e });
        }
        i = i + 1;
        assert(out@ =~= out0 + combo_only(es@, other@, side, depth, i as nat));
    }
}

} // verus!

verus! {

/// Whether `key` is in `visited`.
fn visit_contains(visited: &Vec<VisitKey>, key: VisitKey) -> (r: bool)
    ensures
        r == visited@.contains(key),
{
    let mut i: usize = 0;
    while i < visited.len()
        invariant
            i <= visited@.len(),
            forall|j: int| 0 <= j < i ==> visited@[j] != key,
        decreases visited@.len() - i,
    {
        let (k, a, b) = visited[i];
        if k == key.0 && a == key.1 && b == key.2 {
            assert(visited@[i as int] == key);
            return true;
        }
        i = i + 1;
    }
    false
}

/// Appends the report for two parse results of directories at `depth`: the
/// comparison where both parsed, otherwise what each side holds.
pub fn diff_bioses(
    b1: &Result<Directory, ParseError>,
    b2: &Result<Directory, ParseError>,
    data1: &[u8],
    data2: &[u8],
    depth: usize,
    visited: &mut Vec<VisitKey>,
    out: &mut Vec<DiffItem>,
)
    requires
        depth <= MAX_DEPTH,
    ensures
        final(out)@ == old(out)@ + results_report(
            data1@,
            data2@,
            view_result(*b1),
            view_result(*b2),
            depth,
            old(visited)@,
        ).0,
        final(visited)@ == results_report(
            data1@,
            data2@,
            view_result(*b1),
            view_result(*b2),
            depth,
            old(visited)@,
        ).1,
    decreases MAX_DEPTH - depth, 5nat, 0nat,
{
    match b1 {
        Ok(d1) => match b2 {
            Ok(d2) => diff_dirs(d1, d2, data1, data2, depth, visited, out),
            Err(e) => {
                out.push(DiffItem::Unpaired { depth, side: Side::A, kind: d1.kind(), addr: d1.addr() });
                out.push(DiffItem::Warning { depth, side: Side::B, error: *e });
            },
        },
        Err(e) => match b2 {
            Ok(d2) => {
                out.push(DiffItem::Warning { depth, side: Side::A, error: *e });
                out.push(DiffItem::Unpaired { depth, side: Side::B, kind: d2.kind(), addr: d2.addr() });
            },
            Err(f) => {
                out.push(DiffItem::Warning { depth, side: Side::A, error: *e });
                out.push(DiffItem::Warning { depth, side: Side::B, error: *f });
            },
        },
    }
}

/// Appends the report for two parse results of PSP directories at `depth`.
pub fn diff_psp_results(
    p1: &Result<PspDirectory, ParseError>,
    p2: &Result<PspDirectory, ParseError>,
    data1: &[u8],
    data2: &[u8],
    depth: usize,
    visited: &mut Vec<VisitKey>,
    out: &mut Vec<DiffItem>,
)
    requires
        depth <= MAX_DEPTH,
    ensures
        final(out)@ == old(out)@ + psp_results_report(
            data1@,
            data2@,
            view_result(*p1),
            view_result(*p2),
            depth,
            old(visited)@,
        ).0,
        final(visited)@ == psp_results_report(
            data1@,
            data2@,
            view_result(*p1),
            view_result(*p2),
            depth,
            old(visited)@,
        ).1,
    decreases MAX_DEPTH - depth, 5nat, 0nat,
{
    match p1 {
        Ok(d1) => match p2 {
            Ok(d2) => diff_psp_dirs(d1, d2, data1, data2, depth, visited, out),
            Err(e) => {
                out.push(DiffItem::Unpaired { depth, side: Side::A, kind: DirectoryKind::Psp, addr: d1.addr });
                out.push(DiffItem::Warning { depth, side: Side::B, error: *e });
            },
        },
        Err(e) => match p2 {
            Ok(d2) => {
                out.push(DiffItem::Warning { depth, side: Side::A, error: *e });
                out.push(DiffItem::Unpaired { depth, side: Side::B, kind: DirectoryKind::Psp, addr: d2.addr });
            },
            Err(f) => {
                out.push(DiffItem::Warning { depth, side: Side::A, error: *e });
                out.push(DiffItem::Warning { depth, side: Side::B, error: *f });
            },
        },
    }
}

/// Appends the report for two parsed directories at `depth`: compared where they
/// have the same shape, a kind mismatch otherwise.
pub fn diff_dirs(
    dir1: &Directory,
    dir2: &Directory,
    data1: &[u8],
    data2: &[u8],
    depth: usize,
    visited: &mut Vec<VisitKey>,
    out: &mut Vec<DiffItem>,
)
    requires
        depth <= MAX_DEPTH,
    ensures
        final(out)@ == old(out)@ + dirs_report(data1@, data2@, dir1@, dir2@, depth, old(visited)@).0,
        final(visited)@ == dirs_report(data1@, data2@, dir1@, dir2@, depth, old(visited)@).1,
    decreases MAX_DEPTH - depth, 4nat, 0nat,
{
    match dir1 {
        Directory::Psp(d1) | Directory::PspLevel2(d1) => match dir2 {
            Directory::Psp(d2) | Directory::PspLevel2(d2) => {
                diff_psp_dirs(d1, d2, data1, data2, depth, visited, out)
            },
            _ => out.push(DiffItem::KindMismatch { depth, kind_a: dir1.kind(), kind_b: dir2.kind() }),
        },
        Directory::Bios(d1) | Directory::BiosLevel2(d1) => match dir2 {
            Directory::Bios(d2) | Directory::BiosLevel2(d2) => {
                diff_bios_simple_dir_entries(d1, d2, data1, data2, depth, visited, out)
            },
            _ => out.push(DiffItem::KindMismatch { depth, kind_a: dir1.kind(), kind_b: dir2.kind() }),
        },
        Directory::PspCombo(d1) => match dir2 {
            Directory::PspCombo(d2) => diff_combo_dirs(
                DirectoryKind::PspCombo,
                d1.addr,
                &d1.header,
                &d1.entries,
                d2.addr,
                &d2.header,
                &d2.entries,
                data1,
                data2,
                depth,
                visited,
                out,
            ),
            _ => out.push(DiffItem::KindMismatch { depth, kind_a: dir1.kind(), kind_b: dir2.kind() }),
        },
        Directory::BiosCombo(d1) => match dir2 {
            Directory::BiosCombo(d2) => diff_combo_dirs(
                DirectoryKind::BiosCombo,
                d1.addr,
                &d1.header,
                &d1.entries,
                d2.addr,
                &d2.header,
                &d2.entries,
                data1,
                data2,
                depth,
                visited,
                out,
            ),
            _ => out.push(DiffItem::KindMismatch { depth, kind_a: dir1.kind(), kind_b: dir2.kind() }),
        },
    }
}

/// Appends the report for two PSP directories at `depth`: entries paired by kind
/// and sub-program, then those that only one side has; a pair of directories
/// compared before in this traversal gives a `Revisit` record instead.
pub fn diff_psp_dirs(
    dir1: &PspDirectory,
    dir2: &PspDirectory,
    data1: &[u8],
    data2: &[u8],
    depth: usize,
    visited: &mut Vec<VisitKey>,
    out: &mut Vec<DiffItem>,
)
    requires
        depth <= MAX_DEPTH,
    ensures
        final(out)@ == old(out)@ + psp_report(data1@, data2@, dir1@, dir2@, depth, old(visited)@).0,
        final(visited)@ == psp_report(data1@, data2@, dir1@, dir2@, depth, old(visited)@).1,
    decreases MAX_DEPTH - depth, 3nat, 0nat,
{
    let ghost out0 = out@;
    let key: VisitKey = (DirectoryKind::Psp, dir1.addr, dir2.addr);
    if visit_contains(visited, key) {
        out.push(DiffItem::Revisit { depth, kind: DirectoryKind::Psp, addr_a: dir1.addr, addr_b: dir2.addr });
        return;
    }
    visited.push(key);
    let ghost v1 = visited@;
    let k1 = psp_key_vec(&dir1.entries);
    let k2 = psp_key_vec(&dir2.entries);
    let u1 = keys_unique(&k1);
    let u2 = keys_unique(&k2);
    out.push(
        DiffItem::PspDir {
            depth,
            addr_a: dir1.addr,
            addr_b: dir2.addr,
            checksum_a: dir1.header.checksum,
            checksum_b: dir2.header.checksum,
            duplicate_keys_a: !u1,
            duplicate_keys_b: !u2,
        },
    );
    let ghost base = out@;
    let n = dir1.entries.len();
    let mut i: usize = 0;
    while i < n
        invariant
            n == dir1.entries@.len(),
            i <= n,
            depth <= MAX_DEPTH,
            k2@ == psp_keys(dir2.entries@),
            out@ == base + psp_pairs(data1@, data2@, dir1@, dir2@, depth, i as nat, v1).0,
            visited@ == psp_pairs(data1@, data2@, dir1@, dir2@, depth, i as nat, v1).1,
        decreases n - i,
    {
        let a = dir1.entries[i];
        match key_index(&k2, psp_entry_key(&a)) {
            None => {},
            Some(j) => {
                let b = dir2.entries[j];
                let outcome = diff_psp_entry(&a, &b, dir1.addr, dir2.addr, data1, data2);
                out.push(
                    DiffItem::PspPair {
                        depth,
                        dir_a: dir1.addr,
                        dir_b: dir2.addr,
                        psp_a: a,
                        psp_b: b,
                        outcome,
                    },
                );
                diff_psp_sub(&a, &b, dir1.addr, dir2.addr, data1, data2, depth, visited, out);
            },
        }
        i = i + 1;
        assert(out@ =~= base + psp_pairs(data1@, data2@, dir1@, dir2@, depth, i as nat, v1).0);
    }
    push_psp_only(&dir1.entries, &k2, Side::A, dir1.addr, depth, out);
    push_psp_only(&dir2.entries, &k1, Side::B, dir2.addr, depth, out);
    assert(out@ =~= out0 + psp_report(data1@, data2@, dir1@, dir2@, depth, old(visited)@).0);
}

/// Appends the comparison of the directories that paired PSP entries `e1` and `e2`
/// point at: level-2, level-2 A/B through their backup records, and BIOS level-2.
fn diff_psp_sub(
    e1: &PspDirectoryEntry,
    e2: &PspDirectoryEntry,
    dir_addr1: usize,
    dir_addr2: usize,
    data1: &[u8],
    data2: &[u8],
    depth: usize,
    visited: &mut Vec<VisitKey>,
    out: &mut Vec<DiffItem>,
)
    requires
        depth <= MAX_DEPTH,
    ensures
        final(out)@ == old(out)@ + psp_sub(
            data1@,
            data2@,
            *e1,
            *e2,
            dir_addr1,
            dir_addr2,
            depth,
            old(visited)@,
        ).0,
        final(visited)@ == psp_sub(
            data1@,
            data2@,
            *e1,
            *e2,
            dir_addr1,
            dir_addr2,
            depth,
            old(visited)@,
        ).1,
    decreases MAX_DEPTH - depth, 1nat, 0nat,
{
    let k = e1.kind;
    if k != 0x40 && k != 0x48 && k != 0x4a && k != 0x49 {
        assert(out@ =~= out@ + Seq::<DiffItem>::empty());
        return;
    }
    if depth + 1 > MAX_DEPTH {
        out.push(DiffItem::DepthLimit { depth: depth + 1 });
        return;
    }
    let a1 = resolve_checked(e1.value, dir_addr1);
    let a2 = resolve_checked(e2.value, dir_addr2);
    if k == 0x40 {
        let d1 = psp_directory_at(data1, a1);
        let d2 = psp_directory_at(data2, a2);
        diff_psp_results(&d1, &d2, data1, data2, depth + 1, visited, out);
    } else if k == 0x49 {
        let d1 = directory_at(data1, a1);
        let d2 = directory_at(data2, a2);
        diff_bioses(&d1, &d2, data1, data2, depth + 1, visited, out);
    } else {
        let d1 = backup_target_at(data1, a1);
        let d2 = backup_target_at(data2, a2);
        diff_psp_results(&d1, &d2, data1, data2, depth + 1, visited, out);
    }
}

/// Appends the report for two BIOS directories at `depth`: entries paired by kind,
/// sub-program and flags, then those that only one side has; a pair of directories
/// compared before in this traversal gives a `Revisit` record instead.
pub fn diff_bios_simple_dir_entries(
    dir1: &BiosDirectory,
    dir2: &BiosDirectory,
    data1: &[u8],
    data2: &[u8],
    depth: usize,
    visited: &mut Vec<VisitKey>,
    out: &mut Vec<DiffItem>,
)
    requires
        depth <= MAX_DEPTH,
    ensures
        final(out)@ == old(out)@ + bios_report(data1@, data2@, dir1@, dir2@, depth, old(visited)@).0,
        final(visited)@ == bios_report(data1@, data2@, dir1@, dir2@, depth, old(visited)@).1,
    decreases MAX_DEPTH - depth, 3nat, 0nat,
{
    let ghost out0 = out@;
    let key: VisitKey = (DirectoryKind::Bios, dir1.addr, dir2.addr);
    if visit_contains(visited, key) {
        out.push(DiffItem::Revisit { depth, kind: DirectoryKind::Bios, addr_a: dir1.addr, addr_b: dir2.addr });
        return;
    }
    visited.push(key);
    let ghost v1 = visited@;
    let k1 = bios_key_vec(&dir1.entries);
    let k2 = bios_key_vec(&dir2.entries);
    let u1 = keys_unique(&k1);
    let u2 = keys_unique(&k2);
    out.push(
        DiffItem::BiosDir {
            depth,
            addr_a: dir1.addr,
            addr_b: dir2.addr,
            checksum_a: dir1.header.checksum,
            checksum_b: dir2.header.checksum,
            duplicate_keys_a: !u1,
            duplicate_keys_b: !u2,
        },
    );
    let ghost base = out@;
    let n = dir1.entries.len();
    let mut i: usize = 0;
    while i < n
        invariant
            n == dir1.entries@.len(),
            i <= n,
            depth <= MAX_DEPTH,
            k2@ == bios_keys(dir2.entries@),
            out@ == base + bios_pairs(data1@, data2@, dir1@, dir2@, depth, i as nat, v1).0,
            visited@ == bios_pairs(data1@, data2@, dir1@, dir2@, depth, i as nat, v1).1,
        decreases n - i,
    {
        let a = dir1.entries[i];
        match key_index(&k2, bios_entry_key(&a)) {
            None => {},
            Some(j) => {
                let b = dir2.entries[j];
                if a.kind == 0x70 {
                    out.push(
                        DiffItem::BiosPair {
                            depth,
                            dir_a: dir1.addr,
                            dir_b: dir2.addr,
                            bios_a: a,
                            bios_b: b,
                            outcome: EntryOutcome::Nested,
                        },
                    );
                    diff_bios_sub(&a, &b, dir1.addr, dir2.addr, data1, data2, depth, visited, out);
                } else {
                    let outcome = diff_bios_entry(&a, &b, dir1.addr, dir2.addr, data1, data2);
                    out.push(
                        DiffItem::BiosPair {
                            depth,
                            dir_a: dir1.addr,
                            dir_b: dir2.addr,
                            bios_a: a,
                            bios_b: b,
                            outcome,
                        },
                    );
                }
            },
        }
        i = i + 1;
        assert(out@ =~= base + bios_pairs(data1@, data2@, dir1@, dir2@, depth, i as nat, v1).0);
    }
    push_bios_only(&dir1.entries, &k2, Side::A, dir1.addr, depth, out);
    push_bios_only(&dir2.entries, &k1, Side::B, dir2.addr, depth, out);
    assert(out@ =~= out0 + bios_report(data1@, data2@, dir1@, dir2@, depth, old(visited)@).0);
}

/// Appends the comparison of the level-2 directories that paired BIOS entries point at.
fn diff_bios_sub(
    e1: &BiosDirectoryEntry,
    e2: &BiosDirectoryEntry,
    dir_addr1: usize,
    dir_addr2: usize,
    data1: &[u8],
    data2: &[u8],
    depth: usize,
    visited: &mut Vec<VisitKey>,
    out: &mut Vec<DiffItem>,
)
    requires
        depth <= MAX_DEPTH,
    ensures
        final(out)@ == old(out)@ + bios_sub(
            data1@,
            data2@,
            *e1,
            *e2,
            dir_addr1,
            dir_addr2,
            depth,
            old(visited)@,
        ).0,
        final(visited)@ == bios_sub(
            data1@,
            data2@,
            *e1,
            *e2,
            dir_addr1,
            dir_addr2,
            depth,
            old(visited)@,
        ).1,
    decreases MAX_DEPTH - depth, 1nat, 0nat,
{
    if depth + 1 > MAX_DEPTH {
        out.push(DiffItem::DepthLimit { depth: depth + 1 });
        return;
    }
    let d1 = directory_at(data1, resolve_checked(e1.source, dir_addr1));
    let d2 = directory_at(data2, resolve_checked(e2.source, dir_addr2));
    diff_bioses(&d1, &d2, data1, data2, depth + 1, visited, out);
}

/// Appends the report for two combo directories of kind `kind` at `depth`: entries
/// paired by ID selector and ID, each followed by the comparison of the directories
/// they select, then those that only one side has; a pair of directories compared
/// before in this traversal gives a `Revisit` record instead.
pub fn diff_combo_dirs(
    kind: DirectoryKind,
    addr1: usize,
    header1: &crate::directory::ComboDirectoryHeader,
    entries1: &Vec<ComboDirectoryEntry>,
    addr2: usize,
    header2: &crate::directory::ComboDirectoryHeader,
    entries2: &Vec<ComboDirectoryEntry>,
    data1: &[u8],
    data2: &[u8],
    depth: usize,
    visited: &mut Vec<VisitKey>,
    out: &mut Vec<DiffItem>,
)
    requires
        depth <= MAX_DEPTH,
    ensures
        final(out)@ == old(out)@ + combo_report(
            data1@,
            data2@,
            kind,
            ComboView { addr: addr1, header: *header1, entries: entries1@ },
            ComboView { addr: addr2, header: *header2, entries: entries2@ },
            depth,
            old(visited)@,
        ).0,
        final(visited)@ == combo_report(
            data1@,
            data2@,
            kind,
            ComboView { addr: addr1, header: *header1, entries: entries1@ },
            ComboView { addr: addr2, header: *header2, entries: entries2@ },
            depth,
            old(visited)@,
        ).1,
    decreases MAX_DEPTH - depth, 3nat, 0nat,
{
    let ghost out0 = out@;
    let ghost ca = ComboView { addr: addr1, header: *header1, entries: entries1@ };
    let ghost cb = ComboView { addr: addr2, header: *header2, entries: entries2@ };
    let key: VisitKey = (kind, addr1, addr2);
    if visit_contains(visited, key) {
        out.push(DiffItem::Revisit { depth, kind, addr_a: addr1, addr_b: addr2 });
        return;
    }
    visited.push(key);
    let ghost v1 = visited@;
    let k1 = combo_key_vec(entries1);
    let k2 = combo_key_vec(entries2);
    let u1 = keys_unique(&k1);
    let u2 = keys_unique(&k2);
    out.push(
        DiffItem::ComboDir {
            depth,
            addr_a: addr1,
            addr_b: addr2,
            checksum_a: header1.checksum,
            checksum_b: header2.checksum,
            duplicate_keys_a: !u1,
            duplicate_keys_b: !u2,
        },
    );
    let ghost base = out@;
    let n = entries1.len();
    let mut i: usize = 0;
    while i < n
        invariant
            n == entries1@.len(),
            i <= n,
            depth <= MAX_DEPTH,
            ca == (ComboView { addr: addr1, header: *header1, entries: entries1@ }),
            cb == (ComboView { addr: addr2, header: *header2, entries: entries2@ }),
            k2@ == combo_keys(entries2@),
            out@ == base + combo_pairs(data1@, data2@, ca, cb, depth, i as nat, v1).0,
            visited@ == combo_pairs(data1@, data2@, ca, cb, depth, i as nat, v1).1,
        decreases n - i,
    {
        let a = entries1[i];
        match key_index(&k2, combo_entry_key(&a)) {
            None => {},
            Some(j) => {
                let b = entries2[j];
                out.push(DiffItem::ComboPair { depth, combo_a: a, combo_b: b });
                diff_combo_sub(&a, &b, data1, data2, depth, visited, out);
            },
        }
        i = i + 1;
        assert(out@ =~= base + combo_pairs(data1@, data2@, ca, cb, depth, i as nat, v1).0);
    }
    push_combo_only(entries1, &k2, Side::A, depth, out);
    push_combo_only(entries2, &k1, Side::B, depth, out);
    assert(out@ =~= out0 + combo_report(data1@, data2@, kind, ca, cb, depth, old(visited)@).0);
}

/// Appends the comparison of the directories that paired combo entries select.
fn diff_combo_sub(
    e1: &ComboDirectoryEntry,
    e2: &ComboDirectoryEntry,
    data1: &[u8],
    data2: &[u8],
    depth: usize,
    visited: &mut Vec<VisitKey>,
    out: &mut Vec<DiffItem>,
)
    requires
        depth <= MAX_DEPTH,
    ensures
        final(out)@ == old(out)@ + combo_sub(data1@, data2@, *e1, *e2, depth, old(visited)@).0,
        final(visited)@ == combo_sub(data1@, data2@, *e1, *e2, depth, old(visited)@).1,
    decreases MAX_DEPTH - depth, 1nat, 0nat,
{
    if depth + 1 > MAX_DEPTH {
        out.push(DiffItem::DepthLimit { depth: depth + 1 });
        return;
    }
    let b1 = (e1.directory & crate::directory::MAPPING_MASK) as usize;
    let b2 = (e2.directory & crate::directory::MAPPING_MASK) as usize;
    let d1 = directory_at(data1, Some(b1));
    let d2 = directory_at(data2, Some(b2));
    diff_bioses(&d1, &d2, data1, data2, depth + 1, visited, out);
}

} // verus!

verus! {

/// The comparison report for the PSP trees of two images: the legacy PSP
/// directories, then those of family 17h and later, in one traversal.
pub open spec fn psp_diff_report(a: Seq<u8>, efs_a: EFS, b: Seq<u8>, efs_b: EFS) -> Seq<DiffItem> {
    let r1 = results_report(
        a,
        b,
        spec_get_dir(efs_a.psp_legacy as usize, a),
        spec_get_dir(efs_b.psp_legacy as usize, b),
        0,
        seq![],
    );
    let r2 = results_report(
        a,
        b,
        spec_get_dir(efs_a.psp_17_00 as usize, a),
        spec_get_dir(efs_b.psp_17_00 as usize, b),
        0,
        r1.1,
    );
    seq![DiffItem::Root { pointer: RootPointer::PspLegacy }] + r1.0 + seq![
        DiffItem::Root { pointer: RootPointer::Psp },
    ] + r2.0
}

/// The part of the BIOS report that starts from one EFS pointer.
pub open spec fn bios_root_report(
    pointer: RootPointer,
    a: Seq<u8>,
    ptr_a: u32,
    b: Seq<u8>,
    ptr_b: u32,
    visited: Seq<VisitKey>,
) -> Reported {
    let r = results_report(
        a,
        b,
        spec_get_dir(ptr_a as usize, a),
        spec_get_dir(ptr_b as usize, b),
        0,
        visited,
    );
    (seq![DiffItem::Root { pointer }] + r.0, r.1)
}

/// The comparison report for the four BIOS trees of two images, in one traversal.
pub open spec fn bios_diff_report(a: Seq<u8>, efs_a: EFS, b: Seq<u8>, efs_b: EFS) -> Seq<DiffItem> {
    let r1 = bios_root_report(
        RootPointer::BiosFam17Models00To0f,
        a,
        efs_a.bios_17_00_0f,
        b,
        efs_b.bios_17_00_0f,
        seq![],
    );
    let r2 = bios_root_report(
        RootPointer::BiosFam17Models10To1f,
        a,
        efs_a.bios_17_10_1f,
        b,
        efs_b.bios_17_10_1f,
        r1.1,
    );
    let r3 = bios_root_report(
        RootPointer::BiosFam17Models30To3fFam19Models00To0f,
        a,
        efs_a.bios_17_30_3f_19_00_0f,
        b,
        efs_b.bios_17_30_3f_19_00_0f,
        r2.1,
    );
    let r4 = bios_root_report(
        RootPointer::BiosFam17Model60On,
        a,
        efs_a.bios_17_60,
        b,
        efs_b.bios_17_60,
        r3.1,
    );
    r1.0 + r2.0 + r3.0 + r4.0
}

/// Compares the PSP directory trees of two images.
pub fn diff_psp(rom1: &Rom, rom2: &Rom) -> (r: Vec<DiffItem>)
    ensures
        r@ == psp_diff_report(rom1.data@, rom1.efs, rom2.data@, rom2.efs),
{
    let mut out: Vec<DiffItem> = Vec::new();
    let mut visited: Vec<VisitKey> = Vec::new();
    out.push(DiffItem::Root { pointer: RootPointer::PspLegacy });
    let p1 = rom1.psp_legacy();
    let p2 = rom2.psp_legacy();
    diff_bioses(&p1, &p2, rom1.data, rom2.data, 0, &mut visited, &mut out);
    out.push(DiffItem::Root { pointer: RootPointer::Psp });
    let p1 = rom1.psp();
    let p2 = rom2.psp();
    diff_bioses(&p1, &p2, rom1.data, rom2.data, 0, &mut visited, &mut out);
    assert(out@ =~= psp_diff_report(rom1.data@, rom1.efs, rom2.data@, rom2.efs));
    out
}

fn diff_bios_root(
    pointer: RootPointer,
    rom1: &Rom,
    ptr1: u32,
    rom2: &Rom,
    ptr2: u32,
    visited: &mut Vec<VisitKey>,
    out: &mut Vec<DiffItem>,
)
    ensures
        final(out)@ == old(out)@ + bios_root_report(
            pointer,
            rom1.data@,
            ptr1,
            rom2.data@,
            ptr2,
            old(visited)@,
        ).0,
        final(visited)@ == bios_root_report(pointer, rom1.data@, ptr1, rom2.data@, ptr2, old(visited)@).1,
{
    let ghost out0 = out@;
    out.push(DiffItem::Root { pointer });
    let b1 = crate::rom::get_dir(ptr1 as usize, rom1.data);
    let b2 = crate::rom::get_dir(ptr2 as usize, rom2.data);
    diff_bioses(&b1, &b2, rom1.data, rom2.data, 0, visited, out);
    assert(out@ =~= out0 + bios_root_report(pointer, rom1.data@, ptr1, rom2.data@, ptr2, old(visited)@).0);
}

/// Compares the four BIOS directory trees of two images.
pub fn diff_bios(rom1: &Rom, rom2: &Rom) -> (r: Vec<DiffItem>)
    ensures
        r@ == bios_diff_report(rom1.data@, rom1.efs, rom2.data@, rom2.efs),
{
    let mut out: Vec<DiffItem> = Vec::new();
    let mut visited: Vec<VisitKey> = Vec::new();
    let e1 = rom1.efs;
    let e2 = rom2.efs;
    diff_bios_root(
        RootPointer::BiosFam17Models00To0f,
        rom1,
        e1.bios_17_00_0f,
        rom2,
        e2.bios_17_00_0f,
        &mut visited,
        &mut out,
    );
    diff_bios_root(
        RootPointer::BiosFam17Models10To1f,
        rom1,
        e1.bios_17_10_1f,
        rom2,
        e2.bios_17_10_1f,
        &mut visited,
        &mut out,
    );
    diff_bios_root(
        RootPointer::BiosFam17Models30To3fFam19Models00To0f,
        rom1,
        e1.bios_17_30_3f_19_00_0f,
        rom2,
        e2.bios_17_30_3f_19_00_0f,
        &mut visited,
        &mut out,
    );
    diff_bios_root(
        RootPointer::BiosFam17Model60On,
        rom1,
        e1.bios_17_60,
        rom2,
        e2.bios_17_60,
        &mut visited,
        &mut out,
    );
    assert(out@ =~= bios_diff_report(rom1.data@, rom1.efs, rom2.data@, rom2.efs));
    out
}

pub open spec fn addr_comparison(a1: Option<u32>, a2: Option<u32>) -> AddrComparison {
    match a1 {
        None => match a2 {
            None => AddrComparison::BothEmpty,
            Some(b) => AddrComparison::OnlyB(b),
        },
        Some(a) => match a2 {
            None => AddrComparison::OnlyA(a),
            Some(b) => if a == b {
                AddrComparison::BothEqual(a)
            } else {
                AddrComparison::BothDiffer(a, b)
            },
        },
    }
}

/// Classifies two optional pointers.
pub fn diff_addr(a1: Option<u32>, a2: Option<u32>) -> (r: AddrComparison)
    ensures
        r == addr_comparison(a1, a2),
{
    match a1 {
        None => match a2 {
            None => AddrComparison::BothEmpty,
            Some(b) => AddrComparison::OnlyB(b),
        },
        Some(a) => match a2 {
            None => AddrComparison::OnlyA(a),
            Some(b) => {
                if a == b {
                    AddrComparison::BothEqual(a)
                } else {
                    AddrComparison::BothDiffer(a, b)
                }
            },
        },
    }
}

/// The field-by-field comparison of two EFS records.
#[derive(Clone, Copy, Debug, PartialEq, Eq, Structural)]
pub struct EfsDiff {
    pub second_gen_a: bool,
    pub second_gen_b: bool,
    pub imc_fw: AddrComparison,
    pub gbe_fw: AddrComparison,
    pub xhci_fw: AddrComparison,
    pub bios_17_00_0f: AddrComparison,
    pub bios_17_10_1f: AddrComparison,
    pub bios_17_30_3f_19_00_0f: AddrComparison,
    pub bios_17_60: AddrComparison,
    pub psp_legacy: AddrComparison,
    pub psp_17_00: AddrComparison,
    pub promontory: AddrComparison,
    pub lp_promontory: AddrComparison,
}

/// Compares the pointer fields of two EFS records, an absent value on either side
/// being one of `0x00000000` and `0xFFFFFFFF`.
pub fn diff_efs(efs1: &EFS, efs2: &EFS) -> (r: EfsDiff)
    ensures
        r.second_gen_a == (efs1.second_gen % 2 == 0),
        r.second_gen_b == (efs2.second_gen % 2 == 0),
        r.imc_fw == addr_comparison(real_addr(efs1.imc_fw), real_addr(efs2.imc_fw)),
        r.gbe_fw == addr_comparison(real_addr(efs1.gbe_fw), real_addr(efs2.gbe_fw)),
        r.xhci_fw == addr_comparison(real_addr(efs1.xhci_fw), real_addr(efs2.xhci_fw)),
        r.bios_17_00_0f == addr_comparison(
            real_addr(efs1.bios_17_00_0f),
            real_addr(efs2.bios_17_00_0f),
        ),
        r.bios_17_10_1f == addr_comparison(
            real_addr(efs1.bios_17_10_1f),
            real_addr(efs2.bios_17_10_1f),
        ),
        r.bios_17_30_3f_19_00_0f == addr_comparison(
            real_addr(efs1.bios_17_30_3f_19_00_0f),
            real_addr(efs2.bios_17_30_3f_19_00_0f),
        ),
        r.bios_17_60 == addr_comparison(real_addr(efs1.bios_17_60), real_addr(efs2.bios_17_60)),
        r.psp_legacy == addr_comparison(real_addr(efs1.psp_legacy), real_addr(efs2.psp_legacy)),
        r.psp_17_00 == addr_comparison(real_addr(efs1.psp_17_00), real_addr(efs2.psp_17_00)),
        r.promontory == addr_comparison(real_addr(efs1.promontory), real_addr(efs2.promontory)),
        r.lp_promontory == addr_comparison(
            real_addr(efs1.lp_promontory),
            real_addr(efs2.lp_promontory),
        ),
{
    EfsDiff {
        second_gen_a: efs1.is_second_gen(),
        second_gen_b: efs2.is_second_gen(),
        imc_fw: diff_addr(get_real_addr(efs1.imc_fw), get_real_addr(efs2.imc_fw)),
        gbe_fw: diff_addr(get_real_addr(efs1.gbe_fw), get_real_addr(efs2.gbe_fw)),
        xhci_fw: diff_addr(get_real_addr(efs1.xhci_fw), get_real_addr(efs2.xhci_fw)),
        bios_17_00_0f: diff_addr(get_real_addr(efs1.bios_17_00_0f), get_real_addr(efs2.bios_17_00_0f)),
        bios_17_10_1f: diff_addr(get_real_addr(efs1.bios_17_10_1f), get_real_addr(efs2.bios_17_10_1f)),
        bios_17_30_3f_19_00_0f: diff_addr(
            get_real_addr(efs1.bios_17_30_3f_19_00_0f),
            get_real_addr(efs2.bios_17_30_3f_19_00_0f),
        ),
        bios_17_60: diff_addr(get_real_addr(efs1.bios_17_60), get_real_addr(efs2.bios_17_60)),
        psp_legacy: diff_addr(get_real_addr(efs1.psp_legacy), get_real_addr(efs2.psp_legacy)),
        psp_17_00: diff_addr(get_real_addr(efs1.psp_17_00), get_real_addr(efs2.psp_17_00)),
        promontory: diff_addr(get_real_addr(efs1.promontory), get_real_addr(efs2.promontory)),
        lp_promontory: diff_addr(get_real_addr(efs1.lp_promontory), get_real_addr(efs2.lp_promontory)),
    }
}

} // verus!
