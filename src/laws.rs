//! Properties that hold of every image, stated over the parsers' and the compare
//! engine's specifications.
use vstd::prelude::*;

use crate::bios::{bios_payload, flags_compressed, BiosDirectoryEntry, BIOS_HEADER_SIZE};
use crate::bytes::le_u32;
use crate::diff::{
    bios_diff_report, bios_keys, bios_only, bios_outcome, bios_pairs, bios_report,
    bios_root_report, bios_sub, combo_keys, combo_only, combo_pairs, combo_report, combo_sub,
    dirs_report, psp_diff_report, psp_keys, psp_only, psp_outcome, psp_pairs, psp_report,
    psp_results_report, psp_sub, results_report, unique_keys, DiffItem, EntryOutcome, RootPointer, Side, VisitKey, Comparison, first_index, first_index_from, psp_key, bios_key,
    MAX_DEPTH,
};
use crate::directory::{
    DirectoryKind,
    magic_of_kind, resolve_addr, spec_parse_directory, ComboView, DirView, DirectoryView,
};
use crate::error::ParseError;
use crate::flash::{efs_at, EFS};
use crate::psp::{le_bytes, psp_payload, PspDirectoryEntry, ADDR_MASK, INLINE_VALUE_SIZE};
use crate::rom::{find_efs, spec_get_dir};
use crate::walk::{
    edge_target, entry_count, root_pointers, walk_children, walk_edge, walk_from, walk_roots,
    WalkItemView, WalkPath,
};

verus! {

/// Parsing is a function of the image bytes: two images with the same bytes have
/// the EFS at the same offset, the same EFS record, and the same directory behind
/// every pointer.
pub proof fn lemma_parse_deterministic(a: Seq<u8>, b: Seq<u8>)
    requires
        a == b,
    ensures
        find_efs(a) == find_efs(b),
        forall|i: int| efs_at(a, i) == efs_at(b, i),
        forall|p: usize| spec_get_dir(p, a) == spec_get_dir(p, b),
{
}

/// Where the payloads of two PSP entries compare as the same or as different,
/// each entry that points into its image (a size other than `0xFFFFFFFF`) names
/// a range `[start, start + size)` inside that image.
pub proof fn lemma_compared_psp_entries_in_image(
    a: PspDirectoryEntry,
    b: PspDirectoryEntry,
    img_a: Seq<u8>,
    img_b: Seq<u8>,
    da: usize,
    db: usize,
)
    requires
        psp_outcome(a, b, img_a, img_b, da, db) is Compared,
    ensures
        a.size != INLINE_VALUE_SIZE ==> 0 <= resolve_addr(a.value, da as int) && resolve_addr(
            a.value,
            da as int,
        ) + a.size <= img_a.len(),
        b.size != INLINE_VALUE_SIZE ==> 0 <= resolve_addr(b.value, db as int) && resolve_addr(
            b.value,
            db as int,
        ) + b.size <= img_b.len(),
{
    lemma_resolve_nonneg(a.value, da as int);
    lemma_resolve_nonneg(b.value, db as int);
}

/// Where the payloads of two BIOS entries compare as the same or as different,
/// each names a range inside its image: `size` bytes, or for a compressed BIOS
/// binary the 256-byte header and the length that it declares.
pub proof fn lemma_compared_bios_entries_in_image(
    a: BiosDirectoryEntry,
    b: BiosDirectoryEntry,
    img_a: Seq<u8>,
    img_b: Seq<u8>,
    da: usize,
    db: usize,
)
    requires
        bios_outcome(a, b, img_a, img_b, da, db) is Compared,
    ensures
        0 <= resolve_addr(a.source, da as int),
        0 <= resolve_addr(b.source, db as int),
        !(a.kind == 0x62 && flags_compressed(a.flags)) ==> resolve_addr(a.source, da as int)
            + a.size <= img_a.len(),
        a.kind == 0x62 && flags_compressed(a.flags) ==> resolve_addr(a.source, da as int)
            + BIOS_HEADER_SIZE + le_u32(img_a, resolve_addr(a.source, da as int) + 0x14)
            <= img_a.len(),
        !(b.kind == 0x62 && flags_compressed(b.flags)) ==> resolve_addr(b.source, db as int)
            + b.size <= img_b.len(),
        b.kind == 0x62 && flags_compressed(b.flags) ==> resolve_addr(b.source, db as int)
            + BIOS_HEADER_SIZE + le_u32(img_b, resolve_addr(b.source, db as int) + 0x14)
            <= img_b.len(),
{
    lemma_resolve_nonneg(a.source, da as int);
    lemma_resolve_nonneg(b.source, db as int);
}

proof fn lemma_resolve_nonneg(v: u64, d: int)
    requires
        d >= 0,
    ensures
        resolve_addr(v, d) >= 0,
{
}

/// `x + 256 * q` splits into its low byte `x` and the rest `q`.
proof fn lemma_split_byte(x: int, q: int)
    requires
        0 <= x < 256,
        q >= 0,
    ensures
        (x + 256 * q) % 256 == x,
        (x + 256 * q) / 256 == q,
{
    vstd::arithmetic::div_mod::lemma_fundamental_div_mod_converse(x + 256 * q, 256, q, x);
}

/// Four bytes read little-endian and written back little-endian are the same
/// four bytes.
pub proof fn lemma_le_u32_round_trip(b: Seq<u8>, i: int)
    requires
        0 <= i,
        i + 4 <= b.len(),
    ensures
        le_bytes(le_u32(b, i) as nat, 4) == b.subrange(i, i + 4),
{
    let b0 = b[i] as int;
    let b1 = b[i + 1] as int;
    let b2 = b[i + 2] as int;
    let b3 = b[i + 3] as int;
    let q2 = b2 + 256 * b3;
    let q1 = b1 + 256 * q2;
    let x = b0 + 256 * q1;
    assert(le_u32(b, i) == x);
    lemma_split_byte(b0, q1);
    lemma_split_byte(b1, q2);
    lemma_split_byte(b2, b3);
    lemma_split_byte(b3, 0);
    assert(le_bytes(0, 0) =~= Seq::<u8>::empty());
    assert(le_bytes(b3 as nat, 1) =~= seq![b3 as u8]);
    assert(le_bytes(q2 as nat, 2) =~= seq![b2 as u8, b3 as u8]);
    assert(le_bytes(q1 as nat, 3) =~= seq![b1 as u8, b2 as u8, b3 as u8]);
    assert(le_bytes(x as nat, 4) =~= seq![b0 as u8, b1 as u8, b2 as u8, b3 as u8]);
    assert(b.subrange(i, i + 4) =~= seq![b[i], b[i + 1], b[i + 2], b[i + 3]]);
}

/// The magic of a parsed directory of any kind, written back little-endian, is the
/// four bytes that start it, and it is the magic of the directory's kind.
pub proof fn lemma_magic_round_trip(b: Seq<u8>, addr: usize)
    requires
        spec_parse_directory(b, addr) is Ok,
    ensures
        le_bytes(spec_parse_directory(b, addr)->Ok_0.magic() as nat, 4) == b.subrange(0, 4),
        spec_parse_directory(b, addr)->Ok_0.magic() == magic_of_kind(
            spec_parse_directory(b, addr)->Ok_0.kind(),
        ),
{
    lemma_le_u32_round_trip(b, 0);
}

/// A soft fuse chain entry with size `0xFFFFFFFF` has as payload the eight bytes,
/// least significant first, of the low 30 bits of its value, and no header.
pub proof fn lemma_soft_fuse_payload(e: PspDirectoryEntry, img: Seq<u8>, dir_offset: usize)
    requires
        e.kind == 0x0b,
        e.size == INLINE_VALUE_SIZE,
    ensures
        psp_payload(e, img, dir_offset) == Ok::<(bool, Seq<u8>), crate::error::ParseError>(
            (false, le_bytes((e.value & ADDR_MASK) as nat, 8)),
        ),
        le_bytes((e.value & ADDR_MASK) as nat, 8).len() == 8,
{
    lemma_le_bytes_len((e.value & ADDR_MASK) as nat, 8);
}

pub proof fn lemma_le_bytes_len(x: nat, n: nat)
    ensures
        le_bytes(x, n).len() == n,
    decreases n,
{
    if n > 0 {
        lemma_le_bytes_len(x / 256, (n - 1) as nat);
    }
}

/// The comparison of two PSP directories not yet compared in the traversal opens
/// with a record that flags each side whose pairing keys (kind, sub-program) are
/// not unique; a pair compared before yields a `Revisit` record alone.
pub proof fn lemma_psp_duplicate_keys_reported(
    img_a: Seq<u8>,
    img_b: Seq<u8>,
    da: DirView<PspDirectoryEntry>,
    db: DirView<PspDirectoryEntry>,
    depth: usize,
    visited: Seq<VisitKey>,
)
    ensures
        !visited.contains((DirectoryKind::Psp, da.addr, db.addr)) ==> (psp_report(
            img_a,
            img_b,
            da,
            db,
            depth,
            visited,
        ).0[0] matches DiffItem::PspDir { duplicate_keys_a, duplicate_keys_b, .. }
            && duplicate_keys_a == !unique_keys(psp_keys(da.entries)) && duplicate_keys_b
            == !unique_keys(psp_keys(db.entries))),
        visited.contains((DirectoryKind::Psp, da.addr, db.addr)) ==> psp_report(
            img_a,
            img_b,
            da,
            db,
            depth,
            visited,
        ) == (
            seq![DiffItem::Revisit { depth, kind: DirectoryKind::Psp, addr_a: da.addr, addr_b: db.addr }],
            visited,
        ),
{
}

/// The comparison of two BIOS directories not yet compared in the traversal opens
/// with a record that flags each side whose pairing keys (kind, sub-program, flags)
/// are not unique; a pair compared before yields a `Revisit` record alone.
pub proof fn lemma_bios_duplicate_keys_reported(
    img_a: Seq<u8>,
    img_b: Seq<u8>,
    da: DirView<BiosDirectoryEntry>,
    db: DirView<BiosDirectoryEntry>,
    depth: usize,
    visited: Seq<VisitKey>,
)
    ensures
        !visited.contains((DirectoryKind::Bios, da.addr, db.addr)) ==> (bios_report(
            img_a,
            img_b,
            da,
            db,
            depth,
            visited,
        ).0[0] matches DiffItem::BiosDir { duplicate_keys_a, duplicate_keys_b, .. }
            && duplicate_keys_a == !unique_keys(bios_keys(da.entries)) && duplicate_keys_b
            == !unique_keys(bios_keys(db.entries))),
        visited.contains((DirectoryKind::Bios, da.addr, db.addr)) ==> bios_report(
            img_a,
            img_b,
            da,
            db,
            depth,
            visited,
        ) == (
            seq![DiffItem::Revisit { depth, kind: DirectoryKind::Bios, addr_a: da.addr, addr_b: db.addr }],
            visited,
        ),
{
}

/// The comparison of two combo directories not yet compared in the traversal opens
/// with a record that flags each side whose pairing keys (ID selector, ID) are not
/// unique; a pair compared before yields a `Revisit` record alone.
pub proof fn lemma_combo_duplicate_keys_reported(
    img_a: Seq<u8>,
    img_b: Seq<u8>,
    kind: DirectoryKind,
    ca: ComboView,
    cb: ComboView,
    depth: usize,
    visited: Seq<VisitKey>,
)
    ensures
        !visited.contains((kind, ca.addr, cb.addr)) ==> (combo_report(
            img_a,
            img_b,
            kind,
            ca,
            cb,
            depth,
            visited,
        ).0[0] matches DiffItem::ComboDir { duplicate_keys_a, duplicate_keys_b, .. }
            && duplicate_keys_a == !unique_keys(combo_keys(ca.entries)) && duplicate_keys_b
            == !unique_keys(combo_keys(cb.entries))),
        visited.contains((kind, ca.addr, cb.addr)) ==> combo_report(
            img_a,
            img_b,
            kind,
            ca,
            cb,
            depth,
            visited,
        ) == (seq![DiffItem::Revisit { depth, kind, addr_a: ca.addr, addr_b: cb.addr }], visited),
{
}

/// A pair record carries the outcome of comparing its two entries' payloads (or,
/// for BIOS level-2 directory pointers, marks the pair as nested).
pub open spec fn faithful(img_a: Seq<u8>, img_b: Seq<u8>, item: DiffItem) -> bool {
    match item {
        DiffItem::PspPair { dir_a, dir_b, psp_a, psp_b, outcome, .. } => outcome == psp_outcome(
            psp_a,
            psp_b,
            img_a,
            img_b,
            dir_a,
            dir_b,
        ),
        DiffItem::BiosPair { dir_a, dir_b, bios_a, bios_b, outcome, .. } => outcome
            == bios_outcome(bios_a, bios_b, img_a, img_b, dir_a, dir_b) || (outcome
            is Nested && bios_a.kind == 0x70),
        _ => true,
    }
}

pub open spec fn all_faithful(img_a: Seq<u8>, img_b: Seq<u8>, s: Seq<DiffItem>) -> bool {
    forall|i: int| 0 <= i < s.len() ==> #[trigger] faithful(img_a, img_b, s[i])
}

/// A pair record that reports its payloads as the same or as different names, on
/// each side, a range inside that side's image (see the two entry lemmas above).
pub open spec fn compared_in_image(img_a: Seq<u8>, img_b: Seq<u8>, item: DiffItem) -> bool {
    match item {
        DiffItem::PspPair { dir_a, dir_b, psp_a, psp_b, outcome, .. } => outcome is Compared ==> (
        psp_a.size != INLINE_VALUE_SIZE ==> resolve_addr(psp_a.value, dir_a as int) + psp_a.size
            <= img_a.len()) && (psp_b.size != INLINE_VALUE_SIZE ==> resolve_addr(
            psp_b.value,
            dir_b as int,
        ) + psp_b.size <= img_b.len()),
        DiffItem::BiosPair { dir_a, dir_b, bios_a, bios_b, outcome, .. } => outcome is Compared ==> (
        !(bios_a.kind == 0x62 && flags_compressed(bios_a.flags)) ==> resolve_addr(
            bios_a.source,
            dir_a as int,
        ) + bios_a.size <= img_a.len()) && (!(bios_b.kind == 0x62 && flags_compressed(
            bios_b.flags,
        )) ==> resolve_addr(bios_b.source, dir_b as int) + bios_b.size <= img_b.len()),
        _ => true,
    }
}

proof fn lemma_concat(img_a: Seq<u8>, img_b: Seq<u8>, s: Seq<DiffItem>, t: Seq<DiffItem>)
    requires
        all_faithful(img_a, img_b, s),
        all_faithful(img_a, img_b, t),
    ensures
        all_faithful(img_a, img_b, s + t),
{
    assert forall|i: int| 0 <= i < (s + t).len() implies #[trigger] faithful(
        img_a,
        img_b,
        (s + t)[i],
    ) by {
        if i < s.len() {
            assert((s + t)[i] == s[i]);
        } else {
            assert((s + t)[i] == t[i - s.len()]);
        }
    }
}

proof fn lemma_single(img_a: Seq<u8>, img_b: Seq<u8>, x: DiffItem)
    requires
        faithful(img_a, img_b, x),
    ensures
        all_faithful(img_a, img_b, seq![x]),
{
}

proof fn lemma_pair2(img_a: Seq<u8>, img_b: Seq<u8>, x: DiffItem, y: DiffItem)
    requires
        faithful(img_a, img_b, x),
        faithful(img_a, img_b, y),
    ensures
        all_faithful(img_a, img_b, seq![x, y]),
{
    assert(seq![x, y][0] == x);
    assert(seq![x, y][1] == y);
}

proof fn lemma_psp_only_faithful(
    img_a: Seq<u8>,
    img_b: Seq<u8>,
    es: Seq<PspDirectoryEntry>,
    other: Seq<u64>,
    side: Side,
    dir: usize,
    depth: usize,
    n: nat,
)
    ensures
        all_faithful(img_a, img_b, psp_only(es, other, side, dir, depth, n)),
    decreases n,
{
    if n > 0 && n <= es.len() {
        lemma_psp_only_faithful(img_a, img_b, es, other, side, dir, depth, (n - 1) as nat);
        let prev = psp_only(es, other, side, dir, depth, (n - 1) as nat);
        lemma_concat(img_a, img_b, prev, seq![DiffItem::PspOnly { depth, side, dir, psp_entry: es[n - 1] }]);
        assert(prev.push(DiffItem::PspOnly { depth, side, dir, psp_entry: es[n - 1] }) =~= prev + seq![
            DiffItem::PspOnly { depth, side, dir, psp_entry: es[n - 1] },
        ]);
    }
}

proof fn lemma_bios_only_faithful(
    img_a: Seq<u8>,
    img_b: Seq<u8>,
    es: Seq<BiosDirectoryEntry>,
    other: Seq<u64>,
    side: Side,
    dir: usize,
    depth: usize,
    n: nat,
)
    ensures
        all_faithful(img_a, img_b, bios_only(es, other, side, dir, depth, n)),
    decreases n,
{
    if n > 0 && n <= es.len() {
        lemma_bios_only_faithful(img_a, img_b, es, other, side, dir, depth, (n - 1) as nat);
        let prev = bios_only(es, other, side, dir, depth, (n - 1) as nat);
        lemma_concat(img_a, img_b, prev, seq![DiffItem::BiosOnly { depth, side, dir, bios_entry: es[n - 1] }]);
        assert(prev.push(DiffItem::BiosOnly { depth, side, dir, bios_entry: es[n - 1] }) =~= prev + seq![
            DiffItem::BiosOnly { depth, side, dir, bios_entry: es[n - 1] },
        ]);
    }
}

proof fn lemma_combo_only_faithful(
    img_a: Seq<u8>,
    img_b: Seq<u8>,
    es: Seq<crate::directory::ComboDirectoryEntry>,
    other: Seq<u64>,
    side: Side,
    depth: usize,
    n: nat,
)
    ensures
        all_faithful(img_a, img_b, combo_only(es, other, side, depth, n)),
    decreases n,
{
    if n > 0 && n <= es.len() {
        lemma_combo_only_faithful(img_a, img_b, es, other, side, depth, (n - 1) as nat);
        let prev = combo_only(es, other, side, depth, (n - 1) as nat);
        lemma_concat(img_a, img_b, prev, seq![DiffItem::ComboOnly { depth, side, combo_entry: es[n - 1] }]);
        assert(prev.push(DiffItem::ComboOnly { depth, side, combo_entry: es[n - 1] }) =~= prev + seq![
            DiffItem::ComboOnly { depth, side, combo_entry: es[n - 1] },
        ]);
    }
}

proof fn lemma_results_faithful(
    img_a: Seq<u8>,
    img_b: Seq<u8>,
    ra: Result<DirectoryView, ParseError>,
    rb: Result<DirectoryView, ParseError>,
    depth: usize,
    visited: Seq<VisitKey>,
)
    ensures
        all_faithful(img_a, img_b, results_report(img_a, img_b, ra, rb, depth, visited).0),
    decreases MAX_DEPTH - depth, 5nat, 0nat,
{
    match ra {
        Ok(da) => match rb {
            Ok(db) => lemma_dirs_faithful(img_a, img_b, da, db, depth, visited),
            Err(e) => lemma_pair2(
                img_a,
                img_b,
                DiffItem::Unpaired { depth, side: Side::A, kind: da.kind(), addr: da.addr() },
                DiffItem::Warning { depth, side: Side::B, error: e },
            ),
        },
        Err(e) => match rb {
            Ok(db) => lemma_pair2(
                img_a,
                img_b,
                DiffItem::Warning { depth, side: Side::A, error: e },
                DiffItem::Unpaired { depth, side: Side::B, kind: db.kind(), addr: db.addr() },
            ),
            Err(f) => lemma_pair2(
                img_a,
                img_b,
                DiffItem::Warning { depth, side: Side::A, error: e },
                DiffItem::Warning { depth, side: Side::B, error: f },
            ),
        },
    }
}

proof fn lemma_psp_results_faithful(
    img_a: Seq<u8>,
    img_b: Seq<u8>,
    ra: Result<DirView<PspDirectoryEntry>, ParseError>,
    rb: Result<DirView<PspDirectoryEntry>, ParseError>,
    depth: usize,
    visited: Seq<VisitKey>,
)
    ensures
        all_faithful(img_a, img_b, psp_results_report(img_a, img_b, ra, rb, depth, visited).0),
    decreases MAX_DEPTH - depth, 5nat, 0nat,
{
    match ra {
        Ok(da) => match rb {
            Ok(db) => lemma_psp_report_faithful(img_a, img_b, da, db, depth, visited),
            Err(e) => lemma_pair2(
                img_a,
                img_b,
                DiffItem::Unpaired { depth, side: Side::A, kind: DirectoryKind::Psp, addr: da.addr },
                DiffItem::Warning { depth, side: Side::B, error: e },
            ),
        },
        Err(e) => match rb {
            Ok(db) => lemma_pair2(
                img_a,
                img_b,
                DiffItem::Warning { depth, side: Side::A, error: e },
                DiffItem::Unpaired { depth, side: Side::B, kind: DirectoryKind::Psp, addr: db.addr },
            ),
            Err(f) => lemma_pair2(
                img_a,
                img_b,
                DiffItem::Warning { depth, side: Side::A, error: e },
                DiffItem::Warning { depth, side: Side::B, error: f },
            ),
        },
    }
}

proof fn lemma_dirs_faithful(
    img_a: Seq<u8>,
    img_b: Seq<u8>,
    da: DirectoryView,
    db: DirectoryView,
    depth: usize,
    visited: Seq<VisitKey>,
)
    ensures
        all_faithful(img_a, img_b, dirs_report(img_a, img_b, da, db, depth, visited).0),
    decreases MAX_DEPTH - depth, 4nat, 0nat,
{
    lemma_single(img_a, img_b, DiffItem::KindMismatch { depth, kind_a: da.kind(), kind_b: db.kind() });
    match da {
        DirectoryView::Psp(x) | DirectoryView::PspLevel2(x) => match db {
            DirectoryView::Psp(y) | DirectoryView::PspLevel2(y) => lemma_psp_report_faithful(
                img_a,
                img_b,
                x,
                y,
                depth,
                visited,
            ),
            _ => {},
        },
        DirectoryView::Bios(x) | DirectoryView::BiosLevel2(x) => match db {
            DirectoryView::Bios(y) | DirectoryView::BiosLevel2(y) => lemma_bios_report_faithful(
                img_a,
                img_b,
                x,
                y,
                depth,
                visited,
            ),
            _ => {},
        },
        DirectoryView::PspCombo(x) => match db {
            DirectoryView::PspCombo(y) => lemma_combo_report_faithful(
                img_a,
                img_b,
                DirectoryKind::PspCombo,
                x,
                y,
                depth,
                visited,
            ),
            _ => {},
        },
        DirectoryView::BiosCombo(x) => match db {
            DirectoryView::BiosCombo(y) => lemma_combo_report_faithful(
                img_a,
                img_b,
                DirectoryKind::BiosCombo,
                x,
                y,
                depth,
                visited,
            ),
            _ => {},
        },
    }
}

proof fn lemma_psp_report_faithful(
    img_a: Seq<u8>,
    img_b: Seq<u8>,
    da: DirView<PspDirectoryEntry>,
    db: DirView<PspDirectoryEntry>,
    depth: usize,
    visited: Seq<VisitKey>,
)
    ensures
        all_faithful(img_a, img_b, psp_report(img_a, img_b, da, db, depth, visited).0),
    decreases MAX_DEPTH - depth, 3nat, 0nat,
{
    let key = (DirectoryKind::Psp, da.addr, db.addr);
    lemma_single(
        img_a,
        img_b,
        DiffItem::Revisit { depth, kind: DirectoryKind::Psp, addr_a: da.addr, addr_b: db.addr },
    );
    if !visited.contains(key) {
        let ka = psp_keys(da.entries);
        let kb = psp_keys(db.entries);
        let v1 = visited.push(key);
        let h = seq![
            DiffItem::PspDir {
                depth,
                addr_a: da.addr,
                addr_b: db.addr,
                checksum_a: da.header.checksum,
                checksum_b: db.header.checksum,
                duplicate_keys_a: !unique_keys(ka),
                duplicate_keys_b: !unique_keys(kb),
            },
        ];
        let p = psp_pairs(img_a, img_b, da, db, depth, da.entries.len(), v1).0;
        let oa = psp_only(da.entries, kb, Side::A, da.addr, depth, da.entries.len());
        lemma_single(img_a, img_b, h[0]);
        lemma_psp_pairs_faithful(img_a, img_b, da, db, depth, da.entries.len(), v1);
        lemma_psp_only_faithful(img_a, img_b, da.entries, kb, Side::A, da.addr, depth, da.entries.len());
        lemma_psp_only_faithful(img_a, img_b, db.entries, ka, Side::B, db.addr, depth, db.entries.len());
        lemma_concat(img_a, img_b, h, p);
        lemma_concat(img_a, img_b, h + p, oa);
        lemma_concat(
            img_a,
            img_b,
            h + p + oa,
            psp_only(db.entries, ka, Side::B, db.addr, depth, db.entries.len()),
        );
    }
}

proof fn lemma_psp_pairs_faithful(
    img_a: Seq<u8>,
    img_b: Seq<u8>,
    da: DirView<PspDirectoryEntry>,
    db: DirView<PspDirectoryEntry>,
    depth: usize,
    n: nat,
    visited: Seq<VisitKey>,
)
    ensures
        all_faithful(img_a, img_b, psp_pairs(img_a, img_b, da, db, depth, n, visited).0),
    decreases MAX_DEPTH - depth, 2nat, n,
{
    if n > 0 && n <= da.entries.len() {
        lemma_psp_pairs_faithful(img_a, img_b, da, db, depth, (n - 1) as nat, visited);
        let prev = psp_pairs(img_a, img_b, da, db, depth, (n - 1) as nat, visited);
        let a = da.entries[n - 1];
        match crate::diff::first_index(psp_keys(db.entries), crate::diff::psp_key(a)) {
            None => {},
            Some(j) => {
                let b = db.entries[j];
                let item = DiffItem::PspPair {
                    depth,
                    dir_a: da.addr,
                    dir_b: db.addr,
                    psp_a: a,
                    psp_b: b,
                    outcome: psp_outcome(a, b, img_a, img_b, da.addr, db.addr),
                };
                lemma_single(img_a, img_b, item);
                lemma_psp_sub_faithful(img_a, img_b, a, b, da.addr, db.addr, depth, prev.1);
                lemma_concat(img_a, img_b, prev.0, seq![item]);
                assert(prev.0.push(item) =~= prev.0 + seq![item]);
                lemma_concat(
                    img_a,
                    img_b,
                    prev.0.push(item),
                    psp_sub(img_a, img_b, a, b, da.addr, db.addr, depth, prev.1).0,
                );
            },
        }
    }
}

proof fn lemma_psp_sub_faithful(
    img_a: Seq<u8>,
    img_b: Seq<u8>,
    a: PspDirectoryEntry,
    b: PspDirectoryEntry,
    da: usize,
    db: usize,
    depth: usize,
    visited: Seq<VisitKey>,
)
    ensures
        all_faithful(img_a, img_b, psp_sub(img_a, img_b, a, b, da, db, depth, visited).0),
    decreases MAX_DEPTH - depth, 1nat, 0nat,
{
    if a.kind != 0x40 && a.kind != 0x48 && a.kind != 0x4a && a.kind != 0x49 {
    } else if depth + 1 > MAX_DEPTH {
        lemma_single(img_a, img_b, DiffItem::DepthLimit { depth: (depth + 1) as usize });
    } else if a.kind == 0x40 {
        lemma_psp_results_faithful(
            img_a,
            img_b,
            crate::diff::psp_dir_at(img_a, crate::directory::resolved(a.value, da)),
            crate::diff::psp_dir_at(img_b, crate::directory::resolved(b.value, db)),
            (depth + 1) as usize,
            visited,
        );
    } else if a.kind == 0x49 {
        lemma_results_faithful(
            img_a,
            img_b,
            crate::diff::dir_at(img_a, crate::directory::resolved(a.value, da)),
            crate::diff::dir_at(img_b, crate::directory::resolved(b.value, db)),
            (depth + 1) as usize,
            visited,
        );
    } else {
        lemma_psp_results_faithful(
            img_a,
            img_b,
            crate::diff::backup_target(img_a, crate::directory::resolved(a.value, da)),
            crate::diff::backup_target(img_b, crate::directory::resolved(b.value, db)),
            (depth + 1) as usize,
            visited,
        );
    }
}

proof fn lemma_bios_report_faithful(
    img_a: Seq<u8>,
    img_b: Seq<u8>,
    da: DirView<BiosDirectoryEntry>,
    db: DirView<BiosDirectoryEntry>,
    depth: usize,
    visited: Seq<VisitKey>,
)
    ensures
        all_faithful(img_a, img_b, bios_report(img_a, img_b, da, db, depth, visited).0),
    decreases MAX_DEPTH - depth, 3nat, 0nat,
{
    let key = (DirectoryKind::Bios, da.addr, db.addr);
    lemma_single(
        img_a,
        img_b,
        DiffItem::Revisit { depth, kind: DirectoryKind::Bios, addr_a: da.addr, addr_b: db.addr },
    );
    if !visited.contains(key) {
        let ka = bios_keys(da.entries);
        let kb = bios_keys(db.entries);
        let v1 = visited.push(key);
        let h = seq![
            DiffItem::BiosDir {
                depth,
                addr_a: da.addr,
                addr_b: db.addr,
                checksum_a: da.header.checksum,
                checksum_b: db.header.checksum,
                duplicate_keys_a: !unique_keys(ka),
                duplicate_keys_b: !unique_keys(kb),
            },
        ];
        let p = bios_pairs(img_a, img_b, da, db, depth, da.entries.len(), v1).0;
        let oa = bios_only(da.entries, kb, Side::A, da.addr, depth, da.entries.len());
        lemma_single(img_a, img_b, h[0]);
        lemma_bios_pairs_faithful(img_a, img_b, da, db, depth, da.entries.len(), v1);
        lemma_bios_only_faithful(img_a, img_b, da.entries, kb, Side::A, da.addr, depth, da.entries.len());
        lemma_bios_only_faithful(img_a, img_b, db.entries, ka, Side::B, db.addr, depth, db.entries.len());
        lemma_concat(img_a, img_b, h, p);
        lemma_concat(img_a, img_b, h + p, oa);
        lemma_concat(
            img_a,
            img_b,
            h + p + oa,
            bios_only(db.entries, ka, Side::B, db.addr, depth, db.entries.len()),
        );
    }
}

proof fn lemma_bios_pairs_faithful(
    img_a: Seq<u8>,
    img_b: Seq<u8>,
    da: DirView<BiosDirectoryEntry>,
    db: DirView<BiosDirectoryEntry>,
    depth: usize,
    n: nat,
    visited: Seq<VisitKey>,
)
    ensures
        all_faithful(img_a, img_b, bios_pairs(img_a, img_b, da, db, depth, n, visited).0),
    decreases MAX_DEPTH - depth, 2nat, n,
{
    if n > 0 && n <= da.entries.len() {
        lemma_bios_pairs_faithful(img_a, img_b, da, db, depth, (n - 1) as nat, visited);
        let prev = bios_pairs(img_a, img_b, da, db, depth, (n - 1) as nat, visited);
        let a = da.entries[n - 1];
        match crate::diff::first_index(bios_keys(db.entries), crate::diff::bios_key(a)) {
            None => {},
            Some(j) => {
                let b = db.entries[j];
                if a.kind == 0x70 {
                    let item = DiffItem::BiosPair {
                        depth,
                        dir_a: da.addr,
                        dir_b: db.addr,
                        bios_a: a,
                        bios_b: b,
                        outcome: EntryOutcome::Nested,
                    };
                    lemma_single(img_a, img_b, item);
                    lemma_bios_sub_faithful(img_a, img_b, a, b, da.addr, db.addr, depth, prev.1);
                    lemma_concat(img_a, img_b, prev.0, seq![item]);
                    assert(prev.0.push(item) =~= prev.0 + seq![item]);
                    lemma_concat(
                        img_a,
                        img_b,
                        prev.0.push(item),
                        bios_sub(img_a, img_b, a, b, da.addr, db.addr, depth, prev.1).0,
                    );
                } else {
                    let item = DiffItem::BiosPair {
                        depth,
                        dir_a: da.addr,
                        dir_b: db.addr,
                        bios_a: a,
                        bios_b: b,
                        outcome: bios_outcome(a, b, img_a, img_b, da.addr, db.addr),
                    };
                    lemma_single(img_a, img_b, item);
                    lemma_concat(img_a, img_b, prev.0, seq![item]);
                    assert(prev.0.push(item) =~= prev.0 + seq![item]);
                }
            },
        }
    }
}

proof fn lemma_bios_sub_faithful(
    img_a: Seq<u8>,
    img_b: Seq<u8>,
    a: BiosDirectoryEntry,
    b: BiosDirectoryEntry,
    da: usize,
    db: usize,
    depth: usize,
    visited: Seq<VisitKey>,
)
    ensures
        all_faithful(img_a, img_b, bios_sub(img_a, img_b, a, b, da, db, depth, visited).0),
    decreases MAX_DEPTH - depth, 1nat, 0nat,
{
    if depth + 1 > MAX_DEPTH {
        lemma_single(img_a, img_b, DiffItem::DepthLimit { depth: (depth + 1) as usize });
    } else {
        lemma_results_faithful(
            img_a,
            img_b,
            crate::diff::dir_at(img_a, crate::directory::resolved(a.source, da)),
            crate::diff::dir_at(img_b, crate::directory::resolved(b.source, db)),
            (depth + 1) as usize,
            visited,
        );
    }
}

proof fn lemma_combo_report_faithful(
    img_a: Seq<u8>,
    img_b: Seq<u8>,
    kind: DirectoryKind,
    ca: ComboView,
    cb: ComboView,
    depth: usize,
    visited: Seq<VisitKey>,
)
    ensures
        all_faithful(img_a, img_b, combo_report(img_a, img_b, kind, ca, cb, depth, visited).0),
    decreases MAX_DEPTH - depth, 3nat, 0nat,
{
    let key = (kind, ca.addr, cb.addr);
    lemma_single(img_a, img_b, DiffItem::Revisit { depth, kind, addr_a: ca.addr, addr_b: cb.addr });
    if !visited.contains(key) {
        let ka = combo_keys(ca.entries);
        let kb = combo_keys(cb.entries);
        let v1 = visited.push(key);
        let h = seq![
            DiffItem::ComboDir {
                depth,
                addr_a: ca.addr,
                addr_b: cb.addr,
                checksum_a: ca.header.checksum,
                checksum_b: cb.header.checksum,
                duplicate_keys_a: !unique_keys(ka),
                duplicate_keys_b: !unique_keys(kb),
            },
        ];
        let p = combo_pairs(img_a, img_b, ca, cb, depth, ca.entries.len(), v1).0;
        let oa = combo_only(ca.entries, kb, Side::A, depth, ca.entries.len());
        lemma_single(img_a, img_b, h[0]);
        lemma_combo_pairs_faithful(img_a, img_b, ca, cb, depth, ca.entries.len(), v1);
        lemma_combo_only_faithful(img_a, img_b, ca.entries, kb, Side::A, depth, ca.entries.len());
        lemma_combo_only_faithful(img_a, img_b, cb.entries, ka, Side::B, depth, cb.entries.len());
        lemma_concat(img_a, img_b, h, p);
        lemma_concat(img_a, img_b, h + p, oa);
        lemma_concat(img_a, img_b, h + p + oa, combo_only(cb.entries, ka, Side::B, depth, cb.entries.len()));
    }
}

proof fn lemma_combo_pairs_faithful(
    img_a: Seq<u8>,
    img_b: Seq<u8>,
    ca: ComboView,
    cb: ComboView,
    depth: usize,
    n: nat,
    visited: Seq<VisitKey>,
)
    ensures
        all_faithful(img_a, img_b, combo_pairs(img_a, img_b, ca, cb, depth, n, visited).0),
    decreases MAX_DEPTH - depth, 2nat, n,
{
    if n > 0 && n <= ca.entries.len() {
        lemma_combo_pairs_faithful(img_a, img_b, ca, cb, depth, (n - 1) as nat, visited);
        let prev = combo_pairs(img_a, img_b, ca, cb, depth, (n - 1) as nat, visited);
        let a = ca.entries[n - 1];
        match crate::diff::first_index(combo_keys(cb.entries), crate::diff::combo_key(a)) {
            None => {},
            Some(j) => {
                let b = cb.entries[j];
                let item = DiffItem::ComboPair { depth, combo_a: a, combo_b: b };
                lemma_single(img_a, img_b, item);
                lemma_combo_sub_faithful(img_a, img_b, a, b, depth, prev.1);
                lemma_concat(img_a, img_b, prev.0, seq![item]);
                assert(prev.0.push(item) =~= prev.0 + seq![item]);
                lemma_concat(img_a, img_b, prev.0.push(item), combo_sub(img_a, img_b, a, b, depth, prev.1).0);
            },
        }
    }
}

proof fn lemma_combo_sub_faithful(
    img_a: Seq<u8>,
    img_b: Seq<u8>,
    a: crate::directory::ComboDirectoryEntry,
    b: crate::directory::ComboDirectoryEntry,
    depth: usize,
    visited: Seq<VisitKey>,
)
    ensures
        all_faithful(img_a, img_b, combo_sub(img_a, img_b, a, b, depth, visited).0),
    decreases MAX_DEPTH - depth, 1nat, 0nat,
{
    if depth + 1 > MAX_DEPTH {
        lemma_single(img_a, img_b, DiffItem::DepthLimit { depth: (depth + 1) as usize });
    } else {
        lemma_results_faithful(
            img_a,
            img_b,
            crate::diff::dir_at(img_a, crate::diff::combo_target(a.directory)),
            crate::diff::dir_at(img_b, crate::diff::combo_target(b.directory)),
            (depth + 1) as usize,
            visited,
        );
    }
}

proof fn lemma_faithful_in_image(img_a: Seq<u8>, img_b: Seq<u8>, item: DiffItem)
    requires
        faithful(img_a, img_b, item),
    ensures
        compared_in_image(img_a, img_b, item),
{
    match item {
        DiffItem::PspPair { dir_a, dir_b, psp_a, psp_b, outcome, .. } => {
            if outcome is Compared {
                lemma_compared_psp_entries_in_image(psp_a, psp_b, img_a, img_b, dir_a, dir_b);
            }
        },
        DiffItem::BiosPair { dir_a, dir_b, bios_a, bios_b, outcome, .. } => {
            if outcome is Compared {
                lemma_compared_bios_entries_in_image(bios_a, bios_b, img_a, img_b, dir_a, dir_b);
            }
        },
        _ => {},
    }
}

proof fn lemma_psp_diff_report_faithful(a: Seq<u8>, efs_a: EFS, b: Seq<u8>, efs_b: EFS)
    ensures
        all_faithful(a, b, psp_diff_report(a, efs_a, b, efs_b)),
{
    let ga = spec_get_dir(efs_a.psp_legacy as usize, a);
    let gb = spec_get_dir(efs_b.psp_legacy as usize, b);
    let r1 = results_report(a, b, ga, gb, 0, seq![]);
    let ha = spec_get_dir(efs_a.psp_17_00 as usize, a);
    let hb = spec_get_dir(efs_b.psp_17_00 as usize, b);
    let r2 = results_report(a, b, ha, hb, 0, r1.1);
    let h1 = seq![DiffItem::Root { pointer: RootPointer::PspLegacy }];
    let h2 = seq![DiffItem::Root { pointer: RootPointer::Psp }];
    lemma_single(a, b, h1[0]);
    lemma_single(a, b, h2[0]);
    lemma_results_faithful(a, b, ga, gb, 0, seq![]);
    lemma_results_faithful(a, b, ha, hb, 0, r1.1);
    lemma_concat(a, b, h1, r1.0);
    lemma_concat(a, b, h1 + r1.0, h2);
    lemma_concat(a, b, h1 + r1.0 + h2, r2.0);
    assert(psp_diff_report(a, efs_a, b, efs_b) == h1 + r1.0 + h2 + r2.0);
}

/// Every pair record of the PSP comparison of two images that reports the payloads
/// as the same or as different names ranges inside both images.
pub proof fn lemma_psp_report_in_image(a: Seq<u8>, efs_a: EFS, b: Seq<u8>, efs_b: EFS)
    ensures
        forall|i: int|
            0 <= i < psp_diff_report(a, efs_a, b, efs_b).len() ==> #[trigger] compared_in_image(
                a,
                b,
                psp_diff_report(a, efs_a, b, efs_b)[i],
            ),
{
    lemma_psp_diff_report_faithful(a, efs_a, b, efs_b);
    let s = psp_diff_report(a, efs_a, b, efs_b);
    assert forall|i: int| 0 <= i < s.len() implies #[trigger] compared_in_image(a, b, s[i]) by {
        lemma_faithful_in_image(a, b, s[i]);
    }
}

proof fn lemma_bios_root_faithful(
    pointer: RootPointer,
    a: Seq<u8>,
    pa: u32,
    b: Seq<u8>,
    pb: u32,
    visited: Seq<VisitKey>,
)
    ensures
        all_faithful(a, b, bios_root_report(pointer, a, pa, b, pb, visited).0),
{
    let h = seq![DiffItem::Root { pointer }];
    let ga = spec_get_dir(pa as usize, a);
    let gb = spec_get_dir(pb as usize, b);
    lemma_single(a, b, h[0]);
    lemma_results_faithful(a, b, ga, gb, 0, visited);
    lemma_concat(a, b, h, results_report(a, b, ga, gb, 0, visited).0);
}

proof fn lemma_bios_diff_report_faithful(a: Seq<u8>, efs_a: EFS, b: Seq<u8>, efs_b: EFS)
    ensures
        all_faithful(a, b, bios_diff_report(a, efs_a, b, efs_b)),
{
    let p1 = RootPointer::BiosFam17Models00To0f;
    let p2 = RootPointer::BiosFam17Models10To1f;
    let p3 = RootPointer::BiosFam17Models30To3fFam19Models00To0f;
    let p4 = RootPointer::BiosFam17Model60On;
    let r1 = bios_root_report(p1, a, efs_a.bios_17_00_0f, b, efs_b.bios_17_00_0f, seq![]);
    let r2 = bios_root_report(p2, a, efs_a.bios_17_10_1f, b, efs_b.bios_17_10_1f, r1.1);
    let r3 = bios_root_report(
        p3,
        a,
        efs_a.bios_17_30_3f_19_00_0f,
        b,
        efs_b.bios_17_30_3f_19_00_0f,
        r2.1,
    );
    let r4 = bios_root_report(p4, a, efs_a.bios_17_60, b, efs_b.bios_17_60, r3.1);
    lemma_bios_root_faithful(p1, a, efs_a.bios_17_00_0f, b, efs_b.bios_17_00_0f, seq![]);
    lemma_bios_root_faithful(p2, a, efs_a.bios_17_10_1f, b, efs_b.bios_17_10_1f, r1.1);
    lemma_bios_root_faithful(p3, a, efs_a.bios_17_30_3f_19_00_0f, b, efs_b.bios_17_30_3f_19_00_0f, r2.1);
    lemma_bios_root_faithful(p4, a, efs_a.bios_17_60, b, efs_b.bios_17_60, r3.1);
    lemma_concat(a, b, r1.0, r2.0);
    lemma_concat(a, b, r1.0 + r2.0, r3.0);
    lemma_concat(a, b, r1.0 + r2.0 + r3.0, r4.0);
    assert(bios_diff_report(a, efs_a, b, efs_b) == r1.0 + r2.0 + r3.0 + r4.0);
}

/// Every pair record of the BIOS comparison of two images that reports the payloads
/// as the same or as different names ranges inside both images.
pub proof fn lemma_bios_report_in_image(a: Seq<u8>, efs_a: EFS, b: Seq<u8>, efs_b: EFS)
    ensures
        forall|i: int|
            0 <= i < bios_diff_report(a, efs_a, b, efs_b).len() ==> #[trigger] compared_in_image(
                a,
                b,
                bios_diff_report(a, efs_a, b, efs_b)[i],
            ),
{
    lemma_bios_diff_report_faithful(a, efs_a, b, efs_b);
    let s = bios_diff_report(a, efs_a, b, efs_b);
    assert forall|i: int| 0 <= i < s.len() implies #[trigger] compared_in_image(a, b, s[i]) by {
        lemma_faithful_in_image(a, b, s[i]);
    }
}

/// A pair record of an entry with itself, in directories at the same offset, does
/// not report the payloads as different.
pub open spec fn self_pair_not_differ(item: DiffItem) -> bool {
    match item {
        DiffItem::PspPair { dir_a, dir_b, psp_a, psp_b, outcome, .. } => dir_a == dir_b && psp_a
            == psp_b ==> outcome != EntryOutcome::Compared(Comparison::Diff),
        DiffItem::BiosPair { dir_a, dir_b, bios_a, bios_b, outcome, .. } => dir_a == dir_b && bios_a
            == bios_b ==> outcome != EntryOutcome::Compared(Comparison::Diff),
        _ => true,
    }
}

/// Comparing an image with itself reports no pair of an entry with itself, at the
/// same offset, as different: both payloads are the same bytes (or could not be
/// extracted).
pub proof fn lemma_identical_images_not_differ(img: Seq<u8>, efs: EFS)
    ensures
        forall|i: int|
            0 <= i < psp_diff_report(img, efs, img, efs).len() ==> #[trigger] self_pair_not_differ(
                psp_diff_report(img, efs, img, efs)[i],
            ),
        forall|i: int|
            0 <= i < bios_diff_report(img, efs, img, efs).len() ==> #[trigger] self_pair_not_differ(
                bios_diff_report(img, efs, img, efs)[i],
            ),
{
    lemma_psp_diff_report_faithful(img, efs, img, efs);
    lemma_bios_diff_report_faithful(img, efs, img, efs);
    let s = psp_diff_report(img, efs, img, efs);
    assert forall|i: int| 0 <= i < s.len() implies #[trigger] self_pair_not_differ(s[i]) by {
        assert(faithful(img, img, s[i]));
    }
    let t = bios_diff_report(img, efs, img, efs);
    assert forall|i: int| 0 <= i < t.len() implies #[trigger] self_pair_not_differ(t[i]) by {
        assert(faithful(img, img, t[i]));
    }
}

proof fn lemma_first_index_found(keys: Seq<u64>, k: u64, j: int, i: int)
    requires
        0 <= j <= i < keys.len(),
        keys[i] == k,
    ensures
        first_index_from(keys, k, j) is Some,
    decreases i - j,
{
    if keys[j] != k {
        lemma_first_index_found(keys, k, j + 1, i);
    }
}

/// Comparing a PSP directory with itself lists no entry as present on one side only.
pub proof fn lemma_psp_self_no_only(
    es: Seq<PspDirectoryEntry>,
    side: Side,
    dir: usize,
    depth: usize,
    n: nat,
)
    requires
        n <= es.len(),
    ensures
        psp_only(es, psp_keys(es), side, dir, depth, n) == Seq::<DiffItem>::empty(),
    decreases n,
{
    if n > 0 {
        lemma_psp_self_no_only(es, side, dir, depth, (n - 1) as nat);
        lemma_first_index_found(psp_keys(es), psp_key(es[n - 1]), 0, n - 1);
    }
}

/// Comparing a BIOS directory with itself lists no entry as present on one side only.
pub proof fn lemma_bios_self_no_only(
    es: Seq<BiosDirectoryEntry>,
    side: Side,
    dir: usize,
    depth: usize,
    n: nat,
)
    requires
        n <= es.len(),
    ensures
        bios_only(es, bios_keys(es), side, dir, depth, n) == Seq::<DiffItem>::empty(),
    decreases n,
{
    if n > 0 {
        lemma_bios_self_no_only(es, side, dir, depth, (n - 1) as nat);
        lemma_first_index_found(bios_keys(es), bios_key(es[n - 1]), 0, n - 1);
    }
}

/// A BIOS entry that starts 8 bytes before the end of the image and declares 16
/// bytes is out of range, and the error names the range and the image length (in
/// an image short enough that the end of the range is a `usize`; it saturates
/// otherwise).
pub proof fn lemma_bios_entry_past_end(e: BiosDirectoryEntry, img: Seq<u8>, dir_offset: usize)
    requires
        !(e.kind == 0x62 && flags_compressed(e.flags)),
        img.len() >= 8,
        resolve_addr(e.source, dir_offset as int) == img.len() - 8,
        e.size == 16,
        img.len() + 8 <= usize::MAX,
    ensures
        bios_payload(e, img, dir_offset) == Err::<Seq<u8>, ParseError>(
            ParseError::RangeExceedsImage {
                start: (img.len() - 8) as usize,
                end: (img.len() + 8) as usize,
                image_len: img.len() as usize,
            },
        ),
{
}

proof fn lemma_bios_pairs_prefix(
    img_a: Seq<u8>,
    img_b: Seq<u8>,
    da: DirView<BiosDirectoryEntry>,
    db: DirView<BiosDirectoryEntry>,
    depth: usize,
    visited: Seq<VisitKey>,
    n: nat,
    m: nat,
)
    requires
        n <= m <= da.entries.len(),
    ensures
        bios_pairs(img_a, img_b, da, db, depth, n, visited).0.len() <= bios_pairs(
            img_a,
            img_b,
            da,
            db,
            depth,
            m,
            visited,
        ).0.len(),
        forall|i: int|
            0 <= i < bios_pairs(img_a, img_b, da, db, depth, n, visited).0.len() ==> bios_pairs(
                img_a,
                img_b,
                da,
                db,
                depth,
                m,
                visited,
            ).0[i] == bios_pairs(img_a, img_b, da, db, depth, n, visited).0[i],
    decreases m - n,
{
    if n < m {
        lemma_bios_pairs_prefix(img_a, img_b, da, db, depth, visited, n, (m - 1) as nat);
        let prev = bios_pairs(img_a, img_b, da, db, depth, (m - 1) as nat, visited).0;
        let cur = bios_pairs(img_a, img_b, da, db, depth, m, visited).0;
        assert(cur.len() >= prev.len() && forall|i: int| 0 <= i < prev.len() ==> cur[i] == prev[i]);
    }
}

/// Every entry of a BIOS directory that has a partner on the other side, and is not
/// a level-2 directory pointer, gets its own pair record with its own outcome,
/// whatever the outcomes of its siblings (an out-of-range sibling included).
pub proof fn lemma_bios_pair_recorded(
    img_a: Seq<u8>,
    img_b: Seq<u8>,
    da: DirView<BiosDirectoryEntry>,
    db: DirView<BiosDirectoryEntry>,
    depth: usize,
    visited: Seq<VisitKey>,
    k: int,
)
    requires
        0 <= k < da.entries.len(),
        da.entries[k].kind != 0x70,
        (first_index(bios_keys(db.entries), bios_key(da.entries[k])) is Some),
    ensures
        (exists|i: int|
            0 <= i < bios_pairs(img_a, img_b, da, db, depth, da.entries.len(), visited).0.len()
                && bios_pairs(img_a, img_b, da, db, depth, da.entries.len(), visited).0[i]
                == DiffItem::BiosPair {
                depth,
                dir_a: da.addr,
                dir_b: db.addr,
                bios_a: da.entries[k],
                bios_b: db.entries[first_index(
                    bios_keys(db.entries),
                    bios_key(da.entries[k]),
                )->Some_0],
                outcome: bios_outcome(
                    da.entries[k],
                    db.entries[first_index(bios_keys(db.entries), bios_key(da.entries[k]))->Some_0],
                    img_a,
                    img_b,
                    da.addr,
                    db.addr,
                ),
            }),
{
    let prev = bios_pairs(img_a, img_b, da, db, depth, k as nat, visited).0;
    let here = bios_pairs(img_a, img_b, da, db, depth, (k + 1) as nat, visited).0;
    assert(here[prev.len() as int] == DiffItem::BiosPair {
        depth,
        dir_a: da.addr,
        dir_b: db.addr,
        bios_a: da.entries[k],
        bios_b: db.entries[first_index(bios_keys(db.entries), bios_key(da.entries[k]))->Some_0],
        outcome: bios_outcome(
            da.entries[k],
            db.entries[first_index(bios_keys(db.entries), bios_key(da.entries[k]))->Some_0],
            img_a,
            img_b,
            da.addr,
            db.addr,
        ),
    });
    lemma_bios_pairs_prefix(img_a, img_b, da, db, depth, visited, (k + 1) as nat, da.entries.len());
}

/// Wherever the directory reached on one side cannot be parsed, at any depth, the
/// report holds a warning for that side, at that depth, with the parse error; the
/// comparison goes on with the rest.
pub proof fn lemma_failed_parse_warned(
    img_a: Seq<u8>,
    img_b: Seq<u8>,
    ra: Result<DirectoryView, ParseError>,
    rb: Result<DirectoryView, ParseError>,
    depth: usize,
    visited: Seq<VisitKey>,
)
    ensures
        ra is Err ==> results_report(img_a, img_b, ra, rb, depth, visited).0.contains(
            DiffItem::Warning { depth, side: Side::A, error: ra->Err_0 },
        ),
        rb is Err ==> results_report(img_a, img_b, ra, rb, depth, visited).0.contains(
            DiffItem::Warning { depth, side: Side::B, error: rb->Err_0 },
        ),
{
    let r = results_report(img_a, img_b, ra, rb, depth, visited).0;
    if ra is Err {
        assert(r[0] == DiffItem::Warning { depth, side: Side::A, error: ra->Err_0 });
    }
    if rb is Err {
        assert(r[1] == DiffItem::Warning { depth, side: Side::B, error: rb->Err_0 });
    }
}

/// As `lemma_failed_parse_warned`, for the PSP directories that level-2 and A/B
/// entries lead to.
pub proof fn lemma_failed_psp_parse_warned(
    img_a: Seq<u8>,
    img_b: Seq<u8>,
    ra: Result<DirView<PspDirectoryEntry>, ParseError>,
    rb: Result<DirView<PspDirectoryEntry>, ParseError>,
    depth: usize,
    visited: Seq<VisitKey>,
)
    ensures
        ra is Err ==> psp_results_report(img_a, img_b, ra, rb, depth, visited).0.contains(
            DiffItem::Warning { depth, side: Side::A, error: ra->Err_0 },
        ),
        rb is Err ==> psp_results_report(img_a, img_b, ra, rb, depth, visited).0.contains(
            DiffItem::Warning { depth, side: Side::B, error: rb->Err_0 },
        ),
{
    let r = psp_results_report(img_a, img_b, ra, rb, depth, visited).0;
    if ra is Err {
        assert(r[0] == DiffItem::Warning { depth, side: Side::A, error: ra->Err_0 });
    }
    if rb is Err {
        assert(r[1] == DiffItem::Warning { depth, side: Side::B, error: rb->Err_0 });
    }
}

/// The two images agree on the `n` bytes at `start`.
pub open spec fn agree_on(img_a: Seq<u8>, img_b: Seq<u8>, start: int, n: int) -> bool {
    forall|i: int| start <= i < start + n ==> img_a[i] == img_b[i]
}

/// A pair record of a PSP entry with itself, in directories at the same offset, whose
/// range lies in the first image and holds the same bytes in both, reports Same.
pub open spec fn unchanged_psp_pair_same(img_a: Seq<u8>, img_b: Seq<u8>, item: DiffItem) -> bool {
    match item {
        DiffItem::PspPair { dir_a, dir_b, psp_a, psp_b, outcome, .. } => (dir_a == dir_b && psp_a
            == psp_b && psp_a.size != INLINE_VALUE_SIZE && img_a.len() == img_b.len()
            && resolve_addr(psp_a.value, dir_a as int) + psp_a.size <= img_a.len() && agree_on(
            img_a,
            img_b,
            resolve_addr(psp_a.value, dir_a as int),
            psp_a.size as int,
        )) ==> outcome == EntryOutcome::Compared(Comparison::Same),
        _ => true,
    }
}

/// The outcome of a PSP entry compared with itself depends only on the bytes of its
/// own range: where both images hold the same bytes there, it is Same.
pub proof fn lemma_psp_outcome_local(
    e: PspDirectoryEntry,
    img_a: Seq<u8>,
    img_b: Seq<u8>,
    dir_offset: usize,
)
    requires
        e.size != INLINE_VALUE_SIZE,
        img_a.len() == img_b.len(),
        resolve_addr(e.value, dir_offset as int) + e.size <= img_a.len(),
        agree_on(img_a, img_b, resolve_addr(e.value, dir_offset as int), e.size as int),
    ensures
        psp_outcome(e, e, img_a, img_b, dir_offset, dir_offset) == EntryOutcome::Compared(
            Comparison::Same,
        ),
{
    lemma_resolve_nonneg(e.value, dir_offset as int);
    let start = resolve_addr(e.value, dir_offset as int);
    let end = start + e.size;
    assert(img_a.subrange(start, end) =~= img_b.subrange(start, end));
    if start + crate::psp::PSP_BIN_HEADER_SIZE <= end {
        assert(img_a.subrange(start + crate::psp::PSP_BIN_HEADER_SIZE, end) =~= img_b.subrange(
            start + crate::psp::PSP_BIN_HEADER_SIZE,
            end,
        ));
    }
}

/// Comparing two images, every pair record of a PSP entry with itself whose bytes
/// are the same in both images reports Same: only pairs whose ranges hold changed
/// bytes can be reported as different.
pub proof fn lemma_unchanged_psp_pairs_same(a: Seq<u8>, efs_a: EFS, b: Seq<u8>, efs_b: EFS)
    ensures
        forall|i: int|
            0 <= i < psp_diff_report(a, efs_a, b, efs_b).len() ==> #[trigger] unchanged_psp_pair_same(
                a,
                b,
                psp_diff_report(a, efs_a, b, efs_b)[i],
            ),
{
    lemma_psp_diff_report_faithful(a, efs_a, b, efs_b);
    let s = psp_diff_report(a, efs_a, b, efs_b);
    assert forall|i: int| 0 <= i < s.len() implies #[trigger] unchanged_psp_pair_same(a, b, s[i]) by {
        assert(faithful(a, b, s[i]));
        match s[i] {
            DiffItem::PspPair { dir_a, dir_b, psp_a, psp_b, .. } => {
                if dir_a == dir_b && psp_a == psp_b && psp_a.size != INLINE_VALUE_SIZE && a.len()
                    == b.len() && resolve_addr(psp_a.value, dir_a as int) + psp_a.size <= a.len()
                    && agree_on(a, b, resolve_addr(psp_a.value, dir_a as int), psp_a.size as int) {
                    lemma_psp_outcome_local(psp_a, a, b, dir_a);
                }
            },
            _ => {},
        }
    }
}

pub open spec fn walk_depth(w: WalkItemView) -> usize {
    match w {
        WalkItemView::Found { depth, .. } => depth,
        WalkItemView::Failed { depth, .. } => depth,
        WalkItemView::Revisit { depth, .. } => depth,
        WalkItemView::TooDeep { depth, .. } => depth,
    }
}

/// Every record lies at most one level below the depth limit.
pub open spec fn depth_bounded(s: Seq<WalkItemView>) -> bool {
    forall|i: int| 0 <= i < s.len() ==> #[trigger] walk_depth(s[i]) <= MAX_DEPTH + 1
}

proof fn lemma_depth_concat(s: Seq<WalkItemView>, t: Seq<WalkItemView>)
    requires
        depth_bounded(s),
        depth_bounded(t),
    ensures
        depth_bounded(s + t),
{
    assert forall|i: int| 0 <= i < (s + t).len() implies #[trigger] walk_depth((s + t)[i])
        <= MAX_DEPTH + 1 by {
        if i < s.len() {
            assert((s + t)[i] == s[i]);
        } else {
            assert((s + t)[i] == t[i - s.len()]);
        }
    }
}

proof fn lemma_walk_from_bounded(
    img: Seq<u8>,
    r: Result<DirectoryView, ParseError>,
    depth: usize,
    path: WalkPath,
    visited: Seq<(DirectoryKind, usize)>,
)
    requires
        depth <= MAX_DEPTH,
    ensures
        depth_bounded(walk_from(img, r, depth, path, visited).0),
    decreases MAX_DEPTH - depth, 3nat, 0nat,
{
    match r {
        Err(e) => {},
        Ok(d) => if !visited.contains((d.kind(), d.addr())) {
            let v1 = visited.push((d.kind(), d.addr()));
            lemma_walk_children_bounded(img, d, depth, path, v1, entry_count(d));
            let h = seq![WalkItemView::Found { depth, path, dir: d }];
            lemma_depth_concat(h, walk_children(img, d, depth, path, v1, entry_count(d)).0);
        },
    }
}

proof fn lemma_walk_children_bounded(
    img: Seq<u8>,
    d: DirectoryView,
    depth: usize,
    path: WalkPath,
    visited: Seq<(DirectoryKind, usize)>,
    n: nat,
)
    requires
        depth <= MAX_DEPTH,
    ensures
        depth_bounded(walk_children(img, d, depth, path, visited, n).0),
    decreases MAX_DEPTH - depth, 2nat, n,
{
    if n > 0 && n <= entry_count(d) {
        lemma_walk_children_bounded(img, d, depth, path, visited, (n - 1) as nat);
        let prev = walk_children(img, d, depth, path, visited, (n - 1) as nat);
        lemma_walk_edge_bounded(img, d, n - 1, depth, path, prev.1);
        lemma_depth_concat(prev.0, walk_edge(img, d, n - 1, depth, path, prev.1).0);
    }
}

proof fn lemma_walk_edge_bounded(
    img: Seq<u8>,
    d: DirectoryView,
    i: int,
    depth: usize,
    path: WalkPath,
    visited: Seq<(DirectoryKind, usize)>,
)
    requires
        depth <= MAX_DEPTH,
    ensures
        depth_bounded(walk_edge(img, d, i, depth, path, visited).0),
    decreases MAX_DEPTH - depth, 1nat, 0nat,
{
    match edge_target(img, d, i) {
        None => {},
        Some(r) => if depth + 1 <= MAX_DEPTH {
            lemma_walk_from_bounded(
                img,
                r,
                (depth + 1) as usize,
                path.push((d.kind(), i as usize)),
                visited,
            );
        },
    }
}

proof fn lemma_walk_roots_bounded(
    img: Seq<u8>,
    ptrs: Seq<u32>,
    visited: Seq<(DirectoryKind, usize)>,
    n: nat,
)
    ensures
        depth_bounded(walk_roots(img, ptrs, visited, n).0),
    decreases n,
{
    if n > 0 && n <= ptrs.len() {
        lemma_walk_roots_bounded(img, ptrs, visited, (n - 1) as nat);
        let prev = walk_roots(img, ptrs, visited, (n - 1) as nat);
        let p = ptrs[n - 1];
        if crate::flash::real_addr(p) is Some {
            lemma_walk_from_bounded(img, spec_get_dir(p as usize, img), 0, seq![], prev.1);
            lemma_depth_concat(prev.0, walk_from(img, spec_get_dir(p as usize, img), 0, seq![], prev.1).0);
        }
    }
}

/// The walk of any image descends at most one level past the depth limit: no
/// record of it lies deeper than `MAX_DEPTH + 1`.
pub proof fn lemma_walk_depth_bounded(img: Seq<u8>, efs: EFS)
    ensures
        depth_bounded(walk_roots(img, root_pointers(efs), seq![], 6).0),
{
    lemma_walk_roots_bounded(img, root_pointers(efs), seq![], 6);
}

} // verus!
