//! The tree walker: every directory reachable from the EFS, depth-first, with a
//! visited set of (kind, offset) pairs and a depth limit.
use vstd::prelude::*;

use crate::diff::{combo_target, dir_at, directory_at, MAX_DEPTH};
use crate::directory::{
    resolve_checked, resolved, view_result, Directory, DirectoryKind, DirectoryView, MAPPING_MASK,
};
use crate::error::ParseError;
use crate::psp::{spec_parse_backup_dir, PspBackupDir};
use crate::rom::{spec_get_dir, Rom};

verus! {

/// The way from a root to a directory: for each directory passed through, its
/// kind and the index of the entry followed out of it.
pub type WalkPath = Seq<(DirectoryKind, usize)>;

/// One step of the walk. `depth` is the length of `path`, which is empty for a
/// directory named by the EFS.
#[derive(Debug)]
pub enum WalkItem {
    /// A directory reached for the first time.
    Found { depth: usize, path: Vec<(DirectoryKind, usize)>, dir: Directory },
    /// A reference whose target could not be parsed, or is not of the kind it must be.
    Failed { depth: usize, path: Vec<(DirectoryKind, usize)>, error: ParseError },
    /// A directory that was reached before; it is not walked again.
    Revisit { depth: usize, path: Vec<(DirectoryKind, usize)>, kind: DirectoryKind, offset: usize },
    /// A reference that was not followed because of the depth limit.
    TooDeep { depth: usize, path: Vec<(DirectoryKind, usize)> },
}

pub enum WalkItemView {
    Found { depth: usize, path: WalkPath, dir: DirectoryView },
    Failed { depth: usize, path: WalkPath, error: ParseError },
    Revisit { depth: usize, path: WalkPath, kind: DirectoryKind, offset: usize },
    TooDeep { depth: usize, path: WalkPath },
}

impl View for WalkItem {
    type V = WalkItemView;

    open spec fn view(&self) -> WalkItemView {
        match self {
            WalkItem::Found { depth, path, dir } => WalkItemView::Found {
                depth: *depth,
                path: path@,
                dir: dir@,
            },
            WalkItem::Failed { depth, path, error } => WalkItemView::Failed {
                depth: *depth,
                path: path@,
                error: *error,
            },
            WalkItem::Revisit { depth, path, kind, offset } => WalkItemView::Revisit {
                depth: *depth,
                path: path@,
                kind: *kind,
                offset: *offset,
            },
            WalkItem::TooDeep { depth, path } => WalkItemView::TooDeep { depth: *depth, path: path@ },
        }
    }
}

pub open spec fn items_view(s: Seq<WalkItem>) -> Seq<WalkItemView> {
    s.map_values(|w: WalkItem| w@)
}

/// A walk's output and the visited set after it.
pub type Walked = (Seq<WalkItemView>, Seq<(DirectoryKind, usize)>);

/// The number of references a directory holds: its entries.
pub open spec fn entry_count(d: DirectoryView) -> nat {
    match d {
        DirectoryView::Bios(x) | DirectoryView::BiosLevel2(x) => x.entries.len(),
        DirectoryView::Psp(x) | DirectoryView::PspLevel2(x) => x.entries.len(),
        DirectoryView::BiosCombo(x) | DirectoryView::PspCombo(x) => x.entries.len(),
    }
}

/// `r`, where it is a PSP or PSP level-2 directory; the error that names the kind
/// found otherwise.
pub open spec fn psp_shaped(r: Result<DirectoryView, ParseError>) -> Result<DirectoryView, ParseError> {
    match r {
        Ok(d) => if d.kind() == DirectoryKind::Psp || d.kind() == DirectoryKind::PspLevel2 {
            Ok(d)
        } else {
            Err(ParseError::WrongDirectoryKind { expected: DirectoryKind::Psp, found: d.kind(), offset: d.addr() })
        },
        Err(e) => Err(e),
    }
}

/// What entry `i` of directory `d` in `img` leads to, if it is a reference: a PSP
/// directory for a level-2 entry and for the A/B backup records, the directory at
/// the resolved address for a BIOS level-2 entry, and the selected directory for a
/// combo entry.
pub open spec fn edge_target(img: Seq<u8>, d: DirectoryView, i: int) -> Option<
    Result<DirectoryView, ParseError>,
> {
    match d {
        DirectoryView::Psp(x) | DirectoryView::PspLevel2(x) => {
            let e = x.entries[i];
            if e.kind == 0x40 {
                Some(psp_shaped(dir_at(img, resolved(e.value, x.addr))))
            } else if e.kind == 0x49 {
                Some(dir_at(img, resolved(e.value, x.addr)))
            } else if e.kind == 0x48 || e.kind == 0x4a {
                Some(psp_shaped(backup_dir_at(img, resolved(e.value, x.addr))))
            } else {
                None
            }
        },
        DirectoryView::Bios(x) | DirectoryView::BiosLevel2(x) => {
            let e = x.entries[i];
            if e.kind == 0x70 {
                Some(dir_at(img, resolved(e.source, x.addr)))
            } else {
                None
            }
        },
        DirectoryView::BiosCombo(x) | DirectoryView::PspCombo(x) => Some(
            dir_at(img, combo_target(x.entries[i].directory)),
        ),
    }
}

/// The directory of any shape that the backup record at `off` in `img` points at.
pub open spec fn backup_dir_at(img: Seq<u8>, off: Option<usize>) -> Result<DirectoryView, ParseError> {
    match off {
        None => Err(ParseError::BackupDirectoryUnparsable { offset: usize::MAX }),
        Some(o) => if o >= img.len() {
            Err(ParseError::BackupDirectoryUnparsable { offset: o })
        } else {
            match spec_parse_backup_dir(img.subrange(o as int, img.len() as int), o) {
                Err(e) => Err(e),
                Ok(bd) => dir_at(img, Some(bd.addr as usize)),
            }
        },
    }
}

/// The walk from a parse result reached at `depth` along `path`.
pub open spec fn walk_from(
    img: Seq<u8>,
    r: Result<DirectoryView, ParseError>,
    depth: usize,
    path: WalkPath,
    visited: Seq<(DirectoryKind, usize)>,
) -> Walked
    decreases MAX_DEPTH - depth, 3nat, 0nat,
{
    match r {
        Err(e) => (seq![WalkItemView::Failed { depth, path, error: e }], visited),
        Ok(d) => if visited.contains((d.kind(), d.addr())) {
            (seq![WalkItemView::Revisit { depth, path, kind: d.kind(), offset: d.addr() }], visited)
        } else {
            let w = walk_children(
                img,
                d,
                depth,
                path,
                visited.push((d.kind(), d.addr())),
                entry_count(d),
            );
            (seq![WalkItemView::Found { depth, path, dir: d }] + w.0, w.1)
        },
    }
}

/// The walks from the references among the first `n` entries of `d`, a directory
/// reached along `path`.
pub open spec fn walk_children(
    img: Seq<u8>,
    d: DirectoryView,
    depth: usize,
    path: WalkPath,
    visited: Seq<(DirectoryKind, usize)>,
    n: nat,
) -> Walked
    decreases MAX_DEPTH - depth, 2nat, n,
{
    if n == 0 || n > entry_count(d) {
        (seq![], visited)
    } else {
        let prev = walk_children(img, d, depth, path, visited, (n - 1) as nat);
        let next = walk_edge(img, d, n - 1, depth, path, prev.1);
        (prev.0 + next.0, next.1)
    }
}

/// The walk through entry `i` of `d`, a directory at `depth` reached along `path`.
pub open spec fn walk_edge(
    img: Seq<u8>,
    d: DirectoryView,
    i: int,
    depth: usize,
    path: WalkPath,
    visited: Seq<(DirectoryKind, usize)>,
) -> Walked
    decreases MAX_DEPTH - depth, 1nat, 0nat,
{
    let p = path.push((d.kind(), i as usize));
    match edge_target(img, d, i) {
        None => (seq![], visited),
        Some(r) => if depth + 1 > MAX_DEPTH {
            (seq![WalkItemView::TooDeep { depth: (depth + 1) as usize, path: p }], visited)
        } else {
            walk_from(img, r, (depth + 1) as usize, p, visited)
        },
    }
}

/// The walk of an image from the six directory pointers of its EFS, in the order
/// legacy PSP, PSP, then the four BIOS pointers; a pointer that holds one of the
/// two "absent" values is skipped.
pub open spec fn walk_roots(img: Seq<u8>, ptrs: Seq<u32>, visited: Seq<(DirectoryKind, usize)>, n: nat) -> Walked
    decreases n,
{
    if n == 0 || n > ptrs.len() {
        (seq![], visited)
    } else {
        let prev = walk_roots(img, ptrs, visited, (n - 1) as nat);
        let p = ptrs[n - 1];
        if crate::flash::real_addr(p) is None {
            prev
        } else {
            let next = walk_from(img, spec_get_dir(p as usize, img), 0, seq![], prev.1);
            (prev.0 + next.0, next.1)
        }
    }
}

pub open spec fn root_pointers(efs: crate::flash::EFS) -> Seq<u32> {
    seq![
        efs.psp_legacy,
        efs.psp_17_00,
        efs.bios_17_00_0f,
        efs.bios_17_10_1f,
        efs.bios_17_30_3f_19_00_0f,
        efs.bios_17_60,
    ]
}

/// Whether `(kind, offset)` is in `visited`.
fn visited_contains(visited: &Vec<(DirectoryKind, usize)>, kind: DirectoryKind, offset: usize) -> (r: bool)
    ensures
        r == visited@.contains((kind, offset)),
{
    let mut i: usize = 0;
    while i < visited.len()
        invariant
            i <= visited@.len(),
            forall|j: int| 0 <= j < i ==> visited@[j] != (kind, offset),
        decreases visited@.len() - i,
    {
        let (k, o) = visited[i];
        if k == kind && o == offset {
            assert(visited@[i as int] == (kind, offset));
            return true;
        }
        i = i + 1;
    }
    false
}

/// Keeps `r` where it is a PSP or PSP level-2 directory.
fn expect_psp(r: Result<Directory, ParseError>) -> (s: Result<Directory, ParseError>)
    ensures
        view_result(s) == psp_shaped(view_result(r)),
{
    match r {
        Ok(d) => {
            let k = d.kind();
            if k == DirectoryKind::Psp || k == DirectoryKind::PspLevel2 {
                Ok(d)
            } else {
                Err(ParseError::WrongDirectoryKind { expected: DirectoryKind::Psp, found: k, offset: d.addr() })
            }
        },
        Err(e) => Err(e),
    }
}

/// Parses the directory that the backup record at `off` in `data` points at.
fn backup_directory_at(data: &[u8], off: Option<usize>) -> (r: Result<Directory, ParseError>)
    ensures
        view_result(r) == backup_dir_at(data@, off),
{
    let len = data.len();
    match off {
        None => Err(ParseError::BackupDirectoryUnparsable { offset: usize::MAX }),
        Some(o) => {
            if o >= len {
                Err(ParseError::BackupDirectoryUnparsable { offset: o })
            } else {
                let bd = PspBackupDir::new(vstd::slice::slice_subrange(data, o, len), o)?;
                directory_at(data, Some(bd.addr as usize))
            }
        },
    }
}

/// What entry `i` of `d` leads to, parsed.
fn edge_target_exec(data: &[u8], d: &Directory, i: usize) -> (r: Option<Result<Directory, ParseError>>)
    requires
        i < entry_count(d@),
    ensures
        match r {
            None => edge_target(data@, d@, i as int) is None,
            Some(x) => edge_target(data@, d@, i as int) == Some(view_result(x)),
        },
{
    match d {
        Directory::Psp(x) | Directory::PspLevel2(x) => {
            let e = x.entries[i];
            if e.kind == 0x40 {
                Some(expect_psp(directory_at(data, resolve_checked(e.value, x.addr))))
            } else if e.kind == 0x49 {
                Some(directory_at(data, resolve_checked(e.value, x.addr)))
            } else if e.kind == 0x48 || e.kind == 0x4a {
                Some(expect_psp(backup_directory_at(data, resolve_checked(e.value, x.addr))))
            } else {
                None
            }
        },
        Directory::Bios(x) | Directory::BiosLevel2(x) => {
            let e = x.entries[i];
            if e.kind == 0x70 {
                Some(directory_at(data, resolve_checked(e.source, x.addr)))
            } else {
                None
            }
        },
        Directory::BiosCombo(x) => {
            let t = (x.entries[i].directory & MAPPING_MASK) as usize;
            Some(directory_at(data, Some(t)))
        },
        Directory::PspCombo(x) => {
            let t = (x.entries[i].directory & MAPPING_MASK) as usize;
            Some(directory_at(data, Some(t)))
        },
    }
}

fn dir_entry_count(d: &Directory) -> (r: usize)
    ensures
        r == entry_count(d@),
{
    match d {
        Directory::Psp(x) | Directory::PspLevel2(x) => x.entries.len(),
        Directory::Bios(x) | Directory::BiosLevel2(x) => x.entries.len(),
        Directory::BiosCombo(x) => x.entries.len(),
        Directory::PspCombo(x) => x.entries.len(),
    }
}

/// `path` with one more step.
fn extend_path(path: &Vec<(DirectoryKind, usize)>, kind: DirectoryKind, i: usize) -> (r: Vec<
    (DirectoryKind, usize),
>)
    ensures
        r@ == path@.push((kind, i)),
{
    let mut r: Vec<(DirectoryKind, usize)> = Vec::new();
    let mut k: usize = 0;
    while k < path.len()
        invariant
            k <= path@.len(),
            r@ == path@.take(k as int),
        decreases path@.len() - k,
    {
        r.push(path[k]);
        k = k + 1;
        assert(r@ =~= path@.take(k as int));
    }
    assert(path@.take(k as int) =~= path@);
    r.push((kind, i));
    r
}

/// Appends the walk from parse result `r`, reached at `depth` along `path`.
fn walk_from_into(
    data: &[u8],
    r: Result<Directory, ParseError>,
    depth: usize,
    path: Vec<(DirectoryKind, usize)>,
    visited: &mut Vec<(DirectoryKind, usize)>,
    out: &mut Vec<WalkItem>,
)
    requires
        depth <= MAX_DEPTH,
    ensures
        items_view(final(out)@) == items_view(old(out)@) + walk_from(
            data@,
            view_result(r),
            depth,
            path@,
            old(visited)@,
        ).0,
        final(visited)@ == walk_from(data@, view_result(r), depth, path@, old(visited)@).1,
    decreases MAX_DEPTH - depth, 3nat, 0nat,
{
    let ghost p = path@;
    match r {
        Err(e) => {
            out.push(WalkItem::Failed { depth, path, error: e });
            assert(items_view(out@) =~= items_view(old(out)@) + seq![
                WalkItemView::Failed { depth, path: p, error: e },
            ]);
        },
        Ok(d) => {
            let kind = d.kind();
            let offset = d.addr();
            if visited_contains(visited, kind, offset) {
                out.push(WalkItem::Revisit { depth, path, kind, offset });
                assert(items_view(out@) =~= items_view(old(out)@) + seq![
                    WalkItemView::Revisit { depth, path: p, kind, offset },
                ]);
            } else {
                visited.push((kind, offset));
                let mut children: Vec<WalkItem> = Vec::new();
                let n = dir_entry_count(&d);
                let ghost v0 = visited@;
                let mut i: usize = 0;
                while i < n
                    invariant
                        n == entry_count(d@),
                        i <= n,
                        depth <= MAX_DEPTH,
                        path@ == p,
                        items_view(children@) == walk_children(data@, d@, depth, p, v0, i as nat).0,
                        visited@ == walk_children(data@, d@, depth, p, v0, i as nat).1,
                    decreases n - i,
                {
                    walk_edge_into(data, &d, i, depth, &path, visited, &mut children);
                    i = i + 1;
                }
                let ghost dv = d@;
                out.push(WalkItem::Found { depth, path, dir: d });
                let ghost mid = out@;
                let ghost ch = children@;
                out.append(&mut children);
                assert(items_view(out@) =~= items_view(old(out)@) + (seq![
                    WalkItemView::Found { depth, path: p, dir: dv },
                ] + walk_children(data@, dv, depth, p, v0, n as nat).0)) by {
                    assert(out@ =~= mid + ch);
                };
            }
        },
    }
}

/// Appends the walk through entry `i` of `d`, a directory at `depth` reached along `path`.
fn walk_edge_into(
    data: &[u8],
    d: &Directory,
    i: usize,
    depth: usize,
    path: &Vec<(DirectoryKind, usize)>,
    visited: &mut Vec<(DirectoryKind, usize)>,
    out: &mut Vec<WalkItem>,
)
    requires
        depth <= MAX_DEPTH,
        i < entry_count(d@),
    ensures
        items_view(final(out)@) == items_view(old(out)@) + walk_edge(
            data@,
            d@,
            i as int,
            depth,
            path@,
            old(visited)@,
        ).0,
        final(visited)@ == walk_edge(data@, d@, i as int, depth, path@, old(visited)@).1,
    decreases MAX_DEPTH - depth, 1nat, 0nat,
{
    match edge_target_exec(data, d, i) {
        None => {
            assert(items_view(out@) =~= items_view(out@) + Seq::<WalkItemView>::empty());
        },
        Some(r) => {
            let p = extend_path(path, d.kind(), i);
            if depth + 1 > MAX_DEPTH {
                let ghost pv = p@;
                out.push(WalkItem::TooDeep { depth: depth + 1, path: p });
                assert(items_view(out@) =~= items_view(old(out)@) + seq![
                    WalkItemView::TooDeep { depth: (depth + 1) as usize, path: pv },
                ]);
            } else {
                walk_from_into(data, r, depth + 1, p, visited, out);
            }
        },
    }
}

/// Walks every directory reachable from `dir`, a directory of the image `data`,
/// starting with `dir` itself at depth 0.
pub fn walk_dir(data: &[u8], dir: Directory) -> (r: Vec<WalkItem>)
    ensures
        items_view(r@) == walk_from(data@, Ok(dir@), 0, seq![], seq![]).0,
{
    let mut out: Vec<WalkItem> = Vec::new();
    let mut visited: Vec<(DirectoryKind, usize)> = Vec::new();
    let ghost d = dir@;
    let path: Vec<(DirectoryKind, usize)> = Vec::new();
    walk_from_into(data, Ok(dir), 0, path, &mut visited, &mut out);
    assert(items_view(Seq::<WalkItem>::empty()) =~= Seq::<WalkItemView>::empty());
    assert(Seq::<WalkItemView>::empty() + walk_from(data@, Ok(d), 0, seq![], seq![]).0 =~= walk_from(
        data@,
        Ok(d),
        0,
        seq![],
        seq![],
    ).0);
    out
}

/// Walks every directory reachable from the EFS of `rom`.
pub fn walk(rom: &Rom) -> (r: Vec<WalkItem>)
    ensures
        items_view(r@) == walk_roots(rom.data@, root_pointers(rom.efs), seq![], 6).0,
{
    let e = rom.efs;
    let ptrs: [u32; 6] = [
        e.psp_legacy,
        e.psp_17_00,
        e.bios_17_00_0f,
        e.bios_17_10_1f,
        e.bios_17_30_3f_19_00_0f,
        e.bios_17_60,
    ];
    assert(ptrs@ =~= root_pointers(rom.efs));
    let mut out: Vec<WalkItem> = Vec::new();
    let mut visited: Vec<(DirectoryKind, usize)> = Vec::new();
    let mut k: usize = 0;
    while k < 6
        invariant
            k <= 6,
            ptrs@ == root_pointers(rom.efs),
            items_view(out@) == walk_roots(rom.data@, ptrs@, seq![], k as nat).0,
            visited@ == walk_roots(rom.data@, ptrs@, seq![], k as nat).1,
        decreases 6 - k,
    {
        let p = ptrs[k];
        if crate::flash::get_real_addr(p).is_some() {
            let r = crate::rom::get_dir(p as usize, rom.data);
            let path: Vec<(DirectoryKind, usize)> = Vec::new();
            assert(path@ =~= Seq::<(DirectoryKind, usize)>::empty());
            walk_from_into(rom.data, r, 0, path, &mut visited, &mut out);
        }
        k = k + 1;
    }
    out
}

} // verus!
