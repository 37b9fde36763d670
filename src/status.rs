use vstd::prelude::*;

verus! {

/// Status flags of one path, as the git backend reports them.
pub const INDEX_NEW: u32 = 1;
pub const INDEX_MODIFIED: u32 = 2;
pub const INDEX_DELETED: u32 = 4;
pub const INDEX_RENAMED: u32 = 8;
pub const INDEX_TYPECHANGE: u32 = 16;
pub const WT_NEW: u32 = 128;
pub const WT_MODIFIED: u32 = 256;
pub const WT_DELETED: u32 = 512;
pub const WT_TYPECHANGE: u32 = 1024;
pub const WT_RENAMED: u32 = 2048;
pub const IGNORED: u32 = 16384;
pub const CONFLICTED: u32 = 32768;

/// How a path differs from the last commit.
#[derive(Clone, Copy, Debug, PartialEq, Eq, Structural)]
pub enum ChangeKind {
    Added,
    Modified,
    Deleted,
    Untracked,
    /// Left conflicted by a merge and not yet resolved.
    Conflicted,
}

/// One path with its raw status flags, before classification.
pub struct RawEntry {
    pub path: String,
    pub flags: u32,
}

/// One changed path of the working tree.
pub struct StatusEntry {
    pub path: String,
    pub kind: ChangeKind,
}

pub open spec fn has_flag(flags: u32, flag: u32) -> bool {
    flags & flag != 0
}

pub open spec fn index_flags() -> u32 {
    (INDEX_NEW | INDEX_MODIFIED | INDEX_DELETED | INDEX_RENAMED | INDEX_TYPECHANGE) as u32
}

/// The change a path's flags describe: `None` for an unchanged or ignored path.
/// An unresolved merge conflict wins over every other flag. A path that is new in the working tree and unknown to the index is
/// untracked; a deletion on either side wins over the other flags.
pub open spec fn kind_of(flags: u32) -> Option<ChangeKind> {
    if flags == 0 || has_flag(flags, IGNORED) {
        None
    } else if has_flag(flags, CONFLICTED) {
        Some(ChangeKind::Conflicted)
    } else if has_flag(flags, WT_NEW) && !has_flag(flags, index_flags()) {
        Some(ChangeKind::Untracked)
    } else if has_flag(flags, INDEX_DELETED) || has_flag(flags, WT_DELETED) {
        Some(ChangeKind::Deleted)
    } else if has_flag(flags, INDEX_NEW) || has_flag(flags, WT_NEW) {
        Some(ChangeKind::Added)
    } else {
        Some(ChangeKind::Modified)
    }
}

/// The working-tree status of raw entries: each changed path with its kind,
/// in the order given, unchanged and ignored paths left out.
pub open spec fn status_of(raw: Seq<RawEntry>) -> Seq<(Seq<char>, ChangeKind)>
    decreases raw.len(),
{
    if raw.len() == 0 {
        seq![]
    } else {
        let rest = status_of(raw.drop_last());
        match kind_of(raw.last().flags) {
            Some(k) => rest.push((raw.last().path@, k)),
            None => rest,
        }
    }
}

pub open spec fn status_view(s: Seq<StatusEntry>) -> Seq<(Seq<char>, ChangeKind)> {
    s.map_values(|e: StatusEntry| (e.path@, e.kind))
}

/// The paths of a status, in order.
pub open spec fn paths_of(s: Seq<(Seq<char>, ChangeKind)>) -> Seq<Seq<char>> {
    s.map_values(|e: (Seq<char>, ChangeKind)| e.0)
}

/// The paths of a status that are left conflicted, in order.
pub open spec fn conflicts_of(s: Seq<(Seq<char>, ChangeKind)>) -> Seq<Seq<char>>
    decreases s.len(),
{
    if s.len() == 0 {
        seq![]
    } else {
        let rest = conflicts_of(s.drop_last());
        if s.last().1 == ChangeKind::Conflicted {
            rest.push(s.last().0)
        } else {
            rest
        }
    }
}

/// A status with a conflicted path has conflicts to report.
pub proof fn conflicts_of_nonempty(s: Seq<(Seq<char>, ChangeKind)>, i: int)
    requires
        0 <= i < s.len(),
        s[i].1 == ChangeKind::Conflicted,
    ensures
        conflicts_of(s).len() > 0,
    decreases s.len(),
{
    if i < s.len() - 1 {
        conflicts_of_nonempty(s.drop_last(), i);
    }
}

pub open spec fn strings_view(v: Seq<String>) -> Seq<Seq<char>> {
    v.map_values(|s: String| s@)
}

/// Classifies one path's status flags.
pub fn classify(flags: u32) -> (r: Option<ChangeKind>)
    ensures
        r == kind_of(flags),
{
    let index = INDEX_NEW | INDEX_MODIFIED | INDEX_DELETED | INDEX_RENAMED | INDEX_TYPECHANGE;
    if flags == 0 || flags & IGNORED != 0 {
        None
    } else if flags & CONFLICTED != 0 {
        Some(ChangeKind::Conflicted)
    } else if flags & WT_NEW != 0 && flags & index == 0 {
        Some(ChangeKind::Untracked)
    } else if flags & INDEX_DELETED != 0 || flags & WT_DELETED != 0 {
        Some(ChangeKind::Deleted)
    } else if flags & INDEX_NEW != 0 || flags & WT_NEW != 0 {
        Some(ChangeKind::Added)
    } else {
        Some(ChangeKind::Modified)
    }
}

/// Builds the working-tree status from the backend's raw entries.
pub fn scan(raw: &Vec<RawEntry>) -> (r: Vec<StatusEntry>)
    ensures
        status_view(r@) == status_of(raw@),
{
    let mut out: Vec<StatusEntry> = Vec::new();
    let mut i: usize = 0;
    while i < raw.len()
        invariant
            i <= raw@.len(),
            status_view(out@) == status_of(raw@.take(i as int)),
        decreases raw@.len() - i,
    {
        assert(raw@.take(i as int + 1).drop_last() == raw@.take(i as int));
        let k = classify(raw[i].flags);
        match k {
            Some(kind) => {
                out.push(StatusEntry { path: raw[i].path.clone(), kind });
                assert(status_view(out@) =~= status_of(raw@.take(i as int)).push(
                    (raw@[i as int].path@, kind),
                ));
            },
            None => {},
        }
        i = i + 1;
    }
    assert(raw@.take(raw@.len() as int) =~= raw@);
    out
}

/// The conflicted paths of a status, in order.
pub fn conflicted_paths(status: &Vec<StatusEntry>) -> (r: Vec<String>)
    ensures
        strings_view(r@) == conflicts_of(status_view(status@)),
{
    let mut out: Vec<String> = Vec::new();
    let mut i: usize = 0;
    while i < status.len()
        invariant
            i <= status@.len(),
            strings_view(out@) == conflicts_of(status_view(status@.take(i as int))),
        decreases status@.len() - i,
    {
        assert(status@.take(i as int + 1).drop_last() == status@.take(i as int));
        assert(status_view(status@.take(i as int + 1)).drop_last() =~= status_view(
            status@.take(i as int),
        ));
        if status[i].kind == ChangeKind::Conflicted {
            let p = status[i].path.clone();
            out.push(p);
            assert(strings_view(out@) =~= conflicts_of(status_view(status@.take(i as int))).push(
                status@[i as int].path@,
            ));
        }
        i = i + 1;
    }
    assert(status@.take(status@.len() as int) =~= status@);
    out
}

/// Whether the working tree differs from the last commit.
pub fn is_dirty(status: &Vec<StatusEntry>) -> (r: bool)
    ensures
        r == (status_view(status@).len() > 0),
{
    status.len() > 0
}

/// The paths to stage for a commit: every changed path, deletions included.
pub fn staged_paths(status: &Vec<StatusEntry>) -> (r: Vec<String>)
    ensures
        strings_view(r@) == paths_of(status_view(status@)),
{
    let mut out: Vec<String> = Vec::new();
    let mut i: usize = 0;
    while i < status.len()
        invariant
            i <= status@.len(),
            out@.len() == i,
            forall|j: int| 0 <= j < i ==> (#[trigger] out@[j])@ == status@[j].path@,
        decreases status@.len() - i,
    {
        let p = status[i].path.clone();
        out.push(p);
        i = i + 1;
    }
    assert(strings_view(out@) =~= paths_of(status_view(status@)));
    out
}

} // verus!
