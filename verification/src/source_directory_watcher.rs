//! What the watcher of the source directory reports, and what becomes of it.
//!
//! The watcher hands over the file operations that it has seen since it last
//! reported, in the order in which they arrived. Of these only the last one
//! for each path matters. What is left becomes an event for each file that
//! was written and for each path that was removed.
use crate::paths::{is_strictly_under, ComponentPath};
use vstd::prelude::*;

verus! {

/// The time in milliseconds for which the watcher collects operations before
/// it reports them.
pub const DEBOUNCE_MILLISECONDS: u64 = 500;

/// High-level events that reflect the changes that are happening within the
/// source directory. A job (FileSyncJob) takes care of making the corresponding
/// changes in the destination directory.
#[derive(Debug)]
pub enum FileSyncEvent {
    /// A file has been created or updated. In either case, we simply want to
    /// copy the file from the source to the destination.
    FileUpdate(ComponentPath),
    /// A file or directory has been deleted. We can't tell which.
    Remove(ComponentPath),
}

/// What a `FileSyncEvent` holds.
pub enum FileSyncEventPath {
    FileUpdate(Seq<Seq<char>>),
    Remove(Seq<Seq<char>>),
}

impl View for FileSyncEvent {
    type V = FileSyncEventPath;

    open spec fn view(&self) -> FileSyncEventPath {
        match self {
            FileSyncEvent::FileUpdate(path) => FileSyncEventPath::FileUpdate(path@),
            FileSyncEvent::Remove(path) => FileSyncEventPath::Remove(path@),
        }
    }
}

impl FileSyncEvent {
    /// The path that the event is about.
    pub fn path(&self) -> (r: &ComponentPath)
        ensures
            r@ == match self@ {
                FileSyncEventPath::FileUpdate(path) => path,
                FileSyncEventPath::Remove(path) => path,
            },
    {
        match self {
            FileSyncEvent::FileUpdate(path) => path,
            FileSyncEvent::Remove(path) => path,
        }
    }
}

impl Clone for FileSyncEvent {
    fn clone(&self) -> (r: Self)
        ensures
            r@ == self@,
    {
        match self {
            FileSyncEvent::FileUpdate(path) => FileSyncEvent::FileUpdate(path.clone()),
            FileSyncEvent::Remove(path) => FileSyncEvent::Remove(path.clone()),
        }
    }
}

/// One operation on a path, as the watcher reports it.
#[derive(Debug)]
pub struct PathOperation {
    pub path: ComponentPath,
    /// The flags of the operation; `None` where the watcher does not know
    /// what was done.
    pub op: Option<u32>,
}

/// What a `PathOperation` holds.
pub struct PathOperationFlags {
    pub path: Seq<Seq<char>>,
    pub op: Option<u32>,
}

impl View for PathOperation {
    type V = PathOperationFlags;

    open spec fn view(&self) -> PathOperationFlags {
        PathOperationFlags { path: self.path@, op: self.op }
    }
}

/// What a sequence of operations holds.
pub open spec fn operations(v: Seq<PathOperation>) -> Seq<PathOperationFlags> {
    v.map_values(|op: PathOperation| op@)
}

/// The flag of an operation that created the path.
pub open spec fn flags_create(bits: u32) -> bool {
    bits & 0b000_0010 != 0
}

/// The flag of an operation that removed the path.
pub open spec fn flags_remove(bits: u32) -> bool {
    bits & 0b000_0100 != 0
}

/// The flag of an operation that renamed the path.
pub open spec fn flags_rename(bits: u32) -> bool {
    bits & 0b000_1000 != 0
}

/// The flags of an operation that wrote to the path, or closed it after writing.
pub open spec fn flags_write(bits: u32) -> bool {
    bits & 0b011_0000 != 0
}

/// `watchexec::pathop::PathOp::is_create`, asked of the operation with the
/// flags `bits`: whether the flags hold the one for a creation, which is bit 1.
#[verifier::external_body]
fn op_is_create(bits: u32) -> (r: bool)
    ensures
        r == flags_create(bits),
{
    watchexec::pathop::PathOp::is_create(notify::op::Op::from_bits_truncate(bits))
}

/// `watchexec::pathop::PathOp::is_remove`, asked of the operation with the
/// flags `bits`: whether the flags hold the one for a removal, which is bit 2.
#[verifier::external_body]
fn op_is_remove(bits: u32) -> (r: bool)
    ensures
        r == flags_remove(bits),
{
    watchexec::pathop::PathOp::is_remove(notify::op::Op::from_bits_truncate(bits))
}

/// `watchexec::pathop::PathOp::is_rename`, asked of the operation with the
/// flags `bits`: whether the flags hold the one for a renaming, which is bit 3.
#[verifier::external_body]
fn op_is_rename(bits: u32) -> (r: bool)
    ensures
        r == flags_rename(bits),
{
    watchexec::pathop::PathOp::is_rename(notify::op::Op::from_bits_truncate(bits))
}

/// `watchexec::pathop::PathOp::is_write`, asked of the operation with the
/// flags `bits`: whether the flags hold the one for a write, which is bit 4,
/// or the one for a close after writing, which is bit 5.
#[verifier::external_body]
fn op_is_write(bits: u32) -> (r: bool)
    ensures
        r == flags_write(bits),
{
    watchexec::pathop::PathOp::is_write(notify::op::Op::from_bits_truncate(bits))
}

/// The operation at position `i` is known, and no known operation behind it
/// is on the same path.
pub open spec fn survives(ops: Seq<PathOperationFlags>, i: int) -> bool {
    ops[i].op is Some && forall|j: int|
        i < j < ops.len() && (#[trigger] ops[j]).op is Some ==> ops[j].path != ops[i].path
}

/// The operations from position `i` on that survive, in the order in which
/// they arrived.
pub open spec fn coalesced_from(ops: Seq<PathOperationFlags>, i: int) -> Seq<PathOperationFlags>
    decreases ops.len() - i,
{
    if i < 0 || i >= ops.len() {
        Seq::empty()
    } else if survives(ops, i) {
        seq![ops[i]] + coalesced_from(ops, i + 1)
    } else {
        coalesced_from(ops, i + 1)
    }
}

/// The last known operation on each path, in the order in which these
/// operations arrived.
pub open spec fn coalesced(ops: Seq<PathOperationFlags>) -> Seq<PathOperationFlags> {
    coalesced_from(ops, 0)
}

/// `op` is an operation that survives, at position `from` or behind it.
pub open spec fn is_survivor(
    ops: Seq<PathOperationFlags>,
    from: int,
    op: PathOperationFlags,
) -> bool {
    exists|j: int| from <= j < ops.len() && survives(ops, j) && #[trigger] ops[j] == op
}

/// What is kept of the operations from position `i` on are the operations
/// that survive, and no two of them are on the same path.
pub proof fn lemma_coalesced_from(ops: Seq<PathOperationFlags>, i: int)
    requires
        0 <= i,
    ensures
        forall|k: int|
            0 <= k < coalesced_from(ops, i).len() ==> is_survivor(
                ops,
                i,
                #[trigger] coalesced_from(ops, i)[k],
            ),
        forall|op: PathOperationFlags|
            is_survivor(ops, i, op) ==> #[trigger] coalesced_from(ops, i).contains(op),
        forall|k: int, l: int|
            0 <= k < l < coalesced_from(ops, i).len() ==> (#[trigger] coalesced_from(
                ops,
                i,
            )[k]).path != (#[trigger] coalesced_from(ops, i)[l]).path,
    decreases ops.len() - i,
{
    let all = coalesced_from(ops, i);
    if i < ops.len() {
        lemma_coalesced_from(ops, i + 1);
        let rest = coalesced_from(ops, i + 1);
        if survives(ops, i) {
            assert(all =~= seq![ops[i]] + rest);
        } else {
            assert(all == rest);
        }
        let shift: int = if survives(ops, i) {
            1
        } else {
            0
        };
        assert forall|k: int| 0 <= k < all.len() implies is_survivor(ops, i, #[trigger] all[k]) by {
            if survives(ops, i) && k == 0 {
                assert(ops[i] == all[0]);
            } else {
                assert(all[k] == rest[k - shift]);
                assert(is_survivor(ops, i + 1, rest[k - shift]));
                let j = choose|j: int|
                    i + 1 <= j < ops.len() && survives(ops, j) && #[trigger] ops[j] == rest[k
                        - shift];
                assert(i <= j < ops.len() && survives(ops, j) && ops[j] == all[k]);
            }
        }
        assert forall|op: PathOperationFlags|
            is_survivor(ops, i, op) implies #[trigger] all.contains(op) by {
            let j = choose|j: int|
                i <= j < ops.len() && survives(ops, j) && #[trigger] ops[j] == op;
            if j == i {
                assert(all[0] == op);
            } else {
                assert(is_survivor(ops, i + 1, op));
                assert(rest.contains(op));
                let k = choose|k: int| 0 <= k < rest.len() && rest[k] == op;
                assert(all[k + shift] == op);
            }
        }
        assert forall|k: int, l: int| 0 <= k < l < all.len() implies (#[trigger] all[k]).path != (
        #[trigger] all[l]).path by {
            assert(all[l] == rest[l - shift]);
            if survives(ops, i) && k == 0 {
                assert(is_survivor(ops, i + 1, rest[l - shift]));
                let j = choose|j: int|
                    i + 1 <= j < ops.len() && survives(ops, j) && #[trigger] ops[j] == rest[l
                        - shift];
                assert(ops[j].op is Some);
            } else {
                assert(all[k] == rest[k - shift]);
            }
        }
    } else {
        assert forall|op: PathOperationFlags|
            is_survivor(ops, i, op) implies #[trigger] all.contains(op) by {
        }
    }
}

/// Of the operations that arrived together, the last known operation on
/// each path is kept, and nothing else: an operation is kept if and only if
/// it survives; and no two operations that are kept are on the same path.
pub proof fn lemma_coalesced(ops: Seq<PathOperationFlags>)
    ensures
        forall|op: PathOperationFlags|
            #[trigger] coalesced(ops).contains(op) <==> is_survivor(ops, 0, op),
        forall|k: int, l: int|
            0 <= k < l < coalesced(ops).len() ==> (#[trigger] coalesced(ops)[k]).path != (
            #[trigger] coalesced(ops)[l]).path,
{
    lemma_coalesced_from(ops, 0);
    let kept = coalesced(ops);
    assert forall|op: PathOperationFlags| #[trigger] kept.contains(op) implies is_survivor(
        ops,
        0,
        op,
    ) by {
        let k = choose|k: int| 0 <= k < kept.len() && kept[k] == op;
        assert(is_survivor(ops, 0, kept[k]));
    }
}

/// The event that the operation `op` gives rise to, `is_file` saying whether
/// its path is a file now, and `source_directory` being the directory that
/// is watched.
///
/// An operation whose flags are not known, or whose path does not lie below
/// the source directory, gives none. A removal gives `Remove`. A creation, a
/// renaming or a write gives `FileUpdate` if the path is a file now.
pub open spec fn event_of(
    op: PathOperationFlags,
    is_file: bool,
    source_directory: Seq<Seq<char>>,
) -> Option<FileSyncEventPath> {
    match op.op {
        Some(bits) => if !is_strictly_under(op.path, source_directory) {
            None
        } else if flags_remove(bits) {
            Some(FileSyncEventPath::Remove(op.path))
        } else if is_file && (flags_create(bits) || flags_rename(bits) || flags_write(bits)) {
            Some(FileSyncEventPath::FileUpdate(op.path))
        } else {
            None
        },
        None => None,
    }
}

/// Whether the event of `op` depends on whether its path is a file now.
pub open spec fn asks_for_file(op: PathOperationFlags, source_directory: Seq<Seq<char>>) -> bool {
    event_of(op, true, source_directory) != event_of(op, false, source_directory)
}

impl PathOperation {
    /// Whether the event of this operation depends on whether its path is a
    /// file now: then someone has to look.
    pub fn needs_file_check(&self, source_directory: &ComponentPath) -> (r: bool)
        ensures
            r == asks_for_file(self@, source_directory@),
    {
        match self.op {
            Some(bits) => {
                self.path.len() > source_directory.len() && self.path.starts_with(
                    source_directory,
                ) && !op_is_remove(bits) && (op_is_create(bits) || op_is_rename(bits)
                    || op_is_write(bits))
            },
            None => false,
        }
    }

    /// The event that this operation gives rise to, if it gives rise to any.
    /// `is_file` says whether the path is a file now.
    pub fn event(&self, is_file: bool, source_directory: &ComponentPath) -> (r: Option<
        FileSyncEvent,
    >)
        ensures
            match r {
                Some(event) => event_of(self@, is_file, source_directory@) == Some(event@),
                None => event_of(self@, is_file, source_directory@) is None,
            },
    {
        match self.op {
            Some(bits) => {
                if !(self.path.len() > source_directory.len() && self.path.starts_with(
                    source_directory,
                )) {
                    None
                } else if op_is_remove(bits) {
                    Some(FileSyncEvent::Remove(self.path.clone()))
                } else if is_file && (op_is_create(bits) || op_is_rename(bits) || op_is_write(
                    bits,
                )) {
                    Some(FileSyncEvent::FileUpdate(self.path.clone()))
                } else {
                    None
                }
            },
            None => None,
        }
    }
}

impl Clone for PathOperation {
    fn clone(&self) -> (r: Self)
        ensures
            r@ == self@,
    {
        PathOperation { path: self.path.clone(), op: self.op }
    }
}

/// Whether a known operation behind position `i` is on the path of the
/// operation at `i`.
fn overridden(ops: &Vec<PathOperation>, i: usize) -> (r: bool)
    requires
        i < ops@.len(),
    ensures
        r == !(forall|j: int|
            i < j < ops@.len() && (#[trigger] operations(ops@)[j]).op is Some ==> operations(
                ops@,
            )[j].path != operations(ops@)[i as int].path),
{
    let n = ops.len();
    let mut j: usize = i + 1;
    while j < n
        invariant
            n == ops@.len(),
            i < j <= ops@.len(),
            forall|k: int|
                i < k < j && (#[trigger] operations(ops@)[k]).op is Some ==> operations(
                    ops@,
                )[k].path != operations(ops@)[i as int].path,
        decreases ops@.len() - j,
    {
        if ops[j].op.is_some() && ops[j].path.same_path(&ops[i].path) {
            proof {
                let later = operations(ops@)[j as int];
                assert(later.op is Some && later.path == operations(ops@)[i as int].path);
            }
            return true;
        }
        j += 1;
    }
    false
}

/// Keeps of the operations that arrived together only the last known one
/// for each path. What is kept stays in the order in which it arrived.
pub fn coalesce(ops: &Vec<PathOperation>) -> (kept: Vec<PathOperation>)
    ensures
        operations(kept@) == coalesced(operations(ops@)),
{
    let mut kept: Vec<PathOperation> = Vec::new();
    let n = ops.len();
    let mut i: usize = 0;
    proof {
        assert(operations(kept@) + coalesced_from(operations(ops@), 0) =~= coalesced(
            operations(ops@),
        ));
    }
    while i < n
        invariant
            n == ops@.len(),
            i <= n,
            operations(kept@) + coalesced_from(operations(ops@), i as int) == coalesced(
                operations(ops@),
            ),
        decreases n - i,
    {
        if ops[i].op.is_some() && !overridden(ops, i) {
            let op = ops[i].clone();
            proof {
                let rest = coalesced_from(operations(ops@), i + 1);
                assert(operations(ops@)[i as int] == op@);
                assert(operations(kept@.push(op)) =~= operations(kept@).push(op@));
                assert(operations(kept@).push(op@) + rest =~= operations(kept@) + (seq![op@]
                    + rest));
            }
            kept.push(op);
        }
        i += 1;
    }
    proof {
        assert(operations(kept@) + Seq::<PathOperationFlags>::empty() =~= operations(kept@));
    }
    kept
}

/// The patterns of the paths that the watcher passes over: the temporary
/// files of editors, what version control keeps for itself, databases and
/// their journals, and what the build puts out.
pub open spec fn ignored_patterns() -> Seq<Seq<char>> {
    seq![
        ".goutputstream*"@,
        "*/.DS_Store"@,
        "*.sw?"@,
        "*.sw?x"@,
        "#*#"@,
        ".#*"@,
        ".*.kate-swp"@,
        "*/.hg/**"@,
        "*/.git/**"@,
        "*/.svn/**"@,
        "*.db"@,
        "*.db-*"@,
        "*/*.db-journal/**"@,
        "*/target/**"@,
    ]
}

/// The patterns of the paths that the watcher is to pass over.
pub fn ignored_globs() -> (globs: Vec<&'static str>)
    ensures
        globs@.map_values(|s: &str| s@) == ignored_patterns(),
{
    let mut globs: Vec<&'static str> = Vec::new();
    // GEdit
    globs.push(".goutputstream*");
    // Mac
    globs.push("*/.DS_Store");
    // Vim
    globs.push("*.sw?");
    globs.push("*.sw?x");
    // Emacs
    globs.push("#*#");
    globs.push(".#*");
    // Kate
    globs.push(".*.kate-swp");
    // Version control
    globs.push("*/.hg/**");
    globs.push("*/.git/**");
    globs.push("*/.svn/**");
    // SQLite
    globs.push("*.db");
    globs.push("*.db-*");
    globs.push("*/*.db-journal/**");
    // What the build puts out
    globs.push("*/target/**");
    assert(globs@.map_values(|s: &str| s@) =~= ignored_patterns());
    globs
}

/// Watch a directory (nominally the source directory for the Shadow Copy)
/// and emit file created/deleted/changed events as they happen.
#[derive(Debug)]
pub struct Watcher {
    pub directory: ComponentPath,
}

impl Watcher {
    /// A watcher of `directory`.
    pub fn new(directory: ComponentPath) -> (r: Self)
        ensures
            r.directory == directory,
    {
        Self { directory }
    }
}

} // verus!
