//! A model of the file system, for what holds of the procedures that change it.

use crate::io::{DirEntryView, LinkStateView, OperationView, OutcomeView};
use crate::path::{plain_name, SEPARATOR};
use vstd::prelude::*;

verus! {

/// Whether a path is that of a directory, or leads into it.
pub open spec fn within(dir: Seq<u8>, path: Seq<u8>) -> bool {
    ||| path == dir
    ||| {
        &&& path.len() > dir.len()
        &&& path.take(dir.len() as int) == dir
        &&& path[dir.len() as int] == SEPARATOR
    }
}

/// What stands at which path, be it inside a directory or not.
#[verifier::ext_equal]
pub struct Disk {
    /// The symbolic links, with their targets.
    pub links: Map<Seq<u8>, Seq<u8>>,
    /// The files, with a number that stands for what is in them.
    pub files: Map<Seq<u8>, int>,
    /// The directories.
    pub dirs: Set<Seq<u8>>,
}

/// The target of the link at a path.
pub open spec fn link_at(disk: Disk, path: Seq<u8>) -> Option<Seq<u8>> {
    if disk.links.contains_key(path) {
        Some(disk.links[path])
    } else {
        None
    }
}

/// What is in the file at a path.
pub open spec fn file_at(disk: Disk, path: Seq<u8>) -> Option<int> {
    if disk.files.contains_key(path) {
        Some(disk.files[path])
    } else {
        None
    }
}

/// The target of the link that stands at a path.
pub open spec fn target_of(state: LinkStateView) -> Option<Seq<u8>> {
    match state {
        LinkStateView::Link(target) => Some(target),
        _ => None,
    }
}

/// Whether an outcome of looking at a link is true.
pub open spec fn link_answer(disk: Disk, path: Seq<u8>, outcome: OutcomeView) -> bool {
    match outcome {
        OutcomeView::Link(state) => target_of(state) == link_at(disk, path),
        OutcomeView::Failed { .. } => !disk.links.contains_key(path),
        _ => false,
    }
}

/// Whether anything stands at a path.
pub open spec fn taken(disk: Disk, path: Seq<u8>) -> bool {
    disk.links.contains_key(path) || disk.files.contains_key(path) || disk.dirs.contains(path)
}

/// Whether the same stands at `p` on one file system and at `q` on another.
pub open spec fn same_at(a: Disk, p: Seq<u8>, b: Disk, q: Seq<u8>) -> bool {
    &&& link_at(a, p) == link_at(b, q)
    &&& file_at(a, p) == file_at(b, q)
    &&& a.dirs.contains(p) == b.dirs.contains(q)
}

/// Whether each entry has the name of an entry of a directory.
pub open spec fn plain_entries(entries: Seq<DirEntryView>) -> bool {
    forall|i: int| 0 <= i < entries.len() ==> plain_name(#[trigger] entries[i].name)
}

/// Whether `outcome` is what a file system in the state `disk` can answer to an operation. That an
/// operation which changes something fails is always possible.
pub open spec fn truthful(disk: Disk, op: Option<OperationView>, outcome: OutcomeView) -> bool {
    match op {
        Some(OperationView::InspectLink(path)) => link_answer(disk, path, outcome),
        Some(OperationView::Symlink { link, .. }) => outcome is Done ==> !taken(disk, link),
        Some(OperationView::Rename { from, .. }) => outcome is Done ==> taken(disk, from),
        Some(OperationView::RemoveFile(path)) => outcome matches OutcomeView::Failed { kind, .. }
            ==> (kind is NotFound ==> !taken(disk, path)),
        Some(OperationView::ListReadable(_)) => outcome matches OutcomeView::Entries(entries)
            ==> plain_entries(entries),
        Some(_) => true,
        None => false,
    }
}

/// What was at `path` before the directory `from` was moved to `to`.
pub open spec fn origin(from: Seq<u8>, to: Seq<u8>, path: Seq<u8>) -> Seq<u8> {
    if within(to, path) {
        from + path.skip(to.len() as int)
    } else {
        path
    }
}

/// Whether something can stand at `path` after the directory `from` was moved to `to`.
pub open spec fn reachable(from: Seq<u8>, to: Seq<u8>, path: Seq<u8>) -> bool {
    within(to, path) || !within(from, path)
}

/// The file system after the directory `from` was moved to `to`, with all that is in it.
pub open spec fn with_moved(disk: Disk, from: Seq<u8>, to: Seq<u8>) -> Disk {
    Disk {
        links: Map::new(
            |p: Seq<u8>| reachable(from, to, p) && disk.links.contains_key(origin(from, to, p)),
            |p: Seq<u8>| disk.links[origin(from, to, p)],
        ),
        files: Map::new(
            |p: Seq<u8>| reachable(from, to, p) && disk.files.contains_key(origin(from, to, p)),
            |p: Seq<u8>| disk.files[origin(from, to, p)],
        ),
        dirs: Set::new(
            |p: Seq<u8>| reachable(from, to, p) && disk.dirs.contains(origin(from, to, p)),
        ),
    }
}

/// The file system after the directory `dir` was removed, with all that is in it.
pub open spec fn without(disk: Disk, dir: Seq<u8>) -> Disk {
    Disk {
        links: Map::new(
            |p: Seq<u8>| !within(dir, p) && disk.links.contains_key(p),
            |p: Seq<u8>| disk.links[p],
        ),
        files: Map::new(
            |p: Seq<u8>| !within(dir, p) && disk.files.contains_key(p),
            |p: Seq<u8>| disk.files[p],
        ),
        dirs: Set::new(|p: Seq<u8>| !within(dir, p) && disk.dirs.contains(p)),
    }
}

/// The file system after the directory `dir` was created, and those that lead to it.
pub open spec fn with_dir(disk: Disk, dir: Seq<u8>) -> Disk {
    Disk { dirs: Set::new(|p: Seq<u8>| disk.dirs.contains(p) || within(p, dir)), ..disk }
}

/// The file system after an operation was done.
pub open spec fn changed(disk: Disk, op: OperationView) -> Disk {
    match op {
        OperationView::CreateDirAll(path) => with_dir(disk, path),
        OperationView::Symlink { target, link } => Disk {
            links: disk.links.insert(link, target),
            ..disk
        },
        OperationView::Rename { from, to } => if disk.links.contains_key(from) {
            Disk {
                links: disk.links.remove(from).insert(to, disk.links[from]),
                files: disk.files.remove(to),
                ..disk
            }
        } else if disk.files.contains_key(from) {
            Disk {
                links: disk.links.remove(to),
                files: disk.files.remove(from).insert(to, disk.files[from]),
                ..disk
            }
        } else {
            with_moved(disk, from, to)
        },
        OperationView::RemoveFile(path) => Disk {
            links: disk.links.remove(path),
            files: disk.files.remove(path),
            ..disk
        },
        OperationView::RemoveDirAll(path) => without(disk, path),
        _ => disk,
    }
}

/// The file system after an operation ended so; one that was not done changed nothing.
pub open spec fn disk_after(disk: Disk, op: Option<OperationView>, outcome: OutcomeView) -> Disk {
    match (op, outcome) {
        (Some(op), OutcomeView::Done) => changed(disk, op),
        _ => disk,
    }
}

/// What is inside a directory inside another is inside that one.
pub proof fn lemma_within_transitive(a: Seq<u8>, b: Seq<u8>, c: Seq<u8>)
    requires
        within(a, b),
        within(b, c),
    ensures
        within(a, c),
{
    if a != b && b != c {
        assert(c.take(a.len() as int) =~= b.take(a.len() as int)) by {
            assert forall|i: int| 0 <= i < a.len() implies c[i] == b[i] by {
                assert(c.take(b.len() as int)[i] == b[i]);
            }
        }
        assert(c.take(b.len() as int)[a.len() as int] == b[a.len() as int]);
    }
}

/// Of two directories that a path is inside of, one is inside the other.
pub proof fn lemma_within_comparable(a: Seq<u8>, b: Seq<u8>, path: Seq<u8>)
    requires
        within(a, path),
        within(b, path),
    ensures
        within(a, b) || within(b, a),
{
    let (short, long) = if a.len() <= b.len() {
        (a, b)
    } else {
        (b, a)
    };
    assert(path.take(short.len() as int) == short);
    assert(path.take(long.len() as int) == long);
    assert(long.take(short.len() as int) =~= path.take(short.len() as int));
    if short.len() < long.len() {
        assert(long[short.len() as int] == path[short.len() as int]);
    }
}

/// What is inside a directory begins with its path.
pub proof fn lemma_within_bytes(dir: Seq<u8>, path: Seq<u8>)
    requires
        within(dir, path),
    ensures
        path.len() >= dir.len(),
        forall|i: int| 0 <= i < dir.len() ==> path[i] == #[trigger] dir[i],
        path.len() > dir.len() ==> path[dir.len() as int] == SEPARATOR,
        path.len() == dir.len() ==> path == dir,
{
    assert(path.take(dir.len() as int) == dir);
    assert forall|i: int| 0 <= i < dir.len() implies path[i] == #[trigger] dir[i] by {
        assert(path.take(dir.len() as int)[i] == dir[i]);
    }
}

} // verus!
