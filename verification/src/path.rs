//! Paths as bytes, with `/` between their components, as on Unix.

use crate::os_text::{same_bytes, views, OsText};
use crate::text::{lemma_pieces_nonempty, pieces};
use vstd::prelude::*;
use vstd::utf8::*;

verus! {

/// The byte that separates the components of a path.
pub const SEPARATOR: u8 = 47;

/// The byte that stands for the directory itself.
pub const DOT: u8 = 46;

// ---------------------------------------------------------------------------------------------
// Joining
// ---------------------------------------------------------------------------------------------

/// `rel` seen from the directory `base`: `rel` itself when it is absolute, else the two with
/// one separator between them.
pub open spec fn joined(base: Seq<u8>, rel: Seq<u8>) -> Seq<u8> {
    if rel.len() > 0 && rel.first() == SEPARATOR {
        rel
    } else if base.len() > 0 && base.last() != SEPARATOR {
        base.push(SEPARATOR) + rel
    } else {
        base + rel
    }
}

/// `rel`, a string, seen from the directory `base`.
pub open spec fn joined_text(base: Seq<u8>, rel: Seq<char>) -> Seq<u8> {
    joined(base, encode_utf8(rel))
}

/// `rel` seen from the directory `base`.
pub fn join(base: &OsText, rel: &[u8]) -> (r: OsText)
    ensures
        r@ == joined(base@, rel@),
{
    if rel.len() > 0 && rel[0] == SEPARATOR {
        return OsText { bytes: vstd::slice::slice_to_vec(rel) };
    }
    let mut r = base.duplicate();
    let n = r.bytes.len();
    if n > 0 && r.bytes[n - 1] != SEPARATOR {
        r.bytes.push(SEPARATOR);
    }
    r.push(rel);
    r
}

/// `rel`, a string, seen from the directory `base`.
pub fn join_text(base: &OsText, rel: &str) -> (r: OsText)
    ensures
        r@ == joined_text(base@, rel@),
{
    join(base, rel.as_bytes())
}

// ---------------------------------------------------------------------------------------------
// The last component
// ---------------------------------------------------------------------------------------------

/// `path` without what stands at its end and names nothing: separators, and `.` components
/// that follow a separator.
pub open spec fn without_tail(path: Seq<u8>) -> Seq<u8>
    decreases path.len(),
{
    if path.len() > 0 && path.last() == SEPARATOR {
        without_tail(path.drop_last())
    } else if path.len() > 1 && path.last() == DOT && path[path.len() - 2] == SEPARATOR {
        without_tail(path.drop_last())
    } else {
        path
    }
}

/// What follows the last separator.
pub open spec fn last_piece(path: Seq<u8>) -> Seq<u8>
    decreases path.len(),
{
    if path.len() == 0 || path.last() == SEPARATOR {
        Seq::<u8>::empty()
    } else {
        last_piece(path.drop_last()).push(path.last())
    }
}

/// The name `.`, for the directory itself.
pub open spec fn dot_name() -> Seq<u8> {
    seq![DOT]
}

/// The name `..`, for the parent directory.
pub open spec fn dot_dot_name() -> Seq<u8> {
    seq![DOT, DOT]
}

/// The name of the file or directory that a path leads to: its last component, unless the path
/// has none or ends in `..`.
pub open spec fn named(path: Seq<u8>) -> Option<Seq<u8>> {
    let name = last_piece(without_tail(path));
    if name.len() == 0 || name == dot_name() || name == dot_dot_name() {
        None
    } else {
        Some(name)
    }
}

/// The path without its last component; nothing for the root and the empty path.
pub open spec fn parent_of(path: Seq<u8>) -> Option<Seq<u8>> {
    let whole = without_tail(path);
    if whole.len() == 0 {
        None
    } else {
        let above = whole.take(whole.len() - last_piece(whole).len());
        let dir = without_tail(above);
        if dir.len() == 0 && above.len() > 0 {
            Some(seq![SEPARATOR])
        } else {
            Some(dir)
        }
    }
}

/// The path to a file called `name` in the directory that `path` is in.
pub open spec fn sibling(path: Seq<u8>, name: Seq<u8>) -> Seq<u8> {
    match parent_of(path) {
        Some(dir) => joined(dir, name),
        None => joined(path, name),
    }
}

/// Where `without_tail` cuts the first `len` bytes of `path`.
fn tail_start(path: &[u8], len: usize) -> (r: usize)
    requires
        len <= path@.len(),
    ensures
        r <= len,
        path@.take(r as int) == without_tail(path@.take(len as int)),
{
    let mut n: usize = len;
    while n > 0 && (path[n - 1] == SEPARATOR || (n > 1 && path[n - 1] == DOT && path[n - 2]
        == SEPARATOR))
        invariant
            n <= len <= path@.len(),
            without_tail(path@.take(len as int)) == without_tail(path@.take(n as int)),
        decreases n,
    {
        assert(path@.take(n as int).drop_last() == path@.take(n - 1));
        n = n - 1;
    }
    n
}

/// Where the last piece of the first `len` bytes of `path` begins.
fn piece_start(path: &[u8], len: usize) -> (r: usize)
    requires
        len <= path@.len(),
    ensures
        r <= len,
        last_piece(path@.take(len as int)) == path@.subrange(r as int, len as int),
{
    let mut n: usize = len;
    let ghost whole = path@.take(len as int);
    while n > 0 && path[n - 1] != SEPARATOR
        invariant
            n <= len <= path@.len(),
            whole == path@.take(len as int),
            last_piece(whole) == last_piece(path@.take(n as int)) + path@.subrange(
                n as int,
                len as int,
            ),
        decreases n,
    {
        assert(path@.take(n as int).drop_last() == path@.take(n - 1));
        assert(last_piece(path@.take(n as int)) + path@.subrange(n as int, len as int)
            == last_piece(path@.take(n - 1)) + path@.subrange(n - 1, len as int));
        n = n - 1;
    }
    n
}

/// The name of the file or directory that a path leads to.
pub fn file_name(path: &OsText) -> (r: Option<OsText>)
    ensures
        match r {
            Some(name) => named(path@) == Some(name@),
            None => named(path@) is None,
        },
{
    let bytes = path.as_bytes();
    assert(bytes@.take(bytes@.len() as int) == bytes@);
    let end = tail_start(bytes, bytes.len());
    let start = piece_start(bytes, end);
    let name = vstd::slice::slice_subrange(bytes, start, end);
    let n = name.len();
    if n == 0 || (n == 1 && name[0] == DOT) || (n == 2 && name[0] == DOT && name[1] == DOT) {
        assert(n == 1 ==> name@ == dot_name());
        assert(n == 2 ==> name@ == dot_dot_name());
        return None;
    }
    Some(OsText { bytes: vstd::slice::slice_to_vec(name) })
}

/// The path without its last component.
pub fn parent(path: &OsText) -> (r: Option<OsText>)
    ensures
        match r {
            Some(dir) => parent_of(path@) == Some(dir@),
            None => parent_of(path@) is None,
        },
{
    let bytes = path.as_bytes();
    assert(bytes@.take(bytes@.len() as int) == bytes@);
    let end = tail_start(bytes, bytes.len());
    if end == 0 {
        return None;
    }
    let above = piece_start(bytes, end);
    let ghost whole = without_tail(bytes@);
    assert(whole.take(whole.len() - last_piece(whole).len()) == bytes@.take(above as int));
    let dir = tail_start(bytes, above);
    if dir == 0 && above > 0 {
        let mut root: Vec<u8> = Vec::new();
        root.push(SEPARATOR);
        assert(root@ == seq![SEPARATOR]);
        return Some(OsText { bytes: root });
    }
    let slice = vstd::slice::slice_subrange(bytes, 0, dir);
    assert(slice@ == bytes@.take(dir as int));
    Some(OsText { bytes: vstd::slice::slice_to_vec(slice) })
}

// ---------------------------------------------------------------------------------------------
// Sameness
// ---------------------------------------------------------------------------------------------

/// Whether a path starts at the root.
pub open spec fn rooted(path: Seq<u8>) -> bool {
    path.len() > 0 && path.first() == SEPARATOR
}

/// Whether a piece of a path counts as a component after the first: it is not empty and not `.`.
pub open spec fn counts(piece: Seq<u8>) -> bool {
    piece.len() > 0 && piece != dot_name()
}

/// The components among some pieces of a path.
pub open spec fn counting(all: Seq<Seq<u8>>) -> Seq<Seq<u8>>
    decreases all.len(),
{
    if all.len() == 0 {
        Seq::empty()
    } else if counts(all.last()) || (all.len() == 1 && all.last() == dot_name()) {
        counting(all.drop_last()).push(all.last())
    } else {
        counting(all.drop_last())
    }
}

/// The components of a path: its non-empty pieces, without each `.` but a leading one.
pub open spec fn components(path: Seq<u8>) -> Seq<Seq<u8>> {
    counting(pieces(path, SEPARATOR))
}

/// Whether two paths have the same components, from the root or from the same place.
pub open spec fn same_place(a: Seq<u8>, b: Seq<u8>) -> bool {
    rooted(a) == rooted(b) && components(a) == components(b)
}

/// Adds a piece of a path to its components, when it counts as one.
fn keep_piece(all: &mut Vec<OsText>, piece: Vec<u8>, leading: bool)
    ensures
        views(final(all)@) == (if counts(piece@) || (leading && piece@ == dot_name()) {
            views(old(all)@).push(piece@)
        } else {
            views(old(all)@)
        }),
{
    let is_dot = piece.len() == 1 && piece[0] == DOT;
    assert(is_dot ==> piece@ == dot_name());
    if piece.len() > 0 && (leading || !is_dot) {
        let ghost before = all@;
        all.push(OsText { bytes: piece });
        assert(views(all@) == views(before).push(piece@));
    }
}

/// The components of a path.
fn split_components(path: &[u8]) -> (r: Vec<OsText>)
    ensures
        views(r@) == components(path@),
{
    let mut all: Vec<OsText> = Vec::new();
    let mut current: Vec<u8> = Vec::new();
    let mut leading = true;
    assert(views(all@) == Seq::<Seq<u8>>::empty());
    for i in 0..path.len()
        invariant
            pieces(path@.take(i as int), SEPARATOR).len() > 0,
            pieces(path@.take(i as int), SEPARATOR).last() == current@,
            leading == (pieces(path@.take(i as int), SEPARATOR).len() == 1),
            views(all@) == counting(pieces(path@.take(i as int), SEPARATOR).drop_last()),
    {
        let b = path[i];
        let ghost seen = pieces(path@.take(i as int), SEPARATOR);
        assert(path@.take(i + 1).drop_last() == path@.take(i as int));
        if b == SEPARATOR {
            keep_piece(&mut all, current, leading);
            current = Vec::new();
            leading = false;
            assert(seen.push(Seq::<u8>::empty()).drop_last() == seen);
        } else {
            current.push(b);
            assert(pieces(path@.take(i + 1), SEPARATOR).drop_last() == seen.drop_last());
        }
    }
    assert(path@.take(path@.len() as int) == path@);
    keep_piece(&mut all, current, leading);
    all
}

/// Whether two paths lead to the same place, component by component.
pub fn same_path(a: &OsText, b: &OsText) -> (r: bool)
    ensures
        r == same_place(a@, b@),
{
    let x = split_components(a.as_bytes());
    let y = split_components(b.as_bytes());
    let x_rooted = a.bytes.len() > 0 && a.bytes[0] == SEPARATOR;
    let y_rooted = b.bytes.len() > 0 && b.bytes[0] == SEPARATOR;
    if x_rooted != y_rooted || x.len() != y.len() {
        assert(components(a@).len() == x@.len());
        assert(components(b@).len() == y@.len());
        return false;
    }
    for i in 0..x.len()
        invariant
            x@.len() == y@.len(),
            views(x@) == components(a@),
            views(y@) == components(b@),
            forall|k: int| 0 <= k < i ==> x@[k]@ == y@[k]@,
    {
        if !same_bytes(x[i].as_bytes(), y[i].as_bytes()) {
            assert(components(a@)[i as int] != components(b@)[i as int]);
            return false;
        }
    }
    assert(views(x@) == views(y@));
    true
}

// ---------------------------------------------------------------------------------------------
// Names in directories
// ---------------------------------------------------------------------------------------------

/// Whether `name` can be the name of an entry of a directory.
pub open spec fn plain_name(name: Seq<u8>) -> bool {
    &&& name.len() > 0
    &&& !name.contains(SEPARATOR)
    &&& name != dot_name()
    &&& name != dot_dot_name()
}

/// The last piece of a path holds no separator, and is a part of the path.
pub proof fn lemma_last_piece_plain(path: Seq<u8>)
    ensures
        !last_piece(path).contains(SEPARATOR),
        last_piece(path).len() <= path.len(),
    decreases path.len(),
{
    if path.len() > 0 && path.last() != SEPARATOR {
        let rest = last_piece(path.drop_last());
        lemma_last_piece_plain(path.drop_last());
        assert forall|k: int| 0 <= k < last_piece(path).len() implies last_piece(path)[k]
            != SEPARATOR by {
            if k < rest.len() {
                assert(rest.contains(rest[k]));
            }
        }
    }
}

/// The name of a file can be the name of an entry of a directory.
pub proof fn lemma_named_plain(path: Seq<u8>)
    requires
        named(path) is Some,
    ensures
        plain_name(named(path)->0),
{
    lemma_last_piece_plain(without_tail(path));
}

/// What is added to a path without separators is added to its last piece.
pub proof fn lemma_last_piece_extended(path: Seq<u8>, more: Seq<u8>)
    requires
        !more.contains(SEPARATOR),
    ensures
        last_piece(path + more) == last_piece(path) + more,
    decreases more.len(),
{
    if more.len() == 0 {
        assert(path + more == path);
        assert(last_piece(path) + more == last_piece(path));
    } else {
        let front = more.drop_last();
        assert(more.contains(more.last()));
        assert forall|b: u8| front.contains(b) implies more.contains(b) by {
            let k = choose|k: int| 0 <= k < front.len() && front[k] == b;
            assert(more[k] == b);
        }
        lemma_last_piece_extended(path, front);
        assert((path + more).drop_last() == path + front);
        assert((last_piece(path) + front).push(more.last()) == last_piece(path) + more);
    }
}

proof fn lemma_last_piece_of_join(front: Seq<u8>, name: Seq<u8>)
    requires
        !name.contains(SEPARATOR),
        front.len() == 0 || front.last() == SEPARATOR,
    ensures
        last_piece(front + name) == name,
    decreases name.len(),
{
    let whole = front + name;
    if name.len() == 0 {
        assert(whole == front);
    } else {
        assert(name.contains(name.last()));
        assert(whole.last() == name.last());
        assert(whole.drop_last() == front + name.drop_last());
        assert forall|b: u8| name.drop_last().contains(b) implies name.contains(b) by {
            let k = choose|k: int| 0 <= k < name.drop_last().len() && name.drop_last()[k] == b;
            assert(name[k] == b);
        }
        lemma_last_piece_of_join(front, name.drop_last());
        assert(name.drop_last().push(name.last()) == name);
    }
}

/// An entry of a directory has the name that it was given, and its parent leads to the
/// directory.
pub proof fn lemma_entry_of_directory(base: Seq<u8>, name: Seq<u8>)
    requires
        plain_name(name),
    ensures
        named(joined(base, name)) == Some(name),
        parent_of(joined(base, name)) == Some(
            if without_tail(base).len() == 0 && base.len() > 0 {
                seq![SEPARATOR]
            } else {
                without_tail(base)
            },
        ),
{
    assert(name.contains(name.first()));
    assert(name.contains(name.last()));
    let front = if base.len() > 0 && base.last() != SEPARATOR {
        base.push(SEPARATOR)
    } else {
        base
    };
    let whole = joined(base, name);
    assert(whole == front + name);
    assert(whole.last() == name.last());
    assert(without_tail(whole) == whole) by {
        if name.last() == DOT && whole[whole.len() - 2] == SEPARATOR {
            if name.len() > 1 {
                assert(whole[whole.len() - 2] == name[name.len() - 2]);
                assert(name.contains(name[name.len() - 2]));
            } else {
                assert(name == dot_name());
            }
        }
    }
    lemma_last_piece_of_join(front, name);
    assert(whole.take(whole.len() - name.len()) == front);
    if front != base {
        assert(front.drop_last() == base);
        assert(without_tail(front) == without_tail(base));
    }
}

proof fn lemma_pieces_extended(front: Seq<u8>, more: Seq<u8>)
    requires
        !more.contains(SEPARATOR),
    ensures
        pieces(front, SEPARATOR).len() > 0,
        pieces(front + more, SEPARATOR) == pieces(front, SEPARATOR).drop_last().push(
            pieces(front, SEPARATOR).last() + more,
        ),
    decreases more.len(),
{
    lemma_pieces_nonempty(front, SEPARATOR);
    let all = pieces(front, SEPARATOR);
    if more.len() == 0 {
        assert(front + more == front);
        assert(all.last() + more == all.last());
        assert(all == all.drop_last().push(all.last()));
    } else {
        let less = more.drop_last();
        assert(more.contains(more.last()));
        assert forall|b: u8| less.contains(b) implies more.contains(b) by {
            let k = choose|k: int| 0 <= k < less.len() && less[k] == b;
            assert(more[k] == b);
        }
        lemma_pieces_extended(front, less);
        assert((front + more).drop_last() == front + less);
        assert((all.last() + less).push(more.last()) == all.last() + more);
        assert(pieces(front + less, SEPARATOR).drop_last() == all.drop_last());
    }
}

/// The components of an entry of a directory are those of the directory and the name.
pub proof fn lemma_components_of_entry(base: Seq<u8>, name: Seq<u8>)
    requires
        plain_name(name),
    ensures
        components(joined(base, name)) == components(base).push(name),
        rooted(joined(base, name)) == rooted(base),
{
    assert(name.contains(name.first()));
    let whole = joined(base, name);
    let above = pieces(base, SEPARATOR);
    lemma_pieces_nonempty(base, SEPARATOR);
    if base.len() > 0 && base.last() != SEPARATOR {
        let front = base.push(SEPARATOR);
        assert(front.drop_last() == base);
        assert(whole == front + name);
        lemma_pieces_extended(front, name);
        assert(pieces(front, SEPARATOR).drop_last() == above);
        assert(Seq::<u8>::empty() + name == name);
        assert(above.push(name).drop_last() == above);
    } else {
        assert(whole == base + name);
        lemma_pieces_extended(base, name);
        assert(above.last() == Seq::<u8>::empty());
        assert(Seq::<u8>::empty() + name == name);
        assert(above.drop_last().push(name).drop_last() == above.drop_last());
    }
}

/// Two entries of a directory are the same exactly when they have the same name.
pub proof fn lemma_same_entry(base: Seq<u8>, a: Seq<u8>, b: Seq<u8>)
    requires
        plain_name(a),
        plain_name(b),
    ensures
        same_place(joined(base, a), joined(base, b)) <==> a == b,
{
    lemma_components_of_entry(base, a);
    lemma_components_of_entry(base, b);
    assert(components(base).push(a).last() == a);
    assert(components(base).push(b).last() == b);
}

/// Text of ASCII without a slash has one byte for each character, and none is a separator.
pub proof fn lemma_ascii_bytes(s: Seq<char>)
    requires
        is_ascii_chars(s),
        !s.contains('/'),
    ensures
        encode_utf8(s).len() == s.len(),
        forall|i: int| 0 <= i < s.len() ==> encode_utf8(s)[i] == #[trigger] s[i] as u8,
        !encode_utf8(s).contains(SEPARATOR),
{
    is_ascii_chars_encode_utf8(s);
    let bytes = encode_utf8(s);
    if bytes.contains(SEPARATOR) {
        let k = choose|k: int| 0 <= k < bytes.len() && bytes[k] == SEPARATOR;
        assert(s[k] as u8 == SEPARATOR);
        assert(s.contains(s[k]));
    }
}

/// The paths from a number on.
pub open spec fn paths_from(paths: Seq<Seq<u8>>, from: nat) -> Seq<Seq<u8>> {
    if from <= paths.len() {
        paths.skip(from as int)
    } else {
        Seq::empty()
    }
}

// ---------------------------------------------------------------------------------------------
// What holds of paths
// ---------------------------------------------------------------------------------------------

/// A path that starts with a slash stands for itself, wherever it is seen from. Any other one is
/// appended to the directory, behind one slash, unless the directory is empty or ends in one.
pub proof fn joining_puts_one_slash_between(base: Seq<u8>, rel: Seq<u8>)
    ensures
        rel.len() > 0 && rel[0] == '/' as u8 ==> joined(base, rel) == rel,
        rel.len() == 0 || rel[0] != '/' as u8 ==> joined(base, rel) == (if base.len() == 0
            || base[base.len() - 1] == '/' as u8 {
            base + rel
        } else {
            base + seq!['/' as u8] + rel
        }),
{
    if base.len() > 0 && base[base.len() - 1] != '/' as u8 {
        assert(base.push(SEPARATOR) + rel =~= base + seq!['/' as u8] + rel);
    }
}

/// The text that is joined to a directory is joined as its bytes in UTF-8.
pub proof fn joining_text_joins_its_bytes(base: Seq<u8>, rel: Seq<char>)
    ensures
        joined_text(base, rel) == joined(base, encode_utf8(rel)),
{
}

/// Slashes at the end of a path, and a dot behind one, change nothing: what it is called and where
/// it stands are the same.
pub proof fn tails_name_nothing(path: Seq<u8>)
    ensures
        named(path.push('/' as u8)) == named(path),
        path.len() > 0 ==> parent_of(path.push('/' as u8)) == parent_of(path),
        path.len() > 0 && path[path.len() - 1] == '/' as u8 ==> named(path.push('.' as u8))
            == named(path),
{
    assert(path.push('/' as u8).drop_last() =~= path);
    assert(path.push('.' as u8).drop_last() =~= path);
}

/// The empty path and the root have neither a name nor a parent directory. The directory itself and
/// the way up have no name either, wherever they stand.
pub proof fn some_paths_have_no_name(path: Seq<u8>)
    ensures
        named(Seq::<u8>::empty()) is None,
        parent_of(Seq::<u8>::empty()) is None,
        named(seq!['/' as u8]) is None,
        parent_of(seq!['/' as u8]) is None,
        named(seq!['.' as u8]) is None,
        parent_of(seq!['.' as u8]) == Some(Seq::<u8>::empty()),
        parent_of(seq!['.' as u8, '.' as u8]) == Some(Seq::<u8>::empty()),
        named(seq!['.' as u8, '.' as u8]) is None,
        named(path + seq!['/' as u8, '.' as u8, '.' as u8]) is None,
{
    reveal_with_fuel(without_tail, 2);
    reveal_with_fuel(last_piece, 4);
    assert(seq!['/' as u8].drop_last() =~= Seq::<u8>::empty());
    assert(seq!['.' as u8].drop_last() =~= Seq::<u8>::empty());
    let up = seq!['.' as u8, '.' as u8];
    assert(up.drop_last() =~= seq!['.' as u8]);
    assert(last_piece(seq!['.' as u8]) =~= dot_name());
    assert(last_piece(up) =~= dot_dot_name());
    assert(seq!['.' as u8].take(0) =~= Seq::<u8>::empty());
    assert(up.take(0) =~= Seq::<u8>::empty());
    let whole = path + seq!['/' as u8, '.' as u8, '.' as u8];
    assert(without_tail(whole) == whole);
    let front = whole.drop_last();
    assert(front.drop_last() =~= path.push('/' as u8));
    assert(last_piece(path.push('/' as u8)) =~= Seq::<u8>::empty());
    assert(last_piece(front) =~= dot_name());
    assert(last_piece(whole) =~= dot_dot_name());
}

/// An entry of a directory has its name, and its parent is the directory: without the slashes at
/// its end, or the root where it consists of them.
pub proof fn entries_stand_in_their_directory(base: Seq<u8>, name: Seq<u8>)
    requires
        name.len() > 0,
        forall|i: int| 0 <= i < name.len() ==> #[trigger] name[i] != '/' as u8,
        name != seq!['.' as u8],
        name != seq!['.' as u8, '.' as u8],
        base.len() > 0 ==> base[base.len() - 1] != '/' as u8 && base[base.len() - 1] != '.' as u8,
    ensures
        named(joined(base, name)) == Some(name),
        parent_of(joined(base, name)) == Some(base),
        parent_of(seq!['/' as u8] + name) == Some(seq!['/' as u8]),
        named(seq!['/' as u8] + name) == Some(name),
{
    lemma_entry_of_directory(base, name);
    lemma_entry_of_directory(seq!['/' as u8], name);
    assert(without_tail(base) == base);
    let root = seq!['/' as u8];
    assert(root.drop_last() =~= Seq::<u8>::empty());
    assert(without_tail(Seq::<u8>::empty()) =~= Seq::<u8>::empty());
    assert(without_tail(root) =~= Seq::<u8>::empty());
}

/// Being the same place is an equivalence, and paths that differ in where they start never are.
pub proof fn sameness_is_an_equivalence(a: Seq<u8>, b: Seq<u8>, c: Seq<u8>)
    ensures
        same_place(a, a),
        same_place(a, b) ==> same_place(b, a),
        same_place(a, b) && same_place(b, c) ==> same_place(a, c),
        a.len() > 0 && a[0] == '/' as u8 && same_place(a, b) ==> b.len() > 0 && b[0] == '/' as u8,
{
}

/// A slash or a dot component more at the end of a path leads to the same place; a name more does
/// not.
pub proof fn only_names_lead_elsewhere(path: Seq<u8>, name: Seq<u8>)
    requires
        path.len() > 0,
    ensures
        same_place(path, path.push('/' as u8)),
        path.len() > 0 && path[path.len() - 1] == '/' as u8 ==> same_place(
            path,
            path.push('.' as u8),
        ),
        plain_name(name) ==> !same_place(path, joined(path, name)),
{
    lemma_pieces_nonempty(path, SEPARATOR);
    let more = path.push('/' as u8);
    assert(more.drop_last() =~= path);
    let all = pieces(path, SEPARATOR);
    assert(pieces(more, SEPARATOR) =~= all.push(Seq::<u8>::empty()));
    assert(all.push(Seq::<u8>::empty()).drop_last() =~= all);
    assert(components(more) =~= components(path));
    if path[path.len() - 1] == '/' as u8 {
        let dotted = path.push('.' as u8);
        assert(dotted.drop_last() =~= path);
        lemma_pieces_nonempty(path.drop_last(), SEPARATOR);
        let before = pieces(path.drop_last(), SEPARATOR);
        assert(all =~= before.push(Seq::<u8>::empty()));
        assert(Seq::<u8>::empty().push('.' as u8) =~= dot_name());
        assert(pieces(dotted, SEPARATOR) =~= before.push(dot_name()));
        assert(before.push(dot_name()).drop_last() =~= before);
        assert(all.drop_last() =~= before);
        assert(components(dotted) =~= components(path));
    }
    if plain_name(name) {
        lemma_components_of_entry(path, name);
    }
}

/// Where a path leads is decided by all its components: the same name in two directories is the same
/// place exactly when the directories are.
pub proof fn directories_decide_with_the_name(a: Seq<u8>, b: Seq<u8>, m: Seq<u8>, n: Seq<u8>)
    requires
        plain_name(m),
        plain_name(n),
    ensures
        same_place(joined(a, m), joined(b, n)) <==> same_place(a, b) && m == n,
{
    lemma_components_of_entry(a, m);
    lemma_components_of_entry(b, n);
    let x = components(a).push(m);
    let y = components(b).push(n);
    if x == y {
        assert(x.drop_last() =~= components(a));
        assert(y.drop_last() =~= components(b));
        assert(x.last() == m && y.last() == n);
    }
}

/// The way up is a component like any other, and so is a dot that a path begins with.
pub proof fn dots_are_not_resolved(path: Seq<u8>)
    requires
        path.len() > 0,
        path[path.len() - 1] != '/' as u8,
    ensures
        !same_place(path, path + seq!['/' as u8, '.' as u8, '.' as u8]),
        components(seq!['.' as u8]) == seq![seq!['.' as u8]],
        components(Seq::<u8>::empty()).len() == 0,
{
    let up = seq!['.' as u8, '.' as u8];
    let front = path.push('/' as u8);
    assert(front.drop_last() =~= path);
    assert(path + seq!['/' as u8, '.' as u8, '.' as u8] =~= front + up);
    assert(!up.contains(SEPARATOR));
    lemma_pieces_extended(front, up);
    let above = pieces(path, SEPARATOR);
    assert(pieces(front, SEPARATOR) =~= above.push(Seq::<u8>::empty()));
    assert(Seq::<u8>::empty() + up =~= up);
    assert(above.push(Seq::<u8>::empty()).drop_last() =~= above);
    assert(pieces(front + up, SEPARATOR) =~= above.push(up));
    assert(above.push(up).drop_last() =~= above);
    assert(up != dot_name()) by {
        assert(up.len() == 2);
    }
    assert(components(front + up) =~= components(path).push(up));
    lemma_no_pieces();
}

proof fn lemma_no_pieces()
    ensures
        components(seq!['.' as u8]) == seq![seq!['.' as u8]],
        components(Seq::<u8>::empty()).len() == 0,
{
    reveal_with_fuel(pieces, 3);
    reveal_with_fuel(counting, 3);
    let none = Seq::<u8>::empty();
    let one = seq!['.' as u8];
    assert(one.drop_last() =~= none);
    assert(pieces(none, SEPARATOR) =~= seq![none]);
    assert(none.push('.' as u8) =~= one);
    assert(pieces(one, SEPARATOR) =~= seq![one]);
    assert(seq![one].drop_last() =~= Seq::<Seq<u8>>::empty());
    assert(seq![none].drop_last() =~= Seq::<Seq<u8>>::empty());
    assert(one =~= dot_name());
    assert(counting(seq![one]) =~= seq![one]);
}

/// However many slashes, or slashes with a dot, stand between a directory and a name, the directory
/// is the parent.
pub proof fn parents_have_no_tail(base: Seq<u8>, name: Seq<u8>)
    requires
        plain_name(name),
        base.len() > 0,
        base[base.len() - 1] == '/' as u8,
    ensures
        parent_of(base.push('/' as u8) + name) == parent_of(base + name),
        parent_of(base + seq!['.' as u8, '/' as u8] + name) == parent_of(base + name),
        parent_of(base.push('.' as u8)) == parent_of(base),
{
    assert(name.contains(name[0]));
    assert(joined(base, name) =~= base + name);
    lemma_entry_of_directory(base, name);
    let more = base.push('/' as u8);
    assert(more.drop_last() =~= base);
    assert(joined(more, name) =~= more + name);
    lemma_entry_of_directory(more, name);
    let dotted = base.push('.' as u8);
    assert(dotted.drop_last() =~= base);
    let longer = base + seq!['.' as u8, '/' as u8];
    assert(longer.drop_last() =~= dotted);
    assert(joined(longer, name) =~= longer + name);
    lemma_entry_of_directory(longer, name);
}

} // verus!
