//! Which installed releases stay, and which go.

use crate::disk::plain_entries;
use crate::io::{entry_views, DirEntry, DirEntryView};
use crate::os_text::{bytes_le, is_bytes_le, lemma_bytes_le_total_order, views, OsText};
use crate::path::{join, joined, lemma_same_entry, plain_name, same_path, same_place};
use vstd::prelude::*;
use vstd::relations::*;
use vstd::seq_lib::*;

verus! {

/// How many releases stay installed.
pub const MAX_RETAINED_RELEASES: usize = 2;

// ---------------------------------------------------------------------------------------------
// Old releases
// ---------------------------------------------------------------------------------------------

/// The names of the directories among some entries.
pub open spec fn dir_names(entries: Seq<DirEntryView>) -> Seq<Seq<u8>>
    decreases entries.len(),
{
    if entries.len() == 0 {
        Seq::empty()
    } else if entries.last().is_dir {
        dir_names(entries.drop_last()).push(entries.last().name)
    } else {
        dir_names(entries.drop_last())
    }
}

/// The names in the order of their bytes.
pub open spec fn in_order(names: Seq<Seq<u8>>) -> Seq<Seq<u8>> {
    names.sort_by(|a: Seq<u8>, b: Seq<u8>| bytes_le(a, b))
}

/// The names of the entries of `dir` other than `keep`.
pub open spec fn others(names: Seq<Seq<u8>>, dir: Seq<u8>, keep: Seq<u8>) -> Seq<Seq<u8>>
    decreases names.len(),
{
    if names.len() == 0 {
        Seq::empty()
    } else if same_place(joined(dir, names.last()), keep) {
        others(names.drop_last(), dir, keep)
    } else {
        others(names.drop_last(), dir, keep).push(names.last())
    }
}

/// How many of `n` releases are too many.
pub open spec fn surplus(n: nat) -> nat {
    if n > MAX_RETAINED_RELEASES {
        (n - MAX_RETAINED_RELEASES) as nat
    } else {
        0
    }
}

/// At most the first `n` names.
pub open spec fn first_names(names: Seq<Seq<u8>>, n: nat) -> Seq<Seq<u8>> {
    if n < names.len() {
        names.take(n as int)
    } else {
        names
    }
}

/// The releases to remove from `dir`, the directory with these entries: those that come first in
/// the order of their names, without `keep`, as many as there are too many.
pub open spec fn doomed_names(entries: Seq<DirEntryView>, dir: Seq<u8>, keep: Seq<u8>) -> Seq<
    Seq<u8>,
> {
    let names = dir_names(entries);
    first_names(others(in_order(names), dir, keep), surplus(names.len()))
}

/// The paths of some entries of a directory.
pub open spec fn paths_in(dir: Seq<u8>, names: Seq<Seq<u8>>) -> Seq<Seq<u8>> {
    names.map_values(|name: Seq<u8>| joined(dir, name))
}

/// The names of the directories among some entries.
fn collect_dir_names(entries: &Vec<DirEntry>) -> (r: Vec<OsText>)
    ensures
        views(r@) == dir_names(entry_views(entries@)),
{
    let mut r: Vec<OsText> = Vec::new();
    assert(views(r@) =~= Seq::<Seq<u8>>::empty());
    for i in 0..entries.len()
        invariant
            views(r@) == dir_names(entry_views(entries@.take(i as int))),
    {
        let ghost before = r@;
        let ghost seen = entry_views(entries@.take(i + 1));
        assert(seen.drop_last() == entry_views(entries@.take(i as int)));
        if entries[i].is_dir {
            r.push(entries[i].name.duplicate());
            assert(views(r@) == views(before).push(entries@[i as int].name@));
        }
    }
    assert(entries@.take(entries@.len() as int) == entries@);
    r
}

proof fn lemma_insert_sorted(
    sorted: Seq<Seq<u8>>,
    at: int,
    x: Seq<u8>,
    le: spec_fn(Seq<u8>, Seq<u8>) -> bool,
)
    requires
        total_ordering(le),
        sorted_by(sorted, le),
        0 <= at <= sorted.len(),
        forall|k: int| 0 <= k < at ==> le(#[trigger] sorted[k], x),
        at < sorted.len() ==> le(x, sorted[at]),
    ensures
        sorted_by(sorted.insert(at, x), le),
{
    let r = sorted.insert(at, x);
    assert forall|i: int, j: int| 0 <= i < j < r.len() implies #[trigger] le(r[i], r[j]) by {
        if i < at && j < at {
            assert(le(sorted[i], sorted[j]));
        } else if i < at && j == at {
        } else if i < at {
            assert(le(sorted[i], sorted[j - 1]));
        } else if i == at {
            if j - 1 > at {
                assert(le(sorted[at], sorted[j - 1]));
            }
        } else {
            assert(le(sorted[i - 1], sorted[j - 1]));
        }
    }
}

/// The names in the order of their bytes.
fn sort_names(names: &Vec<OsText>) -> (r: Vec<OsText>)
    ensures
        views(r@) == in_order(views(names@)),
{
    let ghost le = |a: Seq<u8>, b: Seq<u8>| bytes_le(a, b);
    let mut r: Vec<OsText> = Vec::new();
    proof {
        lemma_bytes_le_total_order();
        assert(views(r@) =~= views(names@.take(0)));
    }
    for i in 0..names.len()
        invariant
            le == (|a: Seq<u8>, b: Seq<u8>| bytes_le(a, b)),
            total_ordering(le),
            sorted_by(views(r@), le),
            views(r@).to_multiset() == views(names@.take(i as int)).to_multiset(),
    {
        let name = names[i].duplicate();
        let mut at: usize = r.len();
        while at > 0 && !is_bytes_le(r[at - 1].as_bytes(), name.as_bytes())
            invariant
                at <= r@.len(),
                le == (|a: Seq<u8>, b: Seq<u8>| bytes_le(a, b)),
                total_ordering(le),
                at < r@.len() ==> le(name@, views(r@)[at as int]),
            decreases at,
        {
            at = at - 1;
            assert(views(r@)[at as int] == r@[at as int]@);
            assert(!le(r@[at as int]@, name@));
            assert(le(name@, r@[at as int]@) || le(r@[at as int]@, name@));
        }
        let ghost before = views(r@);
        proof {
            assert forall|k: int| 0 <= k < at implies le(#[trigger] before[k], name@) by {
                assert(le(before[at - 1], name@));
                if k < at - 1 {
                    assert(le(before[k], before[at - 1]));
                }
            }
            lemma_insert_sorted(before, at as int, name@, le);
            to_multiset_insert(before, at as int, name@);
            let seen = views(names@.take(i as int));
            to_multiset_build(seen, name@);
            assert(views(names@.take(i + 1)) =~= seen.push(name@));
        }
        let ghost held = r@;
        let ghost text = name@;
        r.insert(at, name);
        assert(views(r@) =~= views(held).insert(at as int, text));
    }
    proof {
        assert(names@.take(names@.len() as int) == names@);
        let all = views(names@);
        all.lemma_sort_by_ensures(le);
        lemma_sorted_unique(views(r@), in_order(all), le);
    }
    r
}

/// The names of the entries of `dir` other than `keep`.
fn collect_others(names: &Vec<OsText>, dir: &OsText, keep: &OsText) -> (r: Vec<OsText>)
    ensures
        views(r@) == others(views(names@), dir@, keep@),
{
    let mut r: Vec<OsText> = Vec::new();
    assert(views(r@) =~= Seq::<Seq<u8>>::empty());
    for i in 0..names.len()
        invariant
            views(r@) == others(views(names@.take(i as int)), dir@, keep@),
    {
        let ghost before = r@;
        let ghost seen = views(names@.take(i + 1));
        assert(seen.drop_last() == views(names@.take(i as int)));
        if !same_path(&join(dir, names[i].as_bytes()), keep) {
            r.push(names[i].duplicate());
            assert(views(r@) == views(before).push(names@[i as int]@));
        }
    }
    assert(names@.take(names@.len() as int) == names@);
    r
}

/// The paths of the releases to remove from `dir`, the directory with these entries, when
/// `keep` was installed last.
pub fn releases_to_prune(entries: &Vec<DirEntry>, dir: &OsText, keep: &OsText) -> (r: Vec<OsText>)
    ensures
        views(r@) == paths_in(dir@, doomed_names(entry_views(entries@), dir@, keep@)),
{
    let names = collect_dir_names(entries);
    let sorted = sort_names(&names);
    let candidates = collect_others(&sorted, dir, keep);
    let too_many: usize = if names.len() > MAX_RETAINED_RELEASES {
        names.len() - MAX_RETAINED_RELEASES
    } else {
        0
    };
    let count: usize = if too_many < candidates.len() {
        too_many
    } else {
        candidates.len()
    };
    let ghost doomed = doomed_names(entry_views(entries@), dir@, keep@);
    proof {
        assert(dir_names(entry_views(entries@)).len() == names@.len());
        assert(others(in_order(views(names@)), dir@, keep@).len() == candidates@.len());
        assert(doomed =~= views(candidates@).take(count as int));
    }
    let mut r: Vec<OsText> = Vec::new();
    for i in 0..count
        invariant
            count <= candidates@.len(),
            doomed == views(candidates@).take(count as int),
            views(r@) =~= paths_in(dir@, doomed.take(i as int)),
    {
        let ghost before = r@;
        r.push(join(dir, candidates[i].as_bytes()));
        assert(views(r@) =~= views(before).push(joined(dir@, candidates@[i as int]@)));
        assert(doomed[i as int] == candidates@[i as int]@);
        assert(doomed.take(i + 1) =~= doomed.take(i as int).push(doomed[i as int]));
        assert(paths_in(dir@, doomed.take(i + 1)) =~= paths_in(dir@, doomed.take(i as int)).push(
            joined(dir@, doomed[i as int]),
        ));
    }
    assert(doomed.take(count as int) =~= doomed);
    r
}

// ---------------------------------------------------------------------------------------------
// What retention keeps
// ---------------------------------------------------------------------------------------------

/// The order of names.
pub open spec fn name_order() -> spec_fn(Seq<u8>, Seq<u8>) -> bool {
    |a: Seq<u8>, b: Seq<u8>| bytes_le(a, b)
}

/// Whether each of some names can be the name of an entry of a directory.
pub open spec fn all_plain(names: Seq<Seq<u8>>) -> bool {
    forall|i: int| 0 <= i < names.len() ==> plain_name(#[trigger] names[i])
}

proof fn lemma_in_order(names: Seq<Seq<u8>>)
    requires
        names.no_duplicates(),
        all_plain(names),
    ensures
        in_order(names).no_duplicates(),
        all_plain(in_order(names)),
        in_order(names).len() == names.len(),
        sorted_by(in_order(names), name_order()),
        forall|x: Seq<u8>| in_order(names).contains(x) <==> names.contains(x),
{
    let le = |a: Seq<u8>, b: Seq<u8>| bytes_le(a, b);
    let sorted = in_order(names);
    lemma_bytes_le_total_order();
    names.lemma_sort_by_ensures(le);
    names.lemma_multiset_has_no_duplicates();
    sorted.lemma_multiset_has_no_duplicates_conv();
    to_multiset_len(names);
    to_multiset_len(sorted);
    assert forall|x: Seq<u8>| sorted.contains(x) <==> names.contains(x) by {
        to_multiset_contains(names, x);
        to_multiset_contains(sorted, x);
    }
    assert forall|i: int| 0 <= i < sorted.len() implies plain_name(#[trigger] sorted[i]) by {
        assert(sorted.contains(sorted[i]));
        let j = choose|j: int| 0 <= j < names.len() && names[j] == sorted[i];
        assert(plain_name(names[j]));
    }
}

proof fn lemma_others(names: Seq<Seq<u8>>, dir: Seq<u8>, current: Seq<u8>)
    requires
        names.no_duplicates(),
        all_plain(names),
        plain_name(current),
        sorted_by(names, name_order()),
    ensures
        others(names, dir, joined(dir, current)).no_duplicates(),
        sorted_by(others(names, dir, joined(dir, current)), name_order()),
        others(names, dir, joined(dir, current)).len() == names.len() - (if names.contains(
            current,
        ) {
            1int
        } else {
            0int
        }),
        forall|x: Seq<u8>|
            others(names, dir, joined(dir, current)).contains(x) <==> names.contains(x) && x
                != current,
    decreases names.len(),
{
    if names.len() > 0 {
        let front = names.drop_last();
        let last = names.last();
        let keep = joined(dir, current);
        let rest = others(front, dir, keep);
        let all = others(names, dir, keep);
        assert(names == front.push(last));
        assert forall|i: int| 0 <= i < front.len() implies plain_name(#[trigger] front[i]) by {
            assert(plain_name(names[i]));
        }
        assert(plain_name(names[names.len() - 1]));
        lemma_others(front, dir, current);
        lemma_same_entry(dir, last, current);
        assert(!front.contains(last));
        assert forall|x: Seq<u8>| names.contains(x) <==> front.contains(x) || x == last by {
            if front.contains(x) {
                let k = choose|k: int| 0 <= k < front.len() && front[k] == x;
                assert(names[k] == x);
            }
            if x == last {
                assert(names[names.len() - 1] == x);
            }
        }
        if last != current {
            assert(all == rest.push(last));
            assert forall|x: Seq<u8>| all.contains(x) <==> rest.contains(x) || x == last by {
                if rest.contains(x) {
                    let k = choose|k: int| 0 <= k < rest.len() && rest[k] == x;
                    assert(all[k] == x);
                }
                if x == last {
                    assert(all[all.len() - 1] == x);
                }
            }
            assert(!rest.contains(last));
            let le = name_order();
            assert forall|i: int, j: int| 0 <= i < j < all.len() implies #[trigger] le(
                all[i],
                all[j],
            ) by {
                if j < rest.len() {
                    assert(le(rest[i], rest[j]));
                } else {
                    let x = rest[i];
                    assert(rest.contains(x));
                    assert(front.contains(x));
                    let k = choose|k: int| 0 <= k < front.len() && front[k] == x;
                    assert(names[k] == x);
                    assert(le(names[k], names[names.len() - 1]));
                }
            }
        }
    }
}

proof fn lemma_others_plain(names: Seq<Seq<u8>>, dir: Seq<u8>, keep: Seq<u8>)
    requires
        all_plain(names),
    ensures
        all_plain(others(names, dir, keep)),
    decreases names.len(),
{
    if names.len() > 0 {
        let front = names.drop_last();
        assert forall|i: int| 0 <= i < front.len() implies plain_name(#[trigger] front[i]) by {
            assert(front[i] == names[i]);
        }
        assert(plain_name(names[names.len() - 1]));
        lemma_others_plain(front, dir, keep);
    }
}

proof fn lemma_dir_names_plain(entries: Seq<DirEntryView>)
    requires
        plain_entries(entries),
    ensures
        all_plain(dir_names(entries)),
    decreases entries.len(),
{
    if entries.len() > 0 {
        let front = entries.drop_last();
        assert forall|i: int| 0 <= i < front.len() implies plain_name(
            #[trigger] front[i].name,
        ) by {
            assert(front[i] == entries[i]);
        }
        assert(plain_name(entries[entries.len() - 1].name));
        lemma_dir_names_plain(front);
    }
}

/// The releases to remove have names of entries where all entries have such names.
pub proof fn lemma_doomed_names_plain(entries: Seq<DirEntryView>, dir: Seq<u8>, keep: Seq<u8>)
    requires
        plain_entries(entries),
    ensures
        all_plain(doomed_names(entries, dir, keep)),
{
    let names = dir_names(entries);
    let sorted = in_order(names);
    let le = |a: Seq<u8>, b: Seq<u8>| bytes_le(a, b);
    lemma_dir_names_plain(entries);
    lemma_bytes_le_total_order();
    names.lemma_sort_by_ensures(le);
    assert forall|i: int| 0 <= i < sorted.len() implies plain_name(#[trigger] sorted[i]) by {
        to_multiset_contains(names, sorted[i]);
        to_multiset_contains(sorted, sorted[i]);
        assert(sorted.contains(sorted[i]));
        let j = choose|j: int| 0 <= j < names.len() && names[j] == sorted[i];
        assert(plain_name(names[j]));
    }
    lemma_others_plain(sorted, dir, keep);
    let rest = others(sorted, dir, keep);
    let doomed = doomed_names(entries, dir, keep);
    assert forall|i: int| 0 <= i < doomed.len() implies plain_name(#[trigger] doomed[i]) by {
        assert(doomed[i] == rest[i]);
    }
}

/// Pruning removes as many releases as there are too many, so that at most two stay; the release
/// that was installed last is none of them, and neither is anything that is not in the
/// directory; of the other releases, those that stay come after those that go in the order of
/// their names.
pub proof fn retention_is_bounded(entries: Seq<DirEntryView>, dir: Seq<u8>, current: Seq<u8>)
    requires
        dir_names(entries).no_duplicates(),
        all_plain(dir_names(entries)),
        plain_name(current),
    ensures
        doomed_names(entries, dir, joined(dir, current)).len() == surplus(
            dir_names(entries).len(),
        ),
        dir_names(entries).len() - doomed_names(entries, dir, joined(dir, current)).len()
            <= MAX_RETAINED_RELEASES,
        doomed_names(entries, dir, joined(dir, current)).no_duplicates(),
        !doomed_names(entries, dir, joined(dir, current)).contains(current),
        forall|x: Seq<u8>| #[trigger]
            doomed_names(entries, dir, joined(dir, current)).contains(x) ==> dir_names(
                entries,
            ).contains(x),
        forall|x: Seq<u8>, y: Seq<u8>| #[trigger]
            doomed_names(entries, dir, joined(dir, current)).contains(x) && #[trigger] dir_names(
                entries,
            ).contains(y) && !doomed_names(entries, dir, joined(dir, current)).contains(y) && y
                != current ==> bytes_le(x, y),
{
    let names = dir_names(entries);
    let keep = joined(dir, current);
    let sorted = in_order(names);
    lemma_in_order(names);
    lemma_others(sorted, dir, current);
    let rest = others(sorted, dir, keep);
    let doomed = doomed_names(entries, dir, keep);
    let n = doomed.len() as int;
    assert(doomed == rest.take(n));
    assert forall|x: Seq<u8>| doomed.contains(x) implies rest.contains(x) by {
        let k = choose|k: int| 0 <= k < doomed.len() && doomed[k] == x;
        assert(rest[k] == x);
    }
    let le = name_order();
    assert forall|x: Seq<u8>, y: Seq<u8>| #[trigger]
        doomed.contains(x) && #[trigger] names.contains(y) && !doomed.contains(y) && y
            != current implies bytes_le(x, y) by {
        assert(rest.contains(y));
        let i = choose|i: int| 0 <= i < doomed.len() && doomed[i] == x;
        let j = choose|j: int| 0 <= j < rest.len() && rest[j] == y;
        if j < n {
            assert(doomed[j] == y);
        }
        assert(le(rest[i], rest[j]));
    }
}

/// What counts as a release is every directory among the entries, and nothing else.
pub proof fn only_directories_are_releases(entries: Seq<DirEntryView>, name: Seq<u8>)
    ensures
        dir_names(entries).contains(name) <==> exists|i: int|
            0 <= i < entries.len() && (#[trigger] entries[i]).is_dir && entries[i].name == name,
        (forall|i: int| 0 <= i < entries.len() ==> (#[trigger] entries[i]).is_dir) ==> dir_names(
            entries,
        ).len() == entries.len(),
        dir_names(entries).len() <= entries.len(),
    decreases entries.len(),
{
    if entries.len() > 0 {
        let front = entries.drop_last();
        let last = entries.last();
        let rest = dir_names(front);
        let all = dir_names(entries);
        only_directories_are_releases(front, name);
        if rest.contains(name) {
            let k = choose|k: int| 0 <= k < rest.len() && rest[k] == name;
            assert(all[k] == name);
            let i = choose|i: int|
                0 <= i < front.len() && (#[trigger] front[i]).is_dir && front[i].name == name;
            assert(entries[i].is_dir && entries[i].name == name);
        }
        if last.is_dir && last.name == name {
            assert(all[all.len() - 1] == name);
            assert(entries[entries.len() - 1].is_dir);
        }
        if all.contains(name) && !rest.contains(name) {
            let k = choose|k: int| 0 <= k < all.len() && all[k] == name;
            if k < rest.len() {
                assert(rest[k] == name);
            }
            assert(entries[entries.len() - 1].is_dir && entries[entries.len() - 1].name == name);
        }
        if exists|i: int|
            0 <= i < entries.len() && (#[trigger] entries[i]).is_dir && entries[i].name == name {
            let i = choose|i: int|
                0 <= i < entries.len() && (#[trigger] entries[i]).is_dir && entries[i].name
                    == name;
            if i < front.len() {
                assert(front[i].is_dir && front[i].name == name);
            }
        }
        if forall|i: int| 0 <= i < entries.len() ==> (#[trigger] entries[i]).is_dir {
            assert forall|i: int| 0 <= i < front.len() implies (#[trigger] front[i]).is_dir by {
                assert(entries[i].is_dir);
            }
            assert(entries[entries.len() - 1].is_dir);
        }
    }
}

/// Two releases stay: of up to two none goes, and of more all but two, each with the path of its
/// name in the directory.
pub proof fn two_releases_stay(entries: Seq<DirEntryView>, dir: Seq<u8>, current: Seq<u8>)
    requires
        dir_names(entries).no_duplicates(),
        all_plain(dir_names(entries)),
        plain_name(current),
    ensures
        ({
            let names = dir_names(entries);
            let doomed = doomed_names(entries, dir, joined(dir, current));
            &&& names.len() <= 2 ==> doomed.len() == 0
            &&& names.len() > 2 ==> doomed.len() == names.len() - 2
            &&& paths_in(dir, doomed).len() == doomed.len()
            &&& forall|i: int|
                0 <= i < doomed.len() ==> #[trigger] paths_in(dir, doomed)[i] == joined(
                    dir,
                    doomed[i],
                )
        }),
{
    retention_is_bounded(entries, dir, current);
}

} // verus!
