//! What holds of whole installations on a file system that answers truthfully.

use crate::disk::{
    disk_after, file_at, lemma_within_bytes, lemma_within_comparable, lemma_within_transitive,
    link_at, origin, plain_entries, same_at, taken, truthful, with_dir, within, Disk,
};
use crate::failure::in_context;
use crate::installer::{
    after_check, manageable, pruning, state_of, unmanaged, InstallPhaseView, InstallView,
};
use crate::io::{DirEntryView, LinkStateView, OperationView, OutcomeView};
use crate::layout::{layout_of, LayoutView};
use crate::os_text::{lemma_encode_concat, lemma_encode_injective};
use crate::package::{
    answer, check_after, check_goes_on_until_over, check_passes_complete_packages,
    complete_package, executables, on_the_list, CheckPhaseView, PackageCheckView, PackageFiles,
};
use crate::path::{
    joined, joined_text, lemma_ascii_bytes, lemma_entry_of_directory, lemma_named_plain, named,
    parent_of, plain_name, same_place, without_tail, DOT, SEPARATOR,
};
use crate::retention::{dir_names, doomed_names, in_order, lemma_doomed_names_plain, others};
use crate::symlink::{
    lemma_replacing_step, lemma_temp_elsewhere, link_name, over, replacement_goes_on_until_over,
    replacing, temp_link, temp_name, LinkPhaseView, LinkReplacementView,
};
use crate::text::{decimal, lemma_decimal_digits};
use vstd::prelude::*;
use vstd::utf8::*;

verus! {

// ---------------------------------------------------------------------------------------------
// Runs
// ---------------------------------------------------------------------------------------------

/// Whether `outcomes` are what a file system in the state `disk` can answer, one after the other,
/// from `v` on.
pub open spec fn truthful_run(v: InstallView, disk: Disk, outcomes: Seq<OutcomeView>) -> bool
    decreases outcomes.len(),
{
    outcomes.len() > 0 ==> {
        let o = outcomes.first();
        &&& truthful(disk, v.operation(), o)
        &&& truthful_run(v.next(o), disk_after(disk, v.operation(), o), outcomes.drop_first())
    }
}

/// The installation and the file system after the operations from `v` on ended with `outcomes`.
pub open spec fn run_from(v: InstallView, disk: Disk, outcomes: Seq<OutcomeView>) -> (
    InstallView,
    Disk,
)
    decreases outcomes.len(),
{
    if outcomes.len() == 0 {
        (v, disk)
    } else {
        let o = outcomes.first();
        run_from(v.next(o), disk_after(disk, v.operation(), o), outcomes.drop_first())
    }
}

// ---------------------------------------------------------------------------------------------
// Names that differ
// ---------------------------------------------------------------------------------------------

/// An entry with a plain ASCII name, and the link that stands in for it for a while.
proof fn lemma_entry(base: Seq<u8>, name: Seq<char>, pid: nat)
    requires
        is_ascii_chars(name),
        !name.contains('/'),
        name.len() > 0,
        name[0] != '.',
    ensures
        named(joined_text(base, name)) == Some(encode_utf8(name)),
        parent_of(joined_text(base, name)) is Some,
        named(temp_link(joined_text(base, name), pid)) == Some(
            encode_utf8("."@ + name + "."@ + decimal(pid)),
        ),
{
    let link = joined_text(base, name);
    let bytes = encode_utf8(name);
    lemma_ascii_bytes(name);
    assert(bytes[0] == name[0] as u8);
    assert(name[0] as u8 != DOT) by {
        assert(is_ascii_chars(name));
    }
    assert(plain_name(bytes));
    lemma_entry_of_directory(base, bytes);
    encode_utf8_valid_utf8(name);
    encode_utf8_decode_utf8(name);
    assert(link_name(link) == name);
    lemma_temp_elsewhere(link, pid);
}

proof fn lemma_without_tail_shorter(path: Seq<u8>)
    ensures
        without_tail(path).len() <= path.len(),
    decreases path.len(),
{
    if path.len() > 0 {
        lemma_without_tail_shorter(path.drop_last());
    }
}

/// Whether a directory holds none of the places that an installation changes to make a release
/// the current one.
pub open spec fn undisturbed(dir: Seq<u8>, layout: LayoutView, pid: nat) -> bool {
    &&& !within(dir, layout.releases_dir)
    &&& parent_of(layout.current_link) matches Some(above) && !within(dir, above)
    &&& !within(dir, layout.current_link)
    &&& !within(dir, temp_link(layout.current_link, pid))
}

/// Whether a path is that of an entry of the directory of the releases other than the new one.
pub open spec fn old_release(layout: LayoutView, path: Seq<u8>) -> bool {
    path != layout.release_dir && exists|name: Seq<u8>| #[trigger]
        plain_name(name) && path == joined(layout.releases_dir, name)
}

/// Whether the places that an installation changes are apart from each other.
pub open spec fn apart(layout: LayoutView, pid: nat) -> bool {
    &&& parent_of(layout.current_link) is Some
    &&& parent_of(layout.visible_bin) is Some
    &&& temp_link(layout.current_link, pid) != layout.current_link
    &&& temp_link(layout.current_link, pid) != layout.visible_bin
    &&& temp_link(layout.visible_bin, pid) != layout.current_link
    &&& temp_link(layout.visible_bin, pid) != layout.staging_dir
    &&& layout.visible_bin != layout.current_link
    &&& !within(layout.visible_bin, parent_of(layout.visible_bin)->0)
    &&& !within(layout.staging_dir, layout.release_dir)
    &&& !within(layout.release_dir, layout.staging_dir)
    &&& undisturbed(layout.staging_dir, layout, pid)
    &&& undisturbed(layout.release_dir, layout, pid)
    &&& forall|old: Seq<u8>| #[trigger]
        old_release(layout, old) ==> {
            &&& within(layout.releases_dir, old)
            &&& !within(old, layout.current_link)
            &&& !within(old, layout.release_dir)
            &&& !within(layout.release_dir, old)
        }
}

/// Whether a release can have a name: its staging directory is then an entry of the directory of
/// the source installation.
pub open spec fn release_name_ok(name: Seq<char>) -> bool {
    plain_name(encode_utf8(".staging-"@ + name))
}

/// The places of an installation, as bytes: `front` is the directory of the source installation,
/// with a separator at its end.
pub open spec fn shaped(
    layout: LayoutView,
    front: Seq<u8>,
    staging: Seq<u8>,
    name: Seq<u8>,
) -> bool {
    &&& layout.staging_dir == front + staging
    &&& layout.current_link == front + encode_utf8("current"@)
    &&& layout.releases_dir == front + encode_utf8("releases"@)
    &&& layout.release_dir == layout.releases_dir.push(SEPARATOR) + name
    &&& !staging.contains(SEPARATOR)
    &&& !name.contains(SEPARATOR)
    &&& staging.len() > 1 && staging[0] == DOT && staging[1] == 's' as u8
    &&& encode_utf8("current"@).len() == 7 && encode_utf8("current"@)[0] == 'c' as u8
    &&& encode_utf8("releases"@).len() == 8 && encode_utf8("releases"@)[0] == 'r' as u8
    &&& layout.releases_dir.last() != SEPARATOR
    &&& parent_of(layout.current_link) matches Some(above) && above.len() <= front.len()
}

proof fn lemma_shape(source_root: Seq<u8>, bin_dir: Seq<u8>, release_name: Seq<char>)
    requires
        release_name_ok(release_name),
    ensures
        shaped(
            layout_of(source_root, bin_dir, release_name),
            joined(source_root, Seq::empty()),
            encode_utf8(".staging-"@ + release_name),
            encode_utf8(release_name),
        ),
{
    reveal_strlit("current");
    reveal_strlit("releases");
    reveal_strlit(".staging-");
    let layout = layout_of(source_root, bin_dir, release_name);
    let current = "current"@;
    let releases = "releases"@;
    let mark = ".staging-"@;
    assert(current[0] == 'c' && releases[0] == 'r' && releases[7] == 's' && mark[0] == '.'
        && mark[1] == 's');
    assert(!current.contains('/') && !releases.contains('/') && !mark.contains('/'));
    lemma_ascii_bytes(current);
    lemma_ascii_bytes(releases);
    lemma_ascii_bytes(mark);
    lemma_encode_concat(mark, release_name);
    let name = encode_utf8(release_name);
    let staging = encode_utf8(mark + release_name);
    let n = encode_utf8(mark).len() as int;
    assert(encode_utf8(current)[0] == 'c' as u8);
    assert(encode_utf8(releases)[0] == 'r' as u8);
    assert(encode_utf8(releases).last() == 's' as u8);
    assert(encode_utf8(mark)[0] == DOT && encode_utf8(mark)[1] == 's' as u8);
    assert(staging[0] == DOT && staging[1] == 's' as u8);
    assert forall|k: int| 0 <= k < name.len() implies name[k] != SEPARATOR by {
        assert(staging[n + k] == name[k]);
        assert(staging.contains(staging[n + k]));
    }
    let front = joined(source_root, Seq::empty());
    assert(layout.staging_dir =~= front + staging);
    assert(layout.current_link =~= front + encode_utf8(current));
    assert(layout.releases_dir =~= front + encode_utf8(releases));
    assert(layout.releases_dir.last() == encode_utf8(releases).last());
    assert(layout.release_dir =~= layout.releases_dir.push(SEPARATOR) + name);
    lemma_entry_of_directory(source_root, encode_utf8(current));
    lemma_without_tail_shorter(source_root);
}

/// The link that stands in for the link to the current release has no separator in its name.
proof fn lemma_temp_shape(layout: LayoutView, front: Seq<u8>, pid: nat)
    requires
        parent_of(layout.current_link) matches Some(above) && above.len() <= front.len(),
    ensures
        forall|k: int|
            front.len() < k < temp_link(layout.current_link, pid).len() ==> #[trigger] temp_link(
                layout.current_link,
                pid,
            )[k] != SEPARATOR,
{
    let link = layout.current_link;
    let above = parent_of(link)->0;
    let temp = temp_link(link, pid);
    let bytes = encode_utf8(temp_name(link, pid));
    lemma_temp_elsewhere(link, pid);
    lemma_named_plain(temp);
    assert(plain_name(bytes));
    assert(temp == joined(above, bytes));
    assert(bytes.contains(bytes.first()));
    assert forall|k: int| front.len() < k < temp.len() implies #[trigger] temp[k] != SEPARATOR by {
        let n = temp.len() - bytes.len();
        assert(temp[k] == bytes[k - n]);
        assert(bytes.contains(bytes[k - n]));
    }
}

proof fn lemma_undisturbed(
    layout: LayoutView,
    front: Seq<u8>,
    staging: Seq<u8>,
    name: Seq<u8>,
    pid: nat,
)
    requires
        shaped(layout, front, staging, name),
        named(layout.staging_dir) == Some(staging),
        named(temp_link(layout.current_link, pid)) matches Some(temp) && temp.len() > 1 && temp[1]
            == 'c' as u8,
    ensures
        undisturbed(layout.staging_dir, layout, pid),
        undisturbed(layout.release_dir, layout, pid),
        !within(layout.staging_dir, layout.release_dir),
        !within(layout.release_dir, layout.staging_dir),
{
    let at = front.len() as int;
    let temp = temp_link(layout.current_link, pid);
    let above = parent_of(layout.current_link)->0;
    lemma_temp_shape(layout, front, pid);
    assert(layout.staging_dir[at] == DOT);
    assert(layout.releases_dir[at] == 'r' as u8);
    assert(layout.release_dir[at] == 'r' as u8);
    assert(layout.current_link[at] == 'c' as u8);
    assert(layout.release_dir[at + 8] == SEPARATOR);
    assert(layout.release_dir.len() > at + 8);
    if within(layout.staging_dir, layout.releases_dir) {
        lemma_within_bytes(layout.staging_dir, layout.releases_dir);
    }
    if within(layout.staging_dir, above) {
        lemma_within_bytes(layout.staging_dir, above);
    }
    if within(layout.staging_dir, layout.current_link) {
        lemma_within_bytes(layout.staging_dir, layout.current_link);
    }
    if within(layout.staging_dir, temp) {
        lemma_within_bytes(layout.staging_dir, temp);
    }
    if within(layout.staging_dir, layout.release_dir) {
        lemma_within_bytes(layout.staging_dir, layout.release_dir);
    }
    if within(layout.release_dir, layout.releases_dir) {
        lemma_within_bytes(layout.release_dir, layout.releases_dir);
    }
    if within(layout.release_dir, above) {
        lemma_within_bytes(layout.release_dir, above);
    }
    if within(layout.release_dir, layout.current_link) {
        lemma_within_bytes(layout.release_dir, layout.current_link);
    }
    if within(layout.release_dir, temp) {
        lemma_within_bytes(layout.release_dir, temp);
        assert(temp[at + 8] == layout.release_dir[at + 8]);
    }
    if within(layout.release_dir, layout.staging_dir) {
        lemma_within_bytes(layout.release_dir, layout.staging_dir);
    }
}

proof fn lemma_old_release(
    layout: LayoutView,
    front: Seq<u8>,
    staging: Seq<u8>,
    name: Seq<u8>,
    old: Seq<u8>,
)
    requires
        shaped(layout, front, staging, name),
        old_release(layout, old),
    ensures
        within(layout.releases_dir, old),
        !within(old, layout.current_link),
        !within(old, layout.release_dir),
        !within(layout.release_dir, old),
{
    let entry = choose|entry: Seq<u8>| #[trigger]
        plain_name(entry) && old == joined(layout.releases_dir, entry);
    let at = front.len() as int;
    let dir = layout.releases_dir;
    assert(entry.contains(entry.first()));
    assert(old == dir.push(SEPARATOR) + entry);
    assert(old.take(dir.len() as int) =~= dir);
    assert(old[at] == 'r' as u8);
    assert(layout.current_link[at] == 'c' as u8);
    if within(old, layout.current_link) {
        lemma_within_bytes(old, layout.current_link);
    }
    let new = layout.release_dir;
    if within(old, new) {
        lemma_within_bytes(old, new);
        let k = old.len() - dir.len() - 1;
        assert(new[old.len() as int] == name[k]);
        assert(name.contains(name[k]));
    }
    if within(new, old) {
        lemma_within_bytes(new, old);
        let k = new.len() - dir.len() - 1;
        assert(old[new.len() as int] == entry[k]);
        assert(entry.contains(entry[k]));
    }
}

/// The places that an installation changes are apart from each other.
pub proof fn lemma_places_apart(
    source_root: Seq<u8>,
    bin_dir: Seq<u8>,
    release_name: Seq<char>,
    pid: nat,
)
    requires
        release_name_ok(release_name),
    ensures
        apart(layout_of(source_root, bin_dir, release_name), pid),
{
    reveal_strlit("current");
    reveal_strlit("codex");
    reveal_strlit(".");
    let layout = layout_of(source_root, bin_dir, release_name);
    let current = "current"@;
    let codex = "codex"@;
    assert(current[0] == 'c' && codex[0] == 'c' && codex.len() == 5 && current.len() == 7);
    assert(!current.contains('/') && !codex.contains('/'));
    lemma_entry(source_root, current, pid);
    lemma_entry(bin_dir, codex, pid);
    let temp_current = "."@ + current + "."@ + decimal(pid);
    let temp_codex = "."@ + codex + "."@ + decimal(pid);
    assert(temp_current[0] == '.' && temp_current[1] == 'c' && temp_codex[0] == '.');
    if temp_link(layout.current_link, pid) == layout.current_link {
        lemma_encode_injective(temp_current, current);
    }
    if temp_link(layout.current_link, pid) == layout.visible_bin {
        lemma_encode_injective(temp_current, codex);
    }
    if temp_link(layout.visible_bin, pid) == layout.current_link {
        lemma_encode_injective(temp_codex, current);
    }
    if layout.visible_bin == layout.current_link {
        lemma_encode_injective(codex, current);
    }
    lemma_ascii_bytes(codex);
    assert(encode_utf8(codex)[0] == codex[0] as u8);
    lemma_entry_of_directory(bin_dir, encode_utf8(codex));
    lemma_without_tail_shorter(bin_dir);
    let above = parent_of(layout.visible_bin)->0;
    if within(layout.visible_bin, above) {
        lemma_within_bytes(layout.visible_bin, above);
    }
    let front = joined(source_root, Seq::empty());
    let staging = encode_utf8(".staging-"@ + release_name);
    let name = encode_utf8(release_name);
    lemma_shape(source_root, bin_dir, release_name);
    lemma_entry_of_directory(source_root, staging);
    lemma_temp_name_bytes(current, pid);
    lemma_temp_name_bytes(codex, pid);
    lemma_undisturbed(layout, front, staging, name, pid);
    assert forall|old: Seq<u8>| #[trigger] old_release(layout, old) implies {
        &&& within(layout.releases_dir, old)
        &&& !within(old, layout.current_link)
        &&& !within(old, layout.release_dir)
        &&& !within(layout.release_dir, old)
    } by {
        lemma_old_release(layout, front, staging, name, old);
    }
}

proof fn lemma_temp_name_bytes(name: Seq<char>, pid: nat)
    requires
        is_ascii_chars(name),
        name.len() > 0,
    ensures
        encode_utf8("."@ + name + "."@ + decimal(pid)).len() > 1,
        encode_utf8("."@ + name + "."@ + decimal(pid))[1] == name[0] as u8,
{
    reveal_strlit(".");
    lemma_decimal_digits(pid);
    let temp = "."@ + name + "."@ + decimal(pid);
    assert(is_ascii_chars(temp));
    is_ascii_chars_encode_utf8(temp);
    assert(temp[1] == name[0]);
}

// ---------------------------------------------------------------------------------------------
// What is known in each phase
// ---------------------------------------------------------------------------------------------

/// Whether the command that users run leads to the command of the current release.
pub open spec fn command_linked(layout: LayoutView, disk: Disk) -> bool {
    link_at(disk, layout.visible_bin) matches Some(target) && same_place(
        target,
        layout.current_command(),
    )
}

/// Whether the new release is in its place and is the current one.
pub open spec fn release_current(layout: LayoutView, disk: Disk) -> bool {
    &&& link_at(disk, layout.current_link) == Some(layout.release_dir)
    &&& disk.dirs.contains(layout.release_dir)
}

/// Whether a path is outside the staging directory and the new release.
pub open spec fn elsewhere(layout: LayoutView, path: Seq<u8>) -> bool {
    !within(layout.staging_dir, path) && !within(layout.release_dir, path)
}

/// Whether a path is that of the link to the current release, or of a link that stands in for that
/// one or for the command that users run.
pub open spec fn own_link(layout: LayoutView, pid: nat, path: Seq<u8>) -> bool {
    ||| path == layout.current_link
    ||| path == temp_link(layout.current_link, pid)
    ||| path == temp_link(layout.visible_bin, pid)
}

/// Whether what stood at the place of the command that users run, and every other link, file and
/// directory, is as it was before, but for the links of the installation itself and for what is in
/// the staging directory or in the new release.
pub open spec fn kept(layout: LayoutView, pid: nat, before: Disk, disk: Disk) -> bool {
    &&& elsewhere(layout, layout.visible_bin) ==> link_at(disk, layout.visible_bin) == link_at(
        before,
        layout.visible_bin,
    ) && file_at(disk, layout.visible_bin) == file_at(before, layout.visible_bin)
    &&& forall|p: Seq<u8>|
        elsewhere(layout, p) && !own_link(layout, pid, p) ==> #[trigger] link_at(disk, p)
            == link_at(before, p)
    &&& forall|p: Seq<u8>|
        elsewhere(layout, p) && !own_link(layout, pid, p) ==> #[trigger] file_at(disk, p)
            == file_at(before, p)
    &&& forall|d: Seq<u8>|
        before.dirs.contains(d) && elsewhere(layout, d) ==> #[trigger] disk.dirs.contains(d)
}

proof fn lemma_kept_on(layout: LayoutView, pid: nat, before: Disk, disk: Disk, after: Disk)
    requires
        kept(layout, pid, before, disk),
        kept(layout, pid, disk, after),
    ensures
        kept(layout, pid, before, after),
{
    assert forall|p: Seq<u8>|
        elsewhere(layout, p) && !own_link(layout, pid, p) implies #[trigger] link_at(after, p)
        == link_at(before, p) by {
        assert(link_at(disk, p) == link_at(before, p));
    }
    assert forall|p: Seq<u8>|
        elsewhere(layout, p) && !own_link(layout, pid, p) implies #[trigger] file_at(after, p)
        == file_at(before, p) by {
        assert(file_at(disk, p) == file_at(before, p));
    }
    assert forall|d: Seq<u8>|
        before.dirs.contains(d) && elsewhere(layout, d) implies #[trigger] after.dirs.contains(
        d,
    ) by {
        assert(disk.dirs.contains(d));
    }
}

/// Whether the command that users run stands outside the staging directory.
pub open spec fn bin_outside(layout: LayoutView) -> bool {
    parent_of(layout.visible_bin) matches Some(dir) && !within(layout.staging_dir, dir)
}

/// Whether the command that users run stands outside the directory of the releases, so that it
/// does not go with one of them.
pub open spec fn command_safe(layout: LayoutView) -> bool {
    !within(layout.releases_dir, layout.visible_bin)
}

/// Whether each of some paths is that of an old release.
pub open spec fn all_old(layout: LayoutView, paths: Seq<Seq<u8>>) -> bool {
    forall|i: int| 0 <= i < paths.len() ==> old_release(layout, #[trigger] paths[i])
}

/// Whether the command that users run may have been linked to the new release.
pub open spec fn linked(phase: InstallPhaseView) -> bool {
    phase is ListReleases || phase is Prune || phase is Installed
}

/// Whether the package has left the staging directory.
pub open spec fn promoted(phase: InstallPhaseView) -> bool {
    match phase {
        InstallPhaseView::Validate(_) => false,
        InstallPhaseView::TestStaged => false,
        InstallPhaseView::InspectVisible => false,
        InstallPhaseView::MakeReleases => false,
        InstallPhaseView::ReleaseExists => false,
        InstallPhaseView::Promote => false,
        InstallPhaseView::Failed(_) => false,
        _ => true,
    }
}

/// What is known of the link to the current release in each phase of an installation that began
/// on `before`. `broken` tells whether switching back has failed.
pub open spec fn link_known(v: InstallView, disk: Disk, before: Disk, broken: bool) -> bool {
    let layout = v.layout;
    let current = link_at(disk, layout.current_link);
    let prior = link_at(before, layout.current_link);
    match v.phase {
        InstallPhaseView::Validate(_) => disk == before,
        InstallPhaseView::TestStaged => disk == before,
        InstallPhaseView::InspectVisible => disk == before,
        InstallPhaseView::MakeReleases => disk == before,
        InstallPhaseView::ReleaseExists => disk == with_dir(before, layout.releases_dir),
        InstallPhaseView::Promote => disk == with_dir(before, layout.releases_dir),
        InstallPhaseView::ReadCurrent => current == prior && disk.dirs.contains(layout.release_dir),
        InstallPhaseView::Switch(l) => {
            &&& current == prior
            &&& v.previous == prior
            &&& disk.dirs.contains(layout.release_dir)
            &&& replacing(l, disk, layout.current_link, layout.release_dir, v.pid)
        },
        InstallPhaseView::TestInstalled => v.previous == prior && release_current(layout, disk),
        InstallPhaseView::MakeBin => v.previous == prior && release_current(layout, disk),
        InstallPhaseView::InspectBin => v.previous == prior && release_current(layout, disk),
        InstallPhaseView::LinkBin(l) => {
            &&& v.previous == prior
            &&& release_current(layout, disk)
            &&& replacing(l, disk, layout.visible_bin, layout.current_command(), v.pid)
        },
        InstallPhaseView::ListReleases => release_current(layout, disk) && command_linked(
            layout,
            disk,
        ),
        InstallPhaseView::Prune(rest) => {
            &&& release_current(layout, disk)
            &&& command_safe(layout) ==> command_linked(layout, disk)
            &&& all_old(layout, rest)
        },
        InstallPhaseView::Restore(l, _) => {
            &&& current == Some(layout.release_dir)
            &&& prior is Some
            &&& replacing(l, disk, layout.current_link, prior->0, v.pid)
            &&& l.phase is ClearAfter ==> broken
        },
        InstallPhaseView::RemoveLink(_) => prior is None && current == Some(layout.release_dir),
        InstallPhaseView::RemoveRelease(_) => current == prior,
        InstallPhaseView::Installed => {
            &&& release_current(layout, disk)
            &&& command_safe(layout) ==> command_linked(layout, disk)
        },
        InstallPhaseView::RolledBack(_) => current == prior && !disk.dirs.contains(
            layout.release_dir,
        ),
        InstallPhaseView::Failed(_) => current == prior || (broken && current == Some(
            layout.release_dir,
        )),
    }
}

/// What is known of the file system in each phase of an installation that began on `before`.
pub open spec fn known(v: InstallView, disk: Disk, before: Disk, broken: bool) -> bool {
    &&& link_known(v, disk, before, broken)
    &&& !linked(v.phase) ==> kept(v.layout, v.pid, before, disk)
    &&& promoted(v.phase) && bin_outside(v.layout) ==> !disk.dirs.contains(v.layout.staging_dir)
}

/// Whether no file and no link stands where the package is staged.
pub open spec fn no_staged_file(layout: LayoutView, disk: Disk) -> bool {
    !disk.links.contains_key(layout.staging_dir) && !disk.files.contains_key(layout.staging_dir)
}

/// Whether an operation that switches back to the earlier release ended with a failure.
pub open spec fn undo_failure(v: InstallView, outcome: OutcomeView) -> bool {
    match (v.phase, outcome) {
        (InstallPhaseView::Restore(l, _), OutcomeView::Failed { .. }) => l.phase is MakeParent
            || l.phase is MakeLink || l.phase is Swap,
        (InstallPhaseView::RemoveLink(_), OutcomeView::Failed { kind, .. }) => !(kind is NotFound),
        _ => false,
    }
}

/// Whether an operation that switches back to the earlier release failed when the operations from
/// `v` on ended with `outcomes`.
pub open spec fn undo_fails(v: InstallView, outcomes: Seq<OutcomeView>) -> bool
    decreases outcomes.len(),
{
    outcomes.len() > 0 && (undo_failure(v, outcomes.first()) || undo_fails(
        v.next(outcomes.first()),
        outcomes.drop_first(),
    ))
}

/// None of the releases that are removed is the new one.
proof fn lemma_others_differ(names: Seq<Seq<u8>>, dir: Seq<u8>, keep: Seq<u8>)
    ensures
        forall|i: int|
            0 <= i < others(names, dir, keep).len() ==> !same_place(
                joined(dir, #[trigger] others(names, dir, keep)[i]),
                keep,
            ),
    decreases names.len(),
{
    if names.len() > 0 {
        let rest = others(names.drop_last(), dir, keep);
        let all = others(names, dir, keep);
        lemma_others_differ(names.drop_last(), dir, keep);
        assert forall|i: int| 0 <= i < all.len() implies !same_place(
            joined(dir, #[trigger] all[i]),
            keep,
        ) by {
            if i < rest.len() {
                assert(all[i] == rest[i]);
            }
        }
    }
}

proof fn lemma_doomed_are_old(v: InstallView, entries: Seq<DirEntryView>)
    requires
        plain_entries(entries),
    ensures
        all_old(v.layout, v.doomed(entries)),
{
    let dir = v.layout.releases_dir;
    let keep = v.layout.release_dir;
    let sorted = in_order(dir_names(entries));
    lemma_others_differ(sorted, dir, keep);
    lemma_doomed_names_plain(entries, dir, keep);
    let names = doomed_names(entries, dir, keep);
    let paths = v.doomed(entries);
    assert forall|k: int| 0 <= k < paths.len() implies old_release(
        v.layout,
        #[trigger] paths[k],
    ) by {
        assert(paths[k] == joined(dir, names[k]));
        assert(plain_name(names[k]));
        assert(names[k] == others(sorted, dir, keep)[k]);
    }
}

/// The phase in which a release is taken back is known.
proof fn lemma_rollback_known(
    v: InstallView,
    disk: Disk,
    before: Disk,
    broken: bool,
    failure: Seq<Seq<char>>,
)
    requires
        apart(v.layout, v.pid),
        v.previous == link_at(before, v.layout.current_link),
        link_at(disk, v.layout.current_link) == Some(v.layout.release_dir),
    ensures
        link_known(v.to(v.rollback(failure)), disk, before, broken),
        promoted(v.rollback(failure)),
        !linked(v.rollback(failure)),
{
}

proof fn lemma_step_known(
    v: InstallView,
    disk: Disk,
    before: Disk,
    broken: bool,
    outcome: OutcomeView,
)
    requires
        apart(v.layout, v.pid),
        no_staged_file(v.layout, before),
        known(v, disk, before, broken),
        truthful(disk, v.operation(), outcome),
    ensures
        known(
            v.next(outcome),
            disk_after(disk, v.operation(), outcome),
            before,
            broken || undo_failure(v, outcome),
        ),
        v.next(outcome).layout == v.layout,
        v.next(outcome).pid == v.pid,
{
    let after = disk_after(disk, v.operation(), outcome);
    let w = v.next(outcome);
    let layout = v.layout;
    match v.phase {
        InstallPhaseView::Switch(l) => {
            lemma_replacing_step(l, disk, layout.current_link, layout.release_dir, v.pid, outcome);
        },
        InstallPhaseView::LinkBin(l) => {
            lemma_replacing_step(
                l,
                disk,
                layout.visible_bin,
                layout.current_command(),
                v.pid,
                outcome,
            );
            if let LinkPhaseView::NotReplaced(f) = l.next(outcome).phase {
                lemma_rollback_known(v, after, before, broken, f);
            }
        },
        InstallPhaseView::Restore(l, _) => {
            lemma_replacing_step(l, disk, layout.current_link, l.target, v.pid, outcome);
        },
        InstallPhaseView::ListReleases => {
            if let OutcomeView::Entries(entries) = outcome {
                lemma_doomed_are_old(v, entries);
            }
        },
        InstallPhaseView::TestInstalled => {
            if let OutcomeView::Failed { failure, .. } = outcome {
                lemma_rollback_known(v, after, before, broken, failure);
            }
        },
        InstallPhaseView::MakeBin => {
            if let OutcomeView::Failed { failure, .. } = outcome {
                lemma_rollback_known(v, after, before, broken, failure);
            }
        },
        InstallPhaseView::InspectBin => {
            lemma_rollback_known(
                v,
                after,
                before,
                broken,
                unmanaged(layout.visible_bin),
            );
        },
        InstallPhaseView::Prune(rest) => {
            if rest.len() > 0 {
                let old = rest.first();
                assert(old_release(layout, rest[0]));
                let less = rest.drop_first();
                assert forall|k: int| 0 <= k < less.len() implies old_release(
                    layout,
                    #[trigger] less[k],
                ) by {
                    assert(less[k] == rest[k + 1]);
                }
                if within(old, layout.visible_bin) {
                    lemma_within_transitive(layout.releases_dir, old, layout.visible_bin);
                }
            }
        },
        _ => {},
    }
    if !linked(w.phase) {
        assert(kept(layout, v.pid, disk, after));
        lemma_kept_on(layout, v.pid, before, disk, after);
    }
}

proof fn lemma_run_known(
    v: InstallView,
    disk: Disk,
    before: Disk,
    broken: bool,
    outcomes: Seq<OutcomeView>,
)
    requires
        apart(v.layout, v.pid),
        no_staged_file(v.layout, before),
        known(v, disk, before, broken),
        truthful_run(v, disk, outcomes),
    ensures
        known(
            run_from(v, disk, outcomes).0,
            run_from(v, disk, outcomes).1,
            before,
            broken || undo_fails(v, outcomes),
        ),
        run_from(v, disk, outcomes).0.layout == v.layout,
        run_from(v, disk, outcomes).0.pid == v.pid,
    decreases outcomes.len(),
{
    if outcomes.len() > 0 {
        let o = outcomes.first();
        lemma_step_known(v, disk, before, broken, o);
        lemma_run_known(
            v.next(o),
            disk_after(disk, v.operation(), o),
            before,
            broken || undo_failure(v, o),
            outcomes.drop_first(),
        );
    }
}

// ---------------------------------------------------------------------------------------------
// What an installation has nothing to do with
// ---------------------------------------------------------------------------------------------

/// Whether an installation has nothing to do with a path: it is not that of one of its links, and
/// is neither in the staging directory nor among the releases.
pub open spec fn unconcerned(layout: LayoutView, pid: nat, path: Seq<u8>) -> bool {
    &&& elsewhere(layout, path)
    &&& !own_link(layout, pid, path)
    &&& path != layout.visible_bin
    &&& !within(layout.releases_dir, path)
}

/// Whether all that an installation has nothing to do with is as it was before; there may be more
/// directories.
pub open spec fn rest_kept(layout: LayoutView, pid: nat, before: Disk, disk: Disk) -> bool {
    &&& forall|p: Seq<u8>|
        unconcerned(layout, pid, p) ==> #[trigger] link_at(disk, p) == link_at(before, p)
    &&& forall|p: Seq<u8>|
        unconcerned(layout, pid, p) ==> #[trigger] file_at(disk, p) == file_at(before, p)
    &&& forall|p: Seq<u8>|
        unconcerned(layout, pid, p) && before.dirs.contains(p) ==> #[trigger] disk.dirs.contains(p)
}

proof fn lemma_rest_kept_on(layout: LayoutView, pid: nat, before: Disk, disk: Disk, after: Disk)
    requires
        rest_kept(layout, pid, before, disk),
        rest_kept(layout, pid, disk, after),
    ensures
        rest_kept(layout, pid, before, after),
{
    assert forall|p: Seq<u8>| unconcerned(layout, pid, p) implies #[trigger] link_at(after, p)
        == link_at(before, p) by {
        assert(link_at(disk, p) == link_at(before, p));
    }
    assert forall|p: Seq<u8>| unconcerned(layout, pid, p) implies #[trigger] file_at(after, p)
        == file_at(before, p) by {
        assert(file_at(disk, p) == file_at(before, p));
    }
    assert forall|p: Seq<u8>|
        unconcerned(layout, pid, p) && before.dirs.contains(p) implies #[trigger] after
        .dirs.contains(p) by {
        assert(disk.dirs.contains(p));
    }
}

proof fn lemma_step_keeps_rest(
    v: InstallView,
    disk: Disk,
    before: Disk,
    broken: bool,
    outcome: OutcomeView,
)
    requires
        apart(v.layout, v.pid),
        no_staged_file(v.layout, before),
        known(v, disk, before, broken),
        truthful(disk, v.operation(), outcome),
    ensures
        rest_kept(v.layout, v.pid, disk, disk_after(disk, v.operation(), outcome)),
{
    let layout = v.layout;
    let after = disk_after(disk, v.operation(), outcome);
    match v.phase {
        InstallPhaseView::Switch(l) => {
            lemma_replacing_step(l, disk, layout.current_link, layout.release_dir, v.pid, outcome);
        },
        InstallPhaseView::LinkBin(l) => {
            lemma_replacing_step(
                l,
                disk,
                layout.visible_bin,
                layout.current_command(),
                v.pid,
                outcome,
            );
        },
        InstallPhaseView::Restore(l, _) => {
            lemma_replacing_step(l, disk, layout.current_link, l.target, v.pid, outcome);
        },
        InstallPhaseView::Prune(rest) => {
            if rest.len() > 0 {
                let old = rest.first();
                assert(old_release(layout, rest[0]));
                assert forall|p: Seq<u8>| unconcerned(layout, v.pid, p) implies !(
                #[trigger] within(old, p)) by {
                    if within(old, p) {
                        lemma_within_transitive(layout.releases_dir, old, p);
                    }
                }
            }
        },
        _ => {},
    }
}

proof fn lemma_run_keeps_rest(
    v: InstallView,
    disk: Disk,
    before: Disk,
    broken: bool,
    outcomes: Seq<OutcomeView>,
)
    requires
        apart(v.layout, v.pid),
        no_staged_file(v.layout, before),
        known(v, disk, before, broken),
        truthful_run(v, disk, outcomes),
        rest_kept(v.layout, v.pid, before, disk),
    ensures
        rest_kept(v.layout, v.pid, before, run_from(v, disk, outcomes).1),
    decreases outcomes.len(),
{
    if outcomes.len() > 0 {
        let o = outcomes.first();
        let after = disk_after(disk, v.operation(), o);
        lemma_step_known(v, disk, before, broken, o);
        lemma_step_keeps_rest(v, disk, before, broken, o);
        lemma_rest_kept_on(v.layout, v.pid, before, disk, after);
        lemma_run_keeps_rest(
            v.next(o),
            after,
            before,
            broken || undo_failure(v, o),
            outcomes.drop_first(),
        );
    }
}

// ---------------------------------------------------------------------------------------------
// What becomes of the package
// ---------------------------------------------------------------------------------------------

/// How often the staging directory was moved to the place of the release when the operations from
/// `v` on ended with `outcomes`.
pub open spec fn promotions(v: InstallView, outcomes: Seq<OutcomeView>) -> nat
    decreases outcomes.len(),
{
    if outcomes.len() == 0 {
        0
    } else {
        let o = outcomes.first();
        let moved: nat = if v.operation() == Some(promotion(v.layout)) && o is Done {
            1
        } else {
            0
        };
        moved + promotions(v.next(o), outcomes.drop_first())
    }
}

/// The operation that makes a release of the staged package.
pub open spec fn promotion(layout: LayoutView) -> OperationView {
    OperationView::Rename { from: layout.staging_dir, to: layout.release_dir }
}

proof fn lemma_promotion(v: InstallView)
    requires
        apart(v.layout, v.pid),
        on_its_links(v),
    ensures
        v.operation() == Some(promotion(v.layout)) <==> v.phase is Promote,
{
    assert(!within(v.layout.release_dir, v.layout.current_link));
}

/// Whether the links that an installation replaces are its own.
pub open spec fn on_its_links(v: InstallView) -> bool {
    match v.phase {
        InstallPhaseView::Switch(l) => l.link == v.layout.current_link,
        InstallPhaseView::LinkBin(l) => l.link == v.layout.visible_bin && l.pid == v.pid,
        InstallPhaseView::Restore(l, _) => l.link == v.layout.current_link,
        _ => true,
    }
}

proof fn lemma_promotions(v: InstallView, outcomes: Seq<OutcomeView>)
    requires
        apart(v.layout, v.pid),
        on_its_links(v),
    ensures
        promotions(v, outcomes) <= 1,
        promoted(v.phase) || v.phase is Failed ==> promotions(v, outcomes) == 0,
        !promoted(v.phase) && promoted(run_phase(v, outcomes)) ==> promotions(v, outcomes) == 1,
    decreases outcomes.len(),
{
    if outcomes.len() > 0 {
        lemma_promotion(v);
        lemma_promotions(v.next(outcomes.first()), outcomes.drop_first());
    }
}

/// The phase after the operations from `v` on ended with `outcomes`.
pub open spec fn run_phase(v: InstallView, outcomes: Seq<OutcomeView>) -> InstallPhaseView
    decreases outcomes.len(),
{
    if outcomes.len() == 0 {
        v.phase
    } else {
        run_phase(v.next(outcomes.first()), outcomes.drop_first())
    }
}

proof fn lemma_run_phase(v: InstallView, disk: Disk, outcomes: Seq<OutcomeView>)
    ensures
        run_phase(v, outcomes) == run_from(v, disk, outcomes).0.phase,
    decreases outcomes.len(),
{
    if outcomes.len() > 0 {
        let o = outcomes.first();
        lemma_run_phase(v.next(o), disk_after(disk, v.operation(), o), outcomes.drop_first());
    }
}

/// Whether every link, file and directory is as it was before; there may be more directories.
pub open spec fn untouched(before: Disk, disk: Disk) -> bool {
    &&& disk.links == before.links
    &&& disk.files == before.files
    &&& forall|d: Seq<u8>| before.dirs.contains(d) ==> #[trigger] disk.dirs.contains(d)
}

proof fn lemma_unpromoted(v: InstallView, before: Disk, disk: Disk, outcomes: Seq<OutcomeView>)
    requires
        !promoted(v.phase),
        untouched(before, disk),
        promotions(v, outcomes) == 0,
    ensures
        untouched(before, run_from(v, disk, outcomes).1),
    decreases outcomes.len(),
{
    if outcomes.len() > 0 {
        let o = outcomes.first();
        let w = v.next(o);
        let after = disk_after(disk, v.operation(), o);
        assert(!promoted(w.phase));
        lemma_unpromoted(w, before, after, outcomes.drop_first());
    }
}

/// Whether an operation leaves all that is in a directory alone.
pub open spec fn spares(disk: Disk, op: OperationView, dir: Seq<u8>) -> bool {
    match op {
        OperationView::CreateDirAll(path) => !within(dir, path),
        OperationView::Symlink { link, .. } => !within(dir, link),
        OperationView::Rename { from, to } => disk.links.contains_key(from) && !within(dir, from)
            && !within(dir, to),
        OperationView::RemoveFile(path) => !within(dir, path),
        OperationView::RemoveDirAll(path) => !within(dir, path) && !within(path, dir),
        _ => true,
    }
}

proof fn lemma_spared(disk: Disk, op: OperationView, outcome: OutcomeView, dir: Seq<u8>)
    requires
        spares(disk, op, dir),
    ensures
        forall|p: Seq<u8>| #[trigger]
            within(dir, p) ==> same_at(disk_after(disk, Some(op), outcome), p, disk, p),
{
    let after = disk_after(disk, Some(op), outcome);
    assert forall|p: Seq<u8>| #[trigger] within(dir, p) implies same_at(after, p, disk, p) by {
        match op {
            OperationView::CreateDirAll(path) => {
                if within(p, path) {
                    lemma_within_transitive(dir, p, path);
                }
            },
            OperationView::RemoveDirAll(path) => {
                if within(path, p) {
                    lemma_within_comparable(path, dir, p);
                }
            },
            _ => {},
        }
    }
}

/// Whether a directory holds none of the places that an installation changes for the command that
/// users run.
pub open spec fn command_outside(layout: LayoutView, pid: nat, dir: Seq<u8>) -> bool {
    &&& parent_of(layout.visible_bin) matches Some(above) && !within(dir, above)
    &&& !within(dir, layout.visible_bin)
    &&& !within(dir, temp_link(layout.visible_bin, pid))
}

/// Whether an installation has not been given up.
pub open spec fn going_well(phase: InstallPhaseView) -> bool {
    match phase {
        InstallPhaseView::Restore(..) => false,
        InstallPhaseView::RemoveLink(_) => false,
        InstallPhaseView::RemoveRelease(_) => false,
        InstallPhaseView::RolledBack(_) => false,
        InstallPhaseView::Failed(_) => false,
        _ => true,
    }
}

/// Whether the new release holds what the staging directory held.
pub open spec fn holds_package(layout: LayoutView, before: Disk, disk: Disk) -> bool {
    forall|p: Seq<u8>| #[trigger]
        within(layout.release_dir, p) ==> same_at(
            disk,
            p,
            before,
            origin(layout.staging_dir, layout.release_dir, p),
        )
}

/// Whether the package that was staged is where it has come to: in the staging directory, or in
/// the new release.
pub open spec fn carried(v: InstallView, before: Disk, disk: Disk) -> bool {
    going_well(v.phase) ==> if promoted(v.phase) {
        holds_package(v.layout, before, disk)
    } else {
        forall|p: Seq<u8>| #[trigger]
            within(v.layout.staging_dir, p) ==> same_at(disk, p, before, p)
    }
}

proof fn lemma_origin_within(from: Seq<u8>, to: Seq<u8>, path: Seq<u8>)
    requires
        within(to, path),
    ensures
        within(from, origin(from, to, path)),
{
    let start = origin(from, to, path);
    let rest = path.skip(to.len() as int);
    assert(start.take(from.len() as int) =~= from);
    if path.len() > to.len() {
        assert(start[from.len() as int] == rest[0]);
    } else {
        assert(start =~= from);
    }
}

proof fn lemma_step_carried(
    v: InstallView,
    disk: Disk,
    before: Disk,
    broken: bool,
    outcome: OutcomeView,
)
    requires
        apart(v.layout, v.pid),
        no_staged_file(v.layout, before),
        command_outside(v.layout, v.pid, v.layout.release_dir),
        known(v, disk, before, broken),
        truthful(disk, v.operation(), outcome),
        carried(v, before, disk),
    ensures
        carried(v.next(outcome), before, disk_after(disk, v.operation(), outcome)),
{
    let layout = v.layout;
    let after = disk_after(disk, v.operation(), outcome);
    let op = v.operation()->0;
    if v.phase is Promote {
        if outcome is Done {
            assert forall|p: Seq<u8>| #[trigger] within(layout.release_dir, p) implies same_at(
                after,
                p,
                before,
                origin(layout.staging_dir, layout.release_dir, p),
            ) by {
                let start = origin(layout.staging_dir, layout.release_dir, p);
                lemma_origin_within(layout.staging_dir, layout.release_dir, p);
                assert(same_at(disk, start, before, start));
                assert(same_at(after, p, disk, start));
            }
        }
    } else if going_well(v.phase) && promoted(v.phase) && v.operation() is Some {
        match v.phase {
            InstallPhaseView::Prune(rest) => {
                assert(old_release(layout, rest[0]));
            },
            _ => {},
        }
        assert(spares(disk, op, layout.release_dir));
        lemma_spared(disk, op, outcome, layout.release_dir);
    } else if going_well(v.phase) && v.operation() is Some {
        assert(spares(disk, op, layout.staging_dir));
        lemma_spared(disk, op, outcome, layout.staging_dir);
    }
}

proof fn lemma_run_carried(
    v: InstallView,
    disk: Disk,
    before: Disk,
    broken: bool,
    outcomes: Seq<OutcomeView>,
)
    requires
        apart(v.layout, v.pid),
        no_staged_file(v.layout, before),
        command_outside(v.layout, v.pid, v.layout.release_dir),
        known(v, disk, before, broken),
        truthful_run(v, disk, outcomes),
        carried(v, before, disk),
    ensures
        carried(run_from(v, disk, outcomes).0, before, run_from(v, disk, outcomes).1),
    decreases outcomes.len(),
{
    if outcomes.len() > 0 {
        let o = outcomes.first();
        lemma_step_known(v, disk, before, broken, o);
        lemma_step_carried(v, disk, before, broken, o);
        lemma_run_carried(
            v.next(o),
            disk_after(disk, v.operation(), o),
            before,
            broken || undo_failure(v, o),
            outcomes.drop_first(),
        );
    }
}

// ---------------------------------------------------------------------------------------------
// Laws
// ---------------------------------------------------------------------------------------------

/// The current release changes in one step: at every moment the link to it leads to the release
/// that was current before, or is missing as it was before, or leads to the new release.
///
/// When the installation has succeeded, the new release is in its place and is the current one;
/// the command that users run leads to it, unless the command stands among the releases; and the
/// staging directory is gone, unless the command stands in there. When it was rolled back, the
/// release that was current before is the current one again, and the new one is gone. When it
/// failed in another way, the release that was current before is the current one, unless switching
/// back to it failed. Whenever it did not succeed, what stood at the place of the command that
/// users run is still there, and so is everything else, but for the links of the installation
/// itself, outside the staging directory and the new release. When it failed before the package left the staging directory, everything that was
/// there is as it was. At every moment, what is outside the staging directory and the releases,
/// and is none of the links, is as it was.
pub proof fn installation_switches_or_rolls_back(
    source_root: Seq<u8>,
    bin_dir: Seq<u8>,
    release_name: Seq<char>,
    target: Seq<char>,
    pid: nat,
    disk: Disk,
    outcomes: Seq<OutcomeView>,
)
    requires
        release_name_ok(release_name),
        no_staged_file(layout_of(source_root, bin_dir, release_name), disk),
        truthful_run(
            InstallView::start(layout_of(source_root, bin_dir, release_name), target, pid),
            disk,
            outcomes,
        ),
    ensures
        ({
            let layout = layout_of(source_root, bin_dir, release_name);
            let start = InstallView::start(layout, target, pid);
            let (v, after) = run_from(start, disk, outcomes);
            let current = link_at(after, layout.current_link);
            let prior = link_at(disk, layout.current_link);
            &&& current == prior || current == Some(layout.release_dir)
            &&& v.phase is Installed ==> {
                &&& release_current(layout, after)
                &&& command_safe(layout) ==> command_linked(layout, after)
                &&& bin_outside(layout) ==> !after.dirs.contains(layout.staging_dir)
            }
            &&& v.phase is RolledBack ==> current == prior && !after.dirs.contains(
                layout.release_dir,
            )
            &&& v.phase is Failed && current != prior ==> undo_fails(start, outcomes)
            &&& v.phase is RolledBack || v.phase is Failed ==> kept(layout, pid, disk, after)
            &&& v.phase is Failed && promotions(start, outcomes) == 0 ==> untouched(disk, after)
            &&& rest_kept(layout, pid, disk, after)
        }),
{
    lemma_places_apart(source_root, bin_dir, release_name, pid);
    let layout = layout_of(source_root, bin_dir, release_name);
    let start = InstallView::start(layout, target, pid);
    lemma_run_known(start, disk, disk, false, outcomes);
    lemma_run_keeps_rest(start, disk, disk, false, outcomes);
    lemma_promotions(start, outcomes);
    if promotions(start, outcomes) == 0 {
        lemma_unpromoted(start, disk, disk, outcomes);
    }
}

/// An installed release holds what was staged: the staging directory was moved to its place, once,
/// and since then nothing in it has been changed, added or removed.
pub proof fn installed_releases_hold_the_package(
    source_root: Seq<u8>,
    bin_dir: Seq<u8>,
    release_name: Seq<char>,
    target: Seq<char>,
    pid: nat,
    disk: Disk,
    outcomes: Seq<OutcomeView>,
)
    requires
        release_name_ok(release_name),
        ({
            let layout = layout_of(source_root, bin_dir, release_name);
            let start = InstallView::start(layout, target, pid);
            &&& no_staged_file(layout, disk)
            &&& command_outside(layout, pid, layout.release_dir)
            &&& truthful_run(start, disk, outcomes)
            &&& run_from(start, disk, outcomes).0.phase is Installed
        }),
    ensures
        ({
            let layout = layout_of(source_root, bin_dir, release_name);
            let start = InstallView::start(layout, target, pid);
            &&& promotions(start, outcomes) == 1
            &&& holds_package(layout, disk, run_from(start, disk, outcomes).1)
        }),
{
    lemma_places_apart(source_root, bin_dir, release_name, pid);
    let layout = layout_of(source_root, bin_dir, release_name);
    let start = InstallView::start(layout, target, pid);
    lemma_run_phase(start, disk, outcomes);
    lemma_promotions(start, outcomes);
    lemma_run_known(start, disk, disk, false, outcomes);
    lemma_run_carried(start, disk, disk, false, outcomes);
}

/// Whether an operation only looks at things.
pub open spec fn only_looks(op: OperationView) -> bool {
    match op {
        OperationView::ReadFile(_) => true,
        OperationView::InspectFile(_) => true,
        OperationView::InspectLink(_) => true,
        OperationView::SmokeTest(_) => true,
        _ => false,
    }
}

/// The check of a package after its operations ended with `outcomes`.
pub open spec fn check_run(c: PackageCheckView, outcomes: Seq<OutcomeView>) -> PackageCheckView
    decreases outcomes.len(),
{
    if outcomes.len() == 0 {
        c
    } else {
        check_run(c.next(outcomes.first()), outcomes.drop_first())
    }
}

proof fn lemma_rejected_stays(c: PackageCheckView, outcomes: Seq<OutcomeView>)
    requires
        c.phase is Passed || c.phase is Rejected,
    ensures
        check_run(c, outcomes) == c,
    decreases outcomes.len(),
{
    if outcomes.len() > 0 {
        lemma_rejected_stays(c.next(outcomes.first()), outcomes.drop_first());
    }
}

proof fn lemma_failed_stays(v: InstallView, disk: Disk, outcomes: Seq<OutcomeView>)
    requires
        v.phase is Failed,
    ensures
        run_from(v, disk, outcomes) == (v, disk),
    decreases outcomes.len(),
{
    if outcomes.len() > 0 {
        lemma_failed_stays(v, disk, outcomes.drop_first());
    }
}

/// A package that is not complete, or not made for the target, is never installed: as long as its
/// check has not passed, nothing has been changed, and once the check has rejected it the
/// installation is over.
pub proof fn rejected_packages_change_nothing(
    v: InstallView,
    check: PackageCheckView,
    disk: Disk,
    outcomes: Seq<OutcomeView>,
)
    requires
        v.phase == InstallPhaseView::Validate(check),
        !(check.phase is Passed),
        !(check.phase is Rejected),
        !(check_run(check, outcomes).phase is Passed),
    ensures
        run_from(v, disk, outcomes).1 == disk,
        match check_run(check, outcomes).phase {
            CheckPhaseView::Rejected(f) => run_from(v, disk, outcomes).0.phase
                == InstallPhaseView::Failed(f),
            _ => run_from(v, disk, outcomes).0.phase == InstallPhaseView::Validate(
                check_run(check, outcomes),
            ),
        },
    decreases outcomes.len(),
{
    if outcomes.len() > 0 {
        let o = outcomes.first();
        let rest = outcomes.drop_first();
        let c = check.next(o);
        assert(disk_after(disk, v.operation(), o) == disk);
        if c.phase is Rejected || c.phase is Passed {
            lemma_rejected_stays(c, rest);
            lemma_failed_stays(v.next(o), disk, rest);
        } else {
            rejected_packages_change_nothing(v.next(o), c, disk, rest);
        }
    }
}

/// Before the staged package has been checked and tried out, and the place of the command that
/// users run has been looked at, an installation only looks at things; where one of these goes
/// against it, it ends.
pub proof fn preparations_only_look(v: InstallView, outcome: OutcomeView)
    requires
        v.phase is Validate || v.phase is TestStaged || v.phase is InspectVisible,
    ensures
        v.operation() matches Some(op) ==> only_looks(op),
        v.next(outcome).phase is Validate ==> v.phase is Validate,
        v.next(outcome).phase is TestStaged && v.phase is Validate ==> v.phase->Validate_0.next(
            outcome,
        ).phase is Passed,
        v.next(outcome).phase is InspectVisible && v.phase is TestStaged ==> outcome is Done,
        v.next(outcome).phase is MakeReleases ==> v.phase is InspectVisible && (state_of(
            outcome,
        ) matches Some(state) && manageable(state, v.layout.current_command())),
        v.next(outcome).phase is Validate || v.next(outcome).phase is TestStaged || v.next(
            outcome,
        ).phase is InspectVisible || v.next(outcome).phase is MakeReleases || v.next(
            outcome,
        ).phase is Failed,
{
}

// ---------------------------------------------------------------------------------------------
// Success
// ---------------------------------------------------------------------------------------------

/// What an installation meets besides links and directories: the files of the staged package, and
/// the entries of the directory of the releases.
pub struct Surroundings {
    pub files: PackageFiles,
    pub releases: Seq<DirEntryView>,
}

/// What is answered where nothing goes wrong: looking gives what is there, and all else is done.
pub open spec fn fair_answer(s: Surroundings, disk: Disk, op: OperationView) -> OutcomeView {
    match op {
        OperationView::ReadFile(_) => answer(s.files, op),
        OperationView::InspectFile(_) => answer(s.files, op),
        OperationView::InspectLink(path) => OutcomeView::Link(
            match link_at(disk, path) {
                Some(target) => LinkStateView::Link(target),
                None => if taken(disk, path) {
                    LinkStateView::Other
                } else {
                    LinkStateView::Absent
                },
            },
        ),
        OperationView::Exists(path) => OutcomeView::Flag(disk.dirs.contains(path)),
        OperationView::ListReadable(_) => OutcomeView::Entries(s.releases),
        _ => OutcomeView::Done,
    }
}

/// The installation and the file system after `n` more operations were answered so.
pub open spec fn fair_run(s: Surroundings, v: InstallView, disk: Disk, n: nat) -> (
    InstallView,
    Disk,
)
    decreases n,
{
    match v.operation() {
        Some(op) if n > 0 => {
            let o = fair_answer(s, disk, op);
            fair_run(s, v.next(o), disk_after(disk, Some(op), o), (n - 1) as nat)
        },
        _ => (v, disk),
    }
}

/// Whether an installation comes to be complete where nothing goes wrong.
pub open spec fn completes(s: Surroundings, v: InstallView, disk: Disk) -> bool {
    exists|n: nat| (#[trigger] fair_run(s, v, disk, n)).0.phase is Installed
}

proof fn lemma_completes_step(s: Surroundings, v: InstallView, disk: Disk)
    requires
        v.operation() matches Some(op) && completes(
            s,
            v.next(fair_answer(s, disk, op)),
            disk_after(disk, Some(op), fair_answer(s, disk, op)),
        ),
    ensures
        completes(s, v, disk),
{
    let op = v.operation()->0;
    let o = fair_answer(s, disk, op);
    let w = v.next(o);
    let after = disk_after(disk, Some(op), o);
    let n = choose|n: nat| (#[trigger] fair_run(s, w, after, n)).0.phase is Installed;
    assert(fair_run(s, v, disk, n + 1) == fair_run(s, w, after, n));
}

/// Whether a path is in one of some directories.
pub open spec fn within_one(dirs: Seq<Seq<u8>>, path: Seq<u8>) -> bool {
    exists|k: int| 0 <= k < dirs.len() && within(#[trigger] dirs[k], path)
}

/// Once it is known which releases are too many, each of them is removed where nothing goes wrong,
/// with all that is in it, and nothing else is changed.
pub proof fn old_releases_are_removed(
    s: Surroundings,
    v: InstallView,
    disk: Disk,
    rest: Seq<Seq<u8>>,
)
    requires
        v.phase == pruning(rest),
    ensures
        fair_run(s, v, disk, rest.len()).0.phase is Installed,
        forall|p: Seq<u8>| #[trigger]
            within_one(rest, p) ==> !taken(fair_run(s, v, disk, rest.len()).1, p),
        forall|p: Seq<u8>|
            !(#[trigger] within_one(rest, p)) ==> same_at(
                fair_run(s, v, disk, rest.len()).1,
                p,
                disk,
                p,
            ),
    decreases rest.len(),
{
    let end = fair_run(s, v, disk, rest.len()).1;
    if rest.len() > 0 {
        let op = OperationView::RemoveDirAll(rest.first());
        assert(v.operation() == Some(op));
        let after = disk_after(disk, Some(op), OutcomeView::Done);
        let less = rest.drop_first();
        old_releases_are_removed(s, v.next(OutcomeView::Done), after, less);
        assert(fair_run(s, v, disk, rest.len()) == fair_run(
            s,
            v.next(OutcomeView::Done),
            after,
            less.len(),
        ));
        assert forall|p: Seq<u8>| #[trigger]
            within_one(rest, p) <==> within(rest.first(), p) || within_one(less, p) by {
            if within_one(rest, p) {
                let k = choose|k: int| 0 <= k < rest.len() && within(#[trigger] rest[k], p);
                if k > 0 {
                    assert(less[k - 1] == rest[k]);
                }
            }
            if within_one(less, p) {
                let k = choose|k: int| 0 <= k < less.len() && within(#[trigger] less[k], p);
                assert(rest[k + 1] == less[k]);
            }
            assert(rest[0] == rest.first());
        }
        assert forall|p: Seq<u8>| #[trigger] within_one(rest, p) implies !taken(end, p) by {
            if !within_one(less, p) {
                assert(!taken(after, p));
            }
        }
    }
}

proof fn lemma_pruning_completes(
    s: Surroundings,
    v: InstallView,
    disk: Disk,
    rest: Seq<Seq<u8>>,
)
    requires
        v.phase == pruning(rest),
    ensures
        completes(s, v, disk),
{
    old_releases_are_removed(s, v, disk, rest);
}

proof fn lemma_list_completes(s: Surroundings, v: InstallView, disk: Disk)
    requires
        v.phase is ListReleases,
    ensures
        completes(s, v, disk),
{
    lemma_pruning_completes(
        s,
        v.next(OutcomeView::Entries(s.releases)),
        disk,
        v.doomed(s.releases),
    );
    lemma_completes_step(s, v, disk);
}

proof fn lemma_link_bin_completes(s: Surroundings, v: InstallView, disk: Disk)
    requires
        v.phase matches InstallPhaseView::LinkBin(l) && parent_of(l.link) is Some && !over(l)
            && !(l.phase is ClearAfter),
    ensures
        completes(s, v, disk),
    decreases
            (match v.phase->LinkBin_0.phase {
                LinkPhaseView::MakeParent => 4int,
                LinkPhaseView::ClearTemp => 3,
                LinkPhaseView::MakeLink => 2,
                _ => 1,
            }),
{
    let l = v.phase->LinkBin_0;
    let op = v.operation()->0;
    assert(v.operation() is Some);
    let w = v.next(OutcomeView::Done);
    let after = disk_after(disk, Some(op), OutcomeView::Done);
    if l.phase is Swap {
        assert(w.phase is ListReleases);
        lemma_list_completes(s, w, after);
    } else {
        lemma_link_bin_completes(s, w, after);
    }
    lemma_completes_step(s, v, disk);
}

/// The place of the command that users run is free, or the command is managed already.
pub open spec fn command_manageable(layout: LayoutView, disk: Disk) -> bool {
    match link_at(disk, layout.visible_bin) {
        Some(target) => same_place(target, layout.current_command()),
        None => !taken(disk, layout.visible_bin),
    }
}

/// Whether the place of the command that users run is not on the way to the releases or to the
/// link to the current one, and not in the new release.
pub open spec fn command_aside(layout: LayoutView) -> bool {
    &&& !within(layout.visible_bin, layout.releases_dir)
    &&& parent_of(layout.current_link) matches Some(above) && !within(layout.visible_bin, above)
    &&& !within(layout.release_dir, layout.visible_bin)
}

proof fn lemma_tested_completes(s: Surroundings, v: InstallView, disk: Disk)
    requires
        v.phase is TestInstalled,
        apart(v.layout, v.pid),
        command_manageable(v.layout, disk),
    ensures
        completes(s, v, disk),
{
    let done = OutcomeView::Done;
    let make = v.next(done);
    assert(make.phase is MakeBin);
    let dir = parent_of(v.layout.visible_bin)->0;
    let made = disk_after(disk, Some(OperationView::CreateDirAll(dir)), done);
    let inspect = make.next(done);
    assert(inspect.phase is InspectBin);
    assert(same_at(made, v.layout.visible_bin, disk, v.layout.visible_bin));
    let op = OperationView::InspectLink(v.layout.visible_bin);
    let w = inspect.next(fair_answer(s, made, op));
    if link_at(disk, v.layout.visible_bin) is Some {
        assert(w.phase is ListReleases);
        lemma_list_completes(s, w, made);
    } else {
        assert(w.phase is LinkBin);
        lemma_link_bin_completes(s, w, made);
    }
    lemma_completes_step(s, inspect, made);
    lemma_completes_step(s, make, disk);
    lemma_completes_step(s, v, disk);
}

proof fn lemma_switch_completes(s: Surroundings, v: InstallView, disk: Disk)
    requires
        v.phase matches InstallPhaseView::Switch(l) && l.link == v.layout.current_link && l.pid
            == v.pid && !over(l) && !(l.phase is ClearAfter) && (l.phase is Swap
            ==> disk.links.contains_key(l.temp())),
        apart(v.layout, v.pid),
        command_aside(v.layout),
        command_manageable(v.layout, disk),
    ensures
        completes(s, v, disk),
    decreases
            (match v.phase->Switch_0.phase {
                LinkPhaseView::MakeParent => 4int,
                LinkPhaseView::ClearTemp => 3,
                LinkPhaseView::MakeLink => 2,
                _ => 1,
            }),
{
    let l = v.phase->Switch_0;
    let op = v.operation()->0;
    assert(v.operation() is Some);
    let w = v.next(OutcomeView::Done);
    let after = disk_after(disk, Some(op), OutcomeView::Done);
    assert(same_at(after, v.layout.visible_bin, disk, v.layout.visible_bin));
    if l.phase is Swap {
        assert(w.phase is TestInstalled);
        lemma_tested_completes(s, w, after);
    } else {
        lemma_switch_completes(s, w, after);
    }
    lemma_completes_step(s, v, disk);
}

proof fn lemma_staged_completes(s: Surroundings, v: InstallView, disk: Disk)
    requires
        v.phase is TestStaged,
        apart(v.layout, v.pid),
        command_manageable(v.layout, disk),
        !disk.dirs.contains(v.layout.release_dir),
        no_staged_file(v.layout, disk),
        command_aside(v.layout),
        v.layout.releases_dir != v.layout.release_dir,
    ensures
        completes(s, v, disk),
{
    let done = OutcomeView::Done;
    let layout = v.layout;
    let inspect = v.next(done);
    assert(inspect.phase is InspectVisible);
    let look = OperationView::InspectLink(layout.visible_bin);
    let make = inspect.next(fair_answer(s, disk, look));
    assert(make.phase is MakeReleases);
    let made = disk_after(disk, Some(OperationView::CreateDirAll(layout.releases_dir)), done);
    let exists_op = OperationView::Exists(layout.release_dir);
    let seek = make.next(done);
    assert(seek.phase is ReleaseExists);
    let promote = seek.next(fair_answer(s, made, exists_op));
    assert(promote.phase is Promote);
    let rename = OperationView::Rename { from: layout.staging_dir, to: layout.release_dir };
    let promoted = disk_after(made, Some(rename), done);
    let read = promote.next(done);
    assert(read.phase is ReadCurrent);
    let current = OperationView::InspectLink(layout.current_link);
    let switch = read.next(fair_answer(s, promoted, current));
    assert(switch.phase is Switch);
    assert(same_at(made, layout.visible_bin, disk, layout.visible_bin));
    assert(command_manageable(layout, promoted));
    lemma_switch_completes(s, switch, promoted);
    lemma_completes_step(s, read, promoted);
    lemma_completes_step(s, promote, made);
    lemma_completes_step(s, seek, made);
    lemma_completes_step(s, make, disk);
    lemma_completes_step(s, inspect, disk);
    lemma_completes_step(s, v, disk);
}

proof fn lemma_check_completes(
    s: Surroundings,
    v: InstallView,
    disk: Disk,
    check: PackageCheckView,
    n: nat,
)
    requires
        v.phase == after_check(check),
        check_after(check, s.files, n).phase is Passed,
        completes(s, v.to(InstallPhaseView::TestStaged), disk),
    ensures
        completes(s, v, disk),
    decreases n,
{
    if check.phase is Passed {
        assert(v == v.to(InstallPhaseView::TestStaged));
    } else {
        let op = check.operation()->0;
        let o = answer(s.files, op);
        assert(v.operation() == Some(op));
        assert(fair_answer(s, disk, op) == o);
        assert(disk_after(disk, Some(op), o) == disk);
        assert(v.next(o).to(InstallPhaseView::TestStaged) == v.to(InstallPhaseView::TestStaged));
        lemma_check_completes(s, v.next(o), disk, check.next(o), (n - 1) as nat);
        lemma_completes_step(s, v, disk);
    }
}

/// A complete package that was made for the target is installed, where nothing goes wrong: the
/// release is not there yet, the place of the command that users run is free or managed already,
/// the trials succeed, and what is done is done.
pub proof fn complete_packages_are_installed(
    source_root: Seq<u8>,
    bin_dir: Seq<u8>,
    release_name: Seq<char>,
    target: Seq<char>,
    pid: nat,
    disk: Disk,
    s: Surroundings,
)
    requires
        release_name_ok(release_name),
        release_name.len() > 0,
        ({
            let layout = layout_of(source_root, bin_dir, release_name);
            &&& complete_package(s.files, layout.staging_dir, target)
            &&& command_manageable(layout, disk)
            &&& command_aside(layout)
            &&& !disk.dirs.contains(layout.release_dir)
            &&& no_staged_file(layout, disk)
        }),
    ensures
        completes(
            s,
            InstallView::start(layout_of(source_root, bin_dir, release_name), target, pid),
            disk,
        ),
{
    let layout = layout_of(source_root, bin_dir, release_name);
    lemma_places_apart(source_root, bin_dir, release_name, pid);
    assert(layout.releases_dir != layout.release_dir) by {
        lemma_release_elsewhere(source_root, release_name);
    }
    let v = InstallView::start(layout, target, pid);
    let check = PackageCheckView::start(layout.staging_dir, target);
    check_passes_complete_packages(s.files, layout.staging_dir, target);
    lemma_staged_completes(s, v.to(InstallPhaseView::TestStaged), disk);
    lemma_check_completes(
        s,
        v,
        disk,
        check,
        1 + executables(layout.staging_dir, target).len(),
    );
}

proof fn lemma_release_elsewhere(source_root: Seq<u8>, release_name: Seq<char>)
    requires
        release_name_ok(release_name),
        release_name.len() > 0,
    ensures
        joined_text(source_root, "releases"@) != joined_text(
            joined_text(source_root, "releases"@),
            release_name,
        ),
{
    let rel = encode_utf8(release_name);
    let staging = ".staging-"@ + release_name;
    lemma_encode_concat(".staging-"@, release_name);
    let n = encode_utf8(".staging-"@).len() as int;
    if rel.len() == 0 {
        lemma_encode_injective(release_name, Seq::<char>::empty());
    }
    if rel.first() == SEPARATOR {
        assert(encode_utf8(staging)[n] == rel[0]);
        assert(encode_utf8(staging).contains(SEPARATOR));
    }
}

// ---------------------------------------------------------------------------------------------
// Rolling back
// ---------------------------------------------------------------------------------------------

/// Why the new release, which is the current one, is taken back when the pending operation ends
/// so: its trial failed, or the command that users run cannot be linked to it.
pub open spec fn activation_failure(v: InstallView, outcome: OutcomeView) -> Option<
    Seq<Seq<char>>,
> {
    match (v.phase, outcome) {
        (InstallPhaseView::TestInstalled, OutcomeView::Failed { failure, .. }) => Some(failure),
        (InstallPhaseView::MakeBin, OutcomeView::Failed { failure, .. }) => Some(failure),
        (InstallPhaseView::InspectBin, _) => match state_of(outcome) {
            Some(state) => if manageable(state, v.layout.current_command()) {
                None
            } else {
                Some(unmanaged(v.layout.visible_bin))
            },
            None => None,
        },
        (InstallPhaseView::LinkBin(l), _) => match l.next(outcome).phase {
            LinkPhaseView::NotReplaced(f) => Some(f),
            _ => None,
        },
        _ => None,
    }
}

/// How many operations it takes to take a release back.
pub open spec fn undo_steps(phase: InstallPhaseView) -> nat {
    match phase {
        InstallPhaseView::Restore(l, _) => match l.phase {
            LinkPhaseView::MakeParent => 5,
            LinkPhaseView::ClearTemp => 4,
            LinkPhaseView::MakeLink => 3,
            _ => 2,
        },
        InstallPhaseView::RemoveLink(_) => 2,
        _ => 1,
    }
}

/// Whether an installation that began on `before` ended so: it was rolled back because of
/// `failure`, the release that was current before is the current one, the new one is gone, and
/// all else is as it was.
pub open spec fn taken_back(
    v: InstallView,
    disk: Disk,
    before: Disk,
    failure: Seq<Seq<char>>,
) -> bool {
    let layout = v.layout;
    &&& v.phase == InstallPhaseView::RolledBack(
        in_context(failure, "source package activation rolled back"@),
    )
    &&& link_at(disk, layout.current_link) == link_at(before, layout.current_link)
    &&& !disk.dirs.contains(layout.release_dir)
    &&& kept(layout, v.pid, before, disk)
}

proof fn lemma_release_removed(
    s: Surroundings,
    v: InstallView,
    disk: Disk,
    before: Disk,
    failure: Seq<Seq<char>>,
)
    requires
        v.phase == InstallPhaseView::RemoveRelease(failure),
        apart(v.layout, v.pid),
        known(v, disk, before, false),
    ensures
        taken_back(fair_run(s, v, disk, 1).0, fair_run(s, v, disk, 1).1, before, failure),
{
    let op = OperationView::RemoveDirAll(v.layout.release_dir);
    let w = v.next(OutcomeView::Done);
    let after = disk_after(disk, Some(op), OutcomeView::Done);
    assert(v.operation() == Some(op));
    assert(kept(v.layout, v.pid, disk, after));
    lemma_kept_on(v.layout, v.pid, before, disk, after);
    assert(fair_run(s, w, after, 0) == (w, after));
    assert(fair_run(s, v, disk, 1) == (w, after));
}

proof fn lemma_link_removed(
    s: Surroundings,
    v: InstallView,
    disk: Disk,
    before: Disk,
    failure: Seq<Seq<char>>,
)
    requires
        v.phase == InstallPhaseView::RemoveLink(failure),
        apart(v.layout, v.pid),
        known(v, disk, before, false),
    ensures
        taken_back(fair_run(s, v, disk, 2).0, fair_run(s, v, disk, 2).1, before, failure),
{
    let op = OperationView::RemoveFile(v.layout.current_link);
    let w = v.next(OutcomeView::Done);
    let after = disk_after(disk, Some(op), OutcomeView::Done);
    assert(v.operation() == Some(op));
    assert(kept(v.layout, v.pid, disk, after));
    lemma_kept_on(v.layout, v.pid, before, disk, after);
    lemma_release_removed(s, w, after, before, failure);
    assert(fair_run(s, v, disk, 2) == fair_run(s, w, after, 1));
}

proof fn lemma_link_restored(
    s: Surroundings,
    v: InstallView,
    disk: Disk,
    before: Disk,
    l: LinkReplacementView,
    failure: Seq<Seq<char>>,
)
    requires
        v.phase == InstallPhaseView::Restore(l, failure),
        !over(l),
        apart(v.layout, v.pid),
        known(v, disk, before, false),
    ensures
        taken_back(
            fair_run(s, v, disk, undo_steps(v.phase)).0,
            fair_run(s, v, disk, undo_steps(v.phase)).1,
            before,
            failure,
        ),
    decreases undo_steps(v.phase),
{
    let op = l.operation()->0;
    let w = v.next(OutcomeView::Done);
    let after = disk_after(disk, Some(op), OutcomeView::Done);
    assert(v.operation() == Some(op));
    assert(kept(v.layout, v.pid, disk, after));
    lemma_kept_on(v.layout, v.pid, before, disk, after);
    if l.phase is Swap {
        lemma_release_removed(s, w, after, before, failure);
    } else {
        lemma_link_restored(s, w, after, before, l.next(OutcomeView::Done), failure);
    }
    assert(fair_run(s, v, disk, undo_steps(v.phase)) == fair_run(
        s,
        w,
        after,
        undo_steps(w.phase),
    ));
}

/// A release that fails after it has become the current one is taken back: when its trial fails,
/// or the command that users run cannot be linked to it, the installation goes on to switch back
/// and to remove it. Where what that takes is done, the installation was rolled back, with the
/// reason, and the release that was current before is the current one again.
pub proof fn failed_activation_is_rolled_back(
    source_root: Seq<u8>,
    bin_dir: Seq<u8>,
    release_name: Seq<char>,
    target: Seq<char>,
    pid: nat,
    disk: Disk,
    outcomes: Seq<OutcomeView>,
    outcome: OutcomeView,
    s: Surroundings,
)
    requires
        release_name_ok(release_name),
        ({
            let layout = layout_of(source_root, bin_dir, release_name);
            let start = InstallView::start(layout, target, pid);
            let (v, meanwhile) = run_from(start, disk, outcomes);
            &&& no_staged_file(layout, disk)
            &&& truthful_run(start, disk, outcomes)
            &&& truthful(meanwhile, v.operation(), outcome)
            &&& activation_failure(v, outcome) is Some
        }),
    ensures
        ({
            let layout = layout_of(source_root, bin_dir, release_name);
            let start = InstallView::start(layout, target, pid);
            let (v, meanwhile) = run_from(start, disk, outcomes);
            let w = v.next(outcome);
            let after = disk_after(meanwhile, v.operation(), outcome);
            let (end, left) = fair_run(s, w, after, undo_steps(w.phase));
            &&& w.phase is Restore || w.phase is RemoveLink
            &&& taken_back(end, left, disk, activation_failure(v, outcome)->0)
        }),
{
    lemma_places_apart(source_root, bin_dir, release_name, pid);
    let layout = layout_of(source_root, bin_dir, release_name);
    let start = InstallView::start(layout, target, pid);
    let (v, meanwhile) = run_from(start, disk, outcomes);
    lemma_run_known(start, disk, disk, false, outcomes);
    let broken = undo_fails(start, outcomes);
    lemma_step_known(v, meanwhile, disk, broken, outcome);
    let w = v.next(outcome);
    let after = disk_after(meanwhile, v.operation(), outcome);
    let failure = activation_failure(v, outcome)->0;
    assert(w.phase == v.rollback(failure));
    if let InstallPhaseView::Restore(l, _) = w.phase {
        lemma_link_restored(s, w, after, disk, l, failure);
    } else {
        lemma_link_removed(s, w, after, disk, failure);
    }
}

// ---------------------------------------------------------------------------------------------
// Progress
// ---------------------------------------------------------------------------------------------

/// Whether an installation is over.
pub open spec fn install_over(v: InstallView) -> bool {
    v.phase is Installed || v.phase is RolledBack || v.phase is Failed
}

/// Whether the replacement of a link is under way.
pub open spec fn under_way(l: LinkReplacementView) -> bool {
    !over(l) && parent_of(l.link) is Some
}

/// Whether each part of an installation that is over has been left.
pub open spec fn install_on_course(v: InstallView) -> bool {
    match v.phase {
        InstallPhaseView::Validate(c) => on_the_list(c) && !(c.phase is Passed)
            && !(c.phase is Rejected),
        InstallPhaseView::Switch(l) => under_way(l),
        InstallPhaseView::MakeBin => parent_of(v.layout.visible_bin) is Some,
        InstallPhaseView::LinkBin(l) => under_way(l),
        InstallPhaseView::Prune(rest) => rest.len() > 0,
        InstallPhaseView::Restore(l, _) => under_way(l),
        _ => true,
    }
}

/// An installation always has something to do until it is over, and it stays as it ended.
pub proof fn installation_goes_on_until_over(v: InstallView, outcome: OutcomeView)
    requires
        install_on_course(v),
    ensures
        install_on_course(v.next(outcome)),
        v.operation() is None <==> install_over(v),
        install_over(v) ==> v.next(outcome) == v,
{
    match v.phase {
        InstallPhaseView::Validate(c) => check_goes_on_until_over(c, outcome),
        InstallPhaseView::Switch(l) => replacement_goes_on_until_over(l, outcome),
        InstallPhaseView::LinkBin(l) => replacement_goes_on_until_over(l, outcome),
        InstallPhaseView::Restore(l, _) => replacement_goes_on_until_over(l, outcome),
        _ => {},
    }
}

} // verus!
