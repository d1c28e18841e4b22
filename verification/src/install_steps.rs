//! What each step of an installation does, and what is said where it fails.

use crate::failure::detail_of;
use crate::install_laws::install_on_course;
use crate::installer::{InstallPhaseView, InstallView};
use crate::io::{answers, DirEntryView, ErrorKind, LinkStateView, OperationView, OutcomeView};
use crate::layout::LayoutView;
use crate::os_text::{bytes_le, displayed};
use crate::package::{check_hears_only_answers, CheckPhaseView};
use crate::path::{joined, joined_text, lemma_same_entry, parent_of, plain_name, same_place};
use crate::retention::{all_plain, dir_names, doomed_names, retention_is_bounded};
use crate::symlink::{replacement_hears_only_answers, LinkPhaseView};
use vstd::prelude::*;

verus! {

// ---------------------------------------------------------------------------------------------
// Before the release is in its place
// ---------------------------------------------------------------------------------------------

/// An installation begins with the check of the staged package for its target; what the check
/// rejects is not installed, for the reason of the check.
pub proof fn installations_begin_with_the_check(
    layout: LayoutView,
    target: Seq<char>,
    pid: nat,
    v: InstallView,
    outcome: OutcomeView,
)
    ensures
        ({
            let start = InstallView::start(layout, target, pid);
            &&& start.layout == layout
            &&& start.pid == pid
            &&& start.previous is None
            &&& start.warning is None
            &&& start.phase matches InstallPhaseView::Validate(check)
            &&& check.package_dir == layout.staging_dir
            &&& check.target == target
            &&& check.phase is ReadMetadata
        }),
        v.phase matches InstallPhaseView::Validate(check) ==> {
            &&& v.operation() == check.operation()
            &&& match check.next(outcome).phase {
                CheckPhaseView::Passed => v.next(outcome).operation() == Some(
                    OperationView::SmokeTest(v.layout.staging_dir),
                ),
                CheckPhaseView::Rejected(why) => v.next(outcome).phase
                    == InstallPhaseView::Failed(why),
                _ => v.next(outcome).phase == InstallPhaseView::Validate(check.next(outcome)),
            }
        },
{
}

/// A package that does not stand its trial where it is staged is not installed; after one that does
/// the place of the command that users run is looked at.
pub proof fn staged_packages_are_tried_out(v: InstallView, outcome: OutcomeView)
    requires
        v.phase is TestStaged,
    ensures
        v.operation() == Some(OperationView::SmokeTest(v.layout.staging_dir)),
        v.next(OutcomeView::Done).operation() == Some(
            OperationView::InspectLink(v.layout.visible_bin),
        ),
        outcome matches OutcomeView::Failed { failure, .. } ==> v.next(outcome).phase
            == InstallPhaseView::Failed(
            seq!["staged source package smoke test failed"@] + failure,
        ) && v.next(outcome).operation() is None,
{
}

/// A command that was not installed here is left alone: anything but a link to the command of the
/// current release, in the place of the command that users run, ends the installation before
/// anything is changed. Nothing in that place is as good as such a link.
pub proof fn foreign_commands_are_left_alone(
    v: InstallView,
    target: Seq<u8>,
    unknown: OutcomeView,
)
    requires
        v.phase is InspectVisible,
        unknown is Failed,
    ensures
        ({
            let refused = InstallPhaseView::Failed(
                seq![
                    "refusing to replace unmanaged Codex command at "@ + displayed(
                        v.layout.visible_bin,
                    ),
                ],
            );
            let command = joined_text(v.layout.current_link, "bin/codex"@);
            let make = Some(OperationView::CreateDirAll(v.layout.releases_dir));
            &&& v.operation() == Some(OperationView::InspectLink(v.layout.visible_bin))
            &&& v.next(OutcomeView::Link(LinkStateView::Other)).phase == refused
            &&& v.next(OutcomeView::Link(LinkStateView::Absent)).operation() == make
            &&& v.next(unknown).operation() == make
            &&& same_place(target, command) ==> v.next(
                OutcomeView::Link(LinkStateView::Link(target)),
            ).operation() == make
            &&& !same_place(target, command) ==> v.next(
                OutcomeView::Link(LinkStateView::Link(target)),
            ).phase == refused
        }),
{
}

/// A release that is there already is not replaced. Where it is not, or that cannot be found out,
/// the staged package is moved to its place.
pub proof fn releases_are_never_replaced(v: InstallView, outcome: OutcomeView)
    ensures
        v.phase is MakeReleases ==> v.next(OutcomeView::Done).operation() == Some(
            OperationView::Exists(v.layout.release_dir),
        ),
        v.phase is MakeReleases ==> (outcome matches OutcomeView::Failed { failure, .. }
            ==> v.next(outcome).phase == InstallPhaseView::Failed(failure)),
        v.phase is ReleaseExists ==> {
            let rename = Some(
                OperationView::Rename { from: v.layout.staging_dir, to: v.layout.release_dir },
            );
            &&& v.next(OutcomeView::Flag(true)).phase == InstallPhaseView::Failed(
                seq!["source release already exists at "@ + displayed(v.layout.release_dir)],
            )
            &&& v.next(OutcomeView::Flag(false)).operation() == rename
            &&& outcome is Failed ==> v.next(outcome).operation() == rename
        },
        v.phase is Promote ==> (outcome matches OutcomeView::Failed { failure, .. } ==> v.next(
            outcome,
        ).phase == InstallPhaseView::Failed(seq!["promote staged source package"@] + failure)),
        v.phase is Promote ==> v.next(OutcomeView::Done).operation() == Some(
            OperationView::InspectLink(v.layout.current_link),
        ),
{
}

// ---------------------------------------------------------------------------------------------
// Switching
// ---------------------------------------------------------------------------------------------

/// The release that is current is remembered before the link to it is pointed at the new one;
/// where there is no link, or that cannot be found out, there is none to remember.
pub proof fn current_release_is_remembered(v: InstallView, target: Seq<u8>, unknown: OutcomeView)
    requires
        v.phase is ReadCurrent,
        unknown is Failed,
        parent_of(v.layout.current_link) is Some,
    ensures
        v.operation() == Some(OperationView::InspectLink(v.layout.current_link)),
        v.next(OutcomeView::Link(LinkStateView::Link(target))).previous == Some(target),
        v.next(OutcomeView::Link(LinkStateView::Absent)).previous is None,
        v.next(OutcomeView::Link(LinkStateView::Other)).previous is None,
        v.next(unknown).previous is None,
        forall|o: OutcomeView|
            o is Link || o is Failed ==> ((#[trigger] v.next(o)).phase matches
                InstallPhaseView::Switch(l) && l.link == v.layout.current_link && l.target
                == v.layout.release_dir && l.pid == v.pid && l.phase is MakeParent),
{
}

/// When the link has been pointed at the new release that is tried out in its place; where it could
/// not be, the installation has failed.
pub proof fn new_releases_are_tried_out(v: InstallView, outcome: OutcomeView)
    requires
        v.phase is Switch,
    ensures
        v.operation() == v.phase->Switch_0.operation(),
        match v.phase->Switch_0.next(outcome).phase {
            LinkPhaseView::Replaced => v.next(outcome).operation() == Some(
                OperationView::SmokeTest(v.layout.release_dir),
            ),
            LinkPhaseView::NotReplaced(why) => v.next(outcome).phase == InstallPhaseView::Failed(
                why,
            ),
            _ => v.next(outcome).phase == InstallPhaseView::Switch(
                v.phase->Switch_0.next(outcome),
            ),
        },
{
}

/// Whether an installation has turned to taking its release back for this reason: by pointing the
/// link at the release that was current before, or by removing the link where there was none.
pub open spec fn takes_back(w: InstallView, v: InstallView, why: Seq<Seq<char>>) -> bool {
    match v.previous {
        Some(previous) => w.phase matches InstallPhaseView::Restore(l, kept) && kept == why && l.link
            == v.layout.current_link && l.target == previous && l.pid == v.pid
            && l.phase is MakeParent,
        None => w.phase == InstallPhaseView::RemoveLink(why) && w.operation() == Some(
            OperationView::RemoveFile(v.layout.current_link),
        ),
    }
}

/// A release that does not stand its trial in its place is taken back, for the reason of the trial.
/// After one that does, the directory of the command that users run is created.
pub proof fn failed_trials_are_taken_back(v: InstallView, outcome: OutcomeView)
    requires
        v.phase is TestInstalled,
        parent_of(v.layout.current_link) is Some,
    ensures
        v.operation() == Some(OperationView::SmokeTest(v.layout.release_dir)),
        outcome matches OutcomeView::Failed { failure, .. } ==> takes_back(
            v.next(outcome),
            v,
            failure,
        ),
        match parent_of(v.layout.visible_bin) {
            Some(dir) => v.next(OutcomeView::Done).operation() == Some(
                OperationView::CreateDirAll(dir),
            ),
            None => takes_back(
                v.next(OutcomeView::Done),
                v,
                seq!["visible Codex command has no parent directory"@],
            ),
        },
{
}

/// The place of the command that users run is looked at again. A link to the command of the current
/// release stays; where there is nothing, such a link is made; for anything else the release is
/// taken back.
pub proof fn commands_lead_to_the_current_release(
    v: InstallView,
    target: Seq<u8>,
    unknown: OutcomeView,
    outcome: OutcomeView,
)
    requires
        unknown is Failed,
        parent_of(v.layout.current_link) is Some,
        parent_of(v.layout.visible_bin) is Some,
    ensures
        v.phase is MakeBin ==> v.next(OutcomeView::Done).operation() == Some(
            OperationView::InspectLink(v.layout.visible_bin),
        ),
        v.phase is MakeBin ==> (outcome matches OutcomeView::Failed { failure, .. } ==> takes_back(
            v.next(outcome),
            v,
            failure,
        )),
        v.phase is InspectBin ==> {
            let refused = seq![
                "refusing to replace unmanaged Codex command at "@ + displayed(
                    v.layout.visible_bin,
                ),
            ];
            let command = joined_text(v.layout.current_link, "bin/codex"@);
            let absent = v.next(OutcomeView::Link(LinkStateView::Absent));
            let link = v.next(OutcomeView::Link(LinkStateView::Link(target)));
            &&& takes_back(v.next(OutcomeView::Link(LinkStateView::Other)), v, refused)
            &&& same_place(target, command) ==> link.operation() == Some(
                OperationView::ListReadable(v.layout.releases_dir),
            )
            &&& !same_place(target, command) ==> takes_back(link, v, refused)
            &&& absent.phase matches InstallPhaseView::LinkBin(l) && l.link == v.layout.visible_bin
                && l.target == command && l.pid == v.pid && l.phase is MakeParent
            &&& v.next(unknown) == absent
        },
        v.phase matches InstallPhaseView::LinkBin(l) ==> match l.next(outcome).phase {
            LinkPhaseView::Replaced => v.next(outcome).operation() == Some(
                OperationView::ListReadable(v.layout.releases_dir),
            ),
            LinkPhaseView::NotReplaced(why) => takes_back(v.next(outcome), v, why),
            _ => v.next(outcome).phase == InstallPhaseView::LinkBin(l.next(outcome)),
        },
{
}

// ---------------------------------------------------------------------------------------------
// Old releases
// ---------------------------------------------------------------------------------------------

/// Whether a release comes, in the order of the names, before every other one that stays.
pub open spec fn goes_before_the_rest(
    entries: Seq<DirEntryView>,
    old: Seq<u8>,
    rest: Seq<Seq<u8>>,
    dir: Seq<u8>,
    name: Seq<u8>,
) -> bool {
    forall|other: Seq<u8>| #[trigger]
        dir_names(entries).contains(other) && other != name && !rest.contains(joined(dir, other))
            ==> bytes_le(old, other)
}

/// When the releases have been listed, up to two stay as they are and the installation is complete;
/// of more, each but two is removed, one after the other, and never the one that was installed. Of
/// the others those go that come first in the order of their names.
pub proof fn surplus_releases_are_removed(
    v: InstallView,
    entries: Seq<DirEntryView>,
    name: Seq<u8>,
)
    requires
        v.phase is ListReleases,
        plain_name(name),
        v.layout.release_dir == joined(v.layout.releases_dir, name),
        dir_names(entries).no_duplicates(),
        all_plain(dir_names(entries)),
    ensures
        v.operation() == Some(OperationView::ListReadable(v.layout.releases_dir)),
        ({
            let w = v.next(OutcomeView::Entries(entries));
            let n = dir_names(entries).len();
            &&& n <= 2 ==> w.phase is Installed
            &&& n > 2 ==> {
                &&& w.phase matches InstallPhaseView::Prune(rest)
                &&& rest.len() == n - 2
                &&& w.operation() == Some(OperationView::RemoveDirAll(rest[0]))
                &&& forall|i: int, old: Seq<u8>|
                    0 <= i < rest.len() && #[trigger] dir_names(entries).contains(old) && old
                        != name && #[trigger] rest[i] == joined(v.layout.releases_dir, old)
                        ==> goes_before_the_rest(entries, old, rest, v.layout.releases_dir, name)
                &&& forall|i: int|
                    0 <= i < rest.len() ==> exists|old: Seq<u8>|
                        #[trigger] dir_names(entries).contains(old) && old != name
                            && #[trigger] rest[i] == joined(v.layout.releases_dir, old)
            }
            &&& w.warning == v.warning
        }),
{
    let dir = v.layout.releases_dir;
    retention_is_bounded(entries, dir, name);
    let doomed = doomed_names(entries, dir, joined(dir, name));
    let w = v.next(OutcomeView::Entries(entries));
    if let InstallPhaseView::Prune(rest) = w.phase {
        assert forall|i: int| 0 <= i < rest.len() implies exists|old: Seq<u8>|
            #[trigger] dir_names(entries).contains(old) && old != name && #[trigger] rest[i]
                == joined(dir, old) by {
            assert(doomed.contains(doomed[i]));
            assert(dir_names(entries).contains(doomed[i]));
            assert(rest[i] == joined(dir, doomed[i]));
        }
        assert forall|i: int, old: Seq<u8>|
            0 <= i < rest.len() && #[trigger] dir_names(entries).contains(old) && old != name
                && #[trigger] rest[i] == joined(dir, old) implies goes_before_the_rest(
            entries,
            old,
            rest,
            dir,
            name,
        ) by {
            assert(doomed.contains(doomed[i]));
            assert(dir_names(entries).contains(doomed[i]));
            lemma_name_at(entries, dir, doomed[i], old);
            assert forall|other: Seq<u8>| #[trigger]
                dir_names(entries).contains(other) && other != name && !rest.contains(
                    joined(dir, other),
                ) implies bytes_le(old, other) by {
                if doomed.contains(other) {
                    let k = choose|k: int| 0 <= k < doomed.len() && doomed[k] == other;
                    assert(rest[k] == joined(dir, other));
                }
            }
        }
    }
}

proof fn lemma_name_at(entries: Seq<DirEntryView>, dir: Seq<u8>, a: Seq<u8>, b: Seq<u8>)
    requires
        all_plain(dir_names(entries)),
        dir_names(entries).contains(a),
        dir_names(entries).contains(b),
        joined(dir, a) == joined(dir, b),
    ensures
        a == b,
{
    lemma_same_entry(dir, a, b);
}

/// Each release that is too many is removed with all that is in it; with the last one the
/// installation is complete. Where one cannot be removed, or the releases cannot be listed, the
/// installation is complete all the same, with a warning that keeps the reason.
pub proof fn pruning_never_fails_an_installation(
    v: InstallView,
    rest: Seq<Seq<u8>>,
    outcome: OutcomeView,
)
    ensures
        v.phase == InstallPhaseView::Prune(rest) && rest.len() > 0 ==> {
            &&& v.operation() == Some(OperationView::RemoveDirAll(rest[0]))
            &&& rest.len() == 1 ==> v.next(OutcomeView::Done).phase is Installed
            &&& rest.len() > 1 ==> v.next(OutcomeView::Done).phase == InstallPhaseView::Prune(
                rest.skip(1),
            )
            &&& v.next(OutcomeView::Done).warning == v.warning
        },
        v.phase is ListReleases || v.phase is Prune ==> (outcome matches OutcomeView::Failed {
            failure,
            ..
        } ==> v.next(outcome).phase is Installed && v.next(outcome).warning == Some(failure)),
        !(v.phase is ListReleases) && !(v.phase is Prune) ==> v.next(outcome).warning == v.warning,
{
}

// ---------------------------------------------------------------------------------------------
// Taking back
// ---------------------------------------------------------------------------------------------

/// When the earlier release is the current one again, or the link is gone, the new release is
/// removed, and the installation was rolled back for its reason. Where the link cannot be restored
/// or removed the installation has failed: what went wrong then is told after what went wrong
/// before. A link that is gone already is as good as removed.
pub proof fn releases_are_taken_back(
    v: InstallView,
    why: Seq<Seq<char>>,
    outcome: OutcomeView,
    kind: ErrorKind,
    failure: Seq<Seq<char>>,
)
    ensures
        v.phase matches InstallPhaseView::Restore(l, kept) ==> match l.next(outcome).phase {
            LinkPhaseView::Replaced => v.next(outcome).phase == InstallPhaseView::RemoveRelease(
                kept,
            ),
            LinkPhaseView::NotReplaced(f) => v.next(outcome).phase == InstallPhaseView::Failed(
                seq!["rollback failed after installation error: "@ + detail_of(kept)] + f,
            ),
            _ => v.next(outcome).phase == InstallPhaseView::Restore(l.next(outcome), kept),
        },
        v.phase == InstallPhaseView::RemoveLink(why) ==> {
            let failed = v.next(OutcomeView::Failed { kind, failure });
            &&& v.next(OutcomeView::Done).phase == InstallPhaseView::RemoveRelease(why)
            &&& kind is NotFound ==> failed.phase == InstallPhaseView::RemoveRelease(why)
            &&& !(kind is NotFound) ==> failed.phase == InstallPhaseView::Failed(
                seq!["rollback failed after installation error: "@ + detail_of(why)] + (
                seq!["remove failed source release link"@] + failure),
            )
        },
        v.phase == InstallPhaseView::RemoveRelease(why) ==> {
            &&& v.operation() == Some(OperationView::RemoveDirAll(v.layout.release_dir))
            &&& v.next(OutcomeView::Done).phase == InstallPhaseView::RolledBack(
                seq!["source package activation rolled back"@] + why,
            )
            &&& v.next(OutcomeView::Failed { kind, failure }).phase == InstallPhaseView::Failed(
                seq!["remove failed source release"@] + failure,
            )
        },
{
}

/// An installation stays with its places and its process, and the release that was current is read
/// once.
pub proof fn installations_keep_their_subject(v: InstallView, outcome: OutcomeView)
    ensures
        v.next(outcome).layout == v.layout,
        v.next(outcome).pid == v.pid,
        !(v.phase is ReadCurrent) ==> v.next(outcome).previous == v.previous,
        v.next(outcome).phase is Installed ==> v.phase is Installed || v.phase is ListReleases
            || v.phase is Prune,
{
}

/// An outcome that does not answer the pending operation changes nothing.
pub proof fn installation_hears_only_answers(v: InstallView, outcome: OutcomeView)
    requires
        install_on_course(v),
        !answers(v.operation(), outcome),
    ensures
        v.next(outcome) == v,
{
    match v.phase {
        InstallPhaseView::Validate(c) => check_hears_only_answers(c, outcome),
        InstallPhaseView::Switch(l) => replacement_hears_only_answers(l, outcome),
        InstallPhaseView::LinkBin(l) => replacement_hears_only_answers(l, outcome),
        InstallPhaseView::Restore(l, _) => replacement_hears_only_answers(l, outcome),
        _ => {},
    }
}

} // verus!
