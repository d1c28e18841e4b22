//! What holds of attempts at a source update, from the commands that they run to the places that
//! they install in.

use crate::attempt::{after_install, run_from, settled, AttemptPhaseView, AttemptView, PlanView};
use crate::command::CommandView;
use crate::failure::detail_of;
use crate::install_steps::installation_hears_only_answers;
use crate::installer::{InstallPhaseView, InstallView};
use crate::io::{answers, OperationView, OutcomeView};
use crate::layout::LayoutView;
use crate::lock::{lock_hears_only_answers, LockPhaseView, LockView};
use crate::notice::NoticeView;
use crate::os_text::{displayed, utf8_error_text};
use crate::path::joined_text;
use crate::staging::{preparation_hears_only_answers, removal_hears_only_answers};
use crate::text::{decimal, first_after_prefix, has_text, lines, trimmed};
use vstd::prelude::*;
use vstd::utf8::*;

verus! {

// ---------------------------------------------------------------------------------------------
// Commands
// ---------------------------------------------------------------------------------------------

/// Whether a command runs git in a directory with these arguments and nothing else.
pub open spec fn runs_git(c: CommandView, dir: Seq<u8>, args: Seq<Seq<char>>) -> bool {
    &&& c.program == encode_utf8("git"@)
    &&& c.args.len() == args.len()
    &&& forall|i: int| 0 <= i < args.len() ==> c.args[i] == encode_utf8(#[trigger] args[i])
    &&& c.env.len() == 0
    &&& c.current_dir == Some(dir)
}

/// Every git command of an attempt is run in the checkout that the attempt is made for. The output
/// of those that are asked something is kept; of those that change the checkout, users see it.
pub proof fn git_is_run_in_the_checkout(v: AttemptView)
    ensures
        v.phase is CheckClean ==> (v.operation() matches Some(OperationView::Capture(c))
            && runs_git(c, v.build_dir, seq!["status"@, "--porcelain"@])),
        v.phase is FindUpstream ==> (v.operation() matches Some(OperationView::Capture(c))
            && runs_git(c, v.build_dir, seq!["remote"@, "get-url"@, "upstream"@])),
        v.phase is Fetch ==> (v.operation() matches Some(OperationView::Run(c)) && runs_git(
            c,
            v.build_dir,
            seq!["fetch"@, "upstream"@, "main"@],
        )),
        v.phase is Merge ==> (v.operation() matches Some(OperationView::Run(c)) && runs_git(
            c,
            v.build_dir,
            seq!["merge"@, "--no-edit"@, "upstream/main"@],
        )),
        v.phase is ListConflicts ==> (v.operation() matches Some(OperationView::Capture(c))
            && runs_git(c, v.build_dir, seq!["diff"@, "--name-only"@, "--diff-filter=U"@])),
        v.phase is AbortMerge ==> (v.operation() matches Some(OperationView::Run(c)) && runs_git(
            c,
            v.build_dir,
            seq!["merge"@, "--abort"@],
        )),
        v.phase is Pull ==> (v.operation() matches Some(OperationView::Run(c)) && runs_git(
            c,
            v.build_dir,
            seq!["pull"@, "--ff-only"@],
        )),
{
}

/// The date and the target are asked of `date` and of the compiler, wherever the process is.
pub proof fn date_and_target_are_asked_for(v: AttemptView)
    ensures
        v.phase is AskDate ==> (v.operation() matches Some(OperationView::Capture(c)) && c.program
            == encode_utf8("date"@) && c.args == seq![encode_utf8("+%Y.%m.%d"@)] && c.env.len()
            == 0 && c.current_dir is None),
        v.phase is AskTarget ==> (v.operation() matches Some(OperationView::Capture(c))
            && c.program == encode_utf8("rustc"@) && c.args == seq![encode_utf8("-vV"@)]
            && c.env.len() == 0 && c.current_dir is None),
{
    match v.operation() {
        Some(OperationView::Capture(c)) => {
            if v.phase is AskDate {
                assert(c.args =~= seq![encode_utf8("+%Y.%m.%d"@)]);
            }
            if v.phase is AskTarget {
                assert(c.args =~= seq![encode_utf8("-vV"@)]);
            }
        },
        _ => {},
    }
}

/// The package is built in the checkout of the attempt, by the script of that checkout, for the
/// target and in the staging directory of the plan. The bubblewrap of the system is packed where
/// one was found.
pub proof fn build_takes_place_in_the_checkout(
    v: AttemptView,
    plan: PlanView,
    lock: Seq<u8>,
    bwrap: Option<Seq<u8>>,
)
    requires
        v.phase == AttemptPhaseView::Build(plan, lock, bwrap),
    ensures
        v.operation() matches Some(OperationView::Run(c)) && {
            &&& c.program == encode_utf8("python3"@)
            &&& c.current_dir == Some(v.build_dir)
            &&& c.args.len() == if bwrap is Some {
                10int
            } else {
                8int
            }
            &&& c.args[0] == joined_text(v.build_dir, "scripts/build_codex_package.py"@)
            &&& c.args[1] == encode_utf8("--target"@)
            &&& c.args[2] == encode_utf8(plan.target)
            &&& c.args[3] == encode_utf8("--cargo-profile"@)
            &&& c.args[4] == encode_utf8("release"@)
            &&& c.args[5] == encode_utf8("--package-dir"@)
            &&& c.args[6] == plan.layout.staging_dir
            &&& c.args[7] == encode_utf8("--force"@)
            &&& bwrap matches Some(path) ==> c.args[8] == encode_utf8("--bwrap-bin"@) && c.args[9]
                == path
        },
{
}

/// Whether a variable has a value in the environment of a command, and no other value.
pub open spec fn bound_to(c: CommandView, name: Seq<char>, value: Seq<u8>) -> bool {
    &&& exists|i: int| 0 <= i < c.env.len() && #[trigger] c.env[i] == (name, value)
    &&& forall|i: int| 0 <= i < c.env.len() && (#[trigger] c.env[i]).0 == name ==> c.env[i].1
        == value
}

proof fn lemma_record_names()
    ensures
        "CODEX_CLI_DISPLAY_VERSION"@ != "CODEX_CLI_BUILD_DIR"@,
        "CODEX_CLI_DISPLAY_VERSION"@ != "CODEX_CLI_UPDATE_BASE_VERSION"@,
        "CODEX_CLI_BUILD_DIR"@ != "CODEX_CLI_UPDATE_BASE_VERSION"@,
{
    reveal_strlit("CODEX_CLI_DISPLAY_VERSION");
    reveal_strlit("CODEX_CLI_BUILD_DIR");
    reveal_strlit("CODEX_CLI_UPDATE_BASE_VERSION");
    assert("CODEX_CLI_DISPLAY_VERSION"@[10] == 'D');
    assert("CODEX_CLI_BUILD_DIR"@[10] == 'B');
    assert("CODEX_CLI_UPDATE_BASE_VERSION"@[10] == 'U');
}

/// What the build records in the binary: the checkout, which is where the git commands of the
/// attempt are run and where the build itself takes place, the release that it is based on, and
/// the version to show. No other variable is set.
pub proof fn build_records_its_checkout(
    v: AttemptView,
    plan: PlanView,
    lock: Seq<u8>,
    bwrap: Option<Seq<u8>>,
)
    requires
        v.phase == AttemptPhaseView::Build(plan, lock, bwrap),
    ensures
        v.operation() matches Some(OperationView::Run(c)) && {
            &&& bound_to(c, "CODEX_CLI_BUILD_DIR"@, v.build_dir)
            &&& c.current_dir == Some(v.build_dir)
            &&& bound_to(c, "CODEX_CLI_UPDATE_BASE_VERSION"@, encode_utf8(v.latest_version))
            &&& bound_to(c, "CODEX_CLI_DISPLAY_VERSION"@, encode_utf8(plan.display_version))
            &&& c.env.len() == 3
        },
{
    lemma_record_names();
    match v.operation() {
        Some(OperationView::Run(c)) => {
            assert(c.env[0] == ("CODEX_CLI_DISPLAY_VERSION"@, encode_utf8(plan.display_version)));
            assert(c.env[1] == ("CODEX_CLI_BUILD_DIR"@, v.build_dir));
            assert(c.env[2] == (
                "CODEX_CLI_UPDATE_BASE_VERSION"@,
                encode_utf8(v.latest_version),
            ));
        },
        _ => {},
    }
}

/// An attempt is about one checkout, one release and one process from its start to its end.
pub proof fn attempt_keeps_its_subject(v: AttemptView, outcomes: Seq<OutcomeView>)
    ensures
        run_from(v, false, outcomes).0.build_dir == v.build_dir,
        run_from(v, false, outcomes).0.latest_version == v.latest_version,
        run_from(v, false, outcomes).0.pid == v.pid,
        run_from(v, true, outcomes).0 == run_from(v, false, outcomes).0,
    decreases outcomes.len(),
{
    if outcomes.len() > 0 {
        attempt_keeps_its_subject(v.next(outcomes.first()), outcomes.drop_first());
    }
}

// ---------------------------------------------------------------------------------------------
// Bringing the checkout up to date
// ---------------------------------------------------------------------------------------------

/// What is said of a command that ended with a status other than success.
pub open spec fn failed_with(label: Seq<char>, status: Seq<char>) -> Seq<char> {
    "`"@ + label + "` failed with status "@ + status
}

/// A git command that must succeed and does not ends the attempt, with a message that names the
/// command and its status: the one that lists changes, the fetch and the pull.
pub proof fn failed_git_command_ends_the_attempt(
    v: AttemptView,
    status: Seq<char>,
    stdout: Seq<u8>,
)
    ensures
        ({
            let w = v.next(OutcomeView::Exit { success: false, status, stdout });
            &&& v.phase is CheckClean ==> w.phase == AttemptPhaseView::Failed(
                seq![failed_with("git status --porcelain"@, status)],
            ) && w.operation() is None
            &&& v.phase is Fetch ==> w.phase == AttemptPhaseView::Failed(
                seq![failed_with("git fetch upstream main"@, status)],
            ) && w.operation() is None
            &&& v.phase is Pull ==> w.phase == AttemptPhaseView::Failed(
                seq![failed_with("git pull --ff-only"@, status)],
            ) && w.operation() is None
        }),
{
}

/// A command that could not be run ends the attempt with the reason, but for the ones that an
/// attempt can do without: the date, the list of conflicts, and giving up a merge.
pub proof fn command_that_cannot_be_run_ends_the_attempt(
    v: AttemptView,
    outcome: OutcomeView,
    why: Seq<Seq<char>>,
)
    requires
        outcome matches OutcomeView::Failed { failure, .. } && failure == why,
        v.phase is CheckClean || v.phase is FindUpstream || v.phase is Fetch || v.phase is Merge
            || v.phase is Pull || v.phase is AskTarget || v.phase is LookUp,
    ensures
        v.next(outcome).phase == AttemptPhaseView::Failed(why),
        v.next(outcome).operation() is None,
{
}

/// A checkout is updated only where git lists no change at all: whatever it lists, the attempt ends
/// and tells which checkout is meant.
pub proof fn only_clean_checkouts_are_updated(v: AttemptView, status: Seq<char>, stdout: Seq<u8>)
    requires
        v.phase is CheckClean,
    ensures
        ({
            let w = v.next(OutcomeView::Exit { success: true, status, stdout });
            &&& stdout.len() == 0 ==> w.phase is FindUpstream
            &&& stdout.len() > 0 ==> w.phase == AttemptPhaseView::Failed(
                seq![
                    "Source checkout at "@ + displayed(v.build_dir)
                        + " has uncommitted changes. Commit, stash, or discard them before updating."@,
                ],
            ) && w.operation() is None
        }),
{
}

/// A checkout with a remote `upstream` is brought up to date by a fetch and then a merge, one
/// without by a pull; after either the build is prepared.
pub proof fn upstream_decides_how_to_update(
    v: AttemptView,
    success: bool,
    status: Seq<char>,
    stdout: Seq<u8>,
)
    ensures
        ({
            let w = v.next(OutcomeView::Exit { success, status, stdout });
            &&& v.phase is FindUpstream ==> (if success {
                w.phase is Fetch
            } else {
                w.phase is Pull
            })
            &&& v.phase is Fetch && success ==> w.phase is Merge
            &&& v.phase is Merge && success ==> w.phase is AskDate
            &&& v.phase is Pull && success ==> w.phase is AskDate
            &&& v.phase is Merge && !success ==> w.phase == AttemptPhaseView::ListConflicts(status)
        }),
{
}

/// What the message on a merge that failed ends with, from the text that git listed.
pub open spec fn conflict_note(listed: Seq<char>) -> Seq<char> {
    if trimmed(listed).len() == 0 {
        Seq::<char>::empty()
    } else if trimmed(listed).len() <= 4000 {
        " Conflicted paths before abort:\n"@ + trimmed(listed)
    } else {
        " Conflicted paths before abort:\n"@ + trimmed(listed).take(4000)
    }
}

/// A merge that failed is given up, and the attempt ends with its status and the paths that git
/// listed: without the white space around them, and no more than four thousand characters.
/// Nothing but text from a command that succeeded is passed on.
pub proof fn failed_merge_is_told(
    v: AttemptView,
    merge_status: Seq<char>,
    success: bool,
    status: Seq<char>,
    stdout: Seq<u8>,
    abort: OutcomeView,
)
    requires
        v.phase == AttemptPhaseView::ListConflicts(merge_status),
        abort is Exit || abort is Failed,
    ensures
        ({
            let told = "`"@ + "git merge --no-edit upstream/main"@ + "` failed with status "@
                + merge_status + ". The merge was aborted."@;
            let listed = if success && valid_utf8(stdout) {
                decode_utf8(stdout)
            } else {
                Seq::<char>::empty()
            };
            let w = v.next(OutcomeView::Exit { success, status, stdout });
            &&& w.phase is AbortMerge
            &&& w.next(abort).phase == AttemptPhaseView::Failed(seq![told + conflict_note(listed)])
            &&& w.next(abort).operation() is None
        }),
{
    assert(trimmed(Seq::<char>::empty()) =~= Seq::<char>::empty());
    let listed = if success && valid_utf8(stdout) {
        decode_utf8(stdout)
    } else {
        Seq::<char>::empty()
    };
    let w = v.next(OutcomeView::Exit { success, status, stdout });
    let told = "`"@ + "git merge --no-edit upstream/main"@ + "` failed with status "@
        + merge_status + ". The merge was aborted."@;
    assert(w.phase->AbortMerge_0 =~= told + conflict_note(listed));
}

/// Where the paths could not be listed, the merge is given up all the same, and the message names
/// none.
pub proof fn unlisted_conflicts_are_left_out(
    v: AttemptView,
    merge_status: Seq<char>,
    outcome: OutcomeView,
    abort: OutcomeView,
)
    requires
        v.phase == AttemptPhaseView::ListConflicts(merge_status),
        outcome is Failed,
        abort is Exit || abort is Failed,
    ensures
        v.next(outcome).phase is AbortMerge,
        v.next(outcome).next(abort).phase == AttemptPhaseView::Failed(
            seq![
                "`"@ + "git merge --no-edit upstream/main"@ + "` failed with status "@
                    + merge_status + ". The merge was aborted."@,
            ],
        ),
{
    let told = "`"@ + "git merge --no-edit upstream/main"@ + "` failed with status "@
        + merge_status + ". The merge was aborted."@;
    assert(told + Seq::<char>::empty() =~= told);
}

/// What a run has shown of the checkout.
#[verifier::ext_equal]
pub struct Evidence {
    /// Git listed the changes of the checkout with success, and there were none.
    pub clean: bool,
    /// The fetch succeeded.
    pub fetched: bool,
    /// The pull succeeded, or the merge did after a fetch that had succeeded.
    pub synced: bool,
    /// The build succeeded.
    pub built: bool,
}

/// Nothing has been shown.
pub open spec fn no_evidence() -> Evidence {
    Evidence { clean: false, fetched: false, synced: false, built: false }
}

/// What is shown by a command that an attempt ran in a phase and that ended so.
pub open spec fn shown_by(e: Evidence, phase: AttemptPhaseView, outcome: OutcomeView) -> Evidence {
    match outcome {
        OutcomeView::Exit { success: true, stdout, .. } => match phase {
            AttemptPhaseView::CheckClean => Evidence { clean: stdout.len() == 0, ..e },
            AttemptPhaseView::Fetch => Evidence { fetched: true, ..e },
            AttemptPhaseView::Merge => Evidence { synced: e.fetched, ..e },
            AttemptPhaseView::Pull => Evidence { synced: true, ..e },
            AttemptPhaseView::Build(..) => Evidence { built: true, ..e },
            _ => e,
        },
        _ => e,
    }
}

/// What a run from `v` on has shown whose operations ended with `outcomes`, and the attempt then.
pub open spec fn shown_from(v: AttemptView, e: Evidence, outcomes: Seq<OutcomeView>) -> (
    AttemptView,
    Evidence,
)
    decreases outcomes.len(),
{
    if outcomes.len() == 0 {
        (v, e)
    } else {
        let o = outcomes.first();
        shown_from(v.next(o), shown_by(e, v.phase, o), outcomes.drop_first())
    }
}

/// Whether a phase is one in which the checkout is not changed yet.
pub open spec fn before_changes(phase: AttemptPhaseView) -> bool {
    phase is CheckClean || phase is Failed
}

/// Whether a phase comes before the checkout is up to date.
pub open spec fn before_build(phase: AttemptPhaseView) -> bool {
    before_changes(phase) || phase is FindUpstream || phase is Fetch || phase is Merge
        || phase is ListConflicts || phase is AbortMerge || phase is Pull
}

/// Whether a phase comes before the package is built, or follows a failure.
pub open spec fn before_install(phase: AttemptPhaseView) -> bool {
    before_build(phase) || phase is AskDate || phase is AskTarget || phase is LookUp
        || phase is Lock || phase is Prepare || phase is FindBwrap || phase is Build
        || phase is Discard || (phase matches AttemptPhaseView::Unlock(_, _, failure)
        && failure is Some)
}

/// Whether a run that has shown this can have come to a phase.
pub open spec fn entitled(phase: AttemptPhaseView, e: Evidence) -> bool {
    &&& !before_changes(phase) ==> e.clean
    &&& phase is Merge || phase is ListConflicts || phase is AbortMerge ==> e.fetched
    &&& !before_build(phase) ==> e.synced
    &&& !before_install(phase) ==> e.built
}

proof fn lemma_entitled(v: AttemptView, e: Evidence, outcomes: Seq<OutcomeView>)
    requires
        entitled(v.phase, e),
    ensures
        entitled(shown_from(v, e, outcomes).0.phase, shown_from(v, e, outcomes).1),
    decreases outcomes.len(),
{
    if outcomes.len() > 0 {
        let o = outcomes.first();
        lemma_entitled(v.next(o), shown_by(e, v.phase, o), outcomes.drop_first());
    }
}

/// Over a whole run, whatever its operations end with: the checkout is changed only after git
/// listed its changes with success and there were none; from the look at the date on, the last
/// command that was to bring the checkout up to date, a pull or the merge after a fetch, had
/// succeeded; and a package is installed only after the build succeeded.
pub proof fn nothing_is_built_from_a_stale_checkout(
    build_dir: Seq<u8>,
    latest_version: Seq<char>,
    pid: nat,
    outcomes: Seq<OutcomeView>,
)
    ensures
        ({
            let (w, e) = shown_from(
                AttemptView::start(build_dir, latest_version, pid),
                no_evidence(),
                outcomes,
            );
            &&& w.phase is FindUpstream || w.phase is Fetch || w.phase is Merge || w.phase is Pull
                ==> e.clean
            &&& w.phase is Merge ==> e.fetched
            &&& w.phase is AskDate || w.phase is AskTarget || w.phase is LookUp || w.phase is Lock
                || w.phase is Prepare || w.phase is FindBwrap || w.phase is Build
                || w.phase is Discard ==> e.clean && e.synced
            &&& w.phase is Install || w.phase is Succeeded ==> e.clean && e.synced && e.built
        }),
{
    lemma_entitled(
        AttemptView::start(build_dir, latest_version, pid),
        no_evidence(),
        outcomes,
    );
}

// ---------------------------------------------------------------------------------------------
// Version and target
// ---------------------------------------------------------------------------------------------

/// The version to show is the date that was written, without the white space around it, or the
/// release to update to where no date was written; either is marked as local.
pub proof fn version_is_the_date_or_the_release(v: AttemptView, outcome: OutcomeView)
    requires
        v.phase is AskDate,
        outcome is Exit || outcome is Failed,
    ensures
        ({
            let date = match outcome {
                OutcomeView::Exit { success, stdout, .. } if success && valid_utf8(stdout) =>
                    trimmed(decode_utf8(stdout)),
                _ => Seq::<char>::empty(),
            };
            v.next(outcome).phase == AttemptPhaseView::AskTarget(
                if date.len() > 0 {
                    date + " local"@
                } else {
                    v.latest_version + " local"@
                },
            )
        }),
{
}

/// Whether some line begins with `host: ` and `target` is the rest of the first one that does.
pub open spec fn first_host_line(all: Seq<Seq<char>>, target: Seq<char>) -> bool {
    exists|i: int|
        #![trigger all[i]]
        0 <= i < all.len() && all[i] == "host: "@ + target && forall|k: int|
            0 <= k < i ==> !"host: "@.is_prefix_of(#[trigger] all[k])
}

proof fn lemma_first_after_prefix(all: Seq<Seq<char>>, prefix: Seq<char>)
    ensures
        match first_after_prefix(all, prefix) {
            Some(rest) => exists|i: int|
                #![trigger all[i]]
                0 <= i < all.len() && all[i] == prefix + rest && forall|k: int|
                    0 <= k < i ==> !prefix.is_prefix_of(#[trigger] all[k]),
            None => forall|k: int| 0 <= k < all.len() ==> !prefix.is_prefix_of(#[trigger] all[k]),
        },
    decreases all.len(),
{
    if all.len() > 0 {
        let rest = all.drop_first();
        if prefix.is_prefix_of(all.first()) {
            assert(all[0] =~= prefix + all[0].skip(prefix.len() as int));
        } else {
            lemma_first_after_prefix(rest, prefix);
            match first_after_prefix(rest, prefix) {
                Some(found) => {
                    let i = choose|i: int|
                        #![trigger rest[i]]
                        0 <= i < rest.len() && rest[i] == prefix + found && forall|k: int|
                            0 <= k < i ==> !prefix.is_prefix_of(#[trigger] rest[k]);
                    assert(all[i + 1] == prefix + found);
                    assert forall|k: int| 0 <= k < i + 1 implies !prefix.is_prefix_of(
                        #[trigger] all[k],
                    ) by {
                        if k > 0 {
                            assert(rest[k - 1] == all[k]);
                        }
                    }
                },
                None => {
                    assert forall|k: int| 0 <= k < all.len() implies !prefix.is_prefix_of(
                        #[trigger] all[k],
                    ) by {
                        if k > 0 {
                            assert(rest[k - 1] == all[k]);
                        }
                    }
                },
            }
        }
    }
}

/// The target is what follows `host: ` on the first line of the compiler's output that begins so.
/// Without such a line, without text, or where the compiler did not succeed, the attempt ends.
pub proof fn target_is_the_host_of_the_compiler(
    v: AttemptView,
    version: Seq<char>,
    success: bool,
    status: Seq<char>,
    stdout: Seq<u8>,
)
    requires
        v.phase == AttemptPhaseView::AskTarget(version),
    ensures
        ({
            let w = v.next(OutcomeView::Exit { success, status, stdout });
            let all = lines(decode_utf8(stdout));
            &&& !success ==> w.phase == AttemptPhaseView::Failed(
                seq![failed_with("rustc -vV"@, status)],
            )
            &&& success && !valid_utf8(stdout) ==> w.phase == AttemptPhaseView::Failed(
                seq![utf8_error_text(stdout)],
            )
            &&& success && valid_utf8(stdout) ==> match w.phase {
                AttemptPhaseView::LookUp(kept, target) => kept == version && first_host_line(
                    all,
                    target,
                ),
                AttemptPhaseView::Failed(told) => told
                    == seq!["`rustc -vV` output did not include a host target"@] && forall|k: int|
                    0 <= k < all.len() ==> !"host: "@.is_prefix_of(#[trigger] all[k]),
                _ => false,
            }
        }),
{
    lemma_first_after_prefix(lines(decode_utf8(stdout)), "host: "@);
}

// ---------------------------------------------------------------------------------------------
// The places
// ---------------------------------------------------------------------------------------------

/// Whether a layout has its places where an environment wants them: the releases below the Codex
/// home, under a name made of the time, the process and the target, and the command in the
/// directory that was asked for, else in `.local/bin` below the home directory.
pub open spec fn placed(
    layout: LayoutView,
    target: Seq<char>,
    codex_home: Seq<u8>,
    home: Seq<u8>,
    install_dir: Option<Seq<u8>>,
    timestamp: nat,
    pid: nat,
) -> bool {
    let root = joined_text(codex_home, "packages/source"@);
    let name = "source-"@ + decimal(timestamp) + "-"@ + decimal(pid) + "-"@ + target;
    &&& layout.source_root == root
    &&& layout.releases_dir == joined_text(root, "releases"@)
    &&& layout.release_dir == joined_text(joined_text(root, "releases"@), name)
    &&& layout.staging_dir == joined_text(root, ".staging-"@ + name)
    &&& layout.current_link == joined_text(root, "current"@)
    &&& install_dir matches Some(dir) ==> layout.visible_bin == joined_text(dir, "codex"@)
    &&& install_dir is None ==> layout.visible_bin == joined_text(
        joined_text(home, ".local/bin"@),
        "codex"@,
    )
}

/// Whether everything that an attempt does in a phase is about one plan: what is built and for
/// which target, where, and which file the lock is.
pub open spec fn about(phase: AttemptPhaseView, plan: PlanView, lock: Seq<u8>, pid: nat) -> bool {
    match phase {
        AttemptPhaseView::Lock(p, l) => p == plan && l.path == lock && l.pid == pid && l.root
            == plan.layout.source_root,
        AttemptPhaseView::Prepare(p, l, s) => p == plan && l == lock && s.root
            == plan.layout.source_root && s.releases_dir == plan.layout.releases_dir,
        AttemptPhaseView::FindBwrap(p, l) => p == plan && l == lock,
        AttemptPhaseView::Build(p, l, _) => p == plan && l == lock,
        AttemptPhaseView::Discard(l, d, _) => l == lock && d.staging_dir
            == plan.layout.staging_dir,
        AttemptPhaseView::Install(l, i) => l == lock && i.layout == plan.layout && i.pid == pid && (
        i.phase matches InstallPhaseView::Validate(c) ==> c.package_dir == plan.layout.staging_dir
            && c.target == plan.target),
        AttemptPhaseView::Unlock(l, _, _) => l == lock,
        AttemptPhaseView::Succeeded => true,
        AttemptPhaseView::Failed(_) => true,
        _ => false,
    }
}

proof fn lemma_about(
    v: AttemptView,
    plan: PlanView,
    lock: Seq<u8>,
    outcomes: Seq<OutcomeView>,
)
    requires
        about(v.phase, plan, lock, v.pid),
    ensures
        about(run_from(v, false, outcomes).0.phase, plan, lock, v.pid),
    decreases outcomes.len(),
{
    if outcomes.len() > 0 {
        let w = v.next(outcomes.first());
        assert(about(w.phase, plan, lock, v.pid));
        lemma_about(w, plan, lock, outcomes.drop_first());
        attempt_keeps_its_subject(w, outcomes.drop_first());
    }
}

/// The places come from the environment that was looked up: without a home directory the attempt
/// ends; with one, the command that users run is in the directory that was asked for, or else below
/// the home directory. Whatever happens then, up to its end the attempt is about these places: they
/// are locked, built in and, when it comes to that, installed in.
pub proof fn environment_decides_the_places(
    v: AttemptView,
    version: Seq<char>,
    target: Seq<char>,
    codex_home: Seq<u8>,
    home: Option<Seq<u8>>,
    install_dir: Option<Seq<u8>>,
    timestamp: u128,
    outcomes: Seq<OutcomeView>,
)
    requires
        v.phase == AttemptPhaseView::LookUp(version, target),
    ensures
        v.operation() == Some(OperationView::LookUpEnvironment),
        ({
            let w = v.next(
                OutcomeView::Environment { codex_home, home, install_dir, timestamp },
            );
            &&& home is None ==> w.phase == AttemptPhaseView::Failed(
                seq!["HOME is not set; cannot install a source update"@],
            )
            &&& home matches Some(home) ==> {
                &&& w.phase matches AttemptPhaseView::Lock(plan, lock)
                &&& plan.display_version == version
                &&& plan.target == target
                &&& placed(
                    plan.layout,
                    target,
                    codex_home,
                    home,
                    install_dir,
                    timestamp as nat,
                    v.pid,
                )
                &&& lock.phase is MakeRoot
                &&& w.operation() == Some(OperationView::CreateDirAll(plan.layout.source_root))
                &&& lock.path == joined_text(plan.layout.source_root, "update.lock"@)
                &&& about(run_from(w, false, outcomes).0.phase, plan, lock.path, v.pid)
            }
        }),
{
    let w = v.next(OutcomeView::Environment { codex_home, home, install_dir, timestamp });
    match w.phase {
        AttemptPhaseView::Lock(plan, lock) => lemma_about(w, plan, lock.path, outcomes),
        _ => {},
    }
}

// ---------------------------------------------------------------------------------------------
// Building and installing
// ---------------------------------------------------------------------------------------------

/// A lock that was got leads to the preparation of the build, one that was refused to the end.
pub proof fn only_the_holder_of_the_lock_builds(
    v: AttemptView,
    plan: PlanView,
    lock: LockView,
    outcome: OutcomeView,
)
    requires
        v.phase == AttemptPhaseView::Lock(plan, lock),
    ensures
        v.operation() == lock.operation(),
        match lock.next(outcome).phase {
            LockPhaseView::Held => v.next(outcome).phase matches AttemptPhaseView::Prepare(
                p,
                l,
                staging,
            ) && p == plan && l == lock.next(outcome).path && staging.root == plan.layout.source_root
                && staging.releases_dir == plan.layout.releases_dir,
            LockPhaseView::Refused(why) => v.next(outcome).phase == AttemptPhaseView::Failed(why),
            _ => v.next(outcome).phase == AttemptPhaseView::Lock(plan, lock.next(outcome)),
        },
{
}

/// When the staging directory is ready, a bubblewrap is looked for exactly where the target is a
/// Linux; whether or not one is found, the build follows.
pub proof fn bwrap_is_looked_for_on_linux(
    v: AttemptView,
    plan: PlanView,
    lock: Seq<u8>,
    outcome: OutcomeView,
)
    ensures
        (v.phase matches AttemptPhaseView::Prepare(p, l, staging) && p == plan && l == lock
            && staging.next(outcome).phase is Ready) ==> v.next(outcome).phase == (if has_text(
            plan.target,
            "linux"@,
        ) {
            AttemptPhaseView::FindBwrap(plan, lock)
        } else {
            AttemptPhaseView::Build(plan, lock, None)
        }),
        (v.phase matches AttemptPhaseView::Prepare(p, l, staging) && l == lock
            && staging.next(outcome).phase is Failed) ==> v.next(outcome).phase
            == AttemptPhaseView::Unlock(
            lock,
            Seq::empty(),
            Some(v.phase->Prepare_2.next(outcome).phase->Failed_0),
        ),
        v.phase == AttemptPhaseView::FindBwrap(plan, lock) ==> v.operation() == Some(
            OperationView::FindBwrap,
        ),
        v.phase == AttemptPhaseView::FindBwrap(plan, lock) ==> match outcome {
            OutcomeView::Path(found) => v.next(outcome).phase == AttemptPhaseView::Build(
                plan,
                lock,
                found,
            ),
            OutcomeView::Failed { .. } => v.next(outcome).phase == AttemptPhaseView::Build(
                plan,
                lock,
                None,
            ),
            _ => true,
        },
{
}

/// A build that succeeded is checked in the staging directory of its plan, for the target of its
/// plan. One that did not, or could not be run, is told and what it left is looked for.
pub proof fn builds_are_checked_or_discarded(
    v: AttemptView,
    plan: PlanView,
    lock: Seq<u8>,
    bwrap: Option<Seq<u8>>,
    status: Seq<char>,
    stdout: Seq<u8>,
    outcome: OutcomeView,
)
    requires
        v.phase == AttemptPhaseView::Build(plan, lock, bwrap),
    ensures
        ({
            let w = v.next(OutcomeView::Exit { success: true, status, stdout });
            &&& w.phase matches AttemptPhaseView::Install(l, install)
            &&& l == lock
            &&& install.layout == plan.layout
            &&& install.pid == v.pid
            &&& install.previous is None
            &&& install.warning is None
            &&& install.phase matches InstallPhaseView::Validate(check)
            &&& check.package_dir == plan.layout.staging_dir
            &&& check.target == plan.target
            &&& check.phase is ReadMetadata
            &&& w.operation() == Some(
                OperationView::ReadFile(
                    joined_text(plan.layout.staging_dir, "codex-package.json"@),
                ),
            )
        }),
        ({
            let w = v.next(OutcomeView::Exit { success: false, status, stdout });
            &&& w.phase matches AttemptPhaseView::Discard(l, discard, told)
            &&& l == lock
            &&& discard.staging_dir == plan.layout.staging_dir
            &&& discard.phase is LookDir
            &&& told == seq![failed_with("build Codex source package"@, status)]
        }),
        outcome matches OutcomeView::Failed { failure, .. } ==> {
            &&& v.next(outcome).phase matches AttemptPhaseView::Discard(l, discard, told)
            &&& l == lock
            &&& discard.staging_dir == plan.layout.staging_dir
            &&& told == failure
        },
{
}

/// What users are told of an installation that is complete: the warning where old releases could
/// not be removed, then the places of the release, of the link to it and of the command.
pub open spec fn tells_of_places(notices: Seq<NoticeView>, install: InstallView) -> bool {
    let n: int = if install.warning is Some {
        1
    } else {
        0
    };
    &&& notices.len() == n + 3
    &&& install.warning matches Some(f) ==> notices[0] == NoticeView::Warning(
        "Warning: could not prune old Codex source releases: "@ + detail_of(f),
    )
    &&& notices[n] == NoticeView::Line(
        "Installed complete source package to "@ + displayed(install.layout.release_dir),
    )
    &&& notices[n + 1] == NoticeView::Line(
        "Active source package: "@ + displayed(install.layout.current_link),
    )
    &&& notices[n + 2] == NoticeView::Line(
        "Codex command: "@ + displayed(install.layout.visible_bin),
    )
}

proof fn lemma_after_install(
    v: AttemptView,
    lock: Seq<u8>,
    install: InstallView,
    given_back: OutcomeView,
)
    requires
        v.phase == after_install(lock, install),
        given_back is Done || given_back is Failed,
    ensures
        install.phase is Installed ==> tells_of_places(v.notices(), install) && v.operation()
            == Some(OperationView::RemoveFile(lock)) && v.next(given_back).phase is Succeeded,
        install.phase is RolledBack || install.phase is Failed ==> v.notices().len() == 0
            && v.operation() == Some(OperationView::RemoveFile(lock)),
        install.phase matches InstallPhaseView::RolledBack(why) ==> v.next(given_back).phase
            == AttemptPhaseView::Failed(why),
        install.phase matches InstallPhaseView::Failed(why) ==> v.next(given_back).phase
            == AttemptPhaseView::Failed(why),
{
}

/// What came of an installation is what comes of the attempt, once the lock has been given back:
/// a release that is installed is reported with its places, and every other end is a failure for
/// the reason of the installation.
pub proof fn installation_decides_the_attempt(
    v: AttemptView,
    lock: Seq<u8>,
    install: InstallView,
    outcome: OutcomeView,
    given_back: OutcomeView,
)
    requires
        v.phase == AttemptPhaseView::Install(lock, install),
        given_back is Done || given_back is Failed,
    ensures
        ({
            let end = install.next(outcome);
            let w = v.next(outcome);
            &&& end.phase is Installed ==> tells_of_places(w.notices(), end) && w.operation()
                == Some(OperationView::RemoveFile(lock)) && w.next(given_back).phase is Succeeded
            &&& end.phase is RolledBack || end.phase is Failed ==> w.notices().len() == 0
                && w.operation() == Some(OperationView::RemoveFile(lock))
            &&& end.phase matches InstallPhaseView::RolledBack(why) ==> w.next(given_back).phase
                == AttemptPhaseView::Failed(why)
            &&& end.phase matches InstallPhaseView::Failed(why) ==> w.next(given_back).phase
                == AttemptPhaseView::Failed(why)
        }),
{
    lemma_after_install(v.next(outcome), lock, install.next(outcome), given_back);
}

/// What a failed build left is removed before the lock is given back, and the attempt then ends
/// with the reason for which the build failed.
pub proof fn discarding_keeps_the_reason(
    v: AttemptView,
    lock: Seq<u8>,
    why: Seq<Seq<char>>,
    outcome: OutcomeView,
    given_back: OutcomeView,
)
    requires
        v.phase matches AttemptPhaseView::Discard(l, _, f) && l == lock && f == why,
        given_back is Done || given_back is Failed,
    ensures
        ({
            let w = v.next(outcome);
            &&& v.operation() == v.phase->Discard_1.operation()
            &&& if v.phase->Discard_1.next(outcome).phase is Over {
                &&& w.operation() == Some(OperationView::RemoveFile(lock))
                &&& w.notices().len() == 0
                &&& w.next(given_back).phase == AttemptPhaseView::Failed(why)
            } else {
                w.phase == AttemptPhaseView::Discard(
                    lock,
                    v.phase->Discard_1.next(outcome),
                    why,
                )
            }
        }),
{
}

/// Users are told which command is run before each one that takes its time, and nothing before
/// the others.
pub proof fn long_commands_are_announced(v: AttemptView)
    ensures
        v.phase is Fetch ==> v.notices() == seq![
            NoticeView::Line("Running `"@ + "git fetch upstream main"@ + "`..."@),
        ],
        v.phase is Merge ==> v.notices() == seq![
            NoticeView::Line("Running `"@ + "git merge --no-edit upstream/main"@ + "`..."@),
        ],
        v.phase is Pull ==> v.notices() == seq![
            NoticeView::Line("Running `"@ + "git pull --ff-only"@ + "`..."@),
        ],
        v.phase is Build ==> v.notices() == seq![
            NoticeView::Line("Running `"@ + "build Codex source package"@ + "`..."@),
        ],
        !(v.phase is Fetch) && !(v.phase is Merge) && !(v.phase is Pull) && !(v.phase is Build)
            && !(v.phase is Unlock) ==> v.notices().len() == 0,
{
}

/// An attempt begins with the look at the changes of its checkout, for the process that makes it.
pub proof fn attempts_begin_with_the_checkout(
    build_dir: Seq<u8>,
    latest_version: Seq<char>,
    pid: nat,
)
    ensures
        AttemptView::start(build_dir, latest_version, pid).phase is CheckClean,
        AttemptView::start(build_dir, latest_version, pid).build_dir == build_dir,
        AttemptView::start(build_dir, latest_version, pid).latest_version == latest_version,
        AttemptView::start(build_dir, latest_version, pid).pid == pid,
{
}

/// An outcome that does not answer the pending operation changes nothing.
pub proof fn attempt_hears_only_answers(v: AttemptView, outcome: OutcomeView)
    requires
        settled(v.phase),
        !answers(v.operation(), outcome),
    ensures
        v.next(outcome) == v,
{
    match v.phase {
        AttemptPhaseView::Lock(_, lock) => lock_hears_only_answers(lock, outcome),
        AttemptPhaseView::Prepare(_, _, staging) => preparation_hears_only_answers(
            staging,
            outcome,
        ),
        AttemptPhaseView::Discard(_, discard, _) => removal_hears_only_answers(discard, outcome),
        AttemptPhaseView::Install(_, install) => installation_hears_only_answers(install, outcome),
        _ => {},
    }
}

} // verus!
