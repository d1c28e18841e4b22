//! One attempt at a source update: the checkout is brought up to date, the package is built, and
//! what was built is installed.

use crate::checkout::{
    abort_args, abort_command, check_command, checked, conflicted_paths, conflicts_args,
    conflicts_command, ensure_source_checkout_clean, fetch_args, fetch_command, git_command,
    merge_args, merge_command, merge_failure, merge_failure_text, pull_args, pull_command,
    read_conflicts, running_notice, running_text, status_args, status_command, unclean,
    upstream_args, upstream_command,
};
use crate::command::{option_view, CommandLine, CommandView};
use crate::failure::{detail_of, Failure};
use crate::install_laws::{install_on_course, install_over, installation_goes_on_until_over};
use crate::installer::{
    install_source_package, report_lines, InstallPhaseView, InstallView, Installer,
};
use crate::io::{failure_view, operation_view, Operation, OperationView, Outcome, OutcomeView};
use crate::layout::{environment_layout, no_home, LayoutView, SourceInstallLayout};
use crate::lock::{
    LockAcquisition, LockPhase, LockPhaseView, LockView, SourceUpdateLock,
};
use crate::notice::{
    add_out_lines, duplicate_notices, notice_views, out_lines, Notice, NoticeView,
};
use crate::os_text::OsText;
use crate::packaging::{
    date_command, date_command_view, date_of, display_version, host_target, package_command,
    packs_bwrap, recording, source_build_target, source_package_build_command,
    source_update_display_version, target_command, target_command_view, target_packs_bwrap,
    with_build_record, with_bwrap, with_system_bwrap,
};
use crate::staging::{
    discard_staging_dir, preparation_goes_on_until_over, prepare_staging_dir, DiscardPhase,
    DiscardView, StagingDiscard, StagingPhase, StagingPhaseView, StagingPreparation, StagingView,
};
use crate::text::text_view;
use vstd::prelude::*;

verus! {

// ---------------------------------------------------------------------------------------------
// Phases
// ---------------------------------------------------------------------------------------------

/// What is built, and where it is installed.
#[derive(Debug, PartialEq, Eq)]
pub struct Plan {
    pub display_version: String,
    pub target: String,
    pub layout: SourceInstallLayout,
}

/// What is built, and where it is installed, as a value of mathematics.
#[verifier::ext_equal]
pub struct PlanView {
    /// The version to show.
    pub display_version: Seq<char>,
    /// What it is built for.
    pub target: Seq<char>,
    pub layout: LayoutView,
}

impl View for Plan {
    type V = PlanView;

    open spec fn view(&self) -> PlanView {
        PlanView {
            display_version: self.display_version@,
            target: self.target@,
            layout: self.layout@,
        }
    }
}

/// How far an attempt has come.
#[derive(Debug, PartialEq, Eq)]
pub enum AttemptPhase {
    /// The checkout must hold no uncommitted changes.
    CheckClean,
    /// It is found out whether there is a remote `upstream`.
    FindUpstream,
    /// The main branch of `upstream` is fetched.
    Fetch,
    /// The main branch of `upstream` is merged.
    Merge,
    /// The merge ended with the given status: the paths it could not settle are listed.
    ListConflicts(String),
    /// The merge is given up, after which the given message is what is said of it.
    AbortMerge(String),
    /// There is no remote `upstream`: the checkout is pulled.
    Pull,
    /// Today's date is looked up.
    AskDate,
    /// The target that the compiler builds for is looked up; the version to show is known.
    AskTarget(String),
    /// The places to install in are looked up; the version to show and the target are known.
    LookUp(String, String),
    /// The lock is got.
    Lock(Plan, LockAcquisition),
    /// What earlier builds left is cleared away.
    Prepare(Plan, SourceUpdateLock, StagingPreparation),
    /// The bubblewrap of the system is looked for.
    FindBwrap(Plan, SourceUpdateLock),
    /// The package is built.
    Build(Plan, SourceUpdateLock, Option<OsText>),
    /// The build failed: what it left is removed.
    Discard(SourceUpdateLock, StagingDiscard, Failure),
    /// The package is installed.
    Install(SourceUpdateLock, Installer),
    /// The lock is given back, after the given lines for the user and the failure where there was
    /// one.
    Unlock(SourceUpdateLock, Vec<Notice>, Option<Failure>),
    Succeeded,
    Failed(Failure),
}

/// How far an attempt has come, as a value of mathematics. The lock is the file that it is.
#[verifier::ext_equal]
pub enum AttemptPhaseView {
    CheckClean,
    FindUpstream,
    Fetch,
    Merge,
    ListConflicts(Seq<char>),
    AbortMerge(Seq<char>),
    Pull,
    AskDate,
    AskTarget(Seq<char>),
    LookUp(Seq<char>, Seq<char>),
    Lock(PlanView, LockView),
    Prepare(PlanView, Seq<u8>, StagingView),
    FindBwrap(PlanView, Seq<u8>),
    Build(PlanView, Seq<u8>, Option<Seq<u8>>),
    Discard(Seq<u8>, DiscardView, Seq<Seq<char>>),
    Install(Seq<u8>, InstallView),
    Unlock(Seq<u8>, Seq<NoticeView>, Option<Seq<Seq<char>>>),
    Succeeded,
    Failed(Seq<Seq<char>>),
}

impl View for AttemptPhase {
    type V = AttemptPhaseView;

    open spec fn view(&self) -> AttemptPhaseView {
        match self {
            AttemptPhase::CheckClean => AttemptPhaseView::CheckClean,
            AttemptPhase::FindUpstream => AttemptPhaseView::FindUpstream,
            AttemptPhase::Fetch => AttemptPhaseView::Fetch,
            AttemptPhase::Merge => AttemptPhaseView::Merge,
            AttemptPhase::ListConflicts(s) => AttemptPhaseView::ListConflicts(s@),
            AttemptPhase::AbortMerge(m) => AttemptPhaseView::AbortMerge(m@),
            AttemptPhase::Pull => AttemptPhaseView::Pull,
            AttemptPhase::AskDate => AttemptPhaseView::AskDate,
            AttemptPhase::AskTarget(d) => AttemptPhaseView::AskTarget(d@),
            AttemptPhase::LookUp(d, t) => AttemptPhaseView::LookUp(d@, t@),
            AttemptPhase::Lock(p, l) => AttemptPhaseView::Lock(p@, l@),
            AttemptPhase::Prepare(p, l, s) => AttemptPhaseView::Prepare(p@, l@, s@),
            AttemptPhase::FindBwrap(p, l) => AttemptPhaseView::FindBwrap(p@, l@),
            AttemptPhase::Build(p, l, b) => AttemptPhaseView::Build(p@, l@, option_view(*b)),
            AttemptPhase::Discard(l, d, f) => AttemptPhaseView::Discard(l@, d@, f@),
            AttemptPhase::Install(l, i) => AttemptPhaseView::Install(l@, i@),
            AttemptPhase::Unlock(l, n, f) => AttemptPhaseView::Unlock(
                l@,
                notice_views(n@),
                failure_view(*f),
            ),
            AttemptPhase::Succeeded => AttemptPhaseView::Succeeded,
            AttemptPhase::Failed(f) => AttemptPhaseView::Failed(f@),
        }
    }
}

/// An attempt at a source update.
#[derive(Debug, PartialEq, Eq)]
pub struct UpdateAttempt {
    build_dir: OsText,
    latest_version: String,
    pid: u32,
    phase: AttemptPhase,
}

/// An attempt at a source update, as a value of mathematics.
#[verifier::ext_equal]
pub struct AttemptView {
    /// The checkout.
    pub build_dir: Seq<u8>,
    /// The release to update to.
    pub latest_version: Seq<char>,
    /// The process that updates.
    pub pid: nat,
    pub phase: AttemptPhaseView,
}

impl View for UpdateAttempt {
    type V = AttemptView;

    closed spec fn view(&self) -> AttemptView {
        AttemptView {
            build_dir: self.build_dir@,
            latest_version: self.latest_version@,
            pid: self.pid as nat,
            phase: self.phase@,
        }
    }
}

// ---------------------------------------------------------------------------------------------
// From phase to phase
// ---------------------------------------------------------------------------------------------

/// The phase in which the lock is given back after a failure.
pub open spec fn unlocking(lock: Seq<u8>, failure: Seq<Seq<char>>) -> AttemptPhaseView {
    AttemptPhaseView::Unlock(lock, Seq::empty(), Some(failure))
}

/// The phase that getting the lock leads to.
pub open spec fn after_lock(plan: PlanView, lock: LockView) -> AttemptPhaseView {
    match lock.phase {
        LockPhaseView::Held => AttemptPhaseView::Prepare(
            plan,
            lock.path,
            StagingView::start(plan.layout),
        ),
        LockPhaseView::Refused(f) => AttemptPhaseView::Failed(f),
        _ => AttemptPhaseView::Lock(plan, lock),
    }
}

/// The phase that the preparation for the build leads to.
pub open spec fn after_prepare(
    plan: PlanView,
    lock: Seq<u8>,
    staging: StagingView,
) -> AttemptPhaseView {
    match staging.phase {
        StagingPhaseView::Ready => if packs_bwrap(plan.target) {
            AttemptPhaseView::FindBwrap(plan, lock)
        } else {
            AttemptPhaseView::Build(plan, lock, None)
        },
        StagingPhaseView::Failed(f) => unlocking(lock, f),
        _ => AttemptPhaseView::Prepare(plan, lock, staging),
    }
}

/// The phase in which what a failed build left is removed.
pub open spec fn discarding(
    plan: PlanView,
    lock: Seq<u8>,
    failure: Seq<Seq<char>>,
) -> AttemptPhaseView {
    AttemptPhaseView::Discard(
        lock,
        DiscardView { staging_dir: plan.layout.staging_dir, phase: DiscardPhase::LookDir },
        failure,
    )
}

/// The phase that the removal of what a failed build left leads to.
pub open spec fn after_discard(
    lock: Seq<u8>,
    discard: DiscardView,
    failure: Seq<Seq<char>>,
) -> AttemptPhaseView {
    match discard.phase {
        DiscardPhase::Over => unlocking(lock, failure),
        _ => AttemptPhaseView::Discard(lock, discard, failure),
    }
}

/// What the user is told of an installation that succeeded.
pub open spec fn install_notices(install: InstallView) -> Seq<NoticeView> {
    (match install.warning {
        Some(f) => seq![
            NoticeView::Warning(
                "Warning: could not prune old Codex source releases: "@ + detail_of(f),
            ),
        ],
        None => Seq::empty(),
    }) + out_lines(report_lines(install.layout))
}

/// The phase that the installation leads to.
pub open spec fn after_install(lock: Seq<u8>, install: InstallView) -> AttemptPhaseView {
    match install.phase {
        InstallPhaseView::Installed => AttemptPhaseView::Unlock(
            lock,
            install_notices(install),
            None,
        ),
        InstallPhaseView::RolledBack(f) => unlocking(lock, f),
        InstallPhaseView::Failed(f) => unlocking(lock, f),
        _ => AttemptPhaseView::Install(lock, install),
    }
}

/// The phase after the lock was given back.
pub open spec fn after_unlock(failure: Option<Seq<Seq<char>>>) -> AttemptPhaseView {
    match failure {
        Some(f) => AttemptPhaseView::Failed(f),
        None => AttemptPhaseView::Succeeded,
    }
}

/// The phase after a command came to its end that must succeed.
pub open spec fn after_checked(
    message: Option<Seq<char>>,
    next: AttemptPhaseView,
) -> AttemptPhaseView {
    match message {
        Some(message) => AttemptPhaseView::Failed(seq![message]),
        None => next,
    }
}

impl AttemptView {
    /// An attempt that has not begun.
    pub open spec fn start(build_dir: Seq<u8>, latest_version: Seq<char>, pid: nat) -> AttemptView {
        AttemptView { build_dir, latest_version, pid, phase: AttemptPhaseView::CheckClean }
    }

    /// The attempt in another phase.
    pub open spec fn to(self, phase: AttemptPhaseView) -> AttemptView {
        AttemptView { phase, ..self }
    }

    /// The command that builds the package.
    pub open spec fn build_command(self, plan: PlanView, bwrap: Option<Seq<u8>>) -> CommandView {
        recording(
            with_bwrap(
                package_command(self.build_dir, plan.layout.staging_dir, plan.target),
                bwrap,
            ),
            plan.display_version,
            self.build_dir,
            self.latest_version,
        )
    }

    /// What is to be done next; nothing once the attempt is over.
    pub open spec fn operation(self) -> Option<OperationView> {
        let dir = self.build_dir;
        match self.phase {
            AttemptPhaseView::CheckClean => Some(
                OperationView::Capture(git_command(dir, status_args())),
            ),
            AttemptPhaseView::FindUpstream => Some(
                OperationView::Capture(git_command(dir, upstream_args())),
            ),
            AttemptPhaseView::Fetch => Some(OperationView::Run(git_command(dir, fetch_args()))),
            AttemptPhaseView::Merge => Some(OperationView::Run(git_command(dir, merge_args()))),
            AttemptPhaseView::ListConflicts(_) => Some(
                OperationView::Capture(git_command(dir, conflicts_args())),
            ),
            AttemptPhaseView::AbortMerge(_) => Some(
                OperationView::Run(git_command(dir, abort_args())),
            ),
            AttemptPhaseView::Pull => Some(OperationView::Run(git_command(dir, pull_args()))),
            AttemptPhaseView::AskDate => Some(OperationView::Capture(date_command_view())),
            AttemptPhaseView::AskTarget(_) => Some(OperationView::Capture(target_command_view())),
            AttemptPhaseView::LookUp(..) => Some(OperationView::LookUpEnvironment),
            AttemptPhaseView::Lock(_, lock) => lock.operation(),
            AttemptPhaseView::Prepare(_, _, staging) => staging.operation(),
            AttemptPhaseView::FindBwrap(..) => Some(OperationView::FindBwrap),
            AttemptPhaseView::Build(plan, _, bwrap) => Some(
                OperationView::Run(self.build_command(plan, bwrap)),
            ),
            AttemptPhaseView::Discard(_, discard, _) => discard.operation(),
            AttemptPhaseView::Install(_, install) => install.operation(),
            AttemptPhaseView::Unlock(lock, _, _) => Some(OperationView::RemoveFile(lock)),
            AttemptPhaseView::Succeeded => None,
            AttemptPhaseView::Failed(_) => None,
        }
    }

    /// What the user is told before the pending operation is performed.
    pub open spec fn notices(self) -> Seq<NoticeView> {
        match self.phase {
            AttemptPhaseView::Fetch => out_lines(seq![running_text("git fetch upstream main"@)]),
            AttemptPhaseView::Merge => out_lines(
                seq![running_text("git merge --no-edit upstream/main"@)],
            ),
            AttemptPhaseView::Pull => out_lines(seq![running_text("git pull --ff-only"@)]),
            AttemptPhaseView::Build(..) => out_lines(
                seq![running_text("build Codex source package"@)],
            ),
            AttemptPhaseView::Unlock(_, notices, _) => notices,
            _ => Seq::empty(),
        }
    }

    /// The phase after the environment was looked up.
    pub open spec fn after_look_up(
        self,
        display_version: Seq<char>,
        target: Seq<char>,
        layout: Option<LayoutView>,
    ) -> AttemptPhaseView {
        match layout {
            Some(layout) => after_lock(
                PlanView { display_version, target, layout },
                LockView::start(layout.source_root, layout.lock_file(), self.pid),
            ),
            None => AttemptPhaseView::Failed(no_home()),
        }
    }

    /// The phase after the build came to its end.
    pub open spec fn after_build(
        self,
        plan: PlanView,
        lock: Seq<u8>,
        success: bool,
        status: Seq<char>,
    ) -> AttemptPhaseView {
        match checked("build Codex source package"@, success, status) {
            Some(message) => discarding(plan, lock, seq![message]),
            None => after_install(lock, InstallView::start(plan.layout, plan.target, self.pid)),
        }
    }

    /// The phase after a command came to its end.
    pub open spec fn after_exit(
        self,
        success: bool,
        status: Seq<char>,
        stdout: Seq<u8>,
    ) -> AttemptPhaseView {
        match self.phase {
            AttemptPhaseView::CheckClean => after_checked(
                unclean(self.build_dir, success, status, stdout),
                AttemptPhaseView::FindUpstream,
            ),
            AttemptPhaseView::FindUpstream => if success {
                AttemptPhaseView::Fetch
            } else {
                AttemptPhaseView::Pull
            },
            AttemptPhaseView::Fetch => after_checked(
                checked("git fetch upstream main"@, success, status),
                AttemptPhaseView::Merge,
            ),
            AttemptPhaseView::Merge => if success {
                AttemptPhaseView::AskDate
            } else {
                AttemptPhaseView::ListConflicts(status)
            },
            AttemptPhaseView::ListConflicts(merge_status) => AttemptPhaseView::AbortMerge(
                merge_failure(merge_status, conflicted_paths(success, stdout)),
            ),
            AttemptPhaseView::AbortMerge(message) => AttemptPhaseView::Failed(seq![message]),
            AttemptPhaseView::Pull => after_checked(
                checked("git pull --ff-only"@, success, status),
                AttemptPhaseView::AskDate,
            ),
            AttemptPhaseView::AskDate => AttemptPhaseView::AskTarget(
                display_version(date_of(success, stdout), self.latest_version),
            ),
            AttemptPhaseView::AskTarget(version) => match host_target(success, status, stdout) {
                Ok(target) => AttemptPhaseView::LookUp(version, target),
                Err(message) => AttemptPhaseView::Failed(seq![message]),
            },
            AttemptPhaseView::Build(plan, lock, _) => self.after_build(plan, lock, success, status),
            other => other,
        }
    }

    /// The phase after an operation of the attempt itself failed. Nothing is made of a failure to
    /// list conflicts, to give up a merge, or to look up the date.
    pub open spec fn after_failure(self, failure: Seq<Seq<char>>) -> AttemptPhaseView {
        match self.phase {
            AttemptPhaseView::CheckClean => AttemptPhaseView::Failed(failure),
            AttemptPhaseView::FindUpstream => AttemptPhaseView::Failed(failure),
            AttemptPhaseView::Fetch => AttemptPhaseView::Failed(failure),
            AttemptPhaseView::Merge => AttemptPhaseView::Failed(failure),
            AttemptPhaseView::ListConflicts(status) => AttemptPhaseView::AbortMerge(
                merge_failure(status, None),
            ),
            AttemptPhaseView::AbortMerge(message) => AttemptPhaseView::Failed(seq![message]),
            AttemptPhaseView::Pull => AttemptPhaseView::Failed(failure),
            AttemptPhaseView::AskDate => AttemptPhaseView::AskTarget(
                display_version(None, self.latest_version),
            ),
            AttemptPhaseView::AskTarget(_) => AttemptPhaseView::Failed(failure),
            AttemptPhaseView::LookUp(..) => AttemptPhaseView::Failed(failure),
            AttemptPhaseView::FindBwrap(plan, lock) => AttemptPhaseView::Build(plan, lock, None),
            AttemptPhaseView::Build(plan, lock, _) => discarding(plan, lock, failure),
            AttemptPhaseView::Unlock(_, _, f) => after_unlock(f),
            other => other,
        }
    }

    /// The phase after an operation of the attempt itself ended so.
    pub open spec fn after_own(self, outcome: OutcomeView) -> AttemptPhaseView {
        match outcome {
            OutcomeView::Exit { success, status, stdout } => self.after_exit(
                success,
                status,
                stdout,
            ),
            OutcomeView::Failed { failure, .. } => self.after_failure(failure),
            OutcomeView::Environment { codex_home, home, install_dir, timestamp } => {
                match self.phase {
                    AttemptPhaseView::LookUp(version, target) => self.after_look_up(
                        version,
                        target,
                        environment_layout(
                            target,
                            codex_home,
                            home,
                            install_dir,
                            timestamp as nat,
                            self.pid,
                        ),
                    ),
                    other => other,
                }
            },
            OutcomeView::Path(bwrap) => match self.phase {
                AttemptPhaseView::FindBwrap(plan, lock) => AttemptPhaseView::Build(
                    plan,
                    lock,
                    bwrap,
                ),
                other => other,
            },
            OutcomeView::Done => match self.phase {
                AttemptPhaseView::Unlock(_, _, f) => after_unlock(f),
                other => other,
            },
            _ => self.phase,
        }
    }

    /// The attempt after its pending operation ended so. An outcome that does not answer that
    /// operation changes nothing.
    pub open spec fn next(self, outcome: OutcomeView) -> AttemptView {
        self.to(
            match self.phase {
                AttemptPhaseView::Lock(plan, lock) => after_lock(plan, lock.next(outcome)),
                AttemptPhaseView::Prepare(plan, lock, staging) => after_prepare(
                    plan,
                    lock,
                    staging.next(outcome),
                ),
                AttemptPhaseView::Discard(lock, discard, f) => after_discard(
                    lock,
                    discard.next(outcome),
                    f,
                ),
                AttemptPhaseView::Install(lock, install) => after_install(
                    lock,
                    install.next(outcome),
                ),
                _ => self.after_own(outcome),
            },
        )
    }
}

/// The phase in which the lock is given back after a failure.
fn unlock_after(lock: SourceUpdateLock, failure: Failure) -> (r: AttemptPhase)
    ensures
        r@ == unlocking(lock@, failure@),
{
    let notices: Vec<Notice> = Vec::new();
    assert(notice_views(notices@) =~= Seq::<NoticeView>::empty());
    AttemptPhase::Unlock(lock, notices, Some(failure))
}

/// The phase that getting the lock leads to.
fn settle_lock(plan: Plan, lock: LockAcquisition) -> (r: AttemptPhase)
    ensures
        r@ == after_lock(plan@, lock@),
{
    if let Some(held) = lock.held() {
        let staging = prepare_staging_dir(&plan.layout);
        return AttemptPhase::Prepare(plan, held, staging);
    }
    match lock.phase() {
        LockPhase::Refused(f) => AttemptPhase::Failed(f.duplicate()),
        _ => AttemptPhase::Lock(plan, lock),
    }
}

/// The phase that the preparation for the build leads to.
fn settle_prepare(plan: Plan, lock: SourceUpdateLock, staging: StagingPreparation) -> (r:
    AttemptPhase)
    ensures
        r@ == after_prepare(plan@, lock@, staging@),
{
    match staging.phase() {
        StagingPhase::Ready => if target_packs_bwrap(plan.target.as_str()) {
            AttemptPhase::FindBwrap(plan, lock)
        } else {
            AttemptPhase::Build(plan, lock, None)
        },
        StagingPhase::Failed(f) => unlock_after(lock, f.duplicate()),
        _ => AttemptPhase::Prepare(plan, lock, staging),
    }
}

/// The phase in which what a failed build left is removed.
fn discard_after(plan: &Plan, lock: SourceUpdateLock, failure: Failure) -> (r: AttemptPhase)
    ensures
        r@ == discarding(plan@, lock@, failure@),
{
    AttemptPhase::Discard(lock, discard_staging_dir(&plan.layout), failure)
}

/// The phase that the removal of what a failed build left leads to.
fn settle_discard(lock: SourceUpdateLock, discard: StagingDiscard, failure: Failure) -> (r:
    AttemptPhase)
    ensures
        r@ == after_discard(lock@, discard@, failure@),
{
    match discard.phase() {
        DiscardPhase::Over => unlock_after(lock, failure),
        _ => AttemptPhase::Discard(lock, discard, failure),
    }
}

/// What the user is told of an installation that succeeded.
fn notices_of_install(install: &Installer) -> (r: Vec<Notice>)
    ensures
        notice_views(r@) == install_notices(install@),
{
    let mut r: Vec<Notice> = Vec::new();
    if let Some(warning) = install.warning() {
        r.push(Notice::Warning(warning));
    }
    let ghost first = match install@.warning {
        Some(f) => seq![
            NoticeView::Warning(
                "Warning: could not prune old Codex source releases: "@ + detail_of(f),
            ),
        ],
        None => Seq::<NoticeView>::empty(),
    };
    assert(notice_views(r@) =~= first);
    add_out_lines(&mut r, &install.report());
    r
}

/// The phase that the installation leads to.
fn settle_install(lock: SourceUpdateLock, install: Installer) -> (r: AttemptPhase)
    ensures
        r@ == after_install(lock@, install@),
{
    match install.result() {
        Some(Ok(())) => {
            let notices = notices_of_install(&install);
            AttemptPhase::Unlock(lock, notices, None)
        },
        Some(Err(f)) => unlock_after(lock, f),
        None => AttemptPhase::Install(lock, install),
    }
}

/// The phase after the lock was given back.
fn settle_unlock(failure: Option<Failure>) -> (r: AttemptPhase)
    ensures
        r@ == after_unlock(failure_view(failure)),
{
    match failure {
        Some(f) => AttemptPhase::Failed(f),
        None => AttemptPhase::Succeeded,
    }
}

/// The phase after a command came to its end that must succeed.
fn settle_checked(message: Option<String>, next: AttemptPhase) -> (r: AttemptPhase)
    ensures
        r@ == after_checked(text_view(message), next@),
{
    match message {
        Some(message) => AttemptPhase::Failed(Failure::new(message)),
        None => next,
    }
}

/// One line for the user.
fn one_notice(text: String) -> (r: Vec<Notice>)
    ensures
        notice_views(r@) == out_lines(seq![text@]),
{
    let r = vec![Notice::Line(text)];
    assert(notice_views(r@) =~= out_lines(seq![text@]));
    r
}

/// An attempt to update the checkout in `build_dir` to `latest_version`, by the process `pid`.
pub fn try_source_git_update(build_dir: &OsText, latest_version: &str, pid: u32) -> (r:
    UpdateAttempt)
    ensures
        r@ == AttemptView::start(build_dir@, latest_version@, pid as nat),
{
    UpdateAttempt {
        build_dir: build_dir.duplicate(),
        latest_version: latest_version.to_owned(),
        pid,
        phase: AttemptPhase::CheckClean,
    }
}

impl UpdateAttempt {
    /// How far the attempt has come.
    pub fn phase(&self) -> (r: &AttemptPhase)
        ensures
            r@ == self@.phase,
    {
        &self.phase
    }

    /// The command that builds the package.
    fn build_command(&self, plan: &Plan, bwrap: &Option<OsText>) -> (r: CommandLine)
        ensures
            r@ == self@.build_command(plan@, option_view(*bwrap)),
    {
        let command = source_package_build_command(
            &self.build_dir,
            plan.layout.staging_dir(),
            plan.target.as_str(),
        );
        with_build_record(
            with_system_bwrap(command, bwrap),
            plan.display_version.as_str(),
            &self.build_dir,
            self.latest_version.as_str(),
        )
    }

    /// What is to be done next; nothing once the attempt is over.
    pub fn operation(&self) -> (r: Option<Operation>)
        ensures
            operation_view(r) == self@.operation(),
    {
        let dir = &self.build_dir;
        match &self.phase {
            AttemptPhase::CheckClean => Some(Operation::Capture(status_command(dir))),
            AttemptPhase::FindUpstream => Some(Operation::Capture(upstream_command(dir))),
            AttemptPhase::Fetch => Some(Operation::Run(fetch_command(dir))),
            AttemptPhase::Merge => Some(Operation::Run(merge_command(dir))),
            AttemptPhase::ListConflicts(_) => Some(Operation::Capture(conflicts_command(dir))),
            AttemptPhase::AbortMerge(_) => Some(Operation::Run(abort_command(dir))),
            AttemptPhase::Pull => Some(Operation::Run(pull_command(dir))),
            AttemptPhase::AskDate => Some(Operation::Capture(date_command())),
            AttemptPhase::AskTarget(_) => Some(Operation::Capture(target_command())),
            AttemptPhase::LookUp(..) => Some(Operation::LookUpEnvironment),
            AttemptPhase::Lock(_, lock) => lock.operation(),
            AttemptPhase::Prepare(_, _, staging) => staging.operation(),
            AttemptPhase::FindBwrap(..) => Some(Operation::FindBwrap),
            AttemptPhase::Build(plan, _, bwrap) => Some(
                Operation::Run(self.build_command(plan, bwrap)),
            ),
            AttemptPhase::Discard(_, discard, _) => discard.operation(),
            AttemptPhase::Install(_, install) => install.operation(),
            AttemptPhase::Unlock(lock, _, _) => Some(lock.release()),
            AttemptPhase::Succeeded => None,
            AttemptPhase::Failed(_) => None,
        }
    }

    /// What to tell the user before the pending operation is performed.
    pub fn notices(&self) -> (r: Vec<Notice>)
        ensures
            notice_views(r@) == self@.notices(),
    {
        match &self.phase {
            AttemptPhase::Fetch => one_notice(running_notice("git fetch upstream main")),
            AttemptPhase::Merge => one_notice(running_notice("git merge --no-edit upstream/main")),
            AttemptPhase::Pull => one_notice(running_notice("git pull --ff-only")),
            AttemptPhase::Build(..) => one_notice(running_notice("build Codex source package")),
            AttemptPhase::Unlock(_, notices, _) => duplicate_notices(notices),
            _ => {
                let r: Vec<Notice> = Vec::new();
                assert(notice_views(r@) =~= Seq::<NoticeView>::empty());
                r
            },
        }
    }

    /// Takes in how a command ended that was run in `phase`.
    fn take_exit(&self, phase: AttemptPhase, success: bool, status: String, stdout: Vec<u8>) -> (r:
        AttemptPhase)
        ensures
            r@ == self@.to(phase@).after_exit(success, status@, stdout@),
    {
        let text = status.as_str();
        match phase {
            AttemptPhase::CheckClean => settle_checked(
                ensure_source_checkout_clean(&self.build_dir, success, text, &stdout),
                AttemptPhase::FindUpstream,
            ),
            AttemptPhase::FindUpstream => if success {
                AttemptPhase::Fetch
            } else {
                AttemptPhase::Pull
            },
            AttemptPhase::Fetch => settle_checked(
                check_command("git fetch upstream main", success, text),
                AttemptPhase::Merge,
            ),
            AttemptPhase::Merge => if success {
                AttemptPhase::AskDate
            } else {
                AttemptPhase::ListConflicts(status)
            },
            AttemptPhase::ListConflicts(merge_status) => {
                let paths = read_conflicts(success, &stdout);
                AttemptPhase::AbortMerge(merge_failure_text(merge_status.as_str(), &paths))
            },
            AttemptPhase::AbortMerge(message) => AttemptPhase::Failed(Failure::new(message)),
            AttemptPhase::Pull => settle_checked(
                check_command("git pull --ff-only", success, text),
                AttemptPhase::AskDate,
            ),
            AttemptPhase::AskDate => AttemptPhase::AskTarget(
                source_update_display_version(self.latest_version.as_str(), success, &stdout),
            ),
            AttemptPhase::AskTarget(version) => match source_build_target(success, text, stdout) {
                Ok(target) => AttemptPhase::LookUp(version, target),
                Err(message) => AttemptPhase::Failed(Failure::new(message)),
            },
            AttemptPhase::Build(plan, lock, _) => match check_command(
                "build Codex source package",
                success,
                text,
            ) {
                Some(message) => discard_after(&plan, lock, Failure::new(message)),
                None => {
                    let install = install_source_package(
                        plan.layout,
                        plan.target.as_str(),
                        self.pid,
                    );
                    settle_install(lock, install)
                },
            },
            other => other,
        }
    }

    /// Takes in that an operation failed that was performed in `phase`.
    fn take_failure(&self, phase: AttemptPhase, failure: Failure) -> (r: AttemptPhase)
        ensures
            r@ == self@.to(phase@).after_failure(failure@),
    {
        match phase {
            AttemptPhase::CheckClean
            | AttemptPhase::FindUpstream
            | AttemptPhase::Fetch
            | AttemptPhase::Merge
            | AttemptPhase::Pull
            | AttemptPhase::AskTarget(_)
            | AttemptPhase::LookUp(..) => AttemptPhase::Failed(failure),
            AttemptPhase::ListConflicts(status) => AttemptPhase::AbortMerge(
                merge_failure_text(status.as_str(), &None),
            ),
            AttemptPhase::AbortMerge(message) => AttemptPhase::Failed(Failure::new(message)),
            AttemptPhase::AskDate => {
                let stdout: Vec<u8> = Vec::new();
                AttemptPhase::AskTarget(
                    source_update_display_version(self.latest_version.as_str(), false, &stdout),
                )
            },
            AttemptPhase::FindBwrap(plan, lock) => AttemptPhase::Build(plan, lock, None),
            AttemptPhase::Build(plan, lock, _) => discard_after(&plan, lock, failure),
            AttemptPhase::Unlock(_, _, f) => settle_unlock(f),
            other => other,
        }
    }

    /// Takes in how an operation ended that was performed in `phase` by the attempt itself.
    fn take_own(&self, phase: AttemptPhase, outcome: Outcome) -> (r: AttemptPhase)
        ensures
            r@ == self@.to(phase@).after_own(outcome@),
    {
        match outcome {
            Outcome::Exit { success, status, stdout } => self.take_exit(
                phase,
                success,
                status,
                stdout,
            ),
            Outcome::Failed { failure, .. } => self.take_failure(phase, failure),
            Outcome::Environment { codex_home, home, install_dir, timestamp } => match phase {
                AttemptPhase::LookUp(display_version, target) => {
                    match SourceInstallLayout::for_environment(
                        target.as_str(),
                        &codex_home,
                        &home,
                        &install_dir,
                        timestamp,
                        self.pid,
                    ) {
                        Ok(layout) => {
                            let lock = SourceUpdateLock::acquire(&layout, self.pid);
                            settle_lock(Plan { display_version, target, layout }, lock)
                        },
                        Err(f) => AttemptPhase::Failed(f),
                    }
                },
                other => other,
            },
            Outcome::Path(bwrap) => match phase {
                AttemptPhase::FindBwrap(plan, lock) => AttemptPhase::Build(plan, lock, bwrap),
                other => other,
            },
            Outcome::Done => match phase {
                AttemptPhase::Unlock(_, _, f) => settle_unlock(f),
                other => other,
            },
            _ => phase,
        }
    }

    /// Takes in how the pending operation ended.
    pub fn advance(&mut self, outcome: Outcome)
        ensures
            final(self)@ == old(self)@.next(outcome@),
    {
        let mut phase = AttemptPhase::Succeeded;
        std::mem::swap(&mut phase, &mut self.phase);
        self.phase = match phase {
            AttemptPhase::Lock(plan, l) => {
                let mut lock = l;
                lock.advance(outcome);
                settle_lock(plan, lock)
            },
            AttemptPhase::Prepare(plan, lock, s) => {
                let mut staging = s;
                staging.advance(outcome);
                settle_prepare(plan, lock, staging)
            },
            AttemptPhase::Discard(lock, d, f) => {
                let mut discard = d;
                discard.advance(outcome);
                settle_discard(lock, discard, f)
            },
            AttemptPhase::Install(lock, i) => {
                let mut install = i;
                install.advance(outcome);
                settle_install(lock, install)
            },
            own => self.take_own(own, outcome),
        };
    }
}

// ---------------------------------------------------------------------------------------------
// What holds of attempts
// ---------------------------------------------------------------------------------------------

/// Whether the process holds the lock after an operation ended so.
pub open spec fn held_after(held: bool, v: AttemptView, outcome: OutcomeView) -> bool {
    match (v.operation(), outcome) {
        (Some(OperationView::CreateNew { .. }), OutcomeView::Done) => true,
        (Some(_), OutcomeView::Done) => held && !(v.phase is Unlock),
        (Some(_), OutcomeView::Failed { .. }) => held && !(v.phase is Unlock),
        _ => held,
    }
}

/// Whether the process holds the lock after the operations from `v` on ended with `outcomes`, and
/// the attempt then.
pub open spec fn run_from(v: AttemptView, held: bool, outcomes: Seq<OutcomeView>) -> (
    AttemptView,
    bool,
)
    decreases outcomes.len(),
{
    if outcomes.len() == 0 {
        (v, held)
    } else {
        let o = outcomes.first();
        run_from(v.next(o), held_after(held, v, o), outcomes.drop_first())
    }
}

/// Whether the process holds the lock in a phase.
pub open spec fn holds_lock(phase: AttemptPhaseView) -> bool {
    match phase {
        AttemptPhaseView::Prepare(..) => true,
        AttemptPhaseView::FindBwrap(..) => true,
        AttemptPhaseView::Build(..) => true,
        AttemptPhaseView::Discard(..) => true,
        AttemptPhaseView::Install(..) => true,
        AttemptPhaseView::Unlock(..) => true,
        _ => false,
    }
}

/// Whether a part of an attempt that is over has been left.
pub open spec fn settled(phase: AttemptPhaseView) -> bool {
    match phase {
        AttemptPhaseView::Lock(_, lock) => !(lock.phase is Held) && !(lock.phase is Refused),
        AttemptPhaseView::Prepare(_, _, staging) => !(staging.phase is Ready) && !(
        staging.phase is Failed),
        AttemptPhaseView::Discard(_, discard, _) => !(discard.phase is Over),
        AttemptPhaseView::Install(_, install) => install_on_course(install) && !install_over(
            install,
        ),
        _ => true,
    }
}

proof fn lemma_held_step(v: AttemptView, outcome: OutcomeView)
    requires
        settled(v.phase),
    ensures
        settled(v.next(outcome).phase),
        holds_lock(v.next(outcome).phase) == held_after(holds_lock(v.phase), v, outcome),
{
    match v.phase {
        AttemptPhaseView::Prepare(_, _, staging) => {
            preparation_goes_on_until_over(staging);
        },
        AttemptPhaseView::Install(_, install) => {
            installation_goes_on_until_over(install, outcome);
        },
        _ => {},
    }
}

proof fn lemma_held_run(v: AttemptView, outcomes: Seq<OutcomeView>)
    requires
        settled(v.phase),
    ensures
        run_from(v, holds_lock(v.phase), outcomes).1 == holds_lock(
            run_from(v, holds_lock(v.phase), outcomes).0.phase,
        ),
    decreases outcomes.len(),
{
    if outcomes.len() > 0 {
        lemma_held_step(v, outcomes.first());
        lemma_held_run(v.next(outcomes.first()), outcomes.drop_first());
    }
}

/// The lock is held while the staging directory and the installation are changed, and however an
/// attempt ends, it has given the lock back.
pub proof fn lock_is_given_back(
    build_dir: Seq<u8>,
    latest_version: Seq<char>,
    pid: nat,
    outcomes: Seq<OutcomeView>,
)
    ensures
        ({
            let (v, held) = run_from(
                AttemptView::start(build_dir, latest_version, pid),
                false,
                outcomes,
            );
            &&& held == holds_lock(v.phase)
            &&& v.phase is Succeeded || v.phase is Failed ==> !held
            &&& v.phase is Build || v.phase is Install ==> held
        }),
{
    lemma_held_run(AttemptView::start(build_dir, latest_version, pid), outcomes);
}

/// A checkout with uncommitted changes is left alone: the attempt ends with the first command.
pub proof fn unclean_checkout_is_left_alone(
    v: AttemptView,
    success: bool,
    status: Seq<char>,
    stdout: Seq<u8>,
)
    requires
        v.phase is CheckClean,
        unclean(v.build_dir, success, status, stdout) is Some,
    ensures
        v.next(OutcomeView::Exit { success, status, stdout }).phase == AttemptPhaseView::Failed(
            seq![unclean(v.build_dir, success, status, stdout)->0],
        ),
        v.next(OutcomeView::Exit { success, status, stdout }).operation() is None,
{
}

/// Whether an outcome tells that a command was run, or that it could not be run.
pub open spec fn command_answer(outcome: OutcomeView) -> bool {
    outcome is Exit || outcome is Failed
}

/// A merge that fails is given up: whatever comes of the commands, the paths that it could not
/// settle are asked for, then the merge is given up, and then the attempt has failed.
pub proof fn failed_merge_is_aborted(
    v: AttemptView,
    status: Seq<char>,
    stdout: Seq<u8>,
    conflicts: OutcomeView,
    abort: OutcomeView,
)
    requires
        v.phase is Merge,
        command_answer(conflicts),
        command_answer(abort),
    ensures
        ({
            let w = v.next(OutcomeView::Exit { success: false, status, stdout });
            &&& w.operation() == Some(
                OperationView::Capture(git_command(v.build_dir, conflicts_args())),
            )
            &&& w.next(conflicts).operation() == Some(
                OperationView::Run(git_command(v.build_dir, abort_args())),
            )
            &&& w.next(conflicts).next(abort).phase is Failed
        }),
{
}

/// A build that fails is never installed: what it left in the staging directory is looked for and
/// removed, and the failure is kept.
pub proof fn failed_build_is_discarded(
    v: AttemptView,
    plan: PlanView,
    lock: Seq<u8>,
    bwrap: Option<Seq<u8>>,
    outcome: OutcomeView,
)
    requires
        v.phase == AttemptPhaseView::Build(plan, lock, bwrap),
        command_answer(outcome),
        outcome matches OutcomeView::Exit { success, .. } ==> !success,
    ensures
        ({
            let w = v.next(outcome);
            &&& w.phase is Discard
            &&& w.operation() == Some(OperationView::IsDir(plan.layout.staging_dir))
            &&& w.next(OutcomeView::Flag(true)).operation() == Some(
                OperationView::RemoveDirAll(plan.layout.staging_dir),
            )
            &&& w.next(OutcomeView::Flag(true)).next(OutcomeView::Done).phase
                == AttemptPhaseView::Unlock(lock, Seq::empty(), Some(w.phase->Discard_2))
        }),
{
}

/// Whether the lock is given back without a failure.
pub open spec fn unlocks_for_good(phase: AttemptPhaseView) -> bool {
    match phase {
        AttemptPhaseView::Unlock(_, _, failure) => failure is None,
        _ => false,
    }
}

/// An attempt succeeds only by an installation that is complete.
pub proof fn only_installed_releases_succeed(v: AttemptView, outcome: OutcomeView)
    requires
        settled(v.phase),
    ensures
        v.next(outcome).phase is Succeeded ==> v.phase is Succeeded || unlocks_for_good(v.phase),
        unlocks_for_good(v.next(outcome).phase) ==> unlocks_for_good(v.phase) || (
        v.phase is Install && v.phase->Install_1.next(outcome).phase is Installed),
{
}

/// An attempt always has something to do until it is over, and it stays as it ended.
pub proof fn attempt_goes_on_until_over(v: AttemptView, outcome: OutcomeView)
    requires
        settled(v.phase),
    ensures
        settled(v.next(outcome).phase),
        v.operation() is None <==> v.phase is Succeeded || v.phase is Failed,
        v.phase is Succeeded || v.phase is Failed ==> v.next(outcome) == v,
{
    lemma_held_step(v, outcome);
    match v.phase {
        AttemptPhaseView::Prepare(_, _, staging) => {
            preparation_goes_on_until_over(staging);
        },
        AttemptPhaseView::Install(_, install) => {
            installation_goes_on_until_over(install, outcome);
        },
        _ => {},
    }
}

} // verus!
