//! Updating Codex from a source checkout: an attempt, and where it fails, a repair by Codex itself
//! and one more attempt.

use crate::agent::{
    agent_assisted_update_command, agent_failure, agent_failure_text, repair_command,
};
use crate::attempt::{
    attempt_goes_on_until_over, settled, try_source_git_update, AttemptPhase, AttemptPhaseView,
    AttemptView, UpdateAttempt,
};
use crate::failure::{detail_of, details_are_joined_by_colons, Failure};
use crate::io::{operation_view, Operation, OperationView, Outcome, OutcomeView};
use crate::notice::{add_out_lines, notice_views, out_lines, Notice, NoticeView};
use crate::os_text::{displayed, OsText};
use crate::text::{concat2, concat3, push_text, string_views};
use vstd::prelude::*;

verus! {

/// How far an update has come.
#[derive(Debug, PartialEq, Eq)]
pub enum UpdatePhase {
    First(UpdateAttempt),
    /// After the given failure, it is found out which program is running.
    FindExe(Failure),
    /// After the given failure, the program at the given path repairs the checkout.
    Repair(Failure, OsText),
    /// After the given failure and a repair, there is one more attempt.
    Retry(UpdateAttempt, Failure),
    Succeeded,
    Failed(Failure),
}

/// How far an update has come, as a value of mathematics.
#[verifier::ext_equal]
pub enum UpdatePhaseView {
    First(AttemptView),
    FindExe(Seq<Seq<char>>),
    Repair(Seq<Seq<char>>, Seq<u8>),
    Retry(AttemptView, Seq<Seq<char>>),
    Succeeded,
    Failed(Seq<Seq<char>>),
}

impl View for UpdatePhase {
    type V = UpdatePhaseView;

    open spec fn view(&self) -> UpdatePhaseView {
        match self {
            UpdatePhase::First(a) => UpdatePhaseView::First(a@),
            UpdatePhase::FindExe(f) => UpdatePhaseView::FindExe(f@),
            UpdatePhase::Repair(f, exe) => UpdatePhaseView::Repair(f@, exe@),
            UpdatePhase::Retry(a, f) => UpdatePhaseView::Retry(a@, f@),
            UpdatePhase::Succeeded => UpdatePhaseView::Succeeded,
            UpdatePhase::Failed(f) => UpdatePhaseView::Failed(f@),
        }
    }
}

/// An update from a source checkout.
#[derive(Debug, PartialEq, Eq)]
pub struct SourceUpdate {
    build_dir: OsText,
    latest_version: String,
    pid: u32,
    phase: UpdatePhase,
}

/// An update from a source checkout, as a value of mathematics.
#[verifier::ext_equal]
pub struct UpdateView {
    pub build_dir: Seq<u8>,
    pub latest_version: Seq<char>,
    pub pid: nat,
    pub phase: UpdatePhaseView,
}

impl View for SourceUpdate {
    type V = UpdateView;

    closed spec fn view(&self) -> UpdateView {
        UpdateView {
            build_dir: self.build_dir@,
            latest_version: self.latest_version@,
            pid: self.pid as nat,
            phase: self.phase@,
        }
    }
}

/// What is said on a system on which source updates are not supported.
pub open spec fn not_on_windows() -> Seq<Seq<char>> {
    seq![
        "Source-build auto-update is not supported on Windows yet. Fetch upstream changes and rebuild Codex manually."@,
    ]
}

/// What is said when the repair failed too.
pub open spec fn not_repaired(why: Seq<Seq<char>>, initial: Seq<Seq<char>>) -> Seq<Seq<char>> {
    seq![
        "agent-assisted source update failed: "@ + detail_of(why)
            + ". Initial automatic update failure: "@ + detail_of(initial),
    ]
}

/// What is said when the attempt after the repair failed too.
pub open spec fn still_failed(why: Seq<Seq<char>>, initial: Seq<Seq<char>>) -> Seq<Seq<char>> {
    seq![
        "source update still failed after agent-assisted recovery: "@ + detail_of(why)
            + ". Initial failure: "@ + detail_of(initial),
    ]
}

/// The phase that the first attempt leads to.
pub open spec fn after_first(attempt: AttemptView) -> UpdatePhaseView {
    match attempt.phase {
        AttemptPhaseView::Succeeded => UpdatePhaseView::Succeeded,
        AttemptPhaseView::Failed(f) => UpdatePhaseView::FindExe(f),
        _ => UpdatePhaseView::First(attempt),
    }
}

/// The phase that the attempt after a repair leads to.
pub open spec fn after_retry(attempt: AttemptView, initial: Seq<Seq<char>>) -> UpdatePhaseView {
    match attempt.phase {
        AttemptPhaseView::Succeeded => UpdatePhaseView::Succeeded,
        AttemptPhaseView::Failed(f) => UpdatePhaseView::Failed(still_failed(f, initial)),
        _ => UpdatePhaseView::Retry(attempt, initial),
    }
}

impl UpdateView {
    /// An update that has not begun; it is over at once on a system that does not support it.
    pub open spec fn start(
        on_windows: bool,
        build_dir: Seq<u8>,
        latest_version: Seq<char>,
        pid: nat,
    ) -> UpdateView {
        UpdateView {
            build_dir,
            latest_version,
            pid,
            phase: if on_windows {
                UpdatePhaseView::Failed(not_on_windows())
            } else {
                UpdatePhaseView::First(AttemptView::start(build_dir, latest_version, pid))
            },
        }
    }

    /// The update in another phase.
    pub open spec fn to(self, phase: UpdatePhaseView) -> UpdateView {
        UpdateView { phase, ..self }
    }

    /// What is to be done next; nothing once the update is over.
    pub open spec fn operation(self) -> Option<OperationView> {
        match self.phase {
            UpdatePhaseView::First(a) => a.operation(),
            UpdatePhaseView::FindExe(_) => Some(OperationView::CurrentExe),
            UpdatePhaseView::Repair(f, exe) => Some(
                OperationView::Run(repair_command(exe, self.build_dir, self.latest_version, f)),
            ),
            UpdatePhaseView::Retry(a, _) => a.operation(),
            _ => None,
        }
    }

    /// What the user is told before the pending operation is performed, and when the update has
    /// succeeded.
    pub open spec fn notices(self) -> Seq<NoticeView> {
        match self.phase {
            UpdatePhaseView::First(a) => if a.phase is CheckClean {
                out_lines(
                    seq![
                        Seq::<char>::empty(),
                        "Updating Codex from local source checkout at "@ + displayed(
                            self.build_dir,
                        ) + "..."@,
                    ],
                )
            } else {
                a.notices()
            },
            UpdatePhaseView::FindExe(f) => out_lines(
                seq![
                    "\nAutomatic source update failed: "@ + detail_of(f),
                    "Launching Codex in "@ + displayed(self.build_dir)
                        + " to repair the update..."@,
                ],
            ),
            UpdatePhaseView::Retry(a, _) => if a.phase is CheckClean {
                out_lines(seq!["\nRetrying the source update after agent-assisted recovery..."@])
            } else {
                a.notices()
            },
            UpdatePhaseView::Succeeded => out_lines(
                seq!["\n🎉 Source update ran successfully! Please restart Codex."@],
            ),
            _ => Seq::empty(),
        }
    }

    /// The phase after the repair came to its end.
    pub open spec fn after_repair(
        self,
        initial: Seq<Seq<char>>,
        success: bool,
        status: Seq<char>,
    ) -> UpdatePhaseView {
        if success {
            after_retry(
                AttemptView::start(self.build_dir, self.latest_version, self.pid),
                initial,
            )
        } else {
            UpdatePhaseView::Failed(not_repaired(seq![agent_failure(status)], initial))
        }
    }

    /// The update after its pending operation ended so. An outcome that does not answer that
    /// operation changes nothing.
    pub open spec fn next(self, outcome: OutcomeView) -> UpdateView {
        match (self.phase, outcome) {
            (UpdatePhaseView::First(a), _) => self.to(after_first(a.next(outcome))),
            (UpdatePhaseView::FindExe(f), OutcomeView::Path(Some(exe))) => self.to(
                UpdatePhaseView::Repair(f, exe),
            ),
            (UpdatePhaseView::FindExe(f), OutcomeView::Failed { failure, .. }) => self.to(
                UpdatePhaseView::Failed(not_repaired(failure, f)),
            ),
            (UpdatePhaseView::Repair(f, _), OutcomeView::Exit { success, status, .. }) => self.to(
                self.after_repair(f, success, status),
            ),
            (UpdatePhaseView::Repair(f, _), OutcomeView::Failed { failure, .. }) => self.to(
                UpdatePhaseView::Failed(not_repaired(failure, f)),
            ),
            (UpdatePhaseView::Retry(a, f), _) => self.to(after_retry(a.next(outcome), f)),
            _ => self,
        }
    }
}

/// The phase that the first attempt leads to.
fn settle_first(attempt: UpdateAttempt) -> (r: UpdatePhase)
    ensures
        r@ == after_first(attempt@),
{
    match attempt.phase() {
        AttemptPhase::Succeeded => UpdatePhase::Succeeded,
        AttemptPhase::Failed(f) => UpdatePhase::FindExe(f.duplicate()),
        _ => UpdatePhase::First(attempt),
    }
}

/// What is said when the repair failed too.
fn repair_failure(why: &Failure, initial: &Failure) -> (r: Failure)
    ensures
        r@ == not_repaired(why@, initial@),
{
    let mut message = concat2(
        "agent-assisted source update failed: ",
        why.detail().as_str(),
    );
    push_text(&mut message, ". Initial automatic update failure: ");
    push_text(&mut message, initial.detail().as_str());
    Failure::new(message)
}

/// The phase that the attempt after a repair leads to.
fn settle_retry(attempt: UpdateAttempt, initial: Failure) -> (r: UpdatePhase)
    ensures
        r@ == after_retry(attempt@, initial@),
{
    match attempt.phase() {
        AttemptPhase::Succeeded => UpdatePhase::Succeeded,
        AttemptPhase::Failed(f) => {
            let mut message = concat2(
                "source update still failed after agent-assisted recovery: ",
                f.detail().as_str(),
            );
            push_text(&mut message, ". Initial failure: ");
            push_text(&mut message, initial.detail().as_str());
            UpdatePhase::Failed(Failure::new(message))
        },
        _ => UpdatePhase::Retry(attempt, initial),
    }
}

/// Lines for the user.
fn lines_for_user(lines: Vec<String>) -> (r: Vec<Notice>)
    ensures
        notice_views(r@) == out_lines(string_views(lines@)),
{
    let mut r: Vec<Notice> = Vec::new();
    add_out_lines(&mut r, &lines);
    assert(notice_views(r@) =~= out_lines(string_views(lines@)));
    r
}

/// The update of Codex from the checkout in `build_dir` to `latest_version`, by the process `pid`,
/// on Windows or on another system.
pub fn run_source_git_update(
    on_windows: bool,
    build_dir: &OsText,
    latest_version: &str,
    pid: u32,
) -> (r: SourceUpdate)
    ensures
        r@ == UpdateView::start(on_windows, build_dir@, latest_version@, pid as nat),
{
    let phase = if on_windows {
        UpdatePhase::Failed(
            Failure::of(
                "Source-build auto-update is not supported on Windows yet. Fetch upstream changes and rebuild Codex manually.",
            ),
        )
    } else {
        UpdatePhase::First(try_source_git_update(build_dir, latest_version, pid))
    };
    SourceUpdate {
        build_dir: build_dir.duplicate(),
        latest_version: latest_version.to_owned(),
        pid,
        phase,
    }
}

impl SourceUpdate {
    /// How far the update has come.
    pub fn phase(&self) -> (r: &UpdatePhase)
        ensures
            r@ == self@.phase,
    {
        &self.phase
    }

    /// What is to be done next; nothing once the update is over.
    pub fn operation(&self) -> (r: Option<Operation>)
        ensures
            operation_view(r) == self@.operation(),
    {
        match &self.phase {
            UpdatePhase::First(a) => a.operation(),
            UpdatePhase::FindExe(_) => Some(Operation::CurrentExe),
            UpdatePhase::Repair(f, exe) => Some(
                Operation::Run(
                    agent_assisted_update_command(
                        exe,
                        &self.build_dir,
                        self.latest_version.as_str(),
                        f,
                    ),
                ),
            ),
            UpdatePhase::Retry(a, _) => a.operation(),
            _ => None,
        }
    }

    /// What to tell the user before the pending operation is performed, and when the update has
    /// succeeded.
    pub fn notices(&self) -> (r: Vec<Notice>)
        ensures
            notice_views(r@) == self@.notices(),
    {
        match &self.phase {
            UpdatePhase::First(a) => match a.phase() {
                AttemptPhase::CheckClean => {
                    let lines = vec![
                        String::new(),
                        concat3(
                            "Updating Codex from local source checkout at ",
                            self.build_dir.display().as_str(),
                            "...",
                        ),
                    ];
                    let r = lines_for_user(lines);
                    assert(notice_views(r@) =~= self@.notices());
                    r
                },
                _ => a.notices(),
            },
            UpdatePhase::FindExe(f) => {
                let lines = vec![
                    concat2("\nAutomatic source update failed: ", f.detail().as_str()),
                    concat3(
                        "Launching Codex in ",
                        self.build_dir.display().as_str(),
                        " to repair the update...",
                    ),
                ];
                let r = lines_for_user(lines);
                assert(notice_views(r@) =~= self@.notices());
                r
            },
            UpdatePhase::Retry(a, _) => match a.phase() {
                AttemptPhase::CheckClean => {
                    let lines = vec![
                        "\nRetrying the source update after agent-assisted recovery...".to_owned(),
                    ];
                    let r = lines_for_user(lines);
                    assert(notice_views(r@) =~= self@.notices());
                    r
                },
                _ => a.notices(),
            },
            UpdatePhase::Succeeded => {
                let lines = vec![
                    "\n🎉 Source update ran successfully! Please restart Codex.".to_owned(),
                ];
                let r = lines_for_user(lines);
                assert(notice_views(r@) =~= self@.notices());
                r
            },
            _ => {
                let r: Vec<Notice> = Vec::new();
                assert(notice_views(r@) =~= Seq::<NoticeView>::empty());
                r
            },
        }
    }

    /// Takes in how the pending operation ended.
    pub fn advance(&mut self, outcome: Outcome)
        ensures
            final(self)@ == old(self)@.next(outcome@),
    {
        let mut phase = UpdatePhase::Succeeded;
        std::mem::swap(&mut phase, &mut self.phase);
        self.phase = match (phase, outcome) {
            (UpdatePhase::First(a), outcome) => {
                let mut attempt = a;
                attempt.advance(outcome);
                settle_first(attempt)
            },
            (UpdatePhase::FindExe(f), Outcome::Path(Some(exe))) => UpdatePhase::Repair(f, exe),
            (UpdatePhase::FindExe(f), Outcome::Failed { failure, .. }) => UpdatePhase::Failed(
                repair_failure(&failure, &f),
            ),
            (UpdatePhase::Repair(f, _), Outcome::Exit { success, status, .. }) => if success {
                let attempt = try_source_git_update(
                    &self.build_dir,
                    self.latest_version.as_str(),
                    self.pid,
                );
                settle_retry(attempt, f)
            } else {
                let why = Failure::new(agent_failure_text(status.as_str()));
                UpdatePhase::Failed(repair_failure(&why, &f))
            },
            (UpdatePhase::Repair(f, _), Outcome::Failed { failure, .. }) => UpdatePhase::Failed(
                repair_failure(&failure, &f),
            ),
            (UpdatePhase::Retry(a, f), outcome) => {
                let mut attempt = a;
                attempt.advance(outcome);
                settle_retry(attempt, f)
            },
            (other, _) => other,
        };
    }
}

// ---------------------------------------------------------------------------------------------
// What holds of updates
// ---------------------------------------------------------------------------------------------

/// On Windows nothing is done: the update is refused at once.
pub proof fn windows_is_refused(build_dir: Seq<u8>, latest_version: Seq<char>, pid: nat)
    ensures
        UpdateView::start(true, build_dir, latest_version, pid).operation() is None,
        UpdateView::start(true, build_dir, latest_version, pid).phase == UpdatePhaseView::Failed(
            not_on_windows(),
        ),
{
}

/// The place of a phase in the course of an update.
pub open spec fn stage(phase: UpdatePhaseView) -> int {
    match phase {
        UpdatePhaseView::First(_) => 0,
        UpdatePhaseView::FindExe(_) => 1,
        UpdatePhaseView::Repair(..) => 2,
        UpdatePhaseView::Retry(..) => 3,
        UpdatePhaseView::Succeeded => 4,
        UpdatePhaseView::Failed(_) => 4,
    }
}

/// An update never goes back, so that there are at most two attempts and one repair between them;
/// the second attempt comes only after a repair that succeeded.
pub proof fn one_repair_and_one_retry(v: UpdateView, outcome: OutcomeView)
    ensures
        stage(v.next(outcome).phase) >= stage(v.phase),
        v.next(outcome).phase is Repair && !(v.phase is Repair) ==> v.phase is FindExe,
        v.next(outcome).phase is Retry && !(v.phase is Retry) ==> v.phase is Repair && (
        outcome matches OutcomeView::Exit { success, .. } && success),
        stage(v.phase) == 4 ==> v.next(outcome) == v,
{
}

/// Whether `failure` is what is said when the repair, or the attempt after it, fails for the
/// reason `why` after the first attempt failed for the reason `initial`.
pub open spec fn tells_of(
    failure: Seq<Seq<char>>,
    why: Seq<Seq<char>>,
    initial: Seq<Seq<char>>,
) -> bool {
    failure == not_repaired(why, initial) || failure == still_failed(why, initial)
}

/// Whether `failure` is what is said when the repair, or the attempt after it, fails for some
/// reason after the first attempt failed for the reason `initial`.
pub open spec fn ends_with_first(failure: Seq<Seq<char>>, initial: Seq<Seq<char>>) -> bool {
    exists|why: Seq<Seq<char>>| #[trigger] tells_of(failure, why, initial)
}

/// The first failure is kept until the end: the repair is asked to mend it, and what is said when
/// the repair or the second attempt fails ends with it.
pub proof fn first_failure_is_kept(v: UpdateView, outcome: OutcomeView, initial: Seq<Seq<char>>)
    requires
        v.phase == UpdatePhaseView::FindExe(initial) || (v.phase matches UpdatePhaseView::Repair(
            f,
            _,
        ) && f == initial) || (v.phase matches UpdatePhaseView::Retry(_, f) && f == initial),
    ensures
        match v.next(outcome).phase {
            UpdatePhaseView::First(_) => false,
            UpdatePhaseView::FindExe(f) => f == initial,
            UpdatePhaseView::Repair(f, _) => f == initial,
            UpdatePhaseView::Retry(_, f) => f == initial,
            UpdatePhaseView::Succeeded => true,
            UpdatePhaseView::Failed(f) => ends_with_first(f, initial),
        },
{
    if let UpdatePhaseView::Failed(told) = v.next(outcome).phase {
        let why = match (v.phase, outcome) {
            (UpdatePhaseView::Retry(a, _), _) => a.next(outcome).phase->Failed_0,
            (_, OutcomeView::Exit { status, .. }) => seq![agent_failure(status)],
            (_, OutcomeView::Failed { failure, .. }) => failure,
            _ => initial,
        };
        assert(tells_of(told, why, initial));
    }
}

/// Whether each attempt that is over has been left.
pub open spec fn update_on_course(v: UpdateView) -> bool {
    match v.phase {
        UpdatePhaseView::First(a) => settled(a.phase) && !(a.phase is Succeeded) && !(
        a.phase is Failed),
        UpdatePhaseView::Retry(a, _) => settled(a.phase) && !(a.phase is Succeeded) && !(
        a.phase is Failed),
        _ => true,
    }
}

/// An update that has begun as it should always has something to do until it is over, and it stays
/// as it ended.
pub proof fn update_goes_on_until_over(v: UpdateView, outcome: OutcomeView)
    requires
        update_on_course(v),
    ensures
        update_on_course(v.next(outcome)),
        v.operation() is None <==> v.phase is Succeeded || v.phase is Failed,
        v.phase is Succeeded || v.phase is Failed ==> v.next(outcome) == v,
{
    match v.phase {
        UpdatePhaseView::First(a) => attempt_goes_on_until_over(a, outcome),
        UpdatePhaseView::Retry(a, _) => attempt_goes_on_until_over(a, outcome),
        _ => {},
    }
}

// ---------------------------------------------------------------------------------------------
// Steps
// ---------------------------------------------------------------------------------------------

/// On Windows the update ends before it begins, and says what to do instead; elsewhere it begins
/// with an attempt for the checkout, the release and the process that it was asked for.
pub proof fn updates_begin_with_an_attempt(
    build_dir: Seq<u8>,
    latest_version: Seq<char>,
    pid: nat,
)
    ensures
        UpdateView::start(true, build_dir, latest_version, pid).phase == UpdatePhaseView::Failed(
            seq![
                "Source-build auto-update is not supported on Windows yet. Fetch upstream changes and rebuild Codex manually."@,
            ],
        ),
        UpdateView::start(false, build_dir, latest_version, pid).phase matches UpdatePhaseView::First(
            attempt,
        ) && attempt.phase is CheckClean && attempt.build_dir == build_dir && attempt.latest_version
            == latest_version && attempt.pid == pid,
        forall|on_windows: bool|
            (#[trigger] UpdateView::start(on_windows, build_dir, latest_version, pid)).build_dir
                == build_dir && UpdateView::start(
                on_windows,
                build_dir,
                latest_version,
                pid,
            ).latest_version == latest_version && UpdateView::start(
                on_windows,
                build_dir,
                latest_version,
                pid,
            ).pid == pid,
{
}

/// The first attempt decides: where it succeeds the update does, where it fails the program that
/// runs is looked up for a repair, and until then it goes on.
pub proof fn first_attempt_decides(v: UpdateView, attempt: AttemptView, outcome: OutcomeView)
    requires
        v.phase == UpdatePhaseView::First(attempt),
    ensures
        v.operation() == attempt.operation(),
        match attempt.next(outcome).phase {
            AttemptPhaseView::Succeeded => v.next(outcome).phase is Succeeded,
            AttemptPhaseView::Failed(why) => v.next(outcome).phase == UpdatePhaseView::FindExe(why)
                && v.next(outcome).operation() == Some(OperationView::CurrentExe),
            _ => v.next(outcome).phase == UpdatePhaseView::First(attempt.next(outcome)),
        },
{
}

/// The repair is made by the program that runs, in the checkout of the update, for its release and
/// on account of the failure of the first attempt.
pub proof fn running_program_repairs(
    v: UpdateView,
    initial: Seq<Seq<char>>,
    exe: Seq<u8>,
)
    requires
        v.phase == UpdatePhaseView::FindExe(initial),
    ensures
        v.operation() == Some(OperationView::CurrentExe),
        v.next(OutcomeView::Path(Some(exe))).phase == UpdatePhaseView::Repair(initial, exe),
        v.next(OutcomeView::Path(Some(exe))).operation() == Some(
            OperationView::Run(repair_command(exe, v.build_dir, v.latest_version, initial)),
        ),
{
}

/// A repair that succeeded is followed by one more attempt, for the same checkout, release and
/// process, from its beginning. One that did not succeed, or could not be run, ends the update, and
/// so does a program that cannot be found: the reason is told, then that of the first attempt.
pub proof fn repairs_lead_to_another_attempt(
    v: UpdateView,
    initial: Seq<Seq<char>>,
    exe: Seq<u8>,
    status: Seq<char>,
    stdout: Seq<u8>,
    outcome: OutcomeView,
)
    ensures
        v.phase == UpdatePhaseView::Repair(initial, exe) ==> {
            let w = v.next(OutcomeView::Exit { success: true, status, stdout });
            let refused = v.next(OutcomeView::Exit { success: false, status, stdout });
            &&& w.phase matches UpdatePhaseView::Retry(attempt, kept)
            &&& kept == initial
            &&& attempt.phase is CheckClean
            &&& attempt.build_dir == v.build_dir
            &&& attempt.latest_version == v.latest_version
            &&& attempt.pid == v.pid
            &&& refused.phase == UpdatePhaseView::Failed(
                seq![
                    "agent-assisted source update failed: "@
                        + ("agent-assisted source update exited with status "@ + status)
                        + ". Initial automatic update failure: "@ + detail_of(initial),
                ],
            )
        },
        v.phase == UpdatePhaseView::FindExe(initial) || v.phase == UpdatePhaseView::Repair(
            initial,
            exe,
        ) ==> (outcome matches OutcomeView::Failed { failure, .. } ==> v.next(outcome).phase
            == UpdatePhaseView::Failed(
            seq![
                "agent-assisted source update failed: "@ + detail_of(failure)
                    + ". Initial automatic update failure: "@ + detail_of(initial),
            ],
        )),
{
    let told = "agent-assisted source update exited with status "@ + status;
    details_are_joined_by_colons(Seq::empty(), told);
}

/// The second attempt is the last: where it fails the update does, with its reason and that of the
/// first.
pub proof fn second_attempt_is_the_last(
    v: UpdateView,
    attempt: AttemptView,
    initial: Seq<Seq<char>>,
    outcome: OutcomeView,
)
    requires
        v.phase == UpdatePhaseView::Retry(attempt, initial),
    ensures
        v.operation() == attempt.operation(),
        match attempt.next(outcome).phase {
            AttemptPhaseView::Succeeded => v.next(outcome).phase is Succeeded,
            AttemptPhaseView::Failed(why) => v.next(outcome).phase == UpdatePhaseView::Failed(
                seq![
                    "source update still failed after agent-assisted recovery: "@ + detail_of(why)
                        + ". Initial failure: "@ + detail_of(initial),
                ],
            ) && v.next(outcome).operation() is None,
            _ => v.next(outcome).phase == UpdatePhaseView::Retry(attempt.next(outcome), initial),
        },
{
}

/// An update stays with its checkout, its release and its process.
pub proof fn updates_keep_their_subject(v: UpdateView, outcome: OutcomeView)
    ensures
        v.next(outcome).build_dir == v.build_dir,
        v.next(outcome).latest_version == v.latest_version,
        v.next(outcome).pid == v.pid,
{
}

/// Users are told where an update begins, why its first attempt failed and where the repair takes
/// place, that there is one more attempt, and that the update has succeeded.
pub proof fn updates_are_announced(v: UpdateView)
    ensures
        v.phase matches UpdatePhaseView::First(attempt) ==> v.notices() == (
        if attempt.phase is CheckClean {
            seq![
                NoticeView::Line(Seq::<char>::empty()),
                NoticeView::Line(
                    "Updating Codex from local source checkout at "@ + displayed(v.build_dir)
                        + "..."@,
                ),
            ]
        } else {
            attempt.notices()
        }),
        v.phase matches UpdatePhaseView::FindExe(why) ==> v.notices() == seq![
            NoticeView::Line("\nAutomatic source update failed: "@ + detail_of(why)),
            NoticeView::Line(
                "Launching Codex in "@ + displayed(v.build_dir) + " to repair the update..."@,
            ),
        ],
        v.phase matches UpdatePhaseView::Retry(attempt, _) ==> v.notices() == (
        if attempt.phase is CheckClean {
            seq![
                NoticeView::Line(
                    "\nRetrying the source update after agent-assisted recovery..."@,
                ),
            ]
        } else {
            attempt.notices()
        }),
        v.phase is Succeeded ==> v.notices() == seq![
            NoticeView::Line("\n🎉 Source update ran successfully! Please restart Codex."@),
        ],
        v.phase is Repair || v.phase is Failed ==> v.notices().len() == 0,
{
}

} // verus!
