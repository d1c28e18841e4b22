//! Trying out a package: its command must tell its version, and its code-mode host must start and
//! tell that it is ready.

use crate::command::{command_of, CommandLine, CommandView};
use crate::failure::{in_context, Failure};
use crate::os_text::{displayed, OsText};
use crate::path::{join_text, joined_text};
use crate::text::{
    after_prefix, chars_of, concat2, lemma_trim_line_end, push_text, str_starts_with, string_of,
    strip_prefix, trim, trimmed, white_space,
};
use crate::transport::{
    admitted, announced, lemma_announced, readiness_question, readiness_request, request_text,
    Listener,
};
use vstd::prelude::*;
use vstd::utf8::*;

verus! {

/// For how many seconds the host may keep its caller waiting at a time.
pub const HOST_START_TIMEOUT: u64 = 15;

// ---------------------------------------------------------------------------------------------
// The announcement of the host
// ---------------------------------------------------------------------------------------------

/// The listener and the address that the first line of the host announces.
pub open spec fn announced_address(line: Seq<char>) -> Option<(Listener, Seq<char>)> {
    match after_prefix(trimmed(line), Listener::Grpc.prefix_text()) {
        Some(address) => Some((Listener::Grpc, address)),
        None => match after_prefix(trimmed(line), Listener::LegacyProbe.prefix_text()) {
            Some(address) => Some((Listener::LegacyProbe, address)),
            None => None,
        },
    }
}

/// The listener and the address that the first line of the host announces.
pub fn parse_announcement(line: &str) -> (r: Option<(Listener, String)>)
    ensures
        match r {
            Some((listener, address)) => announced_address(line@) == Some((listener, address@)),
            None => announced_address(line@) is None,
        },
{
    let chars = chars_of(line);
    let shown = trim(chars.as_slice());
    let grpc = chars_of(Listener::Grpc.prefix());
    if let Some(address) = strip_prefix(shown, grpc.as_slice()) {
        return Some((Listener::Grpc, string_of(address)));
    }
    let legacy = chars_of(Listener::LegacyProbe.prefix());
    match strip_prefix(shown, legacy.as_slice()) {
        Some(address) => Some((Listener::LegacyProbe, string_of(address))),
        None => None,
    }
}

/// What is shown for a text between quotation marks, with escape sequences.
pub uninterp spec fn debug_text(text: Seq<char>) -> Seq<char>;

/// Formats a string with `{:?}`, as the standard library does. What it gives depends on the text
/// alone, and is not said further.
#[verifier::external_body]
fn debug_string(text: &str) -> (r: String)
    ensures
        r@ == debug_text(text@),
{
    format!("{:?}", text)
}

/// What is said of a first line that announces no address; `shown` is what is shown for the line.
pub fn invalid_address_text(shown: &str) -> (r: String)
    ensures
        r@ == "code-mode host returned invalid address: "@ + shown@,
{
    concat2("code-mode host returned invalid address: ", shown)
}

/// What is said of an answer that does not tell that the host is ready; `shown` is what is shown
/// for its first line.
pub fn not_ready_text(shown: &str) -> (r: String)
    ensures
        r@ == "code-mode host readiness check failed: "@ + shown@,
{
    concat2("code-mode host readiness check failed: ", shown)
}

/// Whether the first line of an answer tells that the host is ready.
pub open spec fn ready_status(line: Seq<char>) -> bool {
    "HTTP/1.1 200"@.is_prefix_of(line)
}

// ---------------------------------------------------------------------------------------------
// The trial
// ---------------------------------------------------------------------------------------------

/// What is to be done next.
#[derive(Debug, PartialEq, Eq)]
pub enum TrialAction {
    /// Run a command and wait for it.
    Run(CommandLine),
    /// Start the host, without input, its standard output kept and its errors dropped.
    StartHost(CommandLine),
    /// Wait for the first line that the host writes, for so many seconds.
    AwaitLine(u64),
    /// Connect to an address.
    Connect(String),
    /// Send a request over the connection and read the first line of the answer, each within so
    /// many seconds.
    Exchange { request: String, seconds: u64 },
    /// Stop the host and wait until it is gone.
    StopHost,
}

/// What is to be done next, as a value of mathematics.
pub enum TrialActionView {
    Run(CommandView),
    StartHost(CommandView),
    AwaitLine(u64),
    Connect(Seq<char>),
    Exchange { request: Seq<char>, seconds: u64 },
    StopHost,
}

impl View for TrialAction {
    type V = TrialActionView;

    open spec fn view(&self) -> TrialActionView {
        match self {
            TrialAction::Run(c) => TrialActionView::Run(c@),
            TrialAction::StartHost(c) => TrialActionView::StartHost(c@),
            TrialAction::AwaitLine(s) => TrialActionView::AwaitLine(*s),
            TrialAction::Connect(a) => TrialActionView::Connect(a@),
            TrialAction::Exchange { request, seconds } => TrialActionView::Exchange {
                request: request@,
                seconds: *seconds,
            },
            TrialAction::StopHost => TrialActionView::StopHost,
        }
    }
}

/// The view of an optional action.
pub open spec fn trial_action_view(a: Option<TrialAction>) -> Option<TrialActionView> {
    match a {
        Some(a) => Some(a@),
        None => None,
    }
}

/// How an action ended.
#[derive(Debug, PartialEq, Eq)]
pub enum TrialOutcome {
    /// It was done.
    Done,
    /// A command came to its end: whether with success, and how its end is described.
    Exit { success: bool, status: String },
    /// A line came.
    Line(String),
    /// No line came in time.
    TimedOut(Failure),
    /// It failed.
    Failed(Failure),
}

/// How an action ended, as a value of mathematics.
pub enum TrialOutcomeView {
    Done,
    Exit { success: bool, status: Seq<char> },
    Line(Seq<char>),
    TimedOut(Seq<Seq<char>>),
    Failed(Seq<Seq<char>>),
}

impl View for TrialOutcome {
    type V = TrialOutcomeView;

    open spec fn view(&self) -> TrialOutcomeView {
        match self {
            TrialOutcome::Done => TrialOutcomeView::Done,
            TrialOutcome::Exit { success, status } => TrialOutcomeView::Exit {
                success: *success,
                status: status@,
            },
            TrialOutcome::Line(l) => TrialOutcomeView::Line(l@),
            TrialOutcome::TimedOut(f) => TrialOutcomeView::TimedOut(f@),
            TrialOutcome::Failed(f) => TrialOutcomeView::Failed(f@),
        }
    }
}

/// How far a trial has come.
#[derive(Debug, PartialEq, Eq)]
pub enum TrialPhase {
    /// The command at this path is asked for its version.
    Version(OsText),
    /// The host is started.
    Start,
    /// The host is to announce its address.
    AwaitLine,
    Connect(Listener, String),
    /// The host is asked whether it is ready.
    Ask(Listener, String),
    /// The host is stopped, after the failure that is given where there was one.
    Stop(Option<Failure>),
    Passed,
    Failed(Failure),
}

/// How far a trial has come, as a value of mathematics.
#[verifier::ext_equal]
pub enum TrialPhaseView {
    Version(Seq<u8>),
    Start,
    AwaitLine,
    Connect(Listener, Seq<char>),
    Ask(Listener, Seq<char>),
    Stop(Option<Seq<Seq<char>>>),
    Passed,
    Failed(Seq<Seq<char>>),
}

impl View for TrialPhase {
    type V = TrialPhaseView;

    open spec fn view(&self) -> TrialPhaseView {
        match self {
            TrialPhase::Version(p) => TrialPhaseView::Version(p@),
            TrialPhase::Start => TrialPhaseView::Start,
            TrialPhase::AwaitLine => TrialPhaseView::AwaitLine,
            TrialPhase::Connect(l, a) => TrialPhaseView::Connect(*l, a@),
            TrialPhase::Ask(l, a) => TrialPhaseView::Ask(*l, a@),
            TrialPhase::Stop(f) => TrialPhaseView::Stop(
                match f {
                    Some(f) => Some(f@),
                    None => None,
                },
            ),
            TrialPhase::Passed => TrialPhaseView::Passed,
            TrialPhase::Failed(f) => TrialPhaseView::Failed(f@),
        }
    }
}

/// The trial of a package, or of a code-mode host alone.
#[derive(Debug, PartialEq, Eq)]
pub struct Trial {
    host: OsText,
    phase: TrialPhase,
}

/// The trial of a package, as a value of mathematics.
#[verifier::ext_equal]
pub struct TrialView {
    /// The code-mode host.
    pub host: Seq<u8>,
    pub phase: TrialPhaseView,
}

impl View for Trial {
    type V = TrialView;

    closed spec fn view(&self) -> TrialView {
        TrialView { host: self.host@, phase: self.phase@ }
    }
}

/// The command that asks a Codex command for its version.
pub open spec fn version_command(codex: Seq<u8>) -> CommandView {
    command_of(codex, seq![encode_utf8("--version"@)], None)
}

/// The command that starts the host at an address of its choice.
pub open spec fn host_command(host: Seq<u8>) -> CommandView {
    command_of(host, seq![encode_utf8("--listen"@), encode_utf8("grpc://127.0.0.1:0"@)], None)
}

impl TrialView {
    /// The trial of the package in a directory.
    pub open spec fn of_package(package_dir: Seq<u8>) -> TrialView {
        TrialView {
            host: joined_text(package_dir, "bin/codex-code-mode-host"@),
            phase: TrialPhaseView::Version(joined_text(package_dir, "bin/codex"@)),
        }
    }

    /// The trial of a code-mode host.
    pub open spec fn of_host(host: Seq<u8>) -> TrialView {
        TrialView { host, phase: TrialPhaseView::Start }
    }

    /// The trial in another phase.
    pub open spec fn to(self, phase: TrialPhaseView) -> TrialView {
        TrialView { phase, ..self }
    }

    /// The trial after it failed while the host was running, which is to be stopped.
    pub open spec fn stop(self, failure: Seq<Seq<char>>) -> TrialView {
        self.to(TrialPhaseView::Stop(Some(failure)))
    }

    /// What is to be done next; nothing once the trial is over.
    pub open spec fn action(self) -> Option<TrialActionView> {
        match self.phase {
            TrialPhaseView::Version(codex) => Some(TrialActionView::Run(version_command(codex))),
            TrialPhaseView::Start => Some(TrialActionView::StartHost(host_command(self.host))),
            TrialPhaseView::AwaitLine => Some(TrialActionView::AwaitLine(HOST_START_TIMEOUT)),
            TrialPhaseView::Connect(_, address) => Some(TrialActionView::Connect(address)),
            TrialPhaseView::Ask(listener, address) => Some(
                TrialActionView::Exchange {
                    request: request_text(readiness_question(listener), address),
                    seconds: HOST_START_TIMEOUT,
                },
            ),
            TrialPhaseView::Stop(_) => Some(TrialActionView::StopHost),
            _ => None,
        }
    }

    /// The trial after the host wrote its first line.
    pub open spec fn after_announcement(self, line: Seq<char>) -> TrialView {
        match announced_address(line) {
            Some((listener, address)) => self.to(TrialPhaseView::Connect(listener, address)),
            None => self.stop(
                seq!["code-mode host returned invalid address: "@ + debug_text(line)],
            ),
        }
    }

    /// The trial after the first line of the answer of the host came.
    pub open spec fn after_status(self, line: Seq<char>) -> TrialView {
        if ready_status(line) {
            self.to(TrialPhaseView::Stop(None))
        } else {
            self.stop(seq!["code-mode host readiness check failed: "@ + debug_text(line)])
        }
    }

    /// The trial after its pending action ended so. An outcome that does not answer that action
    /// changes nothing; nothing is made of a failure to stop the host.
    pub open spec fn next(self, outcome: TrialOutcomeView) -> TrialView {
        match (self.phase, outcome) {
            (TrialPhaseView::Version(codex), TrialOutcomeView::Exit { success, status }) => {
                if success {
                    self.to(TrialPhaseView::Start)
                } else {
                    self.to(
                        TrialPhaseView::Failed(
                            seq![displayed(codex) + " --version exited with "@ + status],
                        ),
                    )
                }
            },
            (TrialPhaseView::Version(_), TrialOutcomeView::Failed(f)) => self.to(
                TrialPhaseView::Failed(f),
            ),
            (TrialPhaseView::Start, TrialOutcomeView::Done) => self.to(TrialPhaseView::AwaitLine),
            (TrialPhaseView::Start, TrialOutcomeView::Failed(f)) => self.to(
                TrialPhaseView::Failed(in_context(f, "start "@ + displayed(self.host))),
            ),
            (TrialPhaseView::AwaitLine, TrialOutcomeView::Line(line)) => self.after_announcement(
                line,
            ),
            (TrialPhaseView::AwaitLine, TrialOutcomeView::TimedOut(f)) => self.stop(
                in_context(f, "timed out waiting for code-mode host readiness address"@),
            ),
            (TrialPhaseView::AwaitLine, TrialOutcomeView::Failed(f)) => self.stop(f),
            (TrialPhaseView::Connect(listener, address), TrialOutcomeView::Done) => self.to(
                TrialPhaseView::Ask(listener, address),
            ),
            (TrialPhaseView::Connect(..), TrialOutcomeView::Failed(f)) => self.stop(
                in_context(f, "connect to code-mode host"@),
            ),
            (TrialPhaseView::Ask(..), TrialOutcomeView::Line(line)) => self.after_status(line),
            (TrialPhaseView::Ask(..), TrialOutcomeView::Failed(f)) => self.stop(f),
            (TrialPhaseView::Stop(Some(f)), TrialOutcomeView::Done) => self.to(
                TrialPhaseView::Failed(f),
            ),
            (TrialPhaseView::Stop(Some(f)), TrialOutcomeView::Failed(_)) => self.to(
                TrialPhaseView::Failed(f),
            ),
            (TrialPhaseView::Stop(None), TrialOutcomeView::Done) => self.to(TrialPhaseView::Passed),
            (TrialPhaseView::Stop(None), TrialOutcomeView::Failed(_)) => self.to(
                TrialPhaseView::Passed,
            ),
            _ => self,
        }
    }
}

/// The trial of the package in a directory.
pub fn smoke_test_package(package_dir: &OsText) -> (r: Trial)
    ensures
        r@ == TrialView::of_package(package_dir@),
{
    Trial {
        host: join_text(package_dir, "bin/codex-code-mode-host"),
        phase: TrialPhase::Version(join_text(package_dir, "bin/codex")),
    }
}

/// The trial of a code-mode host.
pub fn smoke_test_code_mode_host(host: &OsText) -> (r: Trial)
    ensures
        r@ == TrialView::of_host(host@),
{
    Trial { host: host.duplicate(), phase: TrialPhase::Start }
}

impl Trial {
    /// How far the trial has come.
    pub fn phase(&self) -> (r: &TrialPhase)
        ensures
            r@ == self@.phase,
    {
        &self.phase
    }

    /// What is to be done next; nothing once the trial is over.
    pub fn action(&self) -> (r: Option<TrialAction>)
        ensures
            trial_action_view(r) == self@.action(),
    {
        match &self.phase {
            TrialPhase::Version(codex) => {
                let command = CommandLine::new(codex.duplicate()).text_arg("--version");
                assert(command@ =~= version_command(codex@));
                Some(TrialAction::Run(command))
            },
            TrialPhase::Start => {
                let command = CommandLine::new(self.host.duplicate()).text_arg("--listen").text_arg(
                    "grpc://127.0.0.1:0",
                );
                assert(command@ =~= host_command(self.host@));
                Some(TrialAction::StartHost(command))
            },
            TrialPhase::AwaitLine => Some(TrialAction::AwaitLine(HOST_START_TIMEOUT)),
            TrialPhase::Connect(_, address) => Some(TrialAction::Connect(address.clone())),
            TrialPhase::Ask(listener, address) => Some(
                TrialAction::Exchange {
                    request: readiness_request(*listener, address.as_str()),
                    seconds: HOST_START_TIMEOUT,
                },
            ),
            TrialPhase::Stop(_) => Some(TrialAction::StopHost),
            _ => None,
        }
    }

    /// Takes in the first line that the host wrote.
    fn take_announcement(&mut self, line: &str)
        ensures
            final(self)@ == old(self)@.after_announcement(line@),
    {
        self.phase = match parse_announcement(line) {
            Some((listener, address)) => TrialPhase::Connect(listener, address),
            None => TrialPhase::Stop(
                Some(Failure::new(invalid_address_text(debug_string(line).as_str()))),
            ),
        };
    }

    /// Takes in the first line of the answer of the host.
    fn take_status(&mut self, line: &str)
        ensures
            final(self)@ == old(self)@.after_status(line@),
    {
        self.phase = if str_starts_with(line, "HTTP/1.1 200") {
            TrialPhase::Stop(None)
        } else {
            TrialPhase::Stop(Some(Failure::new(not_ready_text(debug_string(line).as_str()))))
        };
    }

    /// Takes in how the pending action ended.
    pub fn advance(&mut self, outcome: TrialOutcome)
        ensures
            final(self)@ == old(self)@.next(outcome@),
    {
        let mut phase = TrialPhase::Passed;
        std::mem::swap(&mut phase, &mut self.phase);
        match (phase, outcome) {
            (TrialPhase::Version(codex), TrialOutcome::Exit { success, status }) => {
                if success {
                    self.phase = TrialPhase::Start;
                } else {
                    let mut message = codex.display();
                    push_text(&mut message, " --version exited with ");
                    push_text(&mut message, status.as_str());
                    self.phase = TrialPhase::Failed(Failure::new(message));
                }
            },
            (TrialPhase::Version(_), TrialOutcome::Failed(f)) => {
                self.phase = TrialPhase::Failed(f);
            },
            (TrialPhase::Start, TrialOutcome::Done) => {
                self.phase = TrialPhase::AwaitLine;
            },
            (TrialPhase::Start, TrialOutcome::Failed(f)) => {
                let context = concat2("start ", self.host.display().as_str());
                self.phase = TrialPhase::Failed(f.context(context));
            },
            (TrialPhase::AwaitLine, TrialOutcome::Line(line)) => {
                self.take_announcement(line.as_str());
            },
            (TrialPhase::AwaitLine, TrialOutcome::TimedOut(f)) => {
                let context = "timed out waiting for code-mode host readiness address".to_owned();
                self.phase = TrialPhase::Stop(Some(f.context(context)));
            },
            (TrialPhase::AwaitLine, TrialOutcome::Failed(f)) => {
                self.phase = TrialPhase::Stop(Some(f));
            },
            (TrialPhase::Connect(listener, address), TrialOutcome::Done) => {
                self.phase = TrialPhase::Ask(listener, address);
            },
            (TrialPhase::Connect(..), TrialOutcome::Failed(f)) => {
                let context = "connect to code-mode host".to_owned();
                self.phase = TrialPhase::Stop(Some(f.context(context)));
            },
            (TrialPhase::Ask(..), TrialOutcome::Line(line)) => {
                self.take_status(line.as_str());
            },
            (TrialPhase::Ask(..), TrialOutcome::Failed(f)) => {
                self.phase = TrialPhase::Stop(Some(f));
            },
            (TrialPhase::Stop(Some(f)), TrialOutcome::Done | TrialOutcome::Failed(_)) => {
                self.phase = TrialPhase::Failed(f);
            },
            (TrialPhase::Stop(None), TrialOutcome::Done | TrialOutcome::Failed(_)) => {
                self.phase = TrialPhase::Passed;
            },
            (phase, _) => {
                self.phase = phase;
            },
        }
    }
}

// ---------------------------------------------------------------------------------------------
// What holds of trials
// ---------------------------------------------------------------------------------------------

/// Whether the host is running after an action ended so.
pub open spec fn running_after(
    running: bool,
    action: Option<TrialActionView>,
    outcome: TrialOutcomeView,
) -> bool {
    match (action, outcome) {
        (Some(TrialActionView::StartHost(_)), TrialOutcomeView::Done) => true,
        (Some(TrialActionView::StopHost), TrialOutcomeView::Done) => false,
        (Some(TrialActionView::StopHost), TrialOutcomeView::Failed(_)) => false,
        _ => running,
    }
}

/// Whether the host is running after the actions from `v` on ended with `outcomes`, and the trial
/// then.
pub open spec fn run_from(v: TrialView, running: bool, outcomes: Seq<TrialOutcomeView>) -> (
    TrialView,
    bool,
)
    decreases outcomes.len(),
{
    if outcomes.len() == 0 {
        (v, running)
    } else {
        let o = outcomes.first();
        run_from(v.next(o), running_after(running, v.action(), o), outcomes.drop_first())
    }
}

/// Whether the host is running in a phase.
pub open spec fn runs_in(phase: TrialPhaseView) -> bool {
    match phase {
        TrialPhaseView::AwaitLine => true,
        TrialPhaseView::Connect(..) => true,
        TrialPhaseView::Ask(..) => true,
        TrialPhaseView::Stop(_) => true,
        _ => false,
    }
}

/// Whatever happens in a trial, the host that it started has been stopped when the trial is
/// over.
pub proof fn host_is_always_stopped(
    v: TrialView,
    running: bool,
    outcomes: Seq<TrialOutcomeView>,
)
    requires
        running == runs_in(v.phase),
    ensures
        run_from(v, running, outcomes).1 == runs_in(run_from(v, running, outcomes).0.phase),
        run_from(v, running, outcomes).0.action() is None ==> !run_from(v, running, outcomes).1,
    decreases outcomes.len(),
{
    if outcomes.len() > 0 {
        let o = outcomes.first();
        host_is_always_stopped(
            v.next(o),
            running_after(running, v.action(), o),
            outcomes.drop_first(),
        );
    }
}

/// Whether a text is not empty and neither begins nor ends with white space.
pub open spec fn trim_text(s: Seq<char>) -> bool {
    s.len() > 0 && !white_space(s.first()) && !white_space(s.last())
}

proof fn lemma_announcement_parsed(listener: Listener, address: Seq<char>)
    requires
        trim_text(address),
    ensures
        announced_address(announced(listener, address).push('\n')) == Some((listener, address)),
{
    reveal_strlit("http://");
    reveal_strlit("ws://");
    lemma_announced(listener, address);
    let prefix = listener.prefix_text();
    let line = prefix + address;
    assert("http://"@[0] == 'h');
    assert("ws://"@[0] == 'w');
    assert(line.first() == prefix[0]);
    assert(line.last() == address.last());
    lemma_trim_line_end(line);
    assert(line.skip(prefix.len() as int) == address);
    assert(line.take(prefix.len() as int) == prefix);
}

/// The trial and the listeners agree: the line that a listener announces is understood, the trial
/// then connects to its address, and what it asks there is what the listener lets through.
pub proof fn listeners_are_asked_what_they_admit(
    v: TrialView,
    listener: Listener,
    address: Seq<char>,
)
    requires
        v.phase is AwaitLine,
        trim_text(address),
    ensures
        ({
            let w = v.next(TrialOutcomeView::Line(announced(listener, address).push('\n')));
            &&& w.action() == Some(TrialActionView::Connect(address))
            &&& w.next(TrialOutcomeView::Done).action() == Some(
                TrialActionView::Exchange {
                    request: request_text(readiness_question(listener), address),
                    seconds: HOST_START_TIMEOUT,
                },
            )
            &&& admitted(listener, readiness_question(listener))
        }),
{
    lemma_announcement_parsed(listener, address);
}

/// A package of which the command tells its version, and the host announces itself and tells that
/// it is ready, passes the trial.
pub proof fn ready_packages_pass(
    package_dir: Seq<u8>,
    status: Seq<char>,
    listener: Listener,
    address: Seq<char>,
    line: Seq<char>,
)
    requires
        trim_text(address),
        ready_status(line),
    ensures
        TrialView::of_package(package_dir).next(
            TrialOutcomeView::Exit { success: true, status },
        ).next(TrialOutcomeView::Done).next(
            TrialOutcomeView::Line(announced(listener, address).push('\n')),
        ).next(TrialOutcomeView::Done).next(TrialOutcomeView::Line(line)).next(
            TrialOutcomeView::Done,
        ).phase is Passed,
{
    lemma_announcement_parsed(listener, address);
}

/// A trial passes exactly when the answer of the host begins with the status that it is ready.
pub proof fn only_ready_hosts_pass(v: TrialView, line: Seq<char>)
    requires
        v.phase is Ask,
    ensures
        v.next(TrialOutcomeView::Line(line)).next(TrialOutcomeView::Done).phase is Passed
            <==> ready_status(line),
{
}

/// A host passes exactly when the first twelve characters of its answer are `HTTP/1.1 200`, and
/// whatever it answered it is stopped first. Any other answer is a failure that shows the line.
pub proof fn only_status_200_passes(v: TrialView, line: Seq<char>, stopped: TrialOutcomeView)
    requires
        v.phase is Ask,
        stopped is Done || stopped is Failed,
    ensures
        v.next(TrialOutcomeView::Line(line)).action() == Some(TrialActionView::StopHost),
        v.next(TrialOutcomeView::Line(line)).next(stopped).phase == (if line.len() >= 12
            && line.take(12) == "HTTP/1.1 200"@ {
            TrialPhaseView::Passed
        } else {
            TrialPhaseView::Failed(
                seq!["code-mode host readiness check failed: "@ + debug_text(line)],
            )
        }),
{
    reveal_strlit("HTTP/1.1 200");
}

/// A host that answers nothing, or with a status of three characters other than 200, fails.
pub proof fn other_statuses_fail(
    v: TrialView,
    code: Seq<char>,
    rest: Seq<char>,
    stopped: TrialOutcomeView,
)
    requires
        v.phase is Ask,
        stopped is Done || stopped is Failed,
        code.len() == 3,
        code != "200"@,
    ensures
        v.next(TrialOutcomeView::Line(Seq::<char>::empty())).next(stopped).phase is Failed,
        v.next(TrialOutcomeView::Line("HTTP/1.1 "@ + code)).next(stopped).phase is Failed,
        v.next(TrialOutcomeView::Line("HTTP/1.1 "@ + code + rest)).next(stopped).phase is Failed,
        v.next(TrialOutcomeView::Line("HTTP/1.1 200"@ + rest)).next(stopped).phase is Passed,
{
    reveal_strlit("HTTP/1.1 200");
    reveal_strlit("HTTP/1.1 ");
    reveal_strlit("200");
    let short = "HTTP/1.1 "@ + code;
    let long = "HTTP/1.1 "@ + code + rest;
    only_status_200_passes(v, Seq::<char>::empty(), stopped);
    only_status_200_passes(v, short, stopped);
    only_status_200_passes(v, long, stopped);
    only_status_200_passes(v, "HTTP/1.1 200"@ + rest, stopped);
    assert(("HTTP/1.1 200"@ + rest).take(12) =~= "HTTP/1.1 200"@);
    let ok = "HTTP/1.1 200"@;
    if short.take(12) == ok || long.take(12) == ok {
        assert(code[0] == ok[9]) by {
            assert(short.take(12)[9] == code[0]);
            assert(long.take(12)[9] == code[0]);
        }
        assert(code[1] == ok[10]) by {
            assert(short.take(12)[10] == code[1]);
            assert(long.take(12)[10] == code[1]);
        }
        assert(code[2] == ok[11]) by {
            assert(short.take(12)[11] == code[2]);
            assert(long.take(12)[11] == code[2]);
        }
        assert(code =~= "200"@);
    }
}

/// The trial of a package begins with its command, asks that for its version, and then starts its
/// code-mode host on a port of its choice of the local machine.
pub proof fn trials_run_what_the_package_holds(package_dir: Seq<u8>, host: Seq<u8>)
    ensures
        TrialView::of_package(package_dir).phase == TrialPhaseView::Version(
            joined_text(package_dir, "bin/codex"@),
        ),
        TrialView::of_package(package_dir).host == joined_text(
            package_dir,
            "bin/codex-code-mode-host"@,
        ),
        TrialView::of_package(package_dir).action() matches Some(TrialActionView::Run(c))
            && c.program == joined_text(package_dir, "bin/codex"@) && c.args == seq![
            encode_utf8("--version"@),
        ] && c.env.len() == 0 && c.current_dir is None,
        TrialView::of_host(host).action() matches Some(TrialActionView::StartHost(c)) && c.program
            == host && c.args == seq![
            encode_utf8("--listen"@),
            encode_utf8("grpc://127.0.0.1:0"@),
        ] && c.env.len() == 0 && c.current_dir is None,
{
}

/// The host of the trial is the one that it began with.
pub proof fn trials_keep_their_host(v: TrialView, outcome: TrialOutcomeView)
    ensures
        v.next(outcome).host == v.host,
        v.phase is Start ==> (v.action() matches Some(TrialActionView::StartHost(c)) && c.program
            == v.host),
{
}

/// A command that does not tell its version with success ends the trial before a host is started.
pub proof fn version_comes_before_the_host(
    v: TrialView,
    codex: Seq<u8>,
    success: bool,
    status: Seq<char>,
    why: Seq<Seq<char>>,
)
    requires
        v.phase == TrialPhaseView::Version(codex),
    ensures
        v.action() matches Some(TrialActionView::Run(c)) && c.program == codex && c.args == seq![
            encode_utf8("--version"@),
        ],
        v.next(TrialOutcomeView::Exit { success, status }).phase == (if success {
            TrialPhaseView::Start
        } else {
            TrialPhaseView::Failed(seq![displayed(codex) + " --version exited with "@ + status])
        }),
        v.next(TrialOutcomeView::Failed(why)).phase == TrialPhaseView::Failed(why),
        v.next(TrialOutcomeView::Failed(why)).action() is None,
{
}

/// A host that cannot be started ends the trial; one that does not announce itself within fifteen
/// seconds, or not at all, is stopped, and so is one that cannot be reached or does not answer.
pub proof fn silent_hosts_are_stopped(v: TrialView, why: Seq<Seq<char>>)
    ensures
        v.phase is Start ==> v.next(TrialOutcomeView::Failed(why)).phase == TrialPhaseView::Failed(
            seq!["start "@ + displayed(v.host)] + why,
        ),
        v.phase is Start ==> v.next(TrialOutcomeView::Done).phase is AwaitLine,
        v.phase is AwaitLine ==> v.action() == Some(TrialActionView::AwaitLine(15)),
        v.phase is AwaitLine ==> v.next(TrialOutcomeView::TimedOut(why)).phase
            == TrialPhaseView::Stop(
            Some(seq!["timed out waiting for code-mode host readiness address"@] + why),
        ),
        v.phase is AwaitLine ==> v.next(TrialOutcomeView::Failed(why)).phase
            == TrialPhaseView::Stop(Some(why)),
        v.phase is Connect ==> v.next(TrialOutcomeView::Failed(why)).phase == TrialPhaseView::Stop(
            Some(seq!["connect to code-mode host"@] + why),
        ),
        v.phase is Ask ==> v.next(TrialOutcomeView::Failed(why)).phase == TrialPhaseView::Stop(
            Some(why),
        ),
{
}

/// A trial ends as it was decided before the host was stopped, whether or not that worked.
pub proof fn stopping_decides_nothing(v: TrialView, stopped: TrialOutcomeView)
    requires
        stopped is Done || stopped is Failed,
    ensures
        v.phase is Stop ==> v.action() == Some(TrialActionView::StopHost),
        v.phase == TrialPhaseView::Stop(None) ==> v.next(stopped).phase is Passed,
        v.phase matches TrialPhaseView::Stop(Some(why)) ==> v.next(stopped).phase
            == TrialPhaseView::Failed(why),
        v.next(stopped).phase is Passed ==> v.phase is Passed || v.phase
            == TrialPhaseView::Stop(None),
{
}

/// The address is what follows `http://` or `ws://` in the first line of the host, without the
/// white space around that; the trial connects to it, and then asks with a request for the path
/// that goes with the scheme, within fifteen seconds. Any other line is a failure that shows it.
pub proof fn announcements_name_the_address(v: TrialView, line: Seq<char>)
    requires
        v.phase is AwaitLine,
    ensures
        ({
            let w = v.next(TrialOutcomeView::Line(line));
            let shown = trimmed(line);
            &&& w.phase matches TrialPhaseView::Connect(listener, address) ==> {
                &&& shown == (if listener is Grpc {
                    "http://"@ + address
                } else {
                    "ws://"@ + address
                })
                &&& w.action() == Some(TrialActionView::Connect(address))
                &&& w.next(TrialOutcomeView::Done).action() == Some(
                    TrialActionView::Exchange {
                        request: (if listener is Grpc {
                            "GET /healthz HTTP/1.1\r\nHost: "@
                        } else {
                            "GET /readyz HTTP/1.1\r\nHost: "@
                        }) + address + "\r\nConnection: close\r\n\r\n"@,
                        seconds: 15,
                    },
                )
            }
            &&& !(w.phase is Connect) ==> w.phase == TrialPhaseView::Stop(
                Some(seq!["code-mode host returned invalid address: "@ + debug_text(line)]),
            ) && !"http://"@.is_prefix_of(shown) && !"ws://"@.is_prefix_of(shown)
        }),
{
    let w = v.next(TrialOutcomeView::Line(line));
    let shown = trimmed(line);
    lemma_request_text();
    match w.phase {
        TrialPhaseView::Connect(listener, address) => {
            let prefix = listener.prefix_text();
            assert(shown =~= prefix + address);
            let rest = " HTTP/1.1\r\nHost: "@;
            assert(request_text(readiness_question(listener), address)
                == readiness_question(listener).method + " "@ + readiness_question(listener).path
                + rest + address + "\r\nConnection: close\r\n\r\n"@);
        },
        _ => {},
    }
}

proof fn lemma_request_text()
    ensures
        "GET"@ + " "@ + "/healthz"@ + " HTTP/1.1\r\nHost: "@
            == "GET /healthz HTTP/1.1\r\nHost: "@,
        "GET"@ + " "@ + "/readyz"@ + " HTTP/1.1\r\nHost: "@ == "GET /readyz HTTP/1.1\r\nHost: "@,
{
    reveal_strlit("GET");
    reveal_strlit(" ");
    reveal_strlit("/healthz");
    reveal_strlit("/readyz");
    reveal_strlit(" HTTP/1.1\r\nHost: ");
    reveal_strlit("GET /healthz HTTP/1.1\r\nHost: ");
    reveal_strlit("GET /readyz HTTP/1.1\r\nHost: ");
    assert("GET"@ + " "@ + "/healthz"@ + " HTTP/1.1\r\nHost: "@
        =~= "GET /healthz HTTP/1.1\r\nHost: "@);
    assert("GET"@ + " "@ + "/readyz"@ + " HTTP/1.1\r\nHost: "@
        =~= "GET /readyz HTTP/1.1\r\nHost: "@);
}

/// Whether an outcome is an answer to an action.
pub open spec fn answers(action: Option<TrialActionView>, outcome: TrialOutcomeView) -> bool {
    match action {
        Some(TrialActionView::Run(_)) => outcome is Exit || outcome is Failed,
        Some(TrialActionView::StartHost(_)) => outcome is Done || outcome is Failed,
        Some(TrialActionView::AwaitLine(_)) => outcome is Line || outcome is TimedOut
            || outcome is Failed,
        Some(TrialActionView::Connect(_)) => outcome is Done || outcome is Failed,
        Some(TrialActionView::Exchange { .. }) => outcome is Line || outcome is Failed,
        Some(TrialActionView::StopHost) => outcome is Done || outcome is Failed,
        None => false,
    }
}

/// An outcome that does not answer the pending action changes nothing.
pub proof fn trial_hears_only_answers(v: TrialView, outcome: TrialOutcomeView)
    requires
        !answers(v.action(), outcome),
    ensures
        v.next(outcome) == v,
{
}

/// What a run has found out of a package.
#[verifier::ext_equal]
pub struct Findings {
    /// The command told its version with success.
    pub version: bool,
    /// The host was started.
    pub started: bool,
    /// The host was connected to.
    pub connected: bool,
    /// The last answer of the host began with the status 200.
    pub ready: bool,
}

/// What is found out by an action that ended so.
pub open spec fn found_by(
    f: Findings,
    action: Option<TrialActionView>,
    outcome: TrialOutcomeView,
) -> Findings {
    match (action, outcome) {
        (Some(TrialActionView::Run(_)), TrialOutcomeView::Exit { success, .. }) => Findings {
            version: success,
            ..f
        },
        (Some(TrialActionView::StartHost(_)), TrialOutcomeView::Done) => Findings {
            started: true,
            ..f
        },
        (Some(TrialActionView::Connect(_)), TrialOutcomeView::Done) => Findings {
            connected: true,
            ..f
        },
        (Some(TrialActionView::Exchange { .. }), TrialOutcomeView::Line(line)) => Findings {
            ready: line.len() >= 12 && line.take(12) == "HTTP/1.1 200"@,
            ..f
        },
        _ => f,
    }
}

/// What a run from `v` on has found out whose actions ended with `outcomes`, and the trial then.
pub open spec fn found_from(v: TrialView, f: Findings, outcomes: Seq<TrialOutcomeView>) -> (
    TrialView,
    Findings,
)
    decreases outcomes.len(),
{
    if outcomes.len() == 0 {
        (v, f)
    } else {
        let o = outcomes.first();
        found_from(v.next(o), found_by(f, v.action(), o), outcomes.drop_first())
    }
}

/// Whether a run that has found this out can have come to a phase.
pub open spec fn borne_out(phase: TrialPhaseView, f: Findings) -> bool {
    match phase {
        TrialPhaseView::Version(_) => true,
        TrialPhaseView::Start => f.version,
        TrialPhaseView::AwaitLine => f.version && f.started,
        TrialPhaseView::Connect(..) => f.version && f.started,
        TrialPhaseView::Ask(..) => f.version && f.started && f.connected,
        TrialPhaseView::Stop(None) => f.version && f.started && f.connected && f.ready,
        TrialPhaseView::Passed => f.version && f.started && f.connected && f.ready,
        TrialPhaseView::Stop(Some(_)) => true,
        TrialPhaseView::Failed(_) => true,
    }
}

proof fn lemma_borne_out(v: TrialView, f: Findings, outcomes: Seq<TrialOutcomeView>)
    requires
        borne_out(v.phase, f),
    ensures
        borne_out(found_from(v, f, outcomes).0.phase, found_from(v, f, outcomes).1),
    decreases outcomes.len(),
{
    reveal_strlit("HTTP/1.1 200");
    if outcomes.len() > 0 {
        let o = outcomes.first();
        if let (TrialPhaseView::Ask(..), TrialOutcomeView::Line(line)) = (v.phase, o) {
            only_status_200_passes(v, line, TrialOutcomeView::Done);
        }
        lemma_borne_out(v.next(o), found_by(f, v.action(), o), outcomes.drop_first());
    }
}

/// Over a whole trial, whatever its actions end with: a package passes only when its command told
/// its version with success, its host was started and connected to, and the answer of the host
/// began with the status 200.
pub proof fn only_packages_that_work_pass(package_dir: Seq<u8>, outcomes: Seq<TrialOutcomeView>)
    ensures
        ({
            let none = Findings { version: false, started: false, connected: false, ready: false };
            let (w, f) = found_from(TrialView::of_package(package_dir), none, outcomes);
            w.phase is Passed ==> f.version && f.started && f.connected && f.ready
        }),
{
    let none = Findings { version: false, started: false, connected: false, ready: false };
    lemma_borne_out(TrialView::of_package(package_dir), none, outcomes);
}

} // verus!
