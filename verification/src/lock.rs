//! The lock that keeps concurrent source updates apart: a file that holds the number of the
//! process that updates.

use crate::command::{command_of, CommandLine, CommandView};
use crate::failure::{in_context, Failure};
use crate::io::{answers, operation_view, ErrorKind, Operation, OperationView, Outcome, OutcomeView};
use crate::layout::SourceInstallLayout;
use crate::os_text::OsText;
use crate::text::{
    chars_of, decimal, decimal_string, lemma_decimal_digits, lemma_trim_line_end, string_of, trim,
    trimmed,
};
use vstd::prelude::*;
use vstd::utf8::*;

verus! {

/// For how many seconds a lock must not have changed to count as left behind.
pub const STALE_LOCK_AGE: u64 = 600;

/// What a process writes into its lock.
pub open spec fn lock_text(pid: nat) -> Seq<char> {
    decimal(pid).push('\n')
}

/// What a process writes into its lock.
fn own_text(pid: u32) -> (r: String)
    ensures
        r@ == lock_text(pid as nat),
{
    let mut r = decimal_string(pid as u128);
    r.push('\n');
    r
}

/// The command that succeeds exactly when the process that a lock names is running.
pub open spec fn probe_command(text: Seq<char>) -> CommandView {
    command_of(
        encode_utf8("kill"@),
        seq![encode_utf8("-0"@), encode_utf8(trimmed(text))],
        None,
    )
}

/// The command that succeeds exactly when the process that a lock names is running.
fn probe(text: &str) -> (r: CommandLine)
    ensures
        r@ == probe_command(text@),
{
    let chars = chars_of(text);
    let owner = string_of(trim(chars.as_slice()));
    let r = CommandLine::new(OsText::from_text("kill")).text_arg("-0").text_arg(owner.as_str());
    assert(r@ =~= probe_command(text@));
    r
}

/// How far a process has come in getting the lock. From the moment on when the lock was found
/// taken, the failure to create it is kept.
#[derive(Debug, PartialEq, Eq)]
pub enum LockPhase {
    /// The directory of the lock is created.
    MakeRoot,
    /// The lock is created.
    Create,
    /// The lock exists: it is found out how old it is.
    Age(Failure),
    /// The lock is old: it is read.
    ReadOwner(Failure),
    /// It is found out whether the process that the lock names is running.
    Probe(Failure, String),
    /// The lock was left behind and is removed.
    RemoveStale,
    /// The lock is created once more.
    Recreate,
    Held,
    Refused(Failure),
}

/// How far a process has come in getting the lock, as a value of mathematics.
#[verifier::ext_equal]
pub enum LockPhaseView {
    MakeRoot,
    Create,
    Age(Seq<Seq<char>>),
    ReadOwner(Seq<Seq<char>>),
    Probe(Seq<Seq<char>>, Seq<char>),
    RemoveStale,
    Recreate,
    Held,
    Refused(Seq<Seq<char>>),
}

impl View for LockPhase {
    type V = LockPhaseView;

    open spec fn view(&self) -> LockPhaseView {
        match self {
            LockPhase::MakeRoot => LockPhaseView::MakeRoot,
            LockPhase::Create => LockPhaseView::Create,
            LockPhase::Age(f) => LockPhaseView::Age(f@),
            LockPhase::ReadOwner(f) => LockPhaseView::ReadOwner(f@),
            LockPhase::Probe(f, t) => LockPhaseView::Probe(f@, t@),
            LockPhase::RemoveStale => LockPhaseView::RemoveStale,
            LockPhase::Recreate => LockPhaseView::Recreate,
            LockPhase::Held => LockPhaseView::Held,
            LockPhase::Refused(f) => LockPhaseView::Refused(f@),
        }
    }
}

/// The attempt of a process to get the lock of a source installation.
#[derive(Debug, PartialEq, Eq)]
pub struct LockAcquisition {
    root: OsText,
    path: OsText,
    pid: u32,
    phase: LockPhase,
}

/// The attempt of a process to get the lock, as a value of mathematics.
#[verifier::ext_equal]
pub struct LockView {
    /// The directory of the source installation.
    pub root: Seq<u8>,
    /// The file that is the lock.
    pub path: Seq<u8>,
    /// The process that wants the lock.
    pub pid: nat,
    pub phase: LockPhaseView,
}

impl View for LockAcquisition {
    type V = LockView;

    closed spec fn view(&self) -> LockView {
        LockView { root: self.root@, path: self.path@, pid: self.pid as nat, phase: self.phase@ }
    }
}

/// What is said when the lock is taken.
pub open spec fn taken(failure: Seq<Seq<char>>) -> Seq<Seq<char>> {
    in_context(failure, "another Codex source update is already running"@)
}

impl LockView {
    /// A process that wants the lock.
    pub open spec fn start(root: Seq<u8>, path: Seq<u8>, pid: nat) -> LockView {
        LockView { root, path, pid, phase: LockPhaseView::MakeRoot }
    }

    /// The attempt in another phase.
    pub open spec fn to(self, phase: LockPhaseView) -> LockView {
        LockView { phase, ..self }
    }

    /// What is to be done next; nothing once the lock is held or refused.
    pub open spec fn operation(self) -> Option<OperationView> {
        match self.phase {
            LockPhaseView::MakeRoot => Some(OperationView::CreateDirAll(self.root)),
            LockPhaseView::Create => Some(
                OperationView::CreateNew { path: self.path, text: lock_text(self.pid) },
            ),
            LockPhaseView::Age(_) => Some(OperationView::FileAge(self.path)),
            LockPhaseView::ReadOwner(_) => Some(OperationView::ReadFile(self.path)),
            LockPhaseView::Probe(_, text) => Some(OperationView::Run(probe_command(text))),
            LockPhaseView::RemoveStale => Some(OperationView::RemoveFile(self.path)),
            LockPhaseView::Recreate => Some(
                OperationView::CreateNew { path: self.path, text: lock_text(self.pid) },
            ),
            _ => None,
        }
    }

    /// The phase after the age of a lock that exists was found out, where it could be.
    pub open spec fn after_age(self, failure: Seq<Seq<char>>, age: Option<u64>) -> LockPhaseView {
        match age {
            Some(seconds) => if seconds >= STALE_LOCK_AGE {
                LockPhaseView::ReadOwner(failure)
            } else {
                LockPhaseView::Refused(taken(failure))
            },
            None => LockPhaseView::Refused(taken(failure)),
        }
    }

    /// The phase after an old lock was read. One that is not text names no process.
    pub open spec fn after_owner(self, failure: Seq<Seq<char>>, bytes: Seq<u8>) -> LockPhaseView {
        if valid_utf8(bytes) {
            LockPhaseView::Probe(failure, decode_utf8(bytes))
        } else {
            LockPhaseView::RemoveStale
        }
    }

    /// The attempt after its pending operation ended so. An outcome that does not answer that
    /// operation changes nothing.
    pub open spec fn next(self, outcome: OutcomeView) -> LockView {
        match (self.phase, outcome) {
            (LockPhaseView::MakeRoot, OutcomeView::Done) => self.to(LockPhaseView::Create),
            (LockPhaseView::MakeRoot, OutcomeView::Failed { failure, .. }) => self.to(
                LockPhaseView::Refused(failure),
            ),
            (LockPhaseView::Create, OutcomeView::Done) => self.to(LockPhaseView::Held),
            (LockPhaseView::Create, OutcomeView::Failed { kind, failure }) => if kind
                is AlreadyExists {
                self.to(LockPhaseView::Age(failure))
            } else {
                self.to(LockPhaseView::Refused(in_context(failure, "create source-update lock"@)))
            },
            (LockPhaseView::Age(f), OutcomeView::Age(age)) => self.to(self.after_age(f, age)),
            (LockPhaseView::Age(f), OutcomeView::Failed { .. }) => self.to(self.after_age(f, None)),
            (LockPhaseView::ReadOwner(f), OutcomeView::Bytes(bytes)) => self.to(
                self.after_owner(f, bytes),
            ),
            (LockPhaseView::ReadOwner(_), OutcomeView::Failed { .. }) => self.to(
                LockPhaseView::RemoveStale,
            ),
            (LockPhaseView::Probe(f, _), OutcomeView::Exit { success, .. }) => if success {
                self.to(LockPhaseView::Refused(taken(f)))
            } else {
                self.to(LockPhaseView::RemoveStale)
            },
            (LockPhaseView::Probe(..), OutcomeView::Failed { .. }) => self.to(
                LockPhaseView::RemoveStale,
            ),
            (LockPhaseView::RemoveStale, OutcomeView::Done) => self.to(LockPhaseView::Recreate),
            (LockPhaseView::RemoveStale, OutcomeView::Failed { failure, .. }) => self.to(
                LockPhaseView::Refused(in_context(failure, "remove stale source-update lock"@)),
            ),
            (LockPhaseView::Recreate, OutcomeView::Done) => self.to(LockPhaseView::Held),
            (LockPhaseView::Recreate, OutcomeView::Failed { failure, .. }) => self.to(
                LockPhaseView::Refused(failure),
            ),
            _ => self,
        }
    }
}

/// What is said when the lock is taken.
fn already_running(failure: &Failure) -> (r: Failure)
    ensures
        r@ == taken(failure@),
{
    failure.duplicate().context("another Codex source update is already running".to_owned())
}

/// The lock of a source installation, while it is held.
#[derive(Debug, PartialEq, Eq)]
pub struct SourceUpdateLock {
    path: OsText,
}

impl View for SourceUpdateLock {
    type V = Seq<u8>;

    /// The file that is the lock.
    closed spec fn view(&self) -> Seq<u8> {
        self.path@
    }
}

impl SourceUpdateLock {
    /// The attempt of the process `pid` to get the lock of an installation.
    pub fn acquire(layout: &SourceInstallLayout, pid: u32) -> (r: LockAcquisition)
        ensures
            r@ == LockView::start(layout@.source_root, layout@.lock_file(), pid as nat),
    {
        LockAcquisition {
            root: layout.source_root().duplicate(),
            path: layout.lock_file(),
            pid,
            phase: LockPhase::MakeRoot,
        }
    }

    /// What gives the lock back: it is removed, whatever comes of that.
    pub fn release(&self) -> (r: Operation)
        ensures
            r@ == OperationView::RemoveFile(self@),
    {
        Operation::RemoveFile(self.path.duplicate())
    }
}

impl LockAcquisition {
    /// The lock, once it is held.
    pub fn held(&self) -> (r: Option<SourceUpdateLock>)
        ensures
            match r {
                Some(lock) => self@.phase is Held && lock@ == self@.path,
                None => !(self@.phase is Held),
            },
    {
        match self.phase {
            LockPhase::Held => Some(SourceUpdateLock { path: self.path.duplicate() }),
            _ => None,
        }
    }

    /// How far the process has come in getting the lock.
    pub fn phase(&self) -> (r: &LockPhase)
        ensures
            r@ == self@.phase,
    {
        &self.phase
    }

    /// What is to be done next; nothing once the lock is held or refused.
    pub fn operation(&self) -> (r: Option<Operation>)
        ensures
            operation_view(r) == self@.operation(),
    {
        match &self.phase {
            LockPhase::MakeRoot => Some(Operation::CreateDirAll(self.root.duplicate())),
            LockPhase::Create | LockPhase::Recreate => Some(
                Operation::CreateNew { path: self.path.duplicate(), text: own_text(self.pid) },
            ),
            LockPhase::Age(_) => Some(Operation::FileAge(self.path.duplicate())),
            LockPhase::ReadOwner(_) => Some(Operation::ReadFile(self.path.duplicate())),
            LockPhase::Probe(_, text) => Some(Operation::Run(probe(text.as_str()))),
            LockPhase::RemoveStale => Some(Operation::RemoveFile(self.path.duplicate())),
            _ => None,
        }
    }

    /// Takes in how old a lock is that exists.
    fn take_age(failure: &Failure, age: Option<u64>) -> (r: LockPhase)
        ensures
            forall|v: LockView| r@ == #[trigger] v.after_age(failure@, age),
    {
        match age {
            Some(seconds) => if seconds >= STALE_LOCK_AGE {
                LockPhase::ReadOwner(failure.duplicate())
            } else {
                LockPhase::Refused(already_running(failure))
            },
            None => LockPhase::Refused(already_running(failure)),
        }
    }

    /// Takes in how the pending operation ended.
    pub fn advance(&mut self, outcome: Outcome)
        ensures
            final(self)@ == old(self)@.next(outcome@),
    {
        match (&self.phase, outcome) {
            (LockPhase::MakeRoot, Outcome::Done) => {
                self.phase = LockPhase::Create;
            },
            (LockPhase::MakeRoot, Outcome::Failed { failure, .. }) => {
                self.phase = LockPhase::Refused(failure);
            },
            (LockPhase::Create, Outcome::Done) => {
                self.phase = LockPhase::Held;
            },
            (LockPhase::Create, Outcome::Failed { kind, failure }) => {
                self.phase = match kind {
                    ErrorKind::AlreadyExists => LockPhase::Age(failure),
                    _ => LockPhase::Refused(
                        failure.context("create source-update lock".to_owned()),
                    ),
                };
            },
            (LockPhase::Age(f), Outcome::Age(age)) => {
                let next = LockAcquisition::take_age(f, age);
                self.phase = next;
            },
            (LockPhase::Age(f), Outcome::Failed { .. }) => {
                let next = LockAcquisition::take_age(f, None);
                self.phase = next;
            },
            (LockPhase::ReadOwner(f), Outcome::Bytes(bytes)) => {
                let kept = f.duplicate();
                self.phase = match (OsText::from_bytes(bytes)).to_text() {
                    Some(text) => LockPhase::Probe(kept, text),
                    None => LockPhase::RemoveStale,
                };
            },
            (LockPhase::ReadOwner(_), Outcome::Failed { .. }) => {
                self.phase = LockPhase::RemoveStale;
            },
            (LockPhase::Probe(f, _), Outcome::Exit { success, .. }) => {
                let next = if success {
                    LockPhase::Refused(already_running(f))
                } else {
                    LockPhase::RemoveStale
                };
                self.phase = next;
            },
            (LockPhase::Probe(..), Outcome::Failed { .. }) => {
                self.phase = LockPhase::RemoveStale;
            },
            (LockPhase::RemoveStale, Outcome::Done) => {
                self.phase = LockPhase::Recreate;
            },
            (LockPhase::RemoveStale, Outcome::Failed { failure, .. }) => {
                self.phase = LockPhase::Refused(
                    failure.context("remove stale source-update lock".to_owned()),
                );
            },
            (LockPhase::Recreate, Outcome::Done) => {
                self.phase = LockPhase::Held;
            },
            (LockPhase::Recreate, Outcome::Failed { failure, .. }) => {
                self.phase = LockPhase::Refused(failure);
            },
            _ => {},
        }
    }
}

// ---------------------------------------------------------------------------------------------
// Several processes
// ---------------------------------------------------------------------------------------------

/// The lock file and the process that it names.
#[verifier::ext_equal]
pub struct LockFile {
    pub present: bool,
    /// For how many seconds it has not changed, where that can be found out.
    pub age: Option<u64>,
    /// What it holds.
    pub text: Seq<u8>,
    /// Whether the process that it names is running.
    pub owner_running: bool,
}

/// Whether a lock counts as left behind: it is old, and its owner is not running.
pub open spec fn left_behind(file: LockFile) -> bool {
    (file.age matches Some(seconds) && seconds >= STALE_LOCK_AGE) && !(valid_utf8(file.text)
        && file.owner_running)
}

/// Whether `outcome` is what can be answered to an operation on the lock while the file is as
/// given. That an operation fails for another reason is possible for those that change
/// something.
pub open spec fn truthful(file: LockFile, op: Option<OperationView>, outcome: OutcomeView) -> bool {
    match op {
        Some(OperationView::CreateNew { .. }) => {
            &&& outcome is Done ==> !file.present
            &&& outcome matches OutcomeView::Failed { kind, .. } ==> (kind is AlreadyExists
                ==> file.present)
        },
        Some(OperationView::FileAge(_)) => outcome == OutcomeView::Age(file.age),
        Some(OperationView::ReadFile(_)) => outcome == OutcomeView::Bytes(file.text),
        Some(OperationView::Run(_)) => outcome matches OutcomeView::Exit { success, .. } && success
            == file.owner_running,
        Some(_) => true,
        None => false,
    }
}

/// Whether `outcomes` are what can be answered, one after the other, while the file stays as it
/// is.
pub open spec fn truthful_run(v: LockView, file: LockFile, outcomes: Seq<OutcomeView>) -> bool
    decreases outcomes.len(),
{
    outcomes.len() > 0 ==> {
        &&& truthful(file, v.operation(), outcomes.first())
        &&& truthful_run(v.next(outcomes.first()), file, outcomes.drop_first())
    }
}

/// The attempt after its operations ended with `outcomes`.
pub open spec fn run_from(v: LockView, outcomes: Seq<OutcomeView>) -> LockView
    decreases outcomes.len(),
{
    if outcomes.len() == 0 {
        v
    } else {
        run_from(v.next(outcomes.first()), outcomes.drop_first())
    }
}

/// Whether a process has not yet come to the point where it would take the lock from another.
pub open spec fn respectful(v: LockView, file: LockFile) -> bool {
    match v.phase {
        LockPhaseView::MakeRoot => true,
        LockPhaseView::Create => true,
        LockPhaseView::Age(_) => true,
        LockPhaseView::ReadOwner(_) => file.age matches Some(s) && s >= STALE_LOCK_AGE,
        LockPhaseView::Probe(..) => (file.age matches Some(s) && s >= STALE_LOCK_AGE)
            && valid_utf8(file.text),
        LockPhaseView::Refused(_) => true,
        _ => false,
    }
}

/// As long as another process holds the lock, and it is not left behind, nobody else gets it or
/// removes it.
pub proof fn held_lock_is_respected(v: LockView, file: LockFile, outcomes: Seq<OutcomeView>)
    requires
        respectful(v, file),
        file.present,
        !left_behind(file),
        truthful_run(v, file, outcomes),
    ensures
        !(run_from(v, outcomes).phase is Held),
        !(run_from(v, outcomes).operation() matches Some(OperationView::RemoveFile(_))),
        respectful(run_from(v, outcomes), file),
    decreases outcomes.len(),
{
    if outcomes.len() > 0 {
        held_lock_is_respected(v.next(outcomes.first()), file, outcomes.drop_first());
    }
}

/// A lock that is found taken and was left behind is removed and created anew.
pub proof fn stale_lock_is_replaced(
    root: Seq<u8>,
    path: Seq<u8>,
    pid: nat,
    failure: Seq<Seq<char>>,
    file: LockFile,
    status: Seq<char>,
    stdout: Seq<u8>,
)
    requires
        left_behind(file),
    ensures
        ({
            let v = LockView::start(root, path, pid).next(OutcomeView::Done).next(
                OutcomeView::Failed { kind: ErrorKind::AlreadyExists, failure },
            ).next(OutcomeView::Age(file.age)).next(OutcomeView::Bytes(file.text));
            let w = v.next(OutcomeView::Exit { success: file.owner_running, status, stdout });
            &&& w.operation() == Some(OperationView::RemoveFile(path))
            &&& w.next(OutcomeView::Done).operation() == Some(
                OperationView::CreateNew { path, text: lock_text(pid) },
            )
            &&& w.next(OutcomeView::Done).next(OutcomeView::Done).phase is Held
        }),
{
}

/// A lock that is not there, as after it was given back, is got at the first attempt, or else the
/// attempt ends with the reason why the lock could not be created, which is not that another
/// process holds it.
pub proof fn free_lock_is_taken(v: LockView, file: LockFile, outcome: OutcomeView)
    requires
        v.phase is Create,
        !file.present,
        truthful(file, v.operation(), outcome),
        outcome is Done || outcome is Failed,
    ensures
        outcome is Done ==> v.next(outcome).phase is Held,
        outcome matches OutcomeView::Failed { failure, .. } ==> v.next(outcome).phase
            == LockPhaseView::Refused(in_context(failure, "create source-update lock"@)),
{
}

/// When an old lock is read, the process that is looked for is the one that wrote it.
pub proof fn owner_is_the_process_that_wrote(v: LockView, pid: nat, failure: Seq<Seq<char>>)
    requires
        v.phase == LockPhaseView::ReadOwner(failure),
    ensures
        v.next(OutcomeView::Bytes(encode_utf8(lock_text(pid)))).operation() == Some(
            OperationView::Run(
                command_of(
                    encode_utf8("kill"@),
                    seq![encode_utf8("-0"@), encode_utf8(decimal(pid))],
                    None,
                ),
            ),
        ),
{
    let text = lock_text(pid);
    encode_utf8_valid_utf8(text);
    encode_utf8_decode_utf8(text);
    lemma_decimal_digits(pid);
    assert('0' <= decimal(pid)[0] <= '9');
    assert('0' <= decimal(pid)[decimal(pid).len() - 1] <= '9');
    lemma_trim_line_end(decimal(pid));
}

// ---------------------------------------------------------------------------------------------
// Steps
// ---------------------------------------------------------------------------------------------

/// The lock is a new file in a directory that is created first, and it holds the number of the
/// process, in decimal digits, and a line feed.
pub proof fn locks_hold_the_process(v: LockView, root: Seq<u8>, path: Seq<u8>, pid: nat)
    ensures
        LockView::start(root, path, pid).operation() == Some(OperationView::CreateDirAll(root)),
        LockView::start(root, path, pid).next(OutcomeView::Done).operation() == Some(
            OperationView::CreateNew { path, text: decimal(pid).push('\n') },
        ),
        v.phase is Create || v.phase is Recreate ==> v.operation() == Some(
            OperationView::CreateNew { path: v.path, text: decimal(v.pid).push('\n') },
        ),
        v.phase is Create || v.phase is Recreate ==> v.next(OutcomeView::Done).phase is Held,
{
}

/// A lock that is there and was changed within the last ten minutes, or of which that cannot be
/// found out, belongs to another update: the process is refused, and neither reads nor removes it.
/// From ten minutes on it is read.
pub proof fn recent_locks_are_respected(
    v: LockView,
    exists: Seq<Seq<char>>,
    age: Option<u64>,
    outcome: OutcomeView,
)
    requires
        v.phase is Create,
        outcome is Age || outcome is Failed,
        outcome matches OutcomeView::Age(found) ==> found == age,
        outcome is Failed ==> age is None,
    ensures
        ({
            let w = v.next(
                OutcomeView::Failed { kind: ErrorKind::AlreadyExists, failure: exists },
            );
            &&& w.operation() == Some(OperationView::FileAge(v.path))
            &&& if age matches Some(seconds) && seconds >= 600 {
                w.next(outcome).operation() == Some(OperationView::ReadFile(v.path))
            } else {
                &&& w.next(outcome).phase == LockPhaseView::Refused(
                    seq!["another Codex source update is already running"@] + exists,
                )
                &&& w.next(outcome).operation() is None
            }
        }),
{
}

/// A lock of an update that is still running is respected however old it is: the process that it
/// names is asked for with a signal that does nothing. One that names no process that runs, or
/// cannot be read, is removed.
pub proof fn old_locks_of_running_updates_are_respected(
    v: LockView,
    exists: Seq<Seq<char>>,
    text: Seq<char>,
    status: Seq<char>,
    stdout: Seq<u8>,
    unread: OutcomeView,
)
    requires
        v.phase == LockPhaseView::ReadOwner(exists),
        unread is Failed,
    ensures
        ({
            let w = v.next(OutcomeView::Bytes(encode_utf8(text)));
            &&& w.operation() matches Some(OperationView::Run(c))
            &&& c.program == encode_utf8("kill"@)
            &&& c.args == seq![encode_utf8("-0"@), encode_utf8(trimmed(text))]
            &&& c.env.len() == 0
            &&& c.current_dir is None
            &&& w.next(OutcomeView::Exit { success: true, status, stdout }).phase
                == LockPhaseView::Refused(
                seq!["another Codex source update is already running"@] + exists,
            )
            &&& w.next(OutcomeView::Exit { success: false, status, stdout }).operation() == Some(
                OperationView::RemoveFile(v.path),
            )
            &&& w.next(unread).operation() == Some(OperationView::RemoveFile(v.path))
        }),
        v.next(unread).operation() == Some(OperationView::RemoveFile(v.path)),
        forall|bytes: Seq<u8>|
            !valid_utf8(bytes) ==> (#[trigger] v.next(OutcomeView::Bytes(bytes))).operation()
                == Some(OperationView::RemoveFile(v.path)),
{
    encode_utf8_valid_utf8(text);
    encode_utf8_decode_utf8(text);
}

/// Every other failure is told with what was to be done, and ends the attempt to get the lock.
pub proof fn failures_to_lock_are_told(v: LockView, kind: ErrorKind, failure: Seq<Seq<char>>)
    ensures
        ({
            let w = v.next(OutcomeView::Failed { kind, failure });
            &&& v.phase is MakeRoot ==> w.phase == LockPhaseView::Refused(failure)
            &&& v.phase is Create && !(kind is AlreadyExists) ==> w.phase
                == LockPhaseView::Refused(seq!["create source-update lock"@] + failure)
            &&& v.phase is RemoveStale ==> w.phase == LockPhaseView::Refused(
                seq!["remove stale source-update lock"@] + failure,
            )
            &&& v.phase is Recreate ==> w.phase == LockPhaseView::Refused(failure)
        }),
        v.phase is RemoveStale ==> v.operation() == Some(OperationView::RemoveFile(v.path)),
        v.phase is RemoveStale ==> v.next(OutcomeView::Done).operation() == Some(
            OperationView::CreateNew { path: v.path, text: decimal(v.pid).push('\n') },
        ),
{
}

/// The lock that a process tries to get is the same from first to last.
pub proof fn locks_stay_where_they_are(v: LockView, outcome: OutcomeView)
    ensures
        v.next(outcome).path == v.path,
        v.next(outcome).root == v.root,
        v.next(outcome).pid == v.pid,
        v.phase is Held || v.phase is Refused ==> v.operation() is None && v.next(outcome) == v,
        v.next(outcome).phase is Held && !(v.phase is Held) ==> outcome is Done && (
        v.operation() matches Some(OperationView::CreateNew { path, .. }) && path == v.path),
{
}

/// An outcome that does not answer the pending operation changes nothing.
pub proof fn lock_hears_only_answers(v: LockView, outcome: OutcomeView)
    requires
        !answers(v.operation(), outcome),
    ensures
        v.next(outcome) == v,
{
}

} // verus!
