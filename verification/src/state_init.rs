//! Bringing up the state runtime: its databases are opened one after the other, and where a step
//! fails, those that are open are closed again.

use crate::failure::Failure;
use crate::io::failure_view;
use crate::text::slice_views;
use vstd::prelude::*;

verus! {

/// A database that the runtime keeps open. Logs live in a file of their own to reduce lock
/// contention with the rest of the state store.
#[derive(Debug, Clone, Copy, PartialEq, Eq, Structural)]
pub enum Database {
    State,
    Logs,
    Goals,
    Memories,
}

/// What is to be done next.
#[derive(Debug, Clone, Copy, PartialEq, Eq)]
pub enum InitAction {
    /// Create the directory that holds the databases.
    MakeHome,
    /// Open a database and bring its schema up to date.
    Open(Database),
    /// Make sure that the state database holds the row on the progress of backfills.
    EnsureBackfill,
    /// Read the greatest timestamps of the threads in the state database.
    QueryTimestamps,
    /// Close a database.
    Close(Database),
    /// Tidy up the logs database.
    Maintain,
}

/// How an action ended.
#[derive(Debug, PartialEq, Eq)]
pub enum InitOutcome {
    /// It was done.
    Done,
    /// The greatest timestamps of the threads, in milliseconds, where there are threads.
    Timestamps { updated_at: Option<i64>, recency_at: Option<i64> },
    /// It failed.
    Failed(Failure),
}

/// How an action ended, as a value of mathematics.
pub enum InitOutcomeView {
    Done,
    Timestamps { updated_at: Option<i64>, recency_at: Option<i64> },
    Failed(Seq<Seq<char>>),
}

impl View for InitOutcome {
    type V = InitOutcomeView;

    open spec fn view(&self) -> InitOutcomeView {
        match self {
            InitOutcome::Done => InitOutcomeView::Done,
            InitOutcome::Timestamps { updated_at, recency_at } => InitOutcomeView::Timestamps {
                updated_at: *updated_at,
                recency_at: *recency_at,
            },
            InitOutcome::Failed(f) => InitOutcomeView::Failed(f@),
        }
    }
}

/// How far the runtime has come.
#[derive(Debug, Clone, Copy, PartialEq, Eq)]
pub enum InitPhase {
    MakeHome,
    OpenState,
    OpenLogs,
    OpenGoals,
    OpenMemories,
    EnsureBackfill,
    QueryTimestamps,
    /// A step failed: the databases that were opened first to last are being closed in that
    /// order, `last` being the last one to close.
    Closing { next: Database, last: Database },
    Maintain,
    Ready,
    GivenUp,
}

/// The state runtime while it is brought up.
pub struct StateInit {
    phase: InitPhase,
    failure: Option<Failure>,
    updated_at: i64,
    recency_at: i64,
}

/// The state runtime while it is brought up, as a value of mathematics.
#[verifier::ext_equal]
pub struct InitView {
    pub phase: InitPhase,
    /// What made it give up.
    pub failure: Option<Seq<Seq<char>>>,
    /// The timestamps that the runtime starts from, in milliseconds.
    pub updated_at: i64,
    pub recency_at: i64,
}

/// The action that goes with a phase.
pub open spec fn action_of(phase: InitPhase) -> Option<InitAction> {
    match phase {
        InitPhase::MakeHome => Some(InitAction::MakeHome),
        InitPhase::OpenState => Some(InitAction::Open(Database::State)),
        InitPhase::OpenLogs => Some(InitAction::Open(Database::Logs)),
        InitPhase::OpenGoals => Some(InitAction::Open(Database::Goals)),
        InitPhase::OpenMemories => Some(InitAction::Open(Database::Memories)),
        InitPhase::EnsureBackfill => Some(InitAction::EnsureBackfill),
        InitPhase::QueryTimestamps => Some(InitAction::QueryTimestamps),
        InitPhase::Closing { next, .. } => Some(InitAction::Close(next)),
        InitPhase::Maintain => Some(InitAction::Maintain),
        InitPhase::Ready => None,
        InitPhase::GivenUp => None,
    }
}

/// The phase that follows one whose action was done.
pub open spec fn after_done(phase: InitPhase) -> InitPhase {
    match phase {
        InitPhase::MakeHome => InitPhase::OpenState,
        InitPhase::OpenState => InitPhase::OpenLogs,
        InitPhase::OpenLogs => InitPhase::OpenGoals,
        InitPhase::OpenGoals => InitPhase::OpenMemories,
        InitPhase::OpenMemories => InitPhase::EnsureBackfill,
        InitPhase::EnsureBackfill => InitPhase::QueryTimestamps,
        InitPhase::Closing { next, last } => if next == last {
            InitPhase::GivenUp
        } else {
            InitPhase::Closing { next: successor(next), last }
        },
        InitPhase::Maintain => InitPhase::Ready,
        other => other,
    }
}

/// The phase that follows one whose action failed, where that is fatal.
pub open spec fn after_failure(phase: InitPhase) -> Option<InitPhase> {
    match phase {
        InitPhase::MakeHome => Some(InitPhase::GivenUp),
        InitPhase::OpenState => Some(InitPhase::GivenUp),
        InitPhase::OpenLogs => Some(
            InitPhase::Closing { next: Database::State, last: Database::State },
        ),
        InitPhase::OpenGoals => Some(
            InitPhase::Closing { next: Database::State, last: Database::Logs },
        ),
        InitPhase::OpenMemories => Some(
            InitPhase::Closing { next: Database::State, last: Database::Goals },
        ),
        InitPhase::EnsureBackfill => Some(
            InitPhase::Closing { next: Database::State, last: Database::Memories },
        ),
        InitPhase::QueryTimestamps => Some(
            InitPhase::Closing { next: Database::State, last: Database::Memories },
        ),
        _ => None,
    }
}

/// The database that is opened after another; the last one follows itself.
pub open spec fn successor(db: Database) -> Database {
    match db {
        Database::State => Database::Logs,
        Database::Logs => Database::Goals,
        Database::Goals => Database::Memories,
        Database::Memories => Database::Memories,
    }
}

/// A timestamp to start from: zero where there is none yet.
pub open spec fn or_zero(t: Option<i64>) -> i64 {
    match t {
        Some(t) => t,
        None => 0,
    }
}

impl InitView {
    /// A runtime of which nothing is up.
    pub open spec fn start() -> InitView {
        InitView { phase: InitPhase::MakeHome, failure: None, updated_at: 0, recency_at: 0 }
    }

    /// The runtime after its pending action ended so. An outcome that does not answer that
    /// action changes nothing. A failure to tidy up the logs is no reason to give up.
    pub open spec fn next(self, outcome: InitOutcomeView) -> InitView {
        match outcome {
            InitOutcomeView::Done => InitView { phase: after_done(self.phase), ..self },
            InitOutcomeView::Timestamps { updated_at, recency_at } => if self.phase
                is QueryTimestamps {
                InitView {
                    phase: InitPhase::Maintain,
                    updated_at: or_zero(updated_at),
                    recency_at: or_zero(recency_at),
                    ..self
                }
            } else {
                self
            },
            InitOutcomeView::Failed(f) => match after_failure(self.phase) {
                Some(phase) => InitView { phase, failure: Some(f), ..self },
                None => if self.phase is Maintain {
                    InitView { phase: InitPhase::Ready, ..self }
                } else {
                    self
                },
            },
        }
    }
}

impl View for StateInit {
    type V = InitView;

    closed spec fn view(&self) -> InitView {
        InitView {
            phase: self.phase,
            failure: failure_view(self.failure),
            updated_at: self.updated_at,
            recency_at: self.recency_at,
        }
    }
}

impl StateInit {
    /// A runtime of which nothing is up.
    pub fn new() -> (r: StateInit)
        ensures
            r@ == InitView::start(),
    {
        StateInit { phase: InitPhase::MakeHome, failure: None, updated_at: 0, recency_at: 0 }
    }

    /// How far the runtime has come.
    pub fn phase(&self) -> (r: InitPhase)
        ensures
            r == self@.phase,
    {
        self.phase
    }

    /// What is to be done next; nothing once the runtime is ready or has been given up.
    pub fn action(&self) -> (r: Option<InitAction>)
        ensures
            r == action_of(self@.phase),
    {
        match self.phase {
            InitPhase::MakeHome => Some(InitAction::MakeHome),
            InitPhase::OpenState => Some(InitAction::Open(Database::State)),
            InitPhase::OpenLogs => Some(InitAction::Open(Database::Logs)),
            InitPhase::OpenGoals => Some(InitAction::Open(Database::Goals)),
            InitPhase::OpenMemories => Some(InitAction::Open(Database::Memories)),
            InitPhase::EnsureBackfill => Some(InitAction::EnsureBackfill),
            InitPhase::QueryTimestamps => Some(InitAction::QueryTimestamps),
            InitPhase::Closing { next, .. } => Some(InitAction::Close(next)),
            InitPhase::Maintain => Some(InitAction::Maintain),
            InitPhase::Ready => None,
            InitPhase::GivenUp => None,
        }
    }

    /// Takes in how the pending action ended.
    pub fn advance(&mut self, outcome: InitOutcome)
        ensures
            final(self)@ == old(self)@.next(outcome@),
    {
        match outcome {
            InitOutcome::Done => {
                self.phase = match self.phase {
                    InitPhase::MakeHome => InitPhase::OpenState,
                    InitPhase::OpenState => InitPhase::OpenLogs,
                    InitPhase::OpenLogs => InitPhase::OpenGoals,
                    InitPhase::OpenGoals => InitPhase::OpenMemories,
                    InitPhase::OpenMemories => InitPhase::EnsureBackfill,
                    InitPhase::EnsureBackfill => InitPhase::QueryTimestamps,
                    InitPhase::Closing { next, last } => close_next(next, last),
                    InitPhase::Maintain => InitPhase::Ready,
                    other => other,
                };
            },
            InitOutcome::Timestamps { updated_at, recency_at } => {
                if let InitPhase::QueryTimestamps = self.phase {
                    self.phase = InitPhase::Maintain;
                    self.updated_at = match updated_at {
                        Some(t) => t,
                        None => 0,
                    };
                    self.recency_at = match recency_at {
                        Some(t) => t,
                        None => 0,
                    };
                }
            },
            InitOutcome::Failed(failure) => {
                let closing = match self.phase {
                    InitPhase::MakeHome => InitPhase::GivenUp,
                    InitPhase::OpenState => InitPhase::GivenUp,
                    InitPhase::OpenLogs => InitPhase::Closing {
                        next: Database::State,
                        last: Database::State,
                    },
                    InitPhase::OpenGoals => InitPhase::Closing {
                        next: Database::State,
                        last: Database::Logs,
                    },
                    InitPhase::OpenMemories => InitPhase::Closing {
                        next: Database::State,
                        last: Database::Goals,
                    },
                    InitPhase::EnsureBackfill => InitPhase::Closing {
                        next: Database::State,
                        last: Database::Memories,
                    },
                    InitPhase::QueryTimestamps => InitPhase::Closing {
                        next: Database::State,
                        last: Database::Memories,
                    },
                    InitPhase::Maintain => {
                        self.phase = InitPhase::Ready;
                        return;
                    },
                    _ => {
                        return;
                    },
                };
                self.phase = closing;
                self.failure = Some(failure);
            },
        }
    }

    /// What the runtime starts from once it is ready: the greatest update and recency
    /// timestamps of its threads, in milliseconds, zero where there are no threads.
    pub fn timestamps(&self) -> (r: (i64, i64))
        ensures
            r == (self@.updated_at, self@.recency_at),
    {
        (self.updated_at, self.recency_at)
    }

    /// What made the runtime give up, once it has.
    pub fn failure(self) -> (r: Option<Failure>)
        ensures
            failure_view(r) == self@.failure,
    {
        self.failure
    }
}

/// The phase after one of the databases to close has been closed.
fn close_next(next: Database, last: Database) -> (r: InitPhase)
    ensures
        r == after_done(InitPhase::Closing { next, last }),
{
    if next == last {
        return InitPhase::GivenUp;
    }
    let following = match next {
        Database::State => Database::Logs,
        Database::Logs => Database::Goals,
        Database::Goals => Database::Memories,
        Database::Memories => Database::Memories,
    };
    InitPhase::Closing { next: following, last }
}

/// The databases in the order in which a runtime that is ready closes them: the last one opened
/// first.
pub open spec fn closing_order() -> Seq<Database> {
    seq![Database::Memories, Database::Goals, Database::Logs, Database::State]
}

/// The databases in the order in which a runtime that is ready closes them.
pub fn shutdown_order() -> (r: Vec<Database>)
    ensures
        r@ == closing_order(),
{
    let r = vec![Database::Memories, Database::Goals, Database::Logs, Database::State];
    assert(r@ == closing_order());
    r
}

// ---------------------------------------------------------------------------------------------
// Telemetry
// ---------------------------------------------------------------------------------------------

/// The phases that are reported for an action that was done.
pub open spec fn phases_of(action: InitAction) -> Seq<Seq<char>> {
    match action {
        InitAction::Open(Database::State) => seq!["open_state"@, "migrate_state"@],
        InitAction::Open(Database::Logs) => seq!["open_logs"@, "migrate_logs"@],
        InitAction::Open(Database::Goals) => seq!["open_goals"@, "migrate_goals"@],
        InitAction::Open(Database::Memories) => seq!["open_memories"@, "migrate_memories"@],
        InitAction::EnsureBackfill => seq!["ensure_backfill_state"@],
        InitAction::QueryTimestamps => seq!["post_init_query"@],
        _ => Seq::empty(),
    }
}

/// The phases that are reported for an action that was done.
pub fn telemetry_phases(action: InitAction) -> (r: &'static [&'static str])
    ensures
        slice_views(r@) == phases_of(action),
{
    let r: &'static [&'static str] = match action {
        InitAction::Open(Database::State) => &["open_state", "migrate_state"],
        InitAction::Open(Database::Logs) => &["open_logs", "migrate_logs"],
        InitAction::Open(Database::Goals) => &["open_goals", "migrate_goals"],
        InitAction::Open(Database::Memories) => &["open_memories", "migrate_memories"],
        InitAction::EnsureBackfill => &["ensure_backfill_state"],
        InitAction::QueryTimestamps => &["post_init_query"],
        _ => &[],
    };
    assert(slice_views(r@) =~= phases_of(action));
    r
}

// ---------------------------------------------------------------------------------------------
// Whole runs
// ---------------------------------------------------------------------------------------------

/// A runtime that is being brought up, with the databases that its driver holds open and the
/// phases that were reported as done.
#[verifier::ext_equal]
pub struct InitRun {
    pub init: InitView,
    pub open: Set<Database>,
    pub reported: Set<Seq<char>>,
}

/// The databases that are open after an action ended so.
pub open spec fn open_after(
    open: Set<Database>,
    action: Option<InitAction>,
    outcome: InitOutcomeView,
) -> Set<Database> {
    match (action, outcome) {
        (Some(InitAction::Open(db)), InitOutcomeView::Done) => open.insert(db),
        (Some(InitAction::Close(db)), InitOutcomeView::Done) => open.remove(db),
        _ => open,
    }
}

/// Whether an outcome reports that an action was done.
pub open spec fn success_of(action: InitAction, outcome: InitOutcomeView) -> bool {
    match action {
        InitAction::QueryTimestamps => outcome is Timestamps,
        _ => outcome is Done,
    }
}

/// The phases that were reported as done after an action ended so.
pub open spec fn reported_after(
    reported: Set<Seq<char>>,
    action: Option<InitAction>,
    outcome: InitOutcomeView,
) -> Set<Seq<char>> {
    match action {
        Some(action) => if success_of(action, outcome) {
            reported.union(phases_of(action).to_set())
        } else {
            reported
        },
        None => reported,
    }
}

/// The run in which the actions end with `outcomes`, one after the other.
pub open spec fn run_of(outcomes: Seq<InitOutcomeView>) -> InitRun
    decreases outcomes.len(),
{
    if outcomes.len() == 0 {
        InitRun { init: InitView::start(), open: Set::empty(), reported: Set::empty() }
    } else {
        let before = run_of(outcomes.drop_last());
        let action = action_of(before.init.phase);
        InitRun {
            init: before.init.next(outcomes.last()),
            open: open_after(before.open, action, outcomes.last()),
            reported: reported_after(before.reported, action, outcomes.last()),
        }
    }
}

/// The databases that are opened up to and with `last`.
pub open spec fn up_to(last: Database) -> Set<Database> {
    match last {
        Database::State => set![Database::State],
        Database::Logs => set![Database::State, Database::Logs],
        Database::Goals => set![Database::State, Database::Logs, Database::Goals],
        Database::Memories => all_databases(),
    }
}

/// All databases of the runtime.
pub open spec fn all_databases() -> Set<Database> {
    set![Database::State, Database::Logs, Database::Goals, Database::Memories]
}

/// The place of a database in the order in which they are opened.
pub open spec fn rank(db: Database) -> int {
    match db {
        Database::State => 0,
        Database::Logs => 1,
        Database::Goals => 2,
        Database::Memories => 3,
    }
}

/// The databases that are open in a phase.
pub open spec fn open_in(phase: InitPhase) -> Set<Database> {
    match phase {
        InitPhase::MakeHome => Set::empty(),
        InitPhase::OpenState => Set::empty(),
        InitPhase::OpenLogs => up_to(Database::State),
        InitPhase::OpenGoals => up_to(Database::Logs),
        InitPhase::OpenMemories => up_to(Database::Goals),
        InitPhase::EnsureBackfill => all_databases(),
        InitPhase::QueryTimestamps => all_databases(),
        InitPhase::Closing { next, last } => Set::new(
            |db: Database| rank(next) <= rank(db) <= rank(last),
        ),
        InitPhase::Maintain => all_databases(),
        InitPhase::Ready => all_databases(),
        InitPhase::GivenUp => Set::empty(),
    }
}

/// Whether the databases that are still to be closed are in order.
pub open spec fn orderly(phase: InitPhase) -> bool {
    phase matches InitPhase::Closing { next, last } ==> rank(next) <= rank(last)
}

/// A database is closed exactly when the runtime gives up after it was opened: once it is ready
/// all databases are open, once it has been given up none is, and in between they are closed in
/// the order in which they were opened.
pub proof fn databases_are_closed_when_given_up(outcomes: Seq<InitOutcomeView>)
    ensures
        run_of(outcomes).open == open_in(run_of(outcomes).init.phase),
        run_of(outcomes).init.phase is Ready ==> run_of(outcomes).open == all_databases(),
        run_of(outcomes).init.phase is GivenUp ==> run_of(outcomes).open == Set::<
            Database,
        >::empty(),
        orderly(run_of(outcomes).init.phase),
    decreases outcomes.len(),
{
    if outcomes.len() > 0 {
        databases_are_closed_when_given_up(outcomes.drop_last());
        let before = run_of(outcomes.drop_last());
        let after = run_of(outcomes);
        assert(after.open =~= open_in(after.init.phase));
    }
}

/// A failure is known exactly while databases are closed and once the runtime has been given
/// up, and it stays the one that came first.
pub proof fn first_failure_is_kept(outcomes: Seq<InitOutcomeView>, later: InitOutcomeView)
    ensures
        run_of(outcomes).init.failure is Some <==> (run_of(outcomes).init.phase is Closing
            || run_of(outcomes).init.phase is GivenUp),
        run_of(outcomes).init.failure is Some ==> run_of(outcomes.push(later)).init.failure
            == run_of(outcomes).init.failure,
    decreases outcomes.len(),
{
    if outcomes.len() > 0 {
        first_failure_is_kept(outcomes.drop_last(), outcomes.last());
    }
    assert(outcomes.push(later).drop_last() == outcomes);
}

/// A failure to open the state database is final: nothing else is opened, closed or moved.
pub proof fn state_database_failure_is_fatal(v: InitView, failure: Seq<Seq<char>>)
    requires
        v.phase is OpenState,
    ensures
        v.next(InitOutcomeView::Failed(failure)).phase is GivenUp,
        v.next(InitOutcomeView::Failed(failure)).failure == Some(failure),
        action_of(v.next(InitOutcomeView::Failed(failure)).phase) is None,
{
}

/// The phases of one action after those of the actions before it.
pub open spec fn with_phases(reported: Set<Seq<char>>, action: InitAction) -> Set<Seq<char>> {
    reported.union(phases_of(action).to_set())
}

/// The phases that have been reported as done when the runtime reaches a phase without having
/// failed.
pub open spec fn reported_in(phase: InitPhase) -> Set<Seq<char>> {
    let state = with_phases(Set::empty(), InitAction::Open(Database::State));
    let logs = with_phases(state, InitAction::Open(Database::Logs));
    let goals = with_phases(logs, InitAction::Open(Database::Goals));
    let memories = with_phases(goals, InitAction::Open(Database::Memories));
    let backfill = with_phases(memories, InitAction::EnsureBackfill);
    match phase {
        InitPhase::MakeHome => Set::empty(),
        InitPhase::OpenState => Set::empty(),
        InitPhase::OpenLogs => state,
        InitPhase::OpenGoals => logs,
        InitPhase::OpenMemories => goals,
        InitPhase::EnsureBackfill => memories,
        InitPhase::QueryTimestamps => backfill,
        _ => with_phases(backfill, InitAction::QueryTimestamps),
    }
}

/// Every phase that is reported while the runtime is brought up.
pub open spec fn all_phases() -> Set<Seq<char>> {
    set![
        "open_state"@,
        "migrate_state"@,
        "open_logs"@,
        "migrate_logs"@,
        "open_goals"@,
        "migrate_goals"@,
        "open_memories"@,
        "migrate_memories"@,
        "ensure_backfill_state"@,
        "post_init_query"@,
    ]
}

proof fn lemma_two_phases(a: Seq<char>, b: Seq<char>)
    ensures
        seq![a, b].to_set() == set![a, b],
{
    let s = seq![a, b];
    assert(s[0] == a && s[1] == b);
    assert forall|x: Seq<char>| s.to_set().contains(x) == set![a, b].contains(x) by {
        if set![a, b].contains(x) {
            assert(s.contains(x));
        }
    }
    assert(s.to_set() =~= set![a, b]);
}

proof fn lemma_one_phase(a: Seq<char>)
    ensures
        seq![a].to_set() == set![a],
{
    let s = seq![a];
    assert(s[0] == a);
    assert(s.to_set() =~= set![a]);
}

proof fn lemma_reported(outcomes: Seq<InitOutcomeView>)
    ensures
        !(run_of(outcomes).init.phase is Closing) && !(run_of(outcomes).init.phase is GivenUp)
            ==> run_of(outcomes).reported == reported_in(run_of(outcomes).init.phase),
    decreases outcomes.len(),
{
    if outcomes.len() > 0 {
        lemma_reported(outcomes.drop_last());
        let before = run_of(outcomes.drop_last());
        let after = run_of(outcomes);
        assert(before.init.phase is MakeHome ==> reported_in(InitPhase::OpenState)
            =~= before.reported.union(phases_of(InitAction::MakeHome).to_set()));
        assert(before.init.phase is Maintain ==> before.reported =~= before.reported.union(
            phases_of(InitAction::Maintain).to_set(),
        ));
    }
}

/// A runtime that has become ready has reported each phase as done.
pub proof fn every_phase_is_reported(outcomes: Seq<InitOutcomeView>)
    requires
        run_of(outcomes).init.phase is Ready,
    ensures
        run_of(outcomes).reported == all_phases(),
{
    lemma_reported(outcomes);
    lemma_two_phases("open_state"@, "migrate_state"@);
    lemma_two_phases("open_logs"@, "migrate_logs"@);
    lemma_two_phases("open_goals"@, "migrate_goals"@);
    lemma_two_phases("open_memories"@, "migrate_memories"@);
    lemma_one_phase("ensure_backfill_state"@);
    lemma_one_phase("post_init_query"@);
    assert(reported_in(InitPhase::Ready) =~= all_phases());
}

/// A runtime is brought up in one order: its directory, the databases of the state, the logs, the
/// goals and the memories, the row on backfills, the timestamps, and then the logs are tidied up.
pub proof fn runtime_comes_up_in_order(updated_at: Option<i64>, recency_at: Option<i64>)
    ensures
        ({
            let done = InitOutcomeView::Done;
            let home = InitView::start();
            let state = home.next(done);
            let logs = state.next(done);
            let goals = logs.next(done);
            let memories = goals.next(done);
            let backfill = memories.next(done);
            let query = backfill.next(done);
            let maintain = query.next(InitOutcomeView::Timestamps { updated_at, recency_at });
            &&& action_of(home.phase) == Some(InitAction::MakeHome)
            &&& action_of(state.phase) == Some(InitAction::Open(Database::State))
            &&& action_of(logs.phase) == Some(InitAction::Open(Database::Logs))
            &&& action_of(goals.phase) == Some(InitAction::Open(Database::Goals))
            &&& action_of(memories.phase) == Some(InitAction::Open(Database::Memories))
            &&& action_of(backfill.phase) == Some(InitAction::EnsureBackfill)
            &&& action_of(query.phase) == Some(InitAction::QueryTimestamps)
            &&& action_of(maintain.phase) == Some(InitAction::Maintain)
            &&& maintain.next(done).phase is Ready
            &&& maintain.next(done).failure is None
        }),
{
}

/// The runtime starts from the greatest timestamps of its threads, each from its own, and from
/// zero where there is no thread; nothing else changes them.
pub proof fn timestamps_start_from_the_threads(
    v: InitView,
    updated_at: i64,
    recency_at: i64,
    outcome: InitOutcomeView,
)
    ensures
        v.phase is QueryTimestamps ==> {
            let both = v.next(
                InitOutcomeView::Timestamps {
                    updated_at: Some(updated_at),
                    recency_at: Some(recency_at),
                },
            );
            let neither = v.next(
                InitOutcomeView::Timestamps { updated_at: None, recency_at: None },
            );
            let first = v.next(
                InitOutcomeView::Timestamps { updated_at: Some(updated_at), recency_at: None },
            );
            let second = v.next(
                InitOutcomeView::Timestamps { updated_at: None, recency_at: Some(recency_at) },
            );
            &&& both.updated_at == updated_at && both.recency_at == recency_at
            &&& neither.updated_at == 0 && neither.recency_at == 0
            &&& first.updated_at == updated_at && first.recency_at == 0
            &&& second.updated_at == 0 && second.recency_at == recency_at
        },
        !(v.phase is QueryTimestamps) || !(outcome is Timestamps) ==> v.next(outcome).updated_at
            == v.updated_at && v.next(outcome).recency_at == v.recency_at,
        InitView::start().updated_at == 0,
        InitView::start().recency_at == 0,
{
}

/// A step that fails ends the runtime with its failure, but for tidying up the logs, without which
/// the runtime is ready all the same.
pub proof fn every_step_but_the_last_is_needed(v: InitView, why: Seq<Seq<char>>)
    ensures
        ({
            let w = v.next(InitOutcomeView::Failed(why));
            &&& v.phase is Maintain ==> w.phase is Ready && w.failure == v.failure
            &&& v.phase is MakeHome || v.phase is OpenState ==> w.phase is GivenUp && w.failure
                == Some(why)
            &&& v.phase is OpenLogs || v.phase is OpenGoals || v.phase is OpenMemories
                || v.phase is EnsureBackfill || v.phase is QueryTimestamps ==> w.failure == Some(
                why,
            ) && action_of(w.phase) == Some(InitAction::Close(Database::State))
        }),
{
}

/// The databases that are open when a step fails are closed from the first on: the state, and then
/// as far as they were opened the logs, the goals and the memories; then the runtime is given up.
pub proof fn opened_databases_are_closed_in_order(v: InitView, why: Seq<Seq<char>>)
    ensures
        ({
            let done = InitOutcomeView::Done;
            let c1 = v.next(InitOutcomeView::Failed(why));
            let c2 = c1.next(done);
            let c3 = c2.next(done);
            let c4 = c3.next(done);
            let close_logs = Some(InitAction::Close(Database::Logs));
            let close_goals = Some(InitAction::Close(Database::Goals));
            let close_memories = Some(InitAction::Close(Database::Memories));
            &&& v.phase is OpenLogs ==> c2.phase is GivenUp
            &&& v.phase is OpenGoals ==> action_of(c2.phase) == close_logs && c3.phase is GivenUp
            &&& v.phase is OpenMemories ==> action_of(c2.phase) == close_logs && action_of(
                c3.phase,
            ) == close_goals && c4.phase is GivenUp
            &&& v.phase is EnsureBackfill || v.phase is QueryTimestamps ==> action_of(c2.phase)
                == close_logs && action_of(c3.phase) == close_goals && action_of(c4.phase)
                == close_memories && c4.next(done).phase is GivenUp
        }),
{
}

/// A runtime that is ready closes the database that it opened last first, and that of the state
/// last.
pub proof fn shutdown_goes_backwards()
    ensures
        closing_order().len() == 4,
        forall|i: int, j: int|
            0 <= i < j < 4 ==> rank(#[trigger] closing_order()[i]) > rank(
                #[trigger] closing_order()[j],
            ),
        closing_order()[0] == Database::Memories,
        closing_order()[1] == Database::Goals,
        closing_order()[2] == Database::Logs,
        closing_order()[3] == Database::State,
{
}

/// Opening a database is reported as its opening and its migration, the row on backfills and the
/// timestamps as one phase each, and nothing else is reported.
pub proof fn phases_are_reported_by_name(db: Database)
    ensures
        phases_of(InitAction::Open(Database::State)) == seq!["open_state"@, "migrate_state"@],
        phases_of(InitAction::Open(Database::Logs)) == seq!["open_logs"@, "migrate_logs"@],
        phases_of(InitAction::Open(Database::Goals)) == seq!["open_goals"@, "migrate_goals"@],
        phases_of(InitAction::Open(Database::Memories)) == seq![
            "open_memories"@,
            "migrate_memories"@,
        ],
        phases_of(InitAction::EnsureBackfill) == seq!["ensure_backfill_state"@],
        phases_of(InitAction::QueryTimestamps) == seq!["post_init_query"@],
        phases_of(InitAction::MakeHome).len() == 0,
        phases_of(InitAction::Maintain).len() == 0,
        phases_of(InitAction::Close(db)).len() == 0,
{
}

/// Whether an outcome is an answer to an action; a database is closed whatever comes of it.
pub open spec fn answers(action: Option<InitAction>, outcome: InitOutcomeView) -> bool {
    match action {
        Some(InitAction::QueryTimestamps) => outcome is Timestamps || outcome is Failed,
        Some(InitAction::Close(_)) => outcome is Done,
        Some(_) => outcome is Done || outcome is Failed,
        None => false,
    }
}

/// An outcome that does not answer the pending action changes nothing.
pub proof fn runtime_hears_only_answers(v: InitView, outcome: InitOutcomeView)
    requires
        !answers(action_of(v.phase), outcome),
    ensures
        v.next(outcome) == v,
{
}

} // verus!
