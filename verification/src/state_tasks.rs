//! Small tasks on the databases of the state runtime: the row on the progress of backfills, and
//! clearing the memories.

use crate::failure::Failure;
use crate::text::text_view;
use vstd::prelude::*;

verus! {

// ---------------------------------------------------------------------------------------------
// The backfill row
// ---------------------------------------------------------------------------------------------

/// The number of the only row on backfills.
pub const BACKFILL_ROW: i64 = 1;

/// A row on the progress of backfills.
#[derive(Debug, PartialEq, Eq)]
pub struct BackfillRow {
    pub id: i64,
    pub status: String,
    pub last_watermark: Option<String>,
    /// In seconds since the beginning of 1970, as the time of the last change.
    pub last_success_at: Option<i64>,
    pub updated_at: i64,
}

/// A row on the progress of backfills, as a value of mathematics.
#[verifier::ext_equal]
pub struct BackfillRowView {
    pub id: i64,
    pub status: Seq<char>,
    pub last_watermark: Option<Seq<char>>,
    pub last_success_at: Option<i64>,
    pub updated_at: i64,
}

impl View for BackfillRow {
    type V = BackfillRowView;

    open spec fn view(&self) -> BackfillRowView {
        BackfillRowView {
            id: self.id,
            status: self.status@,
            last_watermark: text_view(self.last_watermark),
            last_success_at: self.last_success_at,
            updated_at: self.updated_at,
        }
    }
}

/// The row on backfills before any of them: `pending` is the status, and `now` the time.
pub open spec fn fresh_row(pending: Seq<char>, now: i64) -> BackfillRowView {
    BackfillRowView {
        id: BACKFILL_ROW,
        status: pending,
        last_watermark: None,
        last_success_at: None,
        updated_at: now,
    }
}

/// The row on backfills before any of them: `pending` is the status, and `now` the time in seconds
/// since the beginning of 1970.
pub fn fresh_backfill_row(pending: &str, now: i64) -> (r: BackfillRow)
    ensures
        r@ == fresh_row(pending@, now),
{
    BackfillRow {
        id: BACKFILL_ROW,
        status: pending.to_owned(),
        last_watermark: None,
        last_success_at: None,
        updated_at: now,
    }
}

/// How far the task has come that makes sure that the row on backfills is there.
#[derive(Debug, PartialEq, Eq)]
pub enum BackfillPhase {
    /// It is found out whether the row is there, so as not to wait for a writer for nothing.
    Look,
    /// The row is inserted, unless it has appeared meanwhile.
    Insert,
    Ensured,
    Failed(Failure),
}

/// How far the task on the backfill row has come, as a value of mathematics.
#[verifier::ext_equal]
pub enum BackfillPhaseView {
    Look,
    Insert,
    Ensured,
    Failed(Seq<Seq<char>>),
}

impl View for BackfillPhase {
    type V = BackfillPhaseView;

    open spec fn view(&self) -> BackfillPhaseView {
        match self {
            BackfillPhase::Look => BackfillPhaseView::Look,
            BackfillPhase::Insert => BackfillPhaseView::Insert,
            BackfillPhase::Ensured => BackfillPhaseView::Ensured,
            BackfillPhase::Failed(f) => BackfillPhaseView::Failed(f@),
        }
    }
}

/// How a query of a task ended.
#[derive(Debug, PartialEq, Eq)]
pub enum TaskOutcome {
    /// It was done.
    Done,
    /// Whether something was found.
    Found(bool),
    Failed(Failure),
}

/// How a query of a task ended, as a value of mathematics.
pub enum TaskOutcomeView {
    Done,
    Found(bool),
    Failed(Seq<Seq<char>>),
}

impl View for TaskOutcome {
    type V = TaskOutcomeView;

    open spec fn view(&self) -> TaskOutcomeView {
        match self {
            TaskOutcome::Done => TaskOutcomeView::Done,
            TaskOutcome::Found(b) => TaskOutcomeView::Found(*b),
            TaskOutcome::Failed(f) => TaskOutcomeView::Failed(f@),
        }
    }
}

/// The phase of the task on the backfill row after its query ended so. An outcome that does not
/// answer the query changes nothing.
pub open spec fn backfill_next(
    phase: BackfillPhaseView,
    outcome: TaskOutcomeView,
) -> BackfillPhaseView {
    match (phase, outcome) {
        (BackfillPhaseView::Look, TaskOutcomeView::Found(true)) => BackfillPhaseView::Ensured,
        (BackfillPhaseView::Look, TaskOutcomeView::Found(false)) => BackfillPhaseView::Insert,
        (BackfillPhaseView::Look, TaskOutcomeView::Failed(f)) => BackfillPhaseView::Failed(f),
        (BackfillPhaseView::Insert, TaskOutcomeView::Done) => BackfillPhaseView::Ensured,
        (BackfillPhaseView::Insert, TaskOutcomeView::Failed(f)) => BackfillPhaseView::Failed(f),
        _ => phase,
    }
}

impl BackfillPhase {
    /// Takes in how the query ended.
    pub fn advance(self, outcome: TaskOutcome) -> (r: BackfillPhase)
        ensures
            r@ == backfill_next(self@, outcome@),
    {
        match (self, outcome) {
            (BackfillPhase::Look, TaskOutcome::Found(found)) => if found {
                BackfillPhase::Ensured
            } else {
                BackfillPhase::Insert
            },
            (BackfillPhase::Look, TaskOutcome::Failed(f)) => BackfillPhase::Failed(f),
            (BackfillPhase::Insert, TaskOutcome::Done) => BackfillPhase::Ensured,
            (BackfillPhase::Insert, TaskOutcome::Failed(f)) => BackfillPhase::Failed(f),
            (phase, _) => phase,
        }
    }
}

/// The rows on backfills after the query of a phase ended so: the insertion puts `fresh` there,
/// unless there is a row with its number already.
pub open spec fn rows_after(
    rows: Map<i64, BackfillRowView>,
    phase: BackfillPhaseView,
    outcome: TaskOutcomeView,
    fresh: BackfillRowView,
) -> Map<i64, BackfillRowView> {
    if phase is Insert && outcome is Done && !rows.contains_key(fresh.id) {
        rows.insert(fresh.id, fresh)
    } else {
        rows
    }
}

/// Whether `outcomes` are what a database with these rows can answer, one after the other, from
/// `phase` on.
pub open spec fn truthful_task(
    phase: BackfillPhaseView,
    rows: Map<i64, BackfillRowView>,
    fresh: BackfillRowView,
    outcomes: Seq<TaskOutcomeView>,
) -> bool
    decreases outcomes.len(),
{
    outcomes.len() > 0 ==> {
        let o = outcomes.first();
        &&& phase is Look ==> (o matches TaskOutcomeView::Found(found) ==> found
            == rows.contains_key(BACKFILL_ROW))
        &&& truthful_task(
            backfill_next(phase, o),
            rows_after(rows, phase, o, fresh),
            fresh,
            outcomes.drop_first(),
        )
    }
}

/// The phase and the rows after the queries from `phase` on ended with `outcomes`.
pub open spec fn task_from(
    phase: BackfillPhaseView,
    rows: Map<i64, BackfillRowView>,
    fresh: BackfillRowView,
    outcomes: Seq<TaskOutcomeView>,
) -> (BackfillPhaseView, Map<i64, BackfillRowView>)
    decreases outcomes.len(),
{
    if outcomes.len() == 0 {
        (phase, rows)
    } else {
        let o = outcomes.first();
        task_from(
            backfill_next(phase, o),
            rows_after(rows, phase, o, fresh),
            fresh,
            outcomes.drop_first(),
        )
    }
}

/// What is known of the rows while a task is under way that began with the rows `before`.
pub open spec fn rows_known(
    phase: BackfillPhaseView,
    before: Map<i64, BackfillRowView>,
    rows: Map<i64, BackfillRowView>,
    fresh: BackfillRowView,
) -> bool {
    match phase {
        BackfillPhaseView::Look => rows == before,
        BackfillPhaseView::Insert => rows == before && !before.contains_key(BACKFILL_ROW),
        BackfillPhaseView::Ensured => rows == if before.contains_key(BACKFILL_ROW) {
            before
        } else {
            before.insert(BACKFILL_ROW, fresh)
        },
        BackfillPhaseView::Failed(_) => rows == before,
    }
}

proof fn lemma_rows_known(
    phase: BackfillPhaseView,
    before: Map<i64, BackfillRowView>,
    rows: Map<i64, BackfillRowView>,
    fresh: BackfillRowView,
    outcomes: Seq<TaskOutcomeView>,
)
    requires
        fresh.id == BACKFILL_ROW,
        rows_known(phase, before, rows, fresh),
        truthful_task(phase, rows, fresh, outcomes),
    ensures
        rows_known(
            task_from(phase, rows, fresh, outcomes).0,
            before,
            task_from(phase, rows, fresh, outcomes).1,
            fresh,
        ),
    decreases outcomes.len(),
{
    if outcomes.len() > 0 {
        let o = outcomes.first();
        lemma_rows_known(
            backfill_next(phase, o),
            before,
            rows_after(rows, phase, o, fresh),
            fresh,
            outcomes.drop_first(),
        );
    }
}

/// When the task is complete the row on backfills is there: the one that was there before, as it
/// was, or else a fresh one, with the time at which it was made; no other row is touched. Where the
/// row was there before, the task never comes to insert one, and nothing is written. Where the task
/// failed, nothing has changed.
pub proof fn backfill_row_is_ensured(
    rows: Map<i64, BackfillRowView>,
    pending: Seq<char>,
    now: i64,
    outcomes: Seq<TaskOutcomeView>,
)
    requires
        truthful_task(BackfillPhaseView::Look, rows, fresh_row(pending, now), outcomes),
    ensures
        ({
            let fresh = fresh_row(pending, now);
            let (phase, after) = task_from(BackfillPhaseView::Look, rows, fresh, outcomes);
            &&& rows.contains_key(BACKFILL_ROW) ==> after == rows && !(phase is Insert)
            &&& phase is Ensured && !rows.contains_key(BACKFILL_ROW) ==> after == rows.insert(
                BACKFILL_ROW,
                fresh,
            )
            &&& !(phase is Ensured) ==> after == rows
        }),
{
    let fresh = fresh_row(pending, now);
    lemma_rows_known(BackfillPhaseView::Look, rows, rows, fresh, outcomes);
}

/// A row that appears between the two queries is left as it is.
pub proof fn insertion_spares_a_row(rows: Map<i64, BackfillRowView>, pending: Seq<char>, now: i64)
    requires
        rows.contains_key(BACKFILL_ROW),
    ensures
        rows_after(
            rows,
            BackfillPhaseView::Insert,
            TaskOutcomeView::Done,
            fresh_row(pending, now),
        ) == rows,
{
}

/// Once the task is complete, doing it again changes nothing and writes nothing, however often and
/// whenever that is.
pub proof fn backfill_row_is_ensured_once(
    rows: Map<i64, BackfillRowView>,
    pending: Seq<char>,
    now: i64,
    later: i64,
    outcomes: Seq<TaskOutcomeView>,
    again: Seq<TaskOutcomeView>,
)
    requires
        truthful_task(BackfillPhaseView::Look, rows, fresh_row(pending, now), outcomes),
        ({
            let fresh = fresh_row(pending, now);
            let (phase, after) = task_from(BackfillPhaseView::Look, rows, fresh, outcomes);
            &&& phase is Ensured
            &&& truthful_task(BackfillPhaseView::Look, after, fresh_row(pending, later), again)
        }),
    ensures
        ({
            let fresh = fresh_row(pending, now);
            let after = task_from(BackfillPhaseView::Look, rows, fresh, outcomes).1;
            let (phase, end) = task_from(
                BackfillPhaseView::Look,
                after,
                fresh_row(pending, later),
                again,
            );
            &&& end == after
            &&& !(phase is Insert)
        }),
{
    let fresh = fresh_row(pending, now);
    let after = task_from(BackfillPhaseView::Look, rows, fresh, outcomes).1;
    backfill_row_is_ensured(rows, pending, now, outcomes);
    backfill_row_is_ensured(after, pending, later, again);
}

// ---------------------------------------------------------------------------------------------
// Clearing the memories
// ---------------------------------------------------------------------------------------------

/// How far the clearing of the memories has come.
#[derive(Debug, PartialEq, Eq)]
pub enum ClearPhase {
    /// It is found out whether there is a database of memories.
    Look,
    /// The database is opened.
    Open,
    /// Its data is cleared.
    Clear,
    /// It is closed.
    Close,
    /// It is over; whether there was a database to clear.
    Over(bool),
    Failed(Failure),
}

/// How far the clearing of the memories has come, as a value of mathematics.
#[verifier::ext_equal]
pub enum ClearPhaseView {
    Look,
    Open,
    Clear,
    Close,
    Over(bool),
    Failed(Seq<Seq<char>>),
}

impl View for ClearPhase {
    type V = ClearPhaseView;

    open spec fn view(&self) -> ClearPhaseView {
        match self {
            ClearPhase::Look => ClearPhaseView::Look,
            ClearPhase::Open => ClearPhaseView::Open,
            ClearPhase::Clear => ClearPhaseView::Clear,
            ClearPhase::Close => ClearPhaseView::Close,
            ClearPhase::Over(b) => ClearPhaseView::Over(*b),
            ClearPhase::Failed(f) => ClearPhaseView::Failed(f@),
        }
    }
}

/// The phase of the clearing after its pending step ended so. An outcome that does not answer the
/// step changes nothing.
pub open spec fn clear_next(phase: ClearPhaseView, outcome: TaskOutcomeView) -> ClearPhaseView {
    match (phase, outcome) {
        (ClearPhaseView::Look, TaskOutcomeView::Found(true)) => ClearPhaseView::Open,
        (ClearPhaseView::Look, TaskOutcomeView::Found(false)) => ClearPhaseView::Over(false),
        (ClearPhaseView::Look, TaskOutcomeView::Failed(f)) => ClearPhaseView::Failed(f),
        (ClearPhaseView::Open, TaskOutcomeView::Done) => ClearPhaseView::Clear,
        (ClearPhaseView::Open, TaskOutcomeView::Failed(f)) => ClearPhaseView::Failed(f),
        (ClearPhaseView::Clear, TaskOutcomeView::Done) => ClearPhaseView::Close,
        (ClearPhaseView::Clear, TaskOutcomeView::Failed(f)) => ClearPhaseView::Failed(f),
        (ClearPhaseView::Close, TaskOutcomeView::Done) => ClearPhaseView::Over(true),
        _ => phase,
    }
}

impl ClearPhase {
    /// Takes in how the pending step ended.
    pub fn advance(self, outcome: TaskOutcome) -> (r: ClearPhase)
        ensures
            r@ == clear_next(self@, outcome@),
    {
        match (self, outcome) {
            (ClearPhase::Look, TaskOutcome::Found(found)) => if found {
                ClearPhase::Open
            } else {
                ClearPhase::Over(false)
            },
            (ClearPhase::Look, TaskOutcome::Failed(f)) => ClearPhase::Failed(f),
            (ClearPhase::Open, TaskOutcome::Done) => ClearPhase::Clear,
            (ClearPhase::Open, TaskOutcome::Failed(f)) => ClearPhase::Failed(f),
            (ClearPhase::Clear, TaskOutcome::Done) => ClearPhase::Close,
            (ClearPhase::Clear, TaskOutcome::Failed(f)) => ClearPhase::Failed(f),
            (ClearPhase::Close, TaskOutcome::Done) => ClearPhase::Over(true),
            (phase, _) => phase,
        }
    }
}

/// A fresh row is the first one, has the status that it was given, has seen no backfill, and was
/// changed when it was made.
pub proof fn fresh_rows_have_seen_nothing(pending: Seq<char>, now: i64)
    ensures
        fresh_row(pending, now).id == 1,
        fresh_row(pending, now).status == pending,
        fresh_row(pending, now).last_watermark is None,
        fresh_row(pending, now).last_success_at is None,
        fresh_row(pending, now).updated_at == now,
        BACKFILL_ROW == 1,
{
}

/// The row is inserted exactly when it was looked for and not found; a query that fails ends the
/// task with its failure, and a task that is over stays as it ended.
pub proof fn missing_rows_are_inserted(why: Seq<Seq<char>>, outcome: TaskOutcomeView)
    ensures
        backfill_next(BackfillPhaseView::Look, TaskOutcomeView::Found(true)) is Ensured,
        backfill_next(BackfillPhaseView::Look, TaskOutcomeView::Found(false)) is Insert,
        backfill_next(BackfillPhaseView::Insert, TaskOutcomeView::Done) is Ensured,
        backfill_next(BackfillPhaseView::Look, TaskOutcomeView::Failed(why))
            == BackfillPhaseView::Failed(why),
        backfill_next(BackfillPhaseView::Insert, TaskOutcomeView::Failed(why))
            == BackfillPhaseView::Failed(why),
        backfill_next(BackfillPhaseView::Ensured, outcome) is Ensured,
        backfill_next(BackfillPhaseView::Failed(why), outcome) == BackfillPhaseView::Failed(why),
        backfill_next(BackfillPhaseView::Look, TaskOutcomeView::Done) is Look,
{
}

/// Memories are cleared only where there is a database of them: it is opened, cleared and closed, in
/// this order. Whether there was one is what comes of it. A step that fails ends it with its
/// failure.
pub proof fn memories_are_opened_cleared_and_closed(why: Seq<Seq<char>>)
    ensures
        clear_next(ClearPhaseView::Look, TaskOutcomeView::Found(false)) == ClearPhaseView::Over(
            false,
        ),
        clear_next(ClearPhaseView::Look, TaskOutcomeView::Found(true)) is Open,
        clear_next(ClearPhaseView::Open, TaskOutcomeView::Done) is Clear,
        clear_next(ClearPhaseView::Clear, TaskOutcomeView::Done) is Close,
        clear_next(ClearPhaseView::Close, TaskOutcomeView::Done) == ClearPhaseView::Over(true),
        clear_next(ClearPhaseView::Look, TaskOutcomeView::Failed(why)) == ClearPhaseView::Failed(
            why,
        ),
        clear_next(ClearPhaseView::Open, TaskOutcomeView::Failed(why)) == ClearPhaseView::Failed(
            why,
        ),
        clear_next(ClearPhaseView::Clear, TaskOutcomeView::Failed(why)) == ClearPhaseView::Failed(
            why,
        ),
{
}

/// Whether a clearing has come this far or further.
pub open spec fn clear_rank(phase: ClearPhaseView) -> int {
    match phase {
        ClearPhaseView::Look => 0,
        ClearPhaseView::Open => 1,
        ClearPhaseView::Clear => 2,
        ClearPhaseView::Close => 3,
        ClearPhaseView::Over(_) => 4,
        ClearPhaseView::Failed(_) => 4,
    }
}

/// A clearing never goes back, and says that there was a database only after that was cleared and
/// closed.
pub proof fn clearing_never_goes_back(phase: ClearPhaseView, outcome: TaskOutcomeView)
    ensures
        clear_rank(clear_next(phase, outcome)) >= clear_rank(phase),
        clear_rank(phase) == 4 ==> clear_next(phase, outcome) == phase,
        clear_next(phase, outcome) == ClearPhaseView::Over(true) && phase != ClearPhaseView::Over(
            true,
        ) ==> phase is Close && outcome is Done,
        clear_next(phase, outcome) is Close && !(phase is Close) ==> phase is Clear
            && outcome is Done,
        clear_next(phase, outcome) == ClearPhaseView::Over(false) && phase != ClearPhaseView::Over(
            false,
        ) ==> phase is Look && outcome == TaskOutcomeView::Found(false),
{
}

} // verus!
