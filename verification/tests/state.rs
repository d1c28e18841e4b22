//! Bringing up the state runtime and recovering its logs, with databases in memory.

use std::collections::{BTreeMap, BTreeSet};
use std::path::Path;

use source_update::failure::Failure;
use source_update::logs_recovery::{
    is_recoverable_logs_db_error, is_recoverable_sqlite_error, name_in_quarantine,
    quarantine_suffix, sqlite_path_triplet, suffix_for_stamp, DatabaseError, ErrorCause,
    LogsRecovery, MovedFile, RecoveryAction, RecoveryOutcome, RecoveryPhase,
};
use source_update::os_text::OsText;
use source_update::state_init::{
    shutdown_order, telemetry_phases, Database, InitAction, InitOutcome, InitPhase, StateInit,
};
use source_update::state_tasks::{
    fresh_backfill_row, BackfillPhase, BackfillRow, ClearPhase, TaskOutcome, BACKFILL_ROW,
};

fn os(text: &str) -> OsText {
    OsText::from_text(text)
}

fn text(path: &OsText) -> String {
    String::from_utf8(path.bytes.clone()).expect("path in UTF-8")
}

fn corrupt() -> Vec<ErrorCause> {
    vec![
        ErrorCause { message: "failed to open logs db".to_owned(), database: None },
        ErrorCause {
            message: "error returned from database".to_owned(),
            database: Some(DatabaseError {
                code: Some("26".to_owned()),
                message: "file is not a database".to_owned(),
            }),
        },
    ]
}

/// Opens the logs database at `path`; a file there that is not SQLite is corrupt.
fn open_logs(
    files: &mut BTreeMap<String, String>,
    path: &str,
) -> (Vec<MovedFile>, Option<Failure>, RecoveryPhase) {
    let beside = |path: &OsText, name: &OsText| {
        Path::new(&text(path)).with_file_name(text(name)).to_str().unwrap().to_owned()
    };
    let mut recovery = LogsRecovery::new(os(path));
    while let Some(action) = recovery.action() {
        let outcome = match action {
            RecoveryAction::OpenLogs => match files.get(path).map(String::as_str) {
                Some("not sqlite") => RecoveryOutcome::NotOpened(corrupt()),
                _ => {
                    files.insert(path.to_owned(), "sqlite".to_owned());
                    RecoveryOutcome::Opened
                }
            },
            RecoveryAction::ReadClock => RecoveryOutcome::Clock(1_700_000_000),
            RecoveryAction::Exists(path) => RecoveryOutcome::Flag(files.contains_key(&text(&path))),
            RecoveryAction::FileName(path) => RecoveryOutcome::Name(
                Path::new(&text(&path)).file_name().map(|name| os(name.to_str().unwrap())),
            ),
            RecoveryAction::ExistsBeside { path, name } => {
                RecoveryOutcome::Flag(files.contains_key(&beside(&path, &name)))
            }
            RecoveryAction::RenameBeside { path, name } => {
                let contents = files.remove(&text(&path)).expect("file to rename");
                assert_eq!(files.insert(beside(&path, &name), contents), None);
                RecoveryOutcome::Renamed
            }
        };
        recovery.advance(outcome);
    }
    let phase = recovery.phase();
    let (moved, failure) = recovery.finish();
    (moved, failure, phase)
}

#[test]
fn init_quarantines_and_recreates_corrupt_logs_db() {
    let mut files: BTreeMap<String, String> = [
        ("/home/logs_2.sqlite", "not sqlite"),
        ("/home/logs_2.sqlite-wal", "not sqlite wal"),
        ("/home/logs_2.sqlite-shm", "not sqlite shm"),
    ]
    .into_iter()
    .map(|(path, contents)| (path.to_owned(), contents.to_owned()))
    .collect();
    let (moved, failure, phase) = open_logs(&mut files, "/home/logs_2.sqlite");

    assert_eq!(failure, None);
    assert_eq!(phase, RecoveryPhase::Opened);
    assert_eq!(files["/home/logs_2.sqlite"], "sqlite");
    let quarantined = files
        .keys()
        .filter(|path| path.starts_with("/home/logs_2.sqlite.corrupt-"))
        .count();
    assert_eq!(quarantined, 1);
    assert_eq!(
        moved,
        [
            MovedFile {
                path: os("/home/logs_2.sqlite"),
                name: os("logs_2.sqlite.corrupt-20231114-221320"),
            },
            MovedFile {
                path: os("/home/logs_2.sqlite-wal"),
                name: os("logs_2.sqlite-wal.corrupt-20231114-221320"),
            },
            MovedFile {
                path: os("/home/logs_2.sqlite-shm"),
                name: os("logs_2.sqlite-shm.corrupt-20231114-221320"),
            },
        ]
    );
    assert_eq!(files["/home/logs_2.sqlite.corrupt-20231114-221320"], "not sqlite");
}

/// Brings up a runtime in which the actions end as `answer` says.
fn bring_up(mut answer: impl FnMut(InitAction) -> InitOutcome) -> (StateInit, Vec<InitAction>) {
    let mut init = StateInit::new();
    let mut actions = Vec::new();
    while let Some(action) = init.action() {
        actions.push(action);
        init.advance(answer(action));
    }
    (init, actions)
}

fn fair(action: InitAction) -> InitOutcome {
    match action {
        InitAction::QueryTimestamps => {
            InitOutcome::Timestamps { updated_at: Some(12), recency_at: None }
        }
        _ => InitOutcome::Done,
    }
}

#[test]
fn init_does_not_quarantine_corrupt_state_db() {
    let mut files: BTreeMap<String, String> = BTreeMap::new();
    files.insert("/home/state_5.sqlite".to_owned(), "not sqlite".to_owned());
    let (init, actions) = bring_up(|action| match action {
        InitAction::Open(Database::State) => {
            InitOutcome::Failed(Failure::of("file is not a database"))
        }
        InitAction::Open(Database::Logs) => {
            open_logs(&mut files, "/home/logs_2.sqlite");
            InitOutcome::Done
        }
        other => fair(other),
    });
    assert_eq!(init.phase(), InitPhase::GivenUp);
    assert!(init.failure().is_some(), "corrupt state db should remain fatal");
    assert_eq!(actions, [InitAction::MakeHome, InitAction::Open(Database::State)]);
    assert_eq!(
        files.keys().filter(|path| path.starts_with("/home/state_5.sqlite.corrupt-")).count(),
        0
    );
    assert_eq!(files["/home/state_5.sqlite"], "not sqlite");
}

#[test]
fn init_records_successful_sqlite_init_phases_to_explicit_telemetry() {
    let (init, actions) = bring_up(fair);
    assert_eq!(init.phase(), InitPhase::Ready);
    let phases: BTreeSet<&str> =
        actions.iter().flat_map(|action| telemetry_phases(*action).iter().copied()).collect();
    let expected: BTreeSet<&str> = [
        "open_state",
        "migrate_state",
        "open_logs",
        "migrate_logs",
        "open_goals",
        "migrate_goals",
        "open_memories",
        "migrate_memories",
        "ensure_backfill_state",
        "post_init_query",
    ]
    .into_iter()
    .collect();
    assert_eq!(phases, expected);
}

// ---------------------------------------------------------------------------------------------
// The runtime
// ---------------------------------------------------------------------------------------------

#[test]
fn databases_are_closed_when_a_step_fails() {
    let all = [Database::State, Database::Logs, Database::Goals, Database::Memories];
    for (at, closed) in [
        (InitAction::Open(Database::Logs), &all[..1]),
        (InitAction::Open(Database::Goals), &all[..2]),
        (InitAction::Open(Database::Memories), &all[..3]),
        (InitAction::EnsureBackfill, &all[..]),
        (InitAction::QueryTimestamps, &all[..]),
    ] {
        let (init, actions) = bring_up(|action| {
            if action == at {
                InitOutcome::Failed(Failure::of("boom"))
            } else {
                fair(action)
            }
        });
        let seen: Vec<Database> = actions
            .iter()
            .filter_map(|action| match action {
                InitAction::Close(database) => Some(*database),
                _ => None,
            })
            .collect();
        assert_eq!(seen, closed);
        assert_eq!(init.phase(), InitPhase::GivenUp);
        assert_eq!(init.failure(), Some(Failure::of("boom")));
    }
}

#[test]
fn a_runtime_starts_from_the_greatest_timestamps() {
    let (init, _) = bring_up(fair);
    assert_eq!(init.timestamps(), (12, 0));
    assert_eq!(
        shutdown_order(),
        [Database::Memories, Database::Goals, Database::Logs, Database::State]
    );
}

#[test]
fn logs_that_cannot_be_tidied_up_are_no_reason_to_give_up() {
    let (init, _) = bring_up(|action| match action {
        InitAction::Maintain => InitOutcome::Failed(Failure::of("busy")),
        other => fair(other),
    });
    assert_eq!(init.phase(), InitPhase::Ready);
    assert_eq!(init.failure(), None);
}

// ---------------------------------------------------------------------------------------------
// Recovering the logs
// ---------------------------------------------------------------------------------------------

#[test]
fn corruption_is_told_by_code_or_message() {
    let error = |code: Option<&str>, message: &str| DatabaseError {
        code: code.map(str::to_owned),
        message: message.to_owned(),
    };
    for (code, message, expected) in [
        (Some("11"), "", true),
        (Some("26"), "", true),
        (Some("267"), "", true),
        (Some("+26"), "", true),
        (Some("-245"), "", true),
        (Some("5"), "database is locked", false),
        (Some("4294967307"), "", false),
        (Some("x"), "File Is Not A Database (code 26)", true),
        (None, "database disk image is MALFORMED", true),
        (None, "other", false),
    ] {
        assert_eq!(is_recoverable_sqlite_error(&error(code, message)), expected, "{code:?}");
    }
}

#[test]
fn corruption_is_found_at_any_level() {
    assert!(is_recoverable_logs_db_error(&corrupt()));
    let outer = vec![ErrorCause {
        message: "file is not a database".to_owned(),
        database: None,
    }];
    assert!(is_recoverable_logs_db_error(&outer));
    let inner = vec![
        ErrorCause { message: "open failed".to_owned(), database: None },
        ErrorCause { message: "file is not a database".to_owned(), database: None },
    ];
    assert!(!is_recoverable_logs_db_error(&inner));
    assert!(!is_recoverable_logs_db_error(&Vec::new()));
}

#[test]
fn sqlite_keeps_three_files() {
    assert_eq!(
        sqlite_path_triplet(&os("/home/logs.sqlite")),
        [os("/home/logs.sqlite"), os("/home/logs.sqlite-wal"), os("/home/logs.sqlite-shm")]
    );
}

#[test]
fn names_in_quarantine_are_stamped_and_numbered() {
    assert_eq!(quarantine_suffix(0).unwrap(), ".corrupt-19700101-000000");
    assert_eq!(quarantine_suffix(253_402_300_799).unwrap(), ".corrupt-99991231-235959");
    assert_eq!(quarantine_suffix(i64::MAX), None);
    assert_eq!(suffix_for_stamp("x"), ".corrupt-x");
    let suffix = os(".corrupt-x");
    assert_eq!(name_in_quarantine(&os("b"), &suffix, 0), os("b.corrupt-x"));
    assert_eq!(name_in_quarantine(&os("b"), &suffix, 12), os("b.corrupt-x.12"));
}

#[test]
fn names_that_are_taken_are_passed_over() {
    let mut files: BTreeMap<String, String> = [
        ("/h/logs", "not sqlite"),
        ("/h/logs.corrupt-20231114-221320", "earlier"),
        ("/h/logs.corrupt-20231114-221320.1", "earlier too"),
    ]
    .into_iter()
    .map(|(path, contents)| (path.to_owned(), contents.to_owned()))
    .collect();
    let (moved, failure, _) = open_logs(&mut files, "/h/logs");
    assert_eq!(failure, None);
    assert_eq!(
        moved,
        [MovedFile { path: os("/h/logs"), name: os("logs.corrupt-20231114-221320.2") }]
    );
    assert_eq!(files["/h/logs.corrupt-20231114-221320.2"], "not sqlite");
    assert_eq!(files["/h/logs.corrupt-20231114-221320"], "earlier");
}

#[test]
fn names_are_what_the_platform_says() {
    let path = r"C:\home\logs";
    let mut recovery = LogsRecovery::new(os(path));
    recovery.advance(RecoveryOutcome::NotOpened(corrupt()));
    recovery.advance(RecoveryOutcome::Clock(0));
    recovery.advance(RecoveryOutcome::Flag(true));
    assert_eq!(recovery.action(), Some(RecoveryAction::FileName(os(path))));
    recovery.advance(RecoveryOutcome::Name(Some(os("logs"))));
    let aside = |name: &str| (os(path), os(name));
    let (at, name) = aside("logs.corrupt-19700101-000000");
    assert_eq!(recovery.action(), Some(RecoveryAction::ExistsBeside { path: at, name }));
    recovery.advance(RecoveryOutcome::Flag(true));
    let (at, name) = aside("logs.corrupt-19700101-000000.1");
    assert_eq!(recovery.action(), Some(RecoveryAction::ExistsBeside { path: at, name }));
    recovery.advance(RecoveryOutcome::Flag(false));
    let (at, name) = aside("logs.corrupt-19700101-000000.1");
    assert_eq!(recovery.action(), Some(RecoveryAction::RenameBeside { path: at, name }));
}

#[test]
fn the_database_is_opened_at_most_twice() {
    let mut recovery = LogsRecovery::new(os("/h/logs"));
    let mut openings = 0;
    while let Some(action) = recovery.action() {
        recovery.advance(match action {
            RecoveryAction::OpenLogs => {
                openings += 1;
                RecoveryOutcome::NotOpened(corrupt())
            }
            RecoveryAction::ReadClock => RecoveryOutcome::Clock(0),
            RecoveryAction::Exists(_) => RecoveryOutcome::Flag(true),
            RecoveryAction::FileName(_) => RecoveryOutcome::Name(Some(os("logs"))),
            RecoveryAction::ExistsBeside { .. } => RecoveryOutcome::Flag(false),
            RecoveryAction::RenameBeside { .. } => RecoveryOutcome::Renamed,
        });
    }
    assert_eq!(openings, 2);
    assert_eq!(recovery.phase(), RecoveryPhase::GivenUp);
    assert_eq!(recovery.finish().0.len(), 3);
}

#[test]
fn a_time_without_a_stamp_is_no_answer() {
    let mut recovery = LogsRecovery::new(os("/h/logs"));
    recovery.advance(RecoveryOutcome::NotOpened(corrupt()));
    recovery.advance(RecoveryOutcome::Clock(i64::MAX));
    assert_eq!(recovery.action(), Some(RecoveryAction::ReadClock));
}

#[test]
fn failures_of_a_recovery_are_reported() {
    let mut recovery = LogsRecovery::new(os("/h/logs"));
    recovery.advance(RecoveryOutcome::NotOpened(vec![ErrorCause {
        message: "disk full".to_owned(),
        database: None,
    }]));
    assert_eq!(recovery.phase(), RecoveryPhase::GivenUp);
    assert_eq!(recovery.finish().1.unwrap().detail(), "disk full");

    let mut recovery = LogsRecovery::new(os("/h/logs"));
    recovery.advance(RecoveryOutcome::NotOpened(corrupt()));
    recovery.advance(RecoveryOutcome::Clock(0));
    recovery.advance(RecoveryOutcome::Failed(Failure::of("denied")));
    assert_eq!(
        recovery.finish().1.unwrap().detail(),
        "failed to quarantine logs db at /h/logs: denied"
    );

    let mut recovery = LogsRecovery::new(os("/"));
    recovery.advance(RecoveryOutcome::NotOpened(corrupt()));
    recovery.advance(RecoveryOutcome::Clock(0));
    recovery.advance(RecoveryOutcome::Flag(true));
    assert_eq!(recovery.action(), Some(RecoveryAction::FileName(os("/"))));
    recovery.advance(RecoveryOutcome::Name(None));
    assert_eq!(
        recovery.finish().1.unwrap().detail(),
        "failed to quarantine logs db at /: cannot create a quarantine name for /"
    );

    let mut recovery = LogsRecovery::new(os("/h/logs"));
    recovery.advance(RecoveryOutcome::NotOpened(corrupt()));
    recovery.advance(RecoveryOutcome::Clock(0));
    for _ in 0..3 {
        recovery.advance(RecoveryOutcome::Flag(false));
    }
    assert_eq!(recovery.phase(), RecoveryPhase::Reopen);
    recovery.advance(RecoveryOutcome::NotOpened(vec![ErrorCause {
        message: "again".to_owned(),
        database: None,
    }]));
    assert_eq!(
        recovery.finish().1.unwrap().detail(),
        "failed to recreate logs db at /h/logs: again"
    );
}

// ---------------------------------------------------------------------------------------------
// Tasks
// ---------------------------------------------------------------------------------------------

#[test]
fn the_backfill_row_is_inserted_only_when_missing() {
    assert_eq!(BackfillPhase::Look.advance(TaskOutcome::Found(true)), BackfillPhase::Ensured);
    assert_eq!(BackfillPhase::Look.advance(TaskOutcome::Found(false)), BackfillPhase::Insert);
    assert_eq!(BackfillPhase::Insert.advance(TaskOutcome::Done), BackfillPhase::Ensured);
    let failure = || TaskOutcome::Failed(Failure::of("busy"));
    assert_eq!(
        BackfillPhase::Look.advance(failure()),
        BackfillPhase::Failed(Failure::of("busy"))
    );
    assert_eq!(
        BackfillPhase::Insert.advance(failure()),
        BackfillPhase::Failed(Failure::of("busy"))
    );
}

/// Makes sure that the backfill row is there at the time `now`, and tells how many rows were
/// written.
fn ensure_backfill_row(rows: &mut BTreeMap<i64, BackfillRow>, now: i64) -> usize {
    let mut phase = BackfillPhase::Look;
    let mut writes = 0;
    loop {
        let outcome = match &phase {
            BackfillPhase::Look => TaskOutcome::Found(rows.contains_key(&BACKFILL_ROW)),
            BackfillPhase::Insert => {
                let row = fresh_backfill_row("pending", now);
                rows.entry(row.id).or_insert(row);
                writes += 1;
                TaskOutcome::Done
            }
            BackfillPhase::Ensured => return writes,
            BackfillPhase::Failed(failure) => panic!("{failure:?}"),
        };
        phase = phase.advance(outcome);
    }
}

#[test]
fn the_backfill_row_is_made_once() {
    let made_at = |now: i64| BackfillRow {
        id: 1,
        status: "pending".to_owned(),
        last_watermark: None,
        last_success_at: None,
        updated_at: now,
    };
    let mut rows = BTreeMap::new();
    assert_eq!(ensure_backfill_row(&mut rows, 5), 1);
    assert_eq!(rows, BTreeMap::from([(1, made_at(5))]));
    assert_eq!(ensure_backfill_row(&mut rows, 9), 0);
    assert_eq!(rows, BTreeMap::from([(1, made_at(5))]));
}

#[test]
fn memories_are_cleared_only_where_there_are_some() {
    assert_eq!(ClearPhase::Look.advance(TaskOutcome::Found(false)), ClearPhase::Over(false));
    let cleared = ClearPhase::Look
        .advance(TaskOutcome::Found(true))
        .advance(TaskOutcome::Done)
        .advance(TaskOutcome::Done)
        .advance(TaskOutcome::Done);
    assert_eq!(cleared, ClearPhase::Over(true));
    assert_eq!(
        ClearPhase::Clear.advance(TaskOutcome::Failed(Failure::of("busy"))),
        ClearPhase::Failed(Failure::of("busy"))
    );
}
