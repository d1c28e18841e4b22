//! Opening the logs database, and setting it aside when it is corrupt.

use crate::command::option_view;
use crate::failure::{in_context, Failure};
use crate::io::failure_view;
use crate::os_text::{displayed, views, OsText};
use crate::path::{
    dot_dot_name, dot_name, last_piece, lemma_ascii_bytes, lemma_entry_of_directory,
    lemma_last_piece_extended, lemma_named_plain, named, parent_of, plain_name, sibling,
    without_tail, DOT, SEPARATOR,
};
use crate::text::{
    chars_of, concat2, contains, decimal, decimal_string, has_text, i32_value,
    lemma_decimal_digits, lowered, numerals_are_read_back, other_texts_are_no_numbers, parse_i32,
    string_views, text_view, to_ascii_lowercase,
};
use vstd::prelude::*;
use vstd::utf8::*;

verus! {

// ---------------------------------------------------------------------------------------------
// Which errors are a reason to start over
// ---------------------------------------------------------------------------------------------

/// An error that the database itself reported.
#[derive(Debug, PartialEq, Eq)]
pub struct DatabaseError {
    /// The code of the error, as text.
    pub code: Option<String>,
    pub message: String,
}

/// One level of an error: its message, and the error of the database where it is one.
#[derive(Debug, PartialEq, Eq)]
pub struct ErrorCause {
    pub message: String,
    pub database: Option<DatabaseError>,
}

/// Whether a message says that a database file is corrupt.
pub open spec fn tells_of_corruption(message: Seq<char>) -> bool {
    has_text(lowered(message), "file is not a database"@) || has_text(
        lowered(message),
        "database disk image is malformed"@,
    )
}

/// Whether the text of an error code is a number of which the low byte is that of SQLite's
/// "database disk image is malformed" or "file is not a database".
pub open spec fn corruption_code(code: Seq<char>) -> bool {
    match i32_value(code) {
        Some(v) => v % 256 == 11 || v % 256 == 26,
        None => false,
    }
}

/// Whether an error of the database says that its file is corrupt.
pub open spec fn recoverable_database_error(e: DatabaseError) -> bool {
    (e.code matches Some(code) && corruption_code(code@)) || tells_of_corruption(e.message@)
}

/// Whether one level of an error is an error of the database that says that its file is corrupt.
pub open spec fn recoverable_cause(cause: ErrorCause) -> bool {
    match cause.database {
        Some(e) => recoverable_database_error(e),
        None => false,
    }
}

/// Whether an error, from its outermost level in, says that a database file is corrupt.
pub open spec fn recoverable(chain: Seq<ErrorCause>) -> bool {
    ||| exists|i: int| 0 <= i < chain.len() && recoverable_cause(#[trigger] chain[i])
    ||| chain.len() > 0 && tells_of_corruption(chain.first().message@)
}

/// Whether a message says that a database file is corrupt.
fn message_tells_of_corruption(message: &str) -> (r: bool)
    ensures
        r == tells_of_corruption(message@),
{
    let chars = chars_of(message);
    let lower = to_ascii_lowercase(chars.as_slice());
    let not_a_database = chars_of("file is not a database");
    let malformed = chars_of("database disk image is malformed");
    contains(lower.as_slice(), not_a_database.as_slice()) || contains(
        lower.as_slice(),
        malformed.as_slice(),
    )
}

/// Whether the text of an error code is one of a corrupt file.
fn is_corruption_code(code: &str) -> (r: bool)
    ensures
        r == corruption_code(code@),
{
    let chars = chars_of(code);
    match parse_i32(chars.as_slice()) {
        None => false,
        Some(value) => {
            let low: i32 = value & 0xff;
            assert(low == value % 256) by (bit_vector)
                requires
                    low == value & 0xff,
            ;
            low == 11 || low == 26
        },
    }
}

/// Whether an error of the database says that its file is corrupt.
pub fn is_recoverable_sqlite_error(err: &DatabaseError) -> (r: bool)
    ensures
        r == recoverable_database_error(*err),
{
    let by_code = match &err.code {
        Some(code) => is_corruption_code(code.as_str()),
        None => false,
    };
    by_code || message_tells_of_corruption(err.message.as_str())
}

/// Whether an error, from its outermost level in, says that the logs database is corrupt.
pub fn is_recoverable_logs_db_error(chain: &Vec<ErrorCause>) -> (r: bool)
    ensures
        r == recoverable(chain@),
{
    for i in 0..chain.len()
        invariant
            forall|k: int| 0 <= k < i ==> !recoverable_cause(#[trigger] chain@[k]),
    {
        if let Some(e) = &chain[i].database {
            if is_recoverable_sqlite_error(e) {
                return true;
            }
        }
    }
    chain.len() > 0 && message_tells_of_corruption(chain[0].message.as_str())
}

// ---------------------------------------------------------------------------------------------
// Names in quarantine
// ---------------------------------------------------------------------------------------------

/// A file that SQLite keeps for a database.
#[derive(Debug, Clone, Copy, PartialEq, Eq, Structural)]
pub enum SqliteFile {
    /// The database itself.
    Main,
    /// The write-ahead log.
    Wal,
    /// The shared-memory index of the write-ahead log.
    Shm,
}

/// The path of a file that SQLite keeps for the database at `path`.
pub open spec fn sqlite_file(path: Seq<u8>, file: SqliteFile) -> Seq<u8> {
    match file {
        SqliteFile::Main => path,
        SqliteFile::Wal => path + encode_utf8("-wal"@),
        SqliteFile::Shm => path + encode_utf8("-shm"@),
    }
}

/// The path of a file that SQLite keeps for the database at `path`.
fn sqlite_file_path(path: &OsText, file: SqliteFile) -> (r: OsText)
    ensures
        r@ == sqlite_file(path@, file),
{
    let mut r = path.duplicate();
    match file {
        SqliteFile::Main => {},
        SqliteFile::Wal => {
            r.push_text("-wal");
        },
        SqliteFile::Shm => {
            r.push_text("-shm");
        },
    }
    r
}

/// The paths of the files that SQLite keeps for the database at `path`: the database, its
/// write-ahead log and the shared-memory index of that.
pub fn sqlite_path_triplet(path: &OsText) -> (r: Vec<OsText>)
    ensures
        views(r@) == seq![
            sqlite_file(path@, SqliteFile::Main),
            sqlite_file(path@, SqliteFile::Wal),
            sqlite_file(path@, SqliteFile::Shm),
        ],
{
    let mut r: Vec<OsText> = Vec::new();
    r.push(sqlite_file_path(path, SqliteFile::Main));
    r.push(sqlite_file_path(path, SqliteFile::Wal));
    r.push(sqlite_file_path(path, SqliteFile::Shm));
    assert(views(r@) =~= seq![
        sqlite_file(path@, SqliteFile::Main),
        sqlite_file(path@, SqliteFile::Wal),
        sqlite_file(path@, SqliteFile::Shm),
    ]);
    r
}

/// What chrono writes for a moment in the form `%Y%m%d-%H%M%S`, where it can represent it.
pub uninterp spec fn utc_stamp_text(epoch_seconds: i64) -> Option<Seq<char>>;

/// Whether a character occurs in the stamp of a moment.
pub open spec fn stamp_char(c: char) -> bool {
    '0' <= c <= '9' || c == '+' || c == '-'
}

/// Whether a stamp consists of digits and signs.
pub open spec fn stamp_text(t: Option<String>) -> bool {
    t matches Some(s) ==> forall|i: int| 0 <= i < s@.len() ==> stamp_char(#[trigger] s@[i])
}

/// The last second of the year 9999, in seconds since the beginning of 1970.
pub const LAST_SECOND_OF_9999: i64 = 253_402_300_799;

/// Whether a stamp has four digits for the year and two for each other part.
pub open spec fn full_stamp(t: Option<String>) -> bool {
    t matches Some(s) && s@.len() == 15 && s@[8] == '-'
}

/// Calls chrono's `DateTime::from_timestamp` and formats the moment, in UTC, as year, month and
/// day, a hyphen, hour, minute and second. There is none where chrono cannot represent the
/// moment; it can from 1970 to the end of 9999, and the stamp then has four digits for the year.
/// A stamp consists of digits, the hyphen, and a sign before a year that has not four
/// digits; which digits they are depends on the moment alone, and is not said further.
#[verifier::external_body]
fn utc_stamp(epoch_seconds: i64) -> (r: Option<String>)
    ensures
        text_view(r) == utc_stamp_text(epoch_seconds),
        stamp_text(r),
        0 <= epoch_seconds <= LAST_SECOND_OF_9999 ==> full_stamp(r),
{
    chrono::DateTime::from_timestamp(epoch_seconds, 0).map(
        |moment| moment.format("%Y%m%d-%H%M%S").to_string(),
    )
}

/// Whether the end of a name begins with a dot and holds no separator.
pub open spec fn safe_suffix(suffix: Seq<u8>) -> bool {
    suffix.len() > 0 && suffix.first() == DOT && !suffix.contains(SEPARATOR)
}

proof fn lemma_stamped_suffix(stamp: Seq<char>)
    requires
        forall|i: int| 0 <= i < stamp.len() ==> stamp_char(#[trigger] stamp[i]),
    ensures
        safe_suffix(encode_utf8(suffix_of(stamp))),
{
    reveal_strlit(".corrupt-");
    let suffix = suffix_of(stamp);
    assert(".corrupt-"@[0] == '.');
    assert(is_ascii_chars(suffix));
    assert(!suffix.contains('/'));
    lemma_ascii_bytes(suffix);
    assert(suffix[0] == '.');
}

/// The end of the name of a file that was set aside at the moment with this stamp.
pub open spec fn suffix_of(stamp: Seq<char>) -> Seq<char> {
    ".corrupt-"@ + stamp
}

/// The end of the name of a file that is set aside at a moment, in seconds since the beginning
/// of 1970; nothing for a moment that has no stamp.
pub fn quarantine_suffix(epoch_seconds: i64) -> (r: Option<String>)
    ensures
        match r {
            Some(suffix) => utc_stamp_text(epoch_seconds) matches Some(stamp) && suffix@
                == suffix_of(stamp),
            None => utc_stamp_text(epoch_seconds) is None,
        },
        0 <= epoch_seconds <= LAST_SECOND_OF_9999 ==> r is Some,
        r matches Some(suffix) ==> safe_suffix(encode_utf8(suffix@)),
{
    match utc_stamp(epoch_seconds) {
        Some(stamp) => {
            proof {
                lemma_stamped_suffix(stamp@);
            }
            Some(suffix_for_stamp(stamp.as_str()))
        },
        None => None,
    }
}

/// The end of the name of a file that is set aside at the moment with this stamp.
pub fn suffix_for_stamp(stamp: &str) -> (r: String)
    ensures
        r@ == suffix_of(stamp@),
{
    concat2(".corrupt-", stamp)
}

/// The name in quarantine of a file: its own, then `suffix`, then, after the first attempt, a
/// dot and the number of the attempt.
pub open spec fn quarantine_name(name: Seq<u8>, suffix: Seq<u8>, sequence: nat) -> Seq<u8> {
    if sequence == 0 {
        name + suffix
    } else {
        name + suffix + encode_utf8("."@ + decimal(sequence))
    }
}

/// The name in quarantine of a file: its own, then `suffix`, then, after the first attempt, a
/// dot and the number of the attempt.
pub fn name_in_quarantine(name: &OsText, suffix: &OsText, sequence: u64) -> (r: OsText)
    ensures
        r@ == quarantine_name(name@, suffix@, sequence as nat),
{
    let mut aside = name.duplicate();
    aside.push(suffix.as_bytes());
    if sequence > 0 {
        let number = concat2(".", decimal_string(sequence as u128).as_str());
        aside.push_text(number.as_str());
    }
    aside
}

// ---------------------------------------------------------------------------------------------
// Opening with recovery
// ---------------------------------------------------------------------------------------------

/// What is to be done next.
#[derive(Debug, PartialEq, Eq)]
pub enum RecoveryAction {
    /// Open the logs database and bring its schema up to date. Answered by `Opened` or
    /// `NotOpened`.
    OpenLogs,
    /// Read the clock. Answered by `Clock`.
    ReadClock,
    /// Find out whether a path leads to something. Answered by `Flag`.
    Exists(OsText),
    /// Find out what the file at a path is called, as the platform splits paths. Answered by
    /// `Name`.
    FileName(OsText),
    /// Find out whether anything is called `name` in the directory of the file at `path`. Answered
    /// by `Flag`.
    ExistsBeside { path: OsText, name: OsText },
    /// Give the file at `path` the name `name`, in the directory where it is. Answered by
    /// `Renamed`.
    RenameBeside { path: OsText, name: OsText },
}

/// What is to be done next, as a value of mathematics.
pub enum RecoveryActionView {
    OpenLogs,
    ReadClock,
    Exists(Seq<u8>),
    FileName(Seq<u8>),
    ExistsBeside { path: Seq<u8>, name: Seq<u8> },
    RenameBeside { path: Seq<u8>, name: Seq<u8> },
}

impl View for RecoveryAction {
    type V = RecoveryActionView;

    open spec fn view(&self) -> RecoveryActionView {
        match self {
            RecoveryAction::OpenLogs => RecoveryActionView::OpenLogs,
            RecoveryAction::ReadClock => RecoveryActionView::ReadClock,
            RecoveryAction::Exists(p) => RecoveryActionView::Exists(p@),
            RecoveryAction::FileName(p) => RecoveryActionView::FileName(p@),
            RecoveryAction::ExistsBeside { path, name } => RecoveryActionView::ExistsBeside {
                path: path@,
                name: name@,
            },
            RecoveryAction::RenameBeside { path, name } => RecoveryActionView::RenameBeside {
                path: path@,
                name: name@,
            },
        }
    }
}

/// The view of an optional action.
pub open spec fn recovery_action_view(a: Option<RecoveryAction>) -> Option<RecoveryActionView> {
    match a {
        Some(a) => Some(a@),
        None => None,
    }
}

/// How an action ended.
#[derive(Debug, PartialEq, Eq)]
pub enum RecoveryOutcome {
    /// The logs database is open.
    Opened,
    /// The logs database could not be opened; the error from its outermost level in.
    NotOpened(Vec<ErrorCause>),
    /// The time, in seconds since the beginning of 1970.
    Clock(i64),
    /// Whether a path leads to something.
    Flag(bool),
    /// What a file is called; nothing where its path names no file.
    Name(Option<OsText>),
    /// A file has another name now.
    Renamed,
    /// The file system reported an error.
    Failed(Failure),
}

/// How far the opening has come.
#[derive(Debug, Clone, Copy, PartialEq, Eq)]
pub enum RecoveryPhase {
    Open,
    /// The database is corrupt: find out when that was noticed.
    Stamp,
    /// See whether this file of the database exists.
    Look(SqliteFile),
    /// It does: find out what it is called.
    AskName(SqliteFile),
    /// See whether this attempt at a name in quarantine is taken.
    TryName { file: SqliteFile, sequence: u64 },
    /// Move the file to this attempt at a name.
    Move { file: SqliteFile, sequence: u64 },
    Reopen,
    Opened,
    GivenUp,
}

/// A file that was set aside: where it was, and what it is called now in the same directory.
#[derive(Debug, PartialEq, Eq)]
pub struct MovedFile {
    pub path: OsText,
    pub name: OsText,
}

/// A file that was set aside, as a value of mathematics.
pub struct MovedView {
    pub path: Seq<u8>,
    pub name: Seq<u8>,
}

impl View for MovedFile {
    type V = MovedView;

    open spec fn view(&self) -> MovedView {
        MovedView { path: self.path@, name: self.name@ }
    }
}

/// The views of some files that were set aside.
pub open spec fn moved_views(moved: Seq<MovedFile>) -> Seq<MovedView> {
    moved.map_values(|m: MovedFile| m@)
}

/// The opening of the logs database. Where the database is corrupt, its files are moved aside
/// and it is created anew.
pub struct LogsRecovery {
    path: OsText,
    suffix: OsText,
    name: OsText,
    phase: RecoveryPhase,
    moved: Vec<MovedFile>,
    failure: Option<Failure>,
}

/// The opening of the logs database, as a value of mathematics.
#[verifier::ext_equal]
pub struct RecoveryView {
    /// Where the database is.
    pub path: Seq<u8>,
    /// What the names of files in quarantine end with, once that is known.
    pub suffix: Seq<u8>,
    /// What the file that is being set aside is called.
    pub name: Seq<u8>,
    pub phase: RecoveryPhase,
    /// The files that were set aside.
    pub moved: Seq<MovedView>,
    /// Why the database could not be opened.
    pub failure: Option<Seq<Seq<char>>>,
}

impl View for LogsRecovery {
    type V = RecoveryView;

    closed spec fn view(&self) -> RecoveryView {
        RecoveryView {
            path: self.path@,
            suffix: self.suffix@,
            name: self.name@,
            phase: self.phase,
            moved: moved_views(self.moved@),
            failure: failure_view(self.failure),
        }
    }
}

/// The messages of an error, from its outermost level in.
pub open spec fn cause_messages(chain: Seq<ErrorCause>) -> Seq<Seq<char>> {
    chain.map_values(|c: ErrorCause| c.message@)
}

/// The phase after a file has been dealt with.
pub open spec fn after_file(file: SqliteFile) -> RecoveryPhase {
    match file {
        SqliteFile::Main => RecoveryPhase::Look(SqliteFile::Wal),
        SqliteFile::Wal => RecoveryPhase::Look(SqliteFile::Shm),
        SqliteFile::Shm => RecoveryPhase::Reopen,
    }
}

impl RecoveryView {
    /// An opening that has not begun.
    pub open spec fn start(path: Seq<u8>) -> RecoveryView {
        RecoveryView {
            path,
            suffix: Seq::empty(),
            name: Seq::empty(),
            phase: RecoveryPhase::Open,
            moved: Seq::empty(),
            failure: None,
        }
    }

    /// The path of a file of the database.
    pub open spec fn file(self, file: SqliteFile) -> Seq<u8> {
        sqlite_file(self.path, file)
    }

    /// An attempt at a name in quarantine for the file that is being set aside.
    pub open spec fn aside(self, sequence: u64) -> Seq<u8> {
        quarantine_name(self.name, self.suffix, sequence as nat)
    }

    /// What is to be done next.
    pub open spec fn action(self) -> Option<RecoveryActionView> {
        match self.phase {
            RecoveryPhase::Open => Some(RecoveryActionView::OpenLogs),
            RecoveryPhase::Stamp => Some(RecoveryActionView::ReadClock),
            RecoveryPhase::Look(file) => Some(RecoveryActionView::Exists(self.file(file))),
            RecoveryPhase::AskName(file) => Some(RecoveryActionView::FileName(self.file(file))),
            RecoveryPhase::TryName { file, sequence } => Some(
                RecoveryActionView::ExistsBeside {
                    path: self.file(file),
                    name: self.aside(sequence),
                },
            ),
            RecoveryPhase::Move { file, sequence } => Some(
                RecoveryActionView::RenameBeside {
                    path: self.file(file),
                    name: self.aside(sequence),
                },
            ),
            RecoveryPhase::Reopen => Some(RecoveryActionView::OpenLogs),
            RecoveryPhase::Opened => None,
            RecoveryPhase::GivenUp => None,
        }
    }

    /// The opening after the file system failed while files were moved aside.
    pub open spec fn not_moved(self, failure: Seq<Seq<char>>) -> RecoveryView {
        RecoveryView {
            phase: RecoveryPhase::GivenUp,
            failure: Some(
                in_context(failure, "failed to quarantine logs db at "@ + displayed(self.path)),
            ),
            ..self
        }
    }

    /// The opening after it was found whether a path leads to something.
    pub open spec fn after_flag(self, exists: bool) -> RecoveryView {
        match self.phase {
            RecoveryPhase::Look(file) => if !exists {
                RecoveryView { phase: after_file(file), ..self }
            } else {
                RecoveryView { phase: RecoveryPhase::AskName(file), ..self }
            },
            RecoveryPhase::TryName { file, sequence } => if exists {
                RecoveryView {
                    phase: RecoveryPhase::TryName { file, sequence: (sequence + 1) as u64 },
                    ..self
                }
            } else {
                RecoveryView { phase: RecoveryPhase::Move { file, sequence }, ..self }
            },
            _ => self,
        }
    }

    /// The opening after it was found what a file is called.
    pub open spec fn after_name(self, name: Option<Seq<u8>>) -> RecoveryView {
        match (self.phase, name) {
            (RecoveryPhase::AskName(file), Some(name)) => RecoveryView {
                name,
                phase: RecoveryPhase::TryName { file, sequence: 0 },
                ..self
            },
            (RecoveryPhase::AskName(file), None) => self.not_moved(
                seq!["cannot create a quarantine name for "@ + displayed(self.file(file))],
            ),
            _ => self,
        }
    }

    /// The opening after the clock was read.
    pub open spec fn after_clock(self, epoch_seconds: i64) -> RecoveryView {
        match (self.phase, utc_stamp_text(epoch_seconds)) {
            (RecoveryPhase::Stamp, Some(stamp)) => RecoveryView {
                suffix: encode_utf8(suffix_of(stamp)),
                phase: RecoveryPhase::Look(SqliteFile::Main),
                ..self
            },
            _ => self,
        }
    }

    /// The opening after its pending action ended so. An outcome that does not answer that
    /// action changes nothing; a time that has no stamp is no answer.
    pub open spec fn next(self, outcome: RecoveryOutcome) -> RecoveryView {
        match outcome {
            RecoveryOutcome::Opened => if self.phase is Open || self.phase is Reopen {
                RecoveryView { phase: RecoveryPhase::Opened, ..self }
            } else {
                self
            },
            RecoveryOutcome::NotOpened(chain) => match self.phase {
                RecoveryPhase::Open => if recoverable(chain@) {
                    RecoveryView { phase: RecoveryPhase::Stamp, ..self }
                } else {
                    RecoveryView {
                        phase: RecoveryPhase::GivenUp,
                        failure: Some(cause_messages(chain@)),
                        ..self
                    }
                },
                RecoveryPhase::Reopen => RecoveryView {
                    phase: RecoveryPhase::GivenUp,
                    failure: Some(
                        in_context(
                            cause_messages(chain@),
                            "failed to recreate logs db at "@ + displayed(self.path),
                        ),
                    ),
                    ..self
                },
                _ => self,
            },
            RecoveryOutcome::Clock(epoch_seconds) => self.after_clock(epoch_seconds),
            RecoveryOutcome::Flag(exists) => self.after_flag(exists),
            RecoveryOutcome::Name(name) => self.after_name(option_view(name)),
            RecoveryOutcome::Renamed => match self.phase {
                RecoveryPhase::Move { file, sequence } => RecoveryView {
                    phase: after_file(file),
                    moved: self.moved.push(
                        MovedView { path: self.file(file), name: self.aside(sequence) },
                    ),
                    ..self
                },
                _ => self,
            },
            RecoveryOutcome::Failed(failure) => match self.phase {
                RecoveryPhase::Look(_) => self.not_moved(failure@),
                RecoveryPhase::TryName { .. } => self.not_moved(failure@),
                RecoveryPhase::Move { .. } => self.not_moved(failure@),
                _ => self,
            },
        }
    }

    /// Whether there is still a number for the next attempt at a name.
    pub open spec fn can_go_on(self) -> bool {
        self.phase matches RecoveryPhase::TryName { sequence, .. } ==> sequence < u64::MAX
    }
}

/// The messages of an error as a failure.
fn failure_of(chain: &Vec<ErrorCause>) -> (r: Failure)
    ensures
        r@ == cause_messages(chain@),
{
    let mut messages: Vec<String> = Vec::new();
    for i in 0..chain.len()
        invariant
            string_views(messages@) == cause_messages(chain@.take(i as int)),
    {
        let ghost before = messages@;
        messages.push(chain[i].message.clone());
        assert(string_views(messages@) == string_views(before).push(chain@[i as int].message@));
        assert(cause_messages(chain@.take(i + 1)) == cause_messages(chain@.take(i as int)).push(
            chain@[i as int].message@,
        ));
    }
    assert(chain@.take(chain@.len() as int) == chain@);
    Failure { messages }
}

impl LogsRecovery {
    /// The opening of the logs database at `path`.
    pub fn new(path: OsText) -> (r: LogsRecovery)
        ensures
            r@ == RecoveryView::start(path@),
    {
        let r = LogsRecovery {
            path,
            suffix: OsText::from_bytes(Vec::new()),
            name: OsText::from_bytes(Vec::new()),
            phase: RecoveryPhase::Open,
            moved: Vec::new(),
            failure: None,
        };
        assert(r@ =~= RecoveryView::start(path@));
        r
    }

    /// How far the opening has come.
    pub fn phase(&self) -> (r: RecoveryPhase)
        ensures
            r == self@.phase,
    {
        self.phase
    }

    /// An attempt at a name in quarantine for the file that is being set aside.
    fn aside(&self, sequence: u64) -> (r: OsText)
        ensures
            r@ == self@.aside(sequence),
    {
        name_in_quarantine(&self.name, &self.suffix, sequence)
    }

    /// What is to be done next; nothing once the database is open or has been given up.
    pub fn action(&self) -> (r: Option<RecoveryAction>)
        ensures
            recovery_action_view(r) == self@.action(),
    {
        match self.phase {
            RecoveryPhase::Open => Some(RecoveryAction::OpenLogs),
            RecoveryPhase::Stamp => Some(RecoveryAction::ReadClock),
            RecoveryPhase::Look(file) => Some(
                RecoveryAction::Exists(sqlite_file_path(&self.path, file)),
            ),
            RecoveryPhase::AskName(file) => Some(
                RecoveryAction::FileName(sqlite_file_path(&self.path, file)),
            ),
            RecoveryPhase::TryName { file, sequence } => Some(
                RecoveryAction::ExistsBeside {
                    path: sqlite_file_path(&self.path, file),
                    name: self.aside(sequence),
                },
            ),
            RecoveryPhase::Move { file, sequence } => Some(
                RecoveryAction::RenameBeside {
                    path: sqlite_file_path(&self.path, file),
                    name: self.aside(sequence),
                },
            ),
            RecoveryPhase::Reopen => Some(RecoveryAction::OpenLogs),
            RecoveryPhase::Opened => None,
            RecoveryPhase::GivenUp => None,
        }
    }

    /// Gives up because files could not be moved aside.
    fn give_up_moving(&mut self, failure: Failure)
        ensures
            final(self)@ == old(self)@.not_moved(failure@),
    {
        let context = concat2("failed to quarantine logs db at ", self.path.display().as_str());
        self.phase = RecoveryPhase::GivenUp;
        self.failure = Some(failure.context(context));
    }

    /// Takes in whether a path leads to something.
    fn take_flag(&mut self, exists: bool)
        requires
            old(self)@.can_go_on(),
        ensures
            final(self)@ == old(self)@.after_flag(exists),
    {
        match self.phase {
            RecoveryPhase::Look(file) => {
                self.phase = if exists {
                    RecoveryPhase::AskName(file)
                } else {
                    next_file(file)
                };
            },
            RecoveryPhase::TryName { file, sequence } => {
                self.phase = if exists {
                    RecoveryPhase::TryName { file, sequence: sequence + 1 }
                } else {
                    RecoveryPhase::Move { file, sequence }
                };
            },
            _ => {},
        }
    }

    /// Takes in what a file is called.
    fn take_name(&mut self, name: Option<OsText>)
        ensures
            final(self)@ == old(self)@.after_name(option_view(name)),
    {
        if let RecoveryPhase::AskName(file) = self.phase {
            match name {
                Some(name) => {
                    self.name = name;
                    self.phase = RecoveryPhase::TryName { file, sequence: 0 };
                },
                None => {
                    let path = sqlite_file_path(&self.path, file);
                    let message = concat2(
                        "cannot create a quarantine name for ",
                        path.display().as_str(),
                    );
                    self.give_up_moving(Failure::new(message));
                },
            }
        }
    }

    /// Takes in how the pending action ended.
    pub fn advance(&mut self, outcome: RecoveryOutcome)
        requires
            old(self)@.can_go_on(),
        ensures
            final(self)@ == old(self)@.next(outcome),
            old(self)@.phase is Stamp && final(self)@.phase is Look ==> safe_suffix(
                final(self)@.suffix,
            ),
    {
        match outcome {
            RecoveryOutcome::Opened => {
                match self.phase {
                    RecoveryPhase::Open | RecoveryPhase::Reopen => {
                        self.phase = RecoveryPhase::Opened;
                    },
                    _ => {},
                }
            },
            RecoveryOutcome::NotOpened(chain) => {
                match self.phase {
                    RecoveryPhase::Open => {
                        if is_recoverable_logs_db_error(&chain) {
                            self.phase = RecoveryPhase::Stamp;
                        } else {
                            self.phase = RecoveryPhase::GivenUp;
                            self.failure = Some(failure_of(&chain));
                        }
                    },
                    RecoveryPhase::Reopen => {
                        let context = concat2(
                            "failed to recreate logs db at ",
                            self.path.display().as_str(),
                        );
                        self.phase = RecoveryPhase::GivenUp;
                        self.failure = Some(failure_of(&chain).context(context));
                    },
                    _ => {},
                }
            },
            RecoveryOutcome::Clock(epoch_seconds) => {
                if let RecoveryPhase::Stamp = self.phase {
                    if let Some(suffix) = quarantine_suffix(epoch_seconds) {
                        self.suffix = OsText::from_text(suffix.as_str());
                        self.phase = RecoveryPhase::Look(SqliteFile::Main);
                    }
                }
            },
            RecoveryOutcome::Flag(exists) => {
                self.take_flag(exists);
            },
            RecoveryOutcome::Name(name) => {
                self.take_name(name);
            },
            RecoveryOutcome::Renamed => {
                if let RecoveryPhase::Move { file, sequence } = self.phase {
                    let file_moved = MovedFile {
                        path: sqlite_file_path(&self.path, file),
                        name: self.aside(sequence),
                    };
                    let ghost before = self.moved@;
                    self.moved.push(file_moved);
                    assert(moved_views(self.moved@) == moved_views(before).push(file_moved@));
                    self.phase = next_file(file);
                }
            },
            RecoveryOutcome::Failed(failure) => {
                match self.phase {
                    RecoveryPhase::Look(_) | RecoveryPhase::TryName { .. } | RecoveryPhase::Move {
                        ..
                    } => {
                        self.give_up_moving(failure);
                    },
                    _ => {},
                }
            },
        }
    }

    /// Which files were set aside, and why the database could not be opened, once that is so.
    pub fn finish(self) -> (r: (Vec<MovedFile>, Option<Failure>))
        ensures
            moved_views(r.0@) == self@.moved,
            failure_view(r.1) == self@.failure,
    {
        (self.moved, self.failure)
    }
}

/// The phase after a file has been dealt with.
fn next_file(file: SqliteFile) -> (r: RecoveryPhase)
    ensures
        r == after_file(file),
{
    match file {
        SqliteFile::Main => RecoveryPhase::Look(SqliteFile::Wal),
        SqliteFile::Wal => RecoveryPhase::Look(SqliteFile::Shm),
        SqliteFile::Shm => RecoveryPhase::Reopen,
    }
}

// ---------------------------------------------------------------------------------------------
// Whole runs
// ---------------------------------------------------------------------------------------------

/// How a platform splits paths.
pub struct Naming {
    /// What the file at a path is called.
    pub name: spec_fn(Seq<u8>) -> Option<Seq<u8>>,
    /// The path with this name in the directory of the file at a path.
    pub beside: spec_fn(Seq<u8>, Seq<u8>) -> Seq<u8>,
}

/// Whether `outcome` is what a file system that holds `files` answers to `action`; that it
/// reports an error is always possible.
pub open spec fn truthful(
    naming: Naming,
    files: Map<Seq<u8>, int>,
    action: Option<RecoveryActionView>,
    outcome: RecoveryOutcome,
) -> bool {
    match action {
        Some(RecoveryActionView::Exists(path)) => outcome is Failed || outcome
            == RecoveryOutcome::Flag(files.contains_key(path)),
        Some(RecoveryActionView::FileName(path)) => outcome matches RecoveryOutcome::Name(name)
            && option_view(name) == (naming.name)(path),
        Some(RecoveryActionView::ExistsBeside { path, name }) => outcome is Failed || outcome
            == RecoveryOutcome::Flag(files.contains_key((naming.beside)(path, name))),
        Some(RecoveryActionView::RenameBeside { path, .. }) => outcome is Failed || (
        outcome is Renamed && files.contains_key(path)),
        _ => false,
    }
}

/// The files after `action` ended with `outcome`: contents by path.
pub open spec fn files_after(
    naming: Naming,
    files: Map<Seq<u8>, int>,
    action: Option<RecoveryActionView>,
    outcome: RecoveryOutcome,
) -> Map<Seq<u8>, int> {
    match (action, outcome) {
        (
            Some(RecoveryActionView::RenameBeside { path, name }),
            RecoveryOutcome::Renamed,
        ) => files.remove(path).insert((naming.beside)(path, name), files[path]),
        _ => files,
    }
}

/// Whether `outcomes` are what a file system that holds `files` answers, one after the other,
/// from `v` on.
pub open spec fn truthful_run(
    naming: Naming,
    v: RecoveryView,
    files: Map<Seq<u8>, int>,
    outcomes: Seq<RecoveryOutcome>,
) -> bool
    decreases outcomes.len(),
{
    outcomes.len() > 0 ==> {
        let o = outcomes.first();
        &&& truthful(naming, files, v.action(), o)
        &&& truthful_run(
            naming,
            v.next(o),
            files_after(naming, files, v.action(), o),
            outcomes.drop_first(),
        )
    }
}

/// The opening and the files after the actions from `v` on ended with `outcomes`.
pub open spec fn run_from(
    naming: Naming,
    v: RecoveryView,
    files: Map<Seq<u8>, int>,
    outcomes: Seq<RecoveryOutcome>,
) -> (RecoveryView, Map<Seq<u8>, int>)
    decreases outcomes.len(),
{
    if outcomes.len() == 0 {
        (v, files)
    } else {
        let o = outcomes.first();
        run_from(
            naming,
            v.next(o),
            files_after(naming, files, v.action(), o),
            outcomes.drop_first(),
        )
    }
}

/// Whether a platform finds the names of the files of the database at `path`, and finds a file in
/// quarantine under the name that it was given, where `suffix` begins with a dot.
pub open spec fn tells_names_apart(naming: Naming, path: Seq<u8>, suffix: Seq<u8>) -> bool {
    let base = (naming.name)(path);
    &&& suffix.len() > 0 && suffix.first() == DOT
    &&& base is Some
    &&& forall|f: SqliteFile|
        (naming.name)(#[trigger] sqlite_file(path, f)) == Some(sqlite_file(base->0, f))
    &&& forall|f: SqliteFile, sequence: nat|
        #![trigger quarantine_name(sqlite_file(base->0, f), suffix, sequence)]
        {
            let aside = quarantine_name(sqlite_file(base->0, f), suffix, sequence);
            (naming.name)((naming.beside)(sqlite_file(path, f), aside)) == Some(aside)
        }
}

/// Whether a file of the database is dealt with before another.
pub open spec fn earlier(a: SqliteFile, b: SqliteFile) -> bool {
    match b {
        SqliteFile::Main => false,
        SqliteFile::Wal => a is Main,
        SqliteFile::Shm => a is Main || a is Wal,
    }
}

/// What is known of the files in each phase: those dealt with are gone, the one being dealt with
/// is there, and the name that it is given is its own at first, and free when it is given.
pub open spec fn known(naming: Naming, v: RecoveryView, files: Map<Seq<u8>, int>) -> bool {
    match v.phase {
        RecoveryPhase::Look(file) => forall|f: SqliteFile|
            earlier(f, file) ==> !files.contains_key(#[trigger] v.file(f)),
        RecoveryPhase::AskName(file) => {
            &&& forall|f: SqliteFile|
                earlier(f, file) ==> !files.contains_key(#[trigger] v.file(f))
            &&& files.contains_key(v.file(file))
        },
        RecoveryPhase::TryName { file, .. } => {
            &&& forall|f: SqliteFile|
                earlier(f, file) ==> !files.contains_key(#[trigger] v.file(f))
            &&& files.contains_key(v.file(file))
            &&& Some(v.name) == (naming.name)(v.file(file))
        },
        RecoveryPhase::Move { file, sequence } => {
            &&& forall|f: SqliteFile|
                earlier(f, file) ==> !files.contains_key(#[trigger] v.file(f))
            &&& files.contains_key(v.file(file))
            &&& Some(v.name) == (naming.name)(v.file(file))
            &&& !files.contains_key((naming.beside)(v.file(file), v.aside(sequence)))
        },
        RecoveryPhase::Reopen => forall|f: SqliteFile|
            !files.contains_key(#[trigger] v.file(f)),
        _ => true,
    }
}

proof fn lemma_endings()
    ensures
        encode_utf8("-wal"@).len() == 4,
        encode_utf8("-shm"@).len() == 4,
        encode_utf8("-wal"@).first() != DOT,
        encode_utf8("-shm"@).first() != DOT,
        encode_utf8("-wal"@).last() == 'l' as u8,
        encode_utf8("-shm"@).last() == 'm' as u8,
        !encode_utf8("-wal"@).contains(SEPARATOR),
        !encode_utf8("-shm"@).contains(SEPARATOR),
{
    reveal_strlit("-wal");
    reveal_strlit("-shm");
    assert("-wal"@[0] == '-' && "-wal"@[3] == 'l');
    assert("-shm"@[0] == '-' && "-shm"@[3] == 'm');
    assert(!"-wal"@.contains('/'));
    assert(!"-shm"@.contains('/'));
    lemma_ascii_bytes("-wal"@);
    lemma_ascii_bytes("-shm"@);
}

proof fn lemma_file_names(path: Seq<u8>, file: SqliteFile)
    requires
        without_tail(path) == path,
        named(path) is Some,
    ensures
        named(sqlite_file(path, file)) == Some(sqlite_file(named(path)->0, file)),
        without_tail(sqlite_file(path, file)) == sqlite_file(path, file),
{
    lemma_endings();
    let wal = encode_utf8("-wal"@);
    let shm = encode_utf8("-shm"@);
    lemma_last_piece_extended(path, wal);
    lemma_last_piece_extended(path, shm);
    assert((path + wal).last() == wal.last());
    assert((path + shm).last() == shm.last());
    assert(without_tail(path + wal) == path + wal);
    assert(without_tail(path + shm) == path + shm);
    let base = last_piece(path);
    assert((base + wal).len() > 2 && (base + shm).len() > 2);
}

proof fn lemma_quarantine_name_plain(name: Seq<u8>, suffix: Seq<u8>, sequence: nat)
    requires
        plain_name(name),
        suffix.len() > 0,
        !suffix.contains(SEPARATOR),
    ensures
        plain_name(quarantine_name(name, suffix, sequence)),
{
    let number = "."@ + decimal(sequence);
    reveal_strlit(".");
    lemma_decimal_digits(sequence);
    assert(is_ascii_chars(number));
    assert(!number.contains('/'));
    lemma_ascii_bytes(number);
    let q = quarantine_name(name, suffix, sequence);
    assert forall|k: int| 0 <= k < q.len() implies q[k] != SEPARATOR by {
        if k < name.len() {
            assert(name.contains(name[k]));
        } else if k < name.len() + suffix.len() {
            assert(suffix.contains(suffix[k - name.len()]));
        } else {
            assert(encode_utf8(number).contains(
                encode_utf8(number)[k - name.len() - suffix.len()],
            ));
        }
    }
    if q == dot_dot_name() {
        assert(q[0] == name[0]);
        assert(name =~= dot_name());
    }
}

/// How paths are split where `/` stands between components.
pub open spec fn slash_naming() -> Naming {
    Naming {
        name: |path: Seq<u8>| named(path),
        beside: |path: Seq<u8>, name: Seq<u8>| sibling(path, name),
    }
}

/// Where `/` stands between components, the files of a database whose path ends in its name are
/// told apart from the files in quarantine.
pub proof fn slash_paths_tell_names_apart(path: Seq<u8>, suffix: Seq<u8>)
    requires
        without_tail(path) == path,
        named(path) is Some,
        safe_suffix(suffix),
    ensures
        tells_names_apart(slash_naming(), path, suffix),
{
    let naming = slash_naming();
    let base = named(path)->0;
    assert forall|f: SqliteFile| (naming.name)(#[trigger] sqlite_file(path, f)) == Some(
        sqlite_file(base, f),
    ) by {
        lemma_file_names(path, f);
    }
    assert forall|f: SqliteFile, sequence: nat|
        #![trigger quarantine_name(sqlite_file(base, f), suffix, sequence)]
        {
            let aside = quarantine_name(sqlite_file(base, f), suffix, sequence);
            (naming.name)((naming.beside)(sqlite_file(path, f), aside)) == Some(aside)
        } by {
        lemma_file_names(path, f);
        let file = sqlite_file(path, f);
        let name = sqlite_file(base, f);
        lemma_named_plain(file);
        lemma_quarantine_name_plain(name, suffix, sequence);
        assert(parent_of(file) is Some);
        lemma_entry_of_directory(parent_of(file)->0, quarantine_name(name, suffix, sequence));
    }
}

/// No path in quarantine is that of a file of the database.
proof fn lemma_places_are_elsewhere(
    naming: Naming,
    v: RecoveryView,
    file: SqliteFile,
    sequence: u64,
    other: SqliteFile,
)
    requires
        tells_names_apart(naming, v.path, v.suffix),
        Some(v.name) == (naming.name)(v.file(file)),
    ensures
        (naming.beside)(v.file(file), v.aside(sequence)) != v.file(other),
{
    lemma_endings();
    let base = (naming.name)(v.path)->0;
    let name = sqlite_file(base, file);
    assert((naming.name)(sqlite_file(v.path, file)) == Some(name));
    let q = quarantine_name(name, v.suffix, sequence as nat);
    assert((naming.name)((naming.beside)(sqlite_file(v.path, file), q)) == Some(q));
    let taken = sqlite_file(base, other);
    assert((naming.name)(sqlite_file(v.path, other)) == Some(taken));
    if q == taken {
        assert(q.len() >= name.len() + v.suffix.len());
        assert((name + v.suffix)[base.len() as int] == q[base.len() as int]);
        if file is Main {
            assert(q[base.len() as int] == DOT);
        }
    }
}

proof fn lemma_step_keeps_files(
    naming: Naming,
    v: RecoveryView,
    files: Map<Seq<u8>, int>,
    outcome: RecoveryOutcome,
)
    requires
        tells_names_apart(naming, v.path, v.suffix),
        known(naming, v, files),
        truthful(naming, files, v.action(), outcome),
    ensures
        known(naming, v.next(outcome), files_after(naming, files, v.action(), outcome)),
        v.next(outcome).path == v.path,
        v.next(outcome).suffix == v.suffix,
        forall|c: int|
            files.contains_value(c) ==> #[trigger] files_after(
                naming,
                files,
                v.action(),
                outcome,
            ).contains_value(c),
{
    let after = files_after(naming, files, v.action(), outcome);
    let w = v.next(outcome);
    if let RecoveryPhase::Move { file, sequence } = v.phase {
        if outcome is Renamed {
            let from = v.file(file);
            let to = (naming.beside)(from, v.aside(sequence));
            assert forall|f: SqliteFile| earlier(f, file) || f == file implies !after.contains_key(
                #[trigger] v.file(f),
            ) by {
                lemma_places_are_elsewhere(naming, v, file, sequence, f);
            }
            assert forall|c: int| files.contains_value(c) implies after.contains_value(c) by {
                let k = choose|k: Seq<u8>| files.contains_key(k) && files[k] == c;
                if k == from {
                    assert(after.contains_key(to) && after[to] == c);
                } else {
                    assert(after.contains_key(k) && after[k] == c);
                }
            }
            assert forall|f: SqliteFile| w.phase is Reopen implies !after.contains_key(
                #[trigger] w.file(f),
            ) by {
                assert(w.file(f) == v.file(f));
            }
        }
    }
    assert forall|f: SqliteFile| w.file(f) == v.file(f) by {}
}

proof fn lemma_run_keeps_files(
    naming: Naming,
    v: RecoveryView,
    files: Map<Seq<u8>, int>,
    outcomes: Seq<RecoveryOutcome>,
)
    requires
        tells_names_apart(naming, v.path, v.suffix),
        known(naming, v, files),
        truthful_run(naming, v, files, outcomes),
    ensures
        forall|c: int|
            files.contains_value(c) ==> #[trigger] run_from(
                naming,
                v,
                files,
                outcomes,
            ).1.contains_value(c),
        known(
            naming,
            run_from(naming, v, files, outcomes).0,
            run_from(naming, v, files, outcomes).1,
        ),
        run_from(naming, v, files, outcomes).0.path == v.path,
        run_from(naming, v, files, outcomes).0.suffix == v.suffix,
    decreases outcomes.len(),
{
    if outcomes.len() > 0 {
        let o = outcomes.first();
        let after = files_after(naming, files, v.action(), o);
        lemma_step_keeps_files(naming, v, files, o);
        lemma_run_keeps_files(naming, v.next(o), after, outcomes.drop_first());
        assert forall|c: int| files.contains_value(c) implies #[trigger] run_from(
            naming,
            v,
            files,
            outcomes,
        ).1.contains_value(c) by {
            assert(after.contains_value(c));
        }
    }
}

/// Moving the files of a corrupt database aside loses nothing: each file is still there, under
/// its own path or another; a file is only ever given a name that is free; and when the database
/// is about to be created anew, none of its files stands in the way.
pub proof fn quarantine_keeps_every_file(
    naming: Naming,
    v: RecoveryView,
    files: Map<Seq<u8>, int>,
    outcomes: Seq<RecoveryOutcome>,
)
    requires
        tells_names_apart(naming, v.path, v.suffix),
        v.phase == RecoveryPhase::Look(SqliteFile::Main),
        truthful_run(naming, v, files, outcomes),
    ensures
        ({
            let (w, after) = run_from(naming, v, files, outcomes);
            &&& forall|c: int| files.contains_value(c) ==> #[trigger] after.contains_value(c)
            &&& w.action() matches Some(RecoveryActionView::RenameBeside { path, name })
                ==> after.contains_key(path) && !after.contains_key((naming.beside)(path, name))
            &&& w.phase is Reopen ==> forall|f: SqliteFile|
                !after.contains_key(#[trigger] sqlite_file(v.path, f))
        }),
{
    lemma_run_keeps_files(naming, v, files, outcomes);
    let (w, after) = run_from(naming, v, files, outcomes);
    assert forall|f: SqliteFile| w.phase is Reopen implies !after.contains_key(
        #[trigger] sqlite_file(v.path, f),
    ) by {
        assert(w.file(f) == sqlite_file(v.path, f));
    }
}

/// The logs database is set aside only when the error says that it is corrupt; any other error is
/// passed on as it is.
pub proof fn only_corruption_starts_a_quarantine(v: RecoveryView, chain: Vec<ErrorCause>)
    requires
        v.phase is Open,
    ensures
        v.next(RecoveryOutcome::NotOpened(chain)).phase is Stamp <==> recoverable(chain@),
        !recoverable(chain@) ==> v.next(RecoveryOutcome::NotOpened(chain)).failure == Some(
            cause_messages(chain@),
        ) && v.next(RecoveryOutcome::NotOpened(chain)).action() is None,
{
}

/// The opening after its actions from `v` on ended with `outcomes`.
pub open spec fn opening_after(v: RecoveryView, outcomes: Seq<RecoveryOutcome>) -> RecoveryView
    decreases outcomes.len(),
{
    if outcomes.len() == 0 {
        v
    } else {
        opening_after(v.next(outcomes.first()), outcomes.drop_first())
    }
}

/// How often the database was opened, or was tried to be, when the actions from `v` on ended with
/// `outcomes`.
pub open spec fn openings(v: RecoveryView, outcomes: Seq<RecoveryOutcome>) -> nat
    decreases outcomes.len(),
{
    if outcomes.len() == 0 {
        0
    } else {
        let o = outcomes.first();
        let opening = v.action() == Some(RecoveryActionView::OpenLogs) && (o is Opened
            || o is NotOpened);
        let rest = openings(v.next(o), outcomes.drop_first());
        if opening {
            rest + 1
        } else {
            rest
        }
    }
}

/// How often the database may still be opened.
pub open spec fn openings_left(phase: RecoveryPhase) -> nat {
    match phase {
        RecoveryPhase::Open => 2,
        RecoveryPhase::Opened => 0,
        RecoveryPhase::GivenUp => 0,
        _ => 1,
    }
}

proof fn lemma_openings(v: RecoveryView, outcomes: Seq<RecoveryOutcome>)
    ensures
        openings(v, outcomes) + openings_left(opening_after(v, outcomes).phase) <= openings_left(
            v.phase,
        ),
    decreases outcomes.len(),
{
    if outcomes.len() > 0 {
        lemma_openings(v.next(outcomes.first()), outcomes.drop_first());
    }
}

/// Whatever happens, the database is opened at most twice: once at first, and once when its files
/// have been set aside.
pub proof fn database_is_reopened_once(path: Seq<u8>, outcomes: Seq<RecoveryOutcome>)
    ensures
        openings(RecoveryView::start(path), outcomes) <= 2,
{
    lemma_openings(RecoveryView::start(path), outcomes);
}

/// From the moment at which the database is to be opened once more, nothing else is done: that
/// moment lasts until there is an answer, and it never comes back.
pub proof fn reopening_is_the_last_step(v: RecoveryView, outcomes: Seq<RecoveryOutcome>)
    requires
        v.phase is Reopen || v.phase is Opened || v.phase is GivenUp,
    ensures
        ({
            let w = opening_after(v, outcomes);
            &&& w.phase is Reopen || w.phase is Opened || w.phase is GivenUp
            &&& !(v.phase is Reopen) ==> w == v
        }),
    decreases outcomes.len(),
{
    if outcomes.len() > 0 {
        reopening_is_the_last_step(v.next(outcomes.first()), outcomes.drop_first());
    }
}

/// When the last file of the database has been dealt with, the database is opened once more. The
/// answer decides: it is open, or it is given up with the error and the word that it could not be
/// created anew.
pub proof fn reopening_decides(v: RecoveryView, chain: Vec<ErrorCause>)
    ensures
        v.phase == RecoveryPhase::Look(SqliteFile::Shm) ==> v.next(
            RecoveryOutcome::Flag(false),
        ).phase is Reopen,
        v.phase matches RecoveryPhase::Move { file: SqliteFile::Shm, .. } ==> v.next(
            RecoveryOutcome::Renamed,
        ).phase is Reopen,
        v.phase is Reopen ==> {
            let refused = v.next(RecoveryOutcome::NotOpened(chain));
            &&& v.action() == Some(RecoveryActionView::OpenLogs)
            &&& v.next(RecoveryOutcome::Opened).phase is Opened
            &&& refused.phase is GivenUp
            &&& refused.failure == Some(
                in_context(
                    cause_messages(chain@),
                    "failed to recreate logs db at "@ + displayed(v.path),
                ),
            )
        },
{
}

// ---------------------------------------------------------------------------------------------
// Which errors start a quarantine
// ---------------------------------------------------------------------------------------------

/// Whether one of the two messages with which SQLite reports a corrupt file stands in a text, in
/// whatever letter case.
pub open spec fn names_corruption(message: Seq<char>) -> bool {
    has_text(lowered(message), "file is not a database"@) || has_text(
        lowered(message),
        "database disk image is malformed"@,
    )
}

/// An error of the database whose message names no corruption is one of a corrupt file only if its
/// code is that of a malformed image, 11, or of a file that is no database, 26, in the low byte of
/// a number of 32 bits; the other bytes tell more of the same error.
pub proof fn only_two_codes_tell_of_corruption(e: DatabaseError, n: nat)
    requires
        !names_corruption(e.message@),
        e.code matches Some(code) && (code@ == decimal(n) || code@ == seq!['+'] + decimal(n)),
    ensures
        recoverable_database_error(e) <==> n <= 0x7fff_ffff && (n % 256 == 11 || n % 256 == 26),
        n < 256 ==> (recoverable_database_error(e) <==> n == 11 || n == 26),
{
    numerals_are_read_back(n);
}

/// Of a negative code the low byte is that of its two's complement.
pub proof fn negative_codes_have_a_low_byte(e: DatabaseError, n: nat)
    requires
        !names_corruption(e.message@),
        e.code matches Some(code) && code@ == seq!['-'] + decimal(n),
    ensures
        recoverable_database_error(e) <==> n <= 0x8000_0000 && ((n + 11) % 256 == 0 || (n + 26)
            % 256 == 0),
{
    numerals_are_read_back(n);
}

/// An error without a code, or with one that is no number, is one of a corrupt file only by its
/// message; and a message that names a corruption is enough, whatever the code is.
pub proof fn messages_tell_of_corruption_too(e: DatabaseError, k: int)
    ensures
        names_corruption(e.message@) ==> recoverable_database_error(e),
        !names_corruption(e.message@) && e.code is None ==> !recoverable_database_error(e),
        !names_corruption(e.message@) && (e.code matches Some(code) && (code@.len() == 0 || (0 < k
            < code@.len() && !('0' <= code@[k] <= '9')))) ==> !recoverable_database_error(e),
{
    if let Some(code) = e.code {
        other_texts_are_no_numbers(code@, k);
        if code@.len() == 0 {
            assert(code@ =~= Seq::<char>::empty());
        }
    }
}

/// Whether some level of an error is an error of the database that tells of a corrupt file.
pub open spec fn some_level_tells(chain: Seq<ErrorCause>) -> bool {
    exists|i: int|
        0 <= i < chain.len() && (#[trigger] chain[i].database matches Some(e)
            && recoverable_database_error(e))
}

/// An error that could not be opened with is a reason for a quarantine exactly when the database
/// reports, at whatever level, that the file is corrupt, or the outermost message names a
/// corruption; the messages at other levels are no reason. Any other error is passed on with all
/// its messages, and no file is looked at.
pub proof fn errors_start_a_quarantine_or_end_the_opening(
    v: RecoveryView,
    chain: Vec<ErrorCause>,
)
    requires
        v.phase is Open,
    ensures
        ({
            let w = v.next(RecoveryOutcome::NotOpened(chain));
            if some_level_tells(chain@) || (chain@.len() > 0 && names_corruption(
                chain@[0].message@,
            )) {
                &&& w.phase is Stamp
                &&& w.action() == Some(RecoveryActionView::ReadClock)
                &&& w.failure == v.failure
            } else {
                &&& w.phase is GivenUp
                &&& w.action() is None
                &&& w.moved == v.moved
                &&& w.failure matches Some(told)
                &&& told.len() == chain@.len()
                &&& forall|i: int| 0 <= i < told.len() ==> #[trigger] told[i] == chain@[i].message@
            }
        }),
{
    if some_level_tells(chain@) {
        let i = choose|i: int|
            0 <= i < chain@.len() && (#[trigger] chain@[i].database matches Some(e)
                && recoverable_database_error(e));
        assert(recoverable_cause(chain@[i]));
    } else {
        assert forall|i: int| 0 <= i < chain@.len() implies !recoverable_cause(
            #[trigger] chain@[i],
        ) by {
            if recoverable_cause(chain@[i]) {
                assert(chain@[i].database is Some);
            }
        }
    }
}

/// A database whose only error is one with the code of a number below 256, and whose messages name
/// no corruption, is given up without a rename unless that number is 11 or 26.
pub proof fn other_codes_end_the_opening(v: RecoveryView, chain: Vec<ErrorCause>, n: nat)
    requires
        v.phase is Open,
        n < 256,
        chain@.len() == 1,
        !names_corruption(chain@[0].message@),
        chain@[0].database matches Some(e) && !names_corruption(e.message@) && (
        e.code matches Some(code) && code@ == decimal(n)),
    ensures
        n == 11 || n == 26 ==> v.next(RecoveryOutcome::NotOpened(chain)).phase is Stamp,
        n != 11 && n != 26 ==> v.next(RecoveryOutcome::NotOpened(chain)).phase is GivenUp && v.next(
            RecoveryOutcome::NotOpened(chain),
        ).action() is None && v.next(RecoveryOutcome::NotOpened(chain)).moved == v.moved,
{
    errors_start_a_quarantine_or_end_the_opening(v, chain);
    match chain@[0].database {
        Some(e) => only_two_codes_tell_of_corruption(e, n),
        None => {},
    }
    if n == 11 || n == 26 {
        assert(chain@[0].database matches Some(e) && recoverable_database_error(e));
        assert(some_level_tells(chain@));
    }
}

// ---------------------------------------------------------------------------------------------
// How files are set aside
// ---------------------------------------------------------------------------------------------

/// The three files of a database are looked for one after the other: the database, the one whose
/// name goes on with `-wal`, and the one whose name goes on with `-shm`. One that is not there is
/// passed over; of one that is there the name is asked for.
pub proof fn three_files_are_looked_for(v: RecoveryView)
    ensures
        v.phase == RecoveryPhase::Look(SqliteFile::Main) ==> {
            &&& v.action() == Some(RecoveryActionView::Exists(v.path))
            &&& v.next(RecoveryOutcome::Flag(false)).action() == Some(
                RecoveryActionView::Exists(v.path + encode_utf8("-wal"@)),
            )
            &&& v.next(RecoveryOutcome::Flag(true)).action() == Some(
                RecoveryActionView::FileName(v.path),
            )
        },
        v.phase == RecoveryPhase::Look(SqliteFile::Wal) ==> {
            &&& v.action() == Some(RecoveryActionView::Exists(v.path + encode_utf8("-wal"@)))
            &&& v.next(RecoveryOutcome::Flag(false)).action() == Some(
                RecoveryActionView::Exists(v.path + encode_utf8("-shm"@)),
            )
            &&& v.next(RecoveryOutcome::Flag(true)).action() == Some(
                RecoveryActionView::FileName(v.path + encode_utf8("-wal"@)),
            )
        },
        v.phase == RecoveryPhase::Look(SqliteFile::Shm) ==> {
            &&& v.action() == Some(RecoveryActionView::Exists(v.path + encode_utf8("-shm"@)))
            &&& v.next(RecoveryOutcome::Flag(false)).action() == Some(RecoveryActionView::OpenLogs)
            &&& v.next(RecoveryOutcome::Flag(true)).action() == Some(
                RecoveryActionView::FileName(v.path + encode_utf8("-shm"@)),
            )
        },
{
}

/// A file is set aside under its own name with the mark of a corrupt file and the moment behind
/// it; while that is taken, a dot and the numbers from one on are tried in turn.
pub proof fn free_names_are_tried_in_turn(
    v: RecoveryView,
    file: SqliteFile,
    name: OsText,
    sequence: u64,
)
    requires
        sequence < u64::MAX,
    ensures
        v.phase == RecoveryPhase::AskName(file) ==> v.next(
            RecoveryOutcome::Name(Some(name)),
        ).action() == Some(
            RecoveryActionView::ExistsBeside { path: v.file(file), name: name@ + v.suffix },
        ),
        v.phase == (RecoveryPhase::TryName { file, sequence }) ==> {
            let tried = if sequence == 0 {
                v.name + v.suffix
            } else {
                v.name + v.suffix + encode_utf8("."@ + decimal(sequence as nat))
            };
            let taken = v.next(RecoveryOutcome::Flag(true));
            let free = v.next(RecoveryOutcome::Flag(false));
            &&& v.action() == Some(
                RecoveryActionView::ExistsBeside { path: v.file(file), name: tried },
            )
            &&& taken.action() == Some(
                RecoveryActionView::ExistsBeside {
                    path: v.file(file),
                    name: v.name + v.suffix + encode_utf8("."@ + decimal((sequence + 1) as nat)),
                },
            )
            &&& free.action() == Some(
                RecoveryActionView::RenameBeside { path: v.file(file), name: tried },
            )
            &&& free.next(RecoveryOutcome::Renamed).moved == v.moved.push(
                MovedView { path: v.file(file), name: tried },
            )
        },
{
}

/// The mark behind the names is made of the moment that the clock told, and does not change while
/// the files are set aside. A moment without a stamp is no answer.
pub proof fn names_carry_the_moment(v: RecoveryView, epoch_seconds: i64, outcome: RecoveryOutcome)
    ensures
        v.phase is Stamp ==> match utc_stamp_text(epoch_seconds) {
            Some(stamp) => {
                let w = v.next(RecoveryOutcome::Clock(epoch_seconds));
                &&& w.suffix == encode_utf8(".corrupt-"@ + stamp)
                &&& w.action() == Some(RecoveryActionView::Exists(v.path))
            },
            None => v.next(RecoveryOutcome::Clock(epoch_seconds)) == v,
        },
        !(v.phase is Stamp) ==> v.next(outcome).suffix == v.suffix,
        v.next(outcome).path == v.path,
{
}

/// After each file that was set aside comes the next one, and after the last the database is
/// opened once more.
pub proof fn files_are_set_aside_in_order(v: RecoveryView, sequence: u64)
    ensures
        v.phase == (RecoveryPhase::Move { file: SqliteFile::Main, sequence }) ==> v.next(
            RecoveryOutcome::Renamed,
        ).action() == Some(RecoveryActionView::Exists(v.path + encode_utf8("-wal"@))),
        v.phase == (RecoveryPhase::Move { file: SqliteFile::Wal, sequence }) ==> v.next(
            RecoveryOutcome::Renamed,
        ).action() == Some(RecoveryActionView::Exists(v.path + encode_utf8("-shm"@))),
        v.phase == (RecoveryPhase::Move { file: SqliteFile::Shm, sequence }) ==> v.next(
            RecoveryOutcome::Renamed,
        ).action() == Some(RecoveryActionView::OpenLogs),
{
}

/// An error of the file system while files are set aside ends the opening, with the error and the
/// path of the database; so does a file without a name. Nothing more is done then.
pub proof fn errors_of_the_file_system_end_the_opening(v: RecoveryView, failure: Failure)
    ensures
        v.phase is Look || v.phase is TryName || v.phase is Move ==> {
            let w = v.next(RecoveryOutcome::Failed(failure));
            &&& w.phase is GivenUp
            &&& w.action() is None
            &&& w.moved == v.moved
            &&& w.failure == Some(
                seq!["failed to quarantine logs db at "@ + displayed(v.path)] + failure@,
            )
        },
        v.phase matches RecoveryPhase::AskName(file) ==> {
            let w = v.next(RecoveryOutcome::Name(None));
            &&& w.phase is GivenUp
            &&& w.action() is None
            &&& w.failure == Some(
                seq![
                    "failed to quarantine logs db at "@ + displayed(v.path),
                    "cannot create a quarantine name for "@ + displayed(v.file(file)),
                ],
            )
        },
{
    if let RecoveryPhase::AskName(file) = v.phase {
        let outer = "failed to quarantine logs db at "@ + displayed(v.path);
        let inner = "cannot create a quarantine name for "@ + displayed(v.file(file));
        assert(seq![outer] + seq![inner] =~= seq![outer, inner]);
    }
}

/// An opening begins with the database itself, and one that opens is over.
pub proof fn openings_begin_with_the_database(path: Seq<u8>, v: RecoveryView)
    ensures
        RecoveryView::start(path).phase is Open,
        RecoveryView::start(path).path == path,
        RecoveryView::start(path).moved.len() == 0,
        RecoveryView::start(path).failure is None,
        RecoveryView::start(path).action() == Some(RecoveryActionView::OpenLogs),
        v.phase is Open || v.phase is Reopen ==> v.next(RecoveryOutcome::Opened).phase is Opened
            && v.next(RecoveryOutcome::Opened).action() is None && v.next(
            RecoveryOutcome::Opened,
        ).failure == v.failure && v.next(RecoveryOutcome::Opened).moved == v.moved,
{
}

/// Whether an outcome is an answer to an action. The name of a file is told from its path alone, so
/// that this cannot fail, and neither can the clock.
pub open spec fn answers(action: Option<RecoveryActionView>, outcome: RecoveryOutcome) -> bool {
    match action {
        Some(RecoveryActionView::OpenLogs) => outcome is Opened || outcome is NotOpened,
        Some(RecoveryActionView::ReadClock) => outcome is Clock,
        Some(RecoveryActionView::Exists(_)) => outcome is Flag || outcome is Failed,
        Some(RecoveryActionView::FileName(_)) => outcome is Name,
        Some(RecoveryActionView::ExistsBeside { .. }) => outcome is Flag || outcome is Failed,
        Some(RecoveryActionView::RenameBeside { .. }) => outcome is Renamed || outcome is Failed,
        None => false,
    }
}

/// An outcome that does not answer the pending action changes nothing.
pub proof fn opening_hears_only_answers(v: RecoveryView, outcome: RecoveryOutcome)
    requires
        !answers(v.action(), outcome),
    ensures
        v.next(outcome) == v,
{
}

/// Whether an error reports that the database is corrupt, at a level of the database or in its
/// outermost message.
pub open spec fn reports_corruption(chain: Seq<ErrorCause>) -> bool {
    some_level_tells(chain) || (chain.len() > 0 && names_corruption(chain[0].message@))
}

/// Whether the database was reported as corrupt in a run from `v` on whose actions ended with
/// `outcomes`.
pub open spec fn corruption_reported(v: RecoveryView, outcomes: Seq<RecoveryOutcome>) -> bool
    decreases outcomes.len(),
{
    outcomes.len() > 0 && ({
        ||| v.action() == Some(RecoveryActionView::OpenLogs) && (
        outcomes.first() matches RecoveryOutcome::NotOpened(chain) && reports_corruption(chain@))
        ||| corruption_reported(v.next(outcomes.first()), outcomes.drop_first())
    })
}

proof fn lemma_unreported(v: RecoveryView, outcomes: Seq<RecoveryOutcome>)
    requires
        v.phase is Open || v.phase is Opened || v.phase is GivenUp,
        !corruption_reported(v, outcomes),
    ensures
        opening_after(v, outcomes).phase is Open || opening_after(v, outcomes).phase is Opened
            || opening_after(v, outcomes).phase is GivenUp,
        opening_after(v, outcomes).moved == v.moved,
    decreases outcomes.len(),
{
    if outcomes.len() > 0 {
        let o = outcomes.first();
        if let RecoveryOutcome::NotOpened(chain) = o {
            if v.phase is Open {
                errors_start_a_quarantine_or_end_the_opening(v, chain);
            }
        }
        lemma_unreported(v.next(o), outcomes.drop_first());
    }
}

/// Over a whole opening, whatever its actions end with: unless the database was reported as corrupt,
/// no file of it is looked for, moved or to be moved.
pub proof fn sound_databases_are_left_alone(path: Seq<u8>, outcomes: Seq<RecoveryOutcome>)
    requires
        !corruption_reported(RecoveryView::start(path), outcomes),
    ensures
        opening_after(RecoveryView::start(path), outcomes).moved.len() == 0,
        ({
            let action = opening_after(RecoveryView::start(path), outcomes).action();
            action is None || action == Some(RecoveryActionView::OpenLogs)
        }),
{
    lemma_unreported(RecoveryView::start(path), outcomes);
}

} // verus!
