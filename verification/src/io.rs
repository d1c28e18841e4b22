//! What a procedure asks its surroundings to do, and what the surroundings answer.
//!
//! The procedures of this crate do no input or output of their own. Each is a value with a
//! pending operation; its driver performs the operation and hands the outcome back.

use crate::command::{option_view, CommandLine, CommandView};
use crate::failure::Failure;
use crate::os_text::OsText;
use vstd::prelude::*;

verus! {

/// An operation on the file system, or a command to run.
#[derive(Debug, PartialEq, Eq)]
pub enum Operation {
    /// Create a directory and its missing parents. Answered by `Done`.
    CreateDirAll(OsText),
    /// Create a file that must not exist yet, with the given text in it. Answered by `Done`.
    CreateNew { path: OsText, text: String },
    /// Read a file. Answered by `Bytes`.
    ReadFile(OsText),
    /// Find out how long ago a file was changed. Answered by `Age`.
    FileAge(OsText),
    /// Find out whether a path leads to a regular file, and its permissions. Answered by `File`.
    InspectFile(OsText),
    /// Find out what stands at a path, without following a link. Answered by `Link`.
    InspectLink(OsText),
    /// Find out whether a path leads to something. Answered by `Flag`.
    Exists(OsText),
    /// Find out whether a path leads to a directory. Answered by `Flag`.
    IsDir(OsText),
    /// Open a directory, so that its entries can be read one by one. Answered by `Done`.
    OpenDir(OsText),
    /// Read the next entry of the directory that was opened last. Answered by `Entry`.
    NextEntry(OsText),
    /// List the entries of a directory that can be read. Answered by `Entries`.
    ListReadable(OsText),
    /// Give a file or directory another path. Answered by `Done`.
    Rename { from: OsText, to: OsText },
    /// Create a symbolic link. Answered by `Done`.
    Symlink { target: OsText, link: OsText },
    /// Remove a file or a link. Answered by `Done`.
    RemoveFile(OsText),
    /// Remove a directory and all that it holds. Answered by `Done`.
    RemoveDirAll(OsText),
    /// Try out the package in a directory. Answered by `Done`.
    SmokeTest(OsText),
    /// Run a command and wait for it. Answered by `Exit`.
    Run(CommandLine),
    /// Run a command, keep what it writes to its standard output, and wait for it. Answered by
    /// `Exit`.
    Capture(CommandLine),
    /// Look up the directories that the environment names, and the time. Answered by
    /// `Environment`.
    LookUpEnvironment,
    /// Look for the bubblewrap that the system provides. Answered by `Path`.
    FindBwrap,
    /// Find out which program is running. Answered by `Path`.
    CurrentExe,
}

/// An operation, as a value of mathematics.
pub enum OperationView {
    CreateDirAll(Seq<u8>),
    CreateNew { path: Seq<u8>, text: Seq<char> },
    ReadFile(Seq<u8>),
    FileAge(Seq<u8>),
    InspectFile(Seq<u8>),
    InspectLink(Seq<u8>),
    Exists(Seq<u8>),
    IsDir(Seq<u8>),
    OpenDir(Seq<u8>),
    NextEntry(Seq<u8>),
    ListReadable(Seq<u8>),
    Rename { from: Seq<u8>, to: Seq<u8> },
    Symlink { target: Seq<u8>, link: Seq<u8> },
    RemoveFile(Seq<u8>),
    RemoveDirAll(Seq<u8>),
    SmokeTest(Seq<u8>),
    Run(CommandView),
    Capture(CommandView),
    LookUpEnvironment,
    FindBwrap,
    CurrentExe,
}

impl View for Operation {
    type V = OperationView;

    open spec fn view(&self) -> OperationView {
        match self {
            Operation::CreateDirAll(p) => OperationView::CreateDirAll(p@),
            Operation::CreateNew { path, text } => OperationView::CreateNew {
                path: path@,
                text: text@,
            },
            Operation::ReadFile(p) => OperationView::ReadFile(p@),
            Operation::FileAge(p) => OperationView::FileAge(p@),
            Operation::InspectFile(p) => OperationView::InspectFile(p@),
            Operation::InspectLink(p) => OperationView::InspectLink(p@),
            Operation::Exists(p) => OperationView::Exists(p@),
            Operation::IsDir(p) => OperationView::IsDir(p@),
            Operation::OpenDir(p) => OperationView::OpenDir(p@),
            Operation::NextEntry(p) => OperationView::NextEntry(p@),
            Operation::ListReadable(p) => OperationView::ListReadable(p@),
            Operation::Rename { from, to } => OperationView::Rename { from: from@, to: to@ },
            Operation::Symlink { target, link } => OperationView::Symlink {
                target: target@,
                link: link@,
            },
            Operation::RemoveFile(p) => OperationView::RemoveFile(p@),
            Operation::RemoveDirAll(p) => OperationView::RemoveDirAll(p@),
            Operation::SmokeTest(p) => OperationView::SmokeTest(p@),
            Operation::Run(c) => OperationView::Run(c@),
            Operation::Capture(c) => OperationView::Capture(c@),
            Operation::LookUpEnvironment => OperationView::LookUpEnvironment,
            Operation::FindBwrap => OperationView::FindBwrap,
            Operation::CurrentExe => OperationView::CurrentExe,
        }
    }
}

/// The view of an optional operation.
pub open spec fn operation_view(op: Option<Operation>) -> Option<OperationView> {
    match op {
        Some(op) => Some(op@),
        None => None,
    }
}

/// What kind of error the surroundings report.
#[derive(Debug, Clone, Copy, PartialEq, Eq)]
pub enum ErrorKind {
    NotFound,
    AlreadyExists,
    Other,
}

/// What stands at a path.
#[derive(Debug, PartialEq, Eq)]
pub enum LinkState {
    /// Nothing.
    Absent,
    /// A symbolic link with this target.
    Link(OsText),
    /// Something else.
    Other,
}

/// What stands at a path, as a value of mathematics.
pub enum LinkStateView {
    Absent,
    Link(Seq<u8>),
    Other,
}

impl View for LinkState {
    type V = LinkStateView;

    open spec fn view(&self) -> LinkStateView {
        match self {
            LinkState::Absent => LinkStateView::Absent,
            LinkState::Link(t) => LinkStateView::Link(t@),
            LinkState::Other => LinkStateView::Other,
        }
    }
}

/// An entry of a directory.
#[derive(Debug, PartialEq, Eq)]
pub struct DirEntry {
    pub name: OsText,
    /// Whether the entry itself is a directory; false for a link to one, and where that could
    /// not be found out.
    pub is_dir: bool,
}

/// An entry of a directory, as a value of mathematics.
pub struct DirEntryView {
    pub name: Seq<u8>,
    pub is_dir: bool,
}

impl View for DirEntry {
    type V = DirEntryView;

    open spec fn view(&self) -> DirEntryView {
        DirEntryView { name: self.name@, is_dir: self.is_dir }
    }
}

/// The views of some entries.
pub open spec fn entry_views(entries: Seq<DirEntry>) -> Seq<DirEntryView> {
    entries.map_values(|e: DirEntry| e@)
}

/// The view of an optional entry.
pub open spec fn entry_view(entry: Option<DirEntry>) -> Option<DirEntryView> {
    match entry {
        Some(entry) => Some(entry@),
        None => None,
    }
}

/// The answer to an operation.
#[derive(Debug, PartialEq, Eq)]
pub enum Outcome {
    /// It was done.
    Done,
    /// It failed.
    Failed { kind: ErrorKind, failure: Failure },
    /// The contents of a file.
    Bytes(Vec<u8>),
    /// For how many whole seconds a file has not changed, where that could be found out.
    Age(Option<u64>),
    /// Whether a path leads to a regular file, and its permission bits.
    File { is_file: bool, mode: u32 },
    /// What stands at a path.
    Link(LinkState),
    /// Yes or no.
    Flag(bool),
    /// The entries of a directory.
    Entries(Vec<DirEntry>),
    /// An entry of a directory, where there is a further one.
    Entry(Option<DirEntry>),
    /// A command came to its end: whether with success, how its end is described, and what it
    /// wrote to its standard output where that was asked for.
    Exit { success: bool, status: String, stdout: Vec<u8> },
    /// The Codex home directory, the home directory of the user and the directory for commands
    /// where the environment names them, and the time in nanoseconds since the beginning of 1970.
    Environment {
        codex_home: OsText,
        home: Option<OsText>,
        install_dir: Option<OsText>,
        timestamp: u128,
    },
    /// A path, where there is one.
    Path(Option<OsText>),
}

/// The answer to an operation, as a value of mathematics.
pub enum OutcomeView {
    Done,
    Failed { kind: ErrorKind, failure: Seq<Seq<char>> },
    Bytes(Seq<u8>),
    Age(Option<u64>),
    File { is_file: bool, mode: u32 },
    Link(LinkStateView),
    Flag(bool),
    Entries(Seq<DirEntryView>),
    Entry(Option<DirEntryView>),
    Exit { success: bool, status: Seq<char>, stdout: Seq<u8> },
    Environment {
        codex_home: Seq<u8>,
        home: Option<Seq<u8>>,
        install_dir: Option<Seq<u8>>,
        timestamp: u128,
    },
    Path(Option<Seq<u8>>),
}

impl View for Outcome {
    type V = OutcomeView;

    open spec fn view(&self) -> OutcomeView {
        match self {
            Outcome::Done => OutcomeView::Done,
            Outcome::Failed { kind, failure } => OutcomeView::Failed {
                kind: *kind,
                failure: failure@,
            },
            Outcome::Bytes(b) => OutcomeView::Bytes(b@),
            Outcome::Age(a) => OutcomeView::Age(*a),
            Outcome::File { is_file, mode } => OutcomeView::File {
                is_file: *is_file,
                mode: *mode,
            },
            Outcome::Link(l) => OutcomeView::Link(l@),
            Outcome::Flag(b) => OutcomeView::Flag(*b),
            Outcome::Entries(e) => OutcomeView::Entries(entry_views(e@)),
            Outcome::Entry(e) => OutcomeView::Entry(entry_view(*e)),
            Outcome::Exit { success, status, stdout } => OutcomeView::Exit {
                success: *success,
                status: status@,
                stdout: stdout@,
            },
            Outcome::Environment { codex_home, home, install_dir, timestamp } => {
                OutcomeView::Environment {
                    codex_home: codex_home@,
                    home: option_view(*home),
                    install_dir: option_view(*install_dir),
                    timestamp: *timestamp,
                }
            },
            Outcome::Path(p) => OutcomeView::Path(option_view(*p)),
        }
    }
}

/// The view of an optional failure.
pub open spec fn failure_view(f: Option<Failure>) -> Option<Seq<Seq<char>>> {
    match f {
        Some(f) => Some(f@),
        None => None,
    }
}

/// Whether an outcome is an answer to an operation; that it failed is one to every operation.
pub open spec fn answers(op: Option<OperationView>, outcome: OutcomeView) -> bool {
    match op {
        None => false,
        Some(op) => outcome is Failed || match op {
            OperationView::ReadFile(_) => outcome is Bytes,
            OperationView::FileAge(_) => outcome is Age,
            OperationView::InspectFile(_) => outcome is File,
            OperationView::InspectLink(_) => outcome is Link,
            OperationView::Exists(_) => outcome is Flag,
            OperationView::IsDir(_) => outcome is Flag,
            OperationView::NextEntry(_) => outcome is Entry,
            OperationView::ListReadable(_) => outcome is Entries,
            OperationView::Run(_) => outcome is Exit,
            OperationView::Capture(_) => outcome is Exit,
            OperationView::LookUpEnvironment => outcome is Environment,
            OperationView::FindBwrap => outcome is Path,
            OperationView::CurrentExe => outcome is Path,
            _ => outcome is Done,
        },
    }
}

} // verus!
