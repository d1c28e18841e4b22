//! The directory in which a package is built before it is installed: clearing away what earlier
//! builds left, and discarding what a failed one leaves.

use crate::failure::Failure;
use crate::io::{
    answers, entry_view, operation_view, DirEntry, DirEntryView, Operation, OperationView, Outcome,
    OutcomeView,
};
use crate::layout::{layout_of, LayoutView, SourceInstallLayout};
use crate::os_text::{displayed, lemma_displayed_utf8, OsText};
use crate::path::{join, joined};
use crate::text::str_starts_with;
use vstd::prelude::*;
use vstd::utf8::*;

verus! {

// ---------------------------------------------------------------------------------------------
// Leftovers
// ---------------------------------------------------------------------------------------------

/// Whether an entry of the directory of the source installation was made for a build.
pub open spec fn is_staging_name(name: Seq<u8>) -> bool {
    ".staging-"@.is_prefix_of(displayed(name))
}

/// Whether an entry of the directory of the source installation was made for a build.
pub fn is_leftover(name: &OsText) -> (r: bool)
    ensures
        r == is_staging_name(name@),
{
    let shown = name.display();
    str_starts_with(shown.as_str(), ".staging-")
}

// ---------------------------------------------------------------------------------------------
// Before a build
// ---------------------------------------------------------------------------------------------

/// How far the preparation for a build has come.
#[derive(Debug, PartialEq, Eq)]
pub enum StagingPhase {
    /// The directory of the releases is created.
    MakeReleases,
    /// The directory of the source installation is opened.
    Open,
    /// The next entry of that directory is read.
    Next,
    /// It is found out whether a leftover is a directory.
    Look(OsText),
    /// A leftover is removed.
    Remove { path: OsText, is_dir: bool },
    Ready,
    Failed(Failure),
}

/// How far the preparation for a build has come, as a value of mathematics.
#[verifier::ext_equal]
pub enum StagingPhaseView {
    MakeReleases,
    Open,
    Next,
    Look(Seq<u8>),
    Remove { path: Seq<u8>, is_dir: bool },
    Ready,
    Failed(Seq<Seq<char>>),
}

impl View for StagingPhase {
    type V = StagingPhaseView;

    open spec fn view(&self) -> StagingPhaseView {
        match self {
            StagingPhase::MakeReleases => StagingPhaseView::MakeReleases,
            StagingPhase::Open => StagingPhaseView::Open,
            StagingPhase::Next => StagingPhaseView::Next,
            StagingPhase::Look(path) => StagingPhaseView::Look(path@),
            StagingPhase::Remove { path, is_dir } => StagingPhaseView::Remove {
                path: path@,
                is_dir: *is_dir,
            },
            StagingPhase::Ready => StagingPhaseView::Ready,
            StagingPhase::Failed(f) => StagingPhaseView::Failed(f@),
        }
    }
}

/// The preparation for a build: whatever earlier builds left is removed, each leftover before the
/// next entry is read.
#[derive(Debug, PartialEq, Eq)]
pub struct StagingPreparation {
    root: OsText,
    releases_dir: OsText,
    phase: StagingPhase,
}

/// The preparation for a build, as a value of mathematics.
#[verifier::ext_equal]
pub struct StagingView {
    pub root: Seq<u8>,
    pub releases_dir: Seq<u8>,
    pub phase: StagingPhaseView,
}

impl View for StagingPreparation {
    type V = StagingView;

    closed spec fn view(&self) -> StagingView {
        StagingView {
            root: self.root@,
            releases_dir: self.releases_dir@,
            phase: self.phase@,
        }
    }
}

/// The phase after an entry was read: a leftover is removed, and anything else stays.
pub open spec fn after_entry(root: Seq<u8>, entry: Option<DirEntryView>) -> StagingPhaseView {
    match entry {
        Some(entry) => if is_staging_name(entry.name) {
            StagingPhaseView::Look(joined(root, entry.name))
        } else {
            StagingPhaseView::Next
        },
        None => StagingPhaseView::Ready,
    }
}

impl StagingView {
    /// A preparation that has not begun.
    pub open spec fn start(layout: LayoutView) -> StagingView {
        StagingView {
            root: layout.source_root,
            releases_dir: layout.releases_dir,
            phase: StagingPhaseView::MakeReleases,
        }
    }

    /// The preparation in another phase.
    pub open spec fn to(self, phase: StagingPhaseView) -> StagingView {
        StagingView { phase, ..self }
    }

    /// What is to be done next; nothing once the preparation is over.
    pub open spec fn operation(self) -> Option<OperationView> {
        match self.phase {
            StagingPhaseView::MakeReleases => Some(OperationView::CreateDirAll(self.releases_dir)),
            StagingPhaseView::Open => Some(OperationView::OpenDir(self.root)),
            StagingPhaseView::Next => Some(OperationView::NextEntry(self.root)),
            StagingPhaseView::Look(path) => Some(OperationView::IsDir(path)),
            StagingPhaseView::Remove { path, is_dir } => if is_dir {
                Some(OperationView::RemoveDirAll(path))
            } else {
                Some(OperationView::RemoveFile(path))
            },
            _ => None,
        }
    }

    /// The preparation after its pending operation ended so. An outcome that does not answer that
    /// operation changes nothing.
    pub open spec fn next(self, outcome: OutcomeView) -> StagingView {
        match (self.phase, outcome) {
            (StagingPhaseView::MakeReleases, OutcomeView::Done) => self.to(StagingPhaseView::Open),
            (StagingPhaseView::MakeReleases, OutcomeView::Failed { failure, .. }) => self.to(
                StagingPhaseView::Failed(failure),
            ),
            (StagingPhaseView::Open, OutcomeView::Done) => self.to(StagingPhaseView::Next),
            (StagingPhaseView::Open, OutcomeView::Failed { failure, .. }) => self.to(
                StagingPhaseView::Failed(failure),
            ),
            (StagingPhaseView::Next, OutcomeView::Entry(entry)) => self.to(
                after_entry(self.root, entry),
            ),
            (StagingPhaseView::Next, OutcomeView::Failed { failure, .. }) => self.to(
                StagingPhaseView::Failed(failure),
            ),
            (StagingPhaseView::Look(path), OutcomeView::Flag(is_dir)) => self.to(
                StagingPhaseView::Remove { path, is_dir },
            ),
            (StagingPhaseView::Look(path), OutcomeView::Failed { .. }) => self.to(
                StagingPhaseView::Remove { path, is_dir: false },
            ),
            (StagingPhaseView::Remove { .. }, OutcomeView::Done) => self.to(StagingPhaseView::Next),
            (StagingPhaseView::Remove { .. }, OutcomeView::Failed { failure, .. }) => self.to(
                StagingPhaseView::Failed(failure),
            ),
            _ => self,
        }
    }
}

/// The preparation for a build of the release of a layout.
pub fn prepare_staging_dir(layout: &SourceInstallLayout) -> (r: StagingPreparation)
    ensures
        r@ == StagingView::start(layout@),
{
    StagingPreparation {
        root: layout.source_root().duplicate(),
        releases_dir: layout.releases_dir().duplicate(),
        phase: StagingPhase::MakeReleases,
    }
}

/// The phase after an entry was read.
fn settle_entry(root: &OsText, entry: Option<DirEntry>) -> (r: StagingPhase)
    ensures
        r@ == after_entry(root@, entry_view(entry)),
{
    match entry {
        Some(entry) => if is_leftover(&entry.name) {
            StagingPhase::Look(join(root, entry.name.as_bytes()))
        } else {
            StagingPhase::Next
        },
        None => StagingPhase::Ready,
    }
}

impl StagingPreparation {
    /// How far the preparation has come.
    pub fn phase(&self) -> (r: &StagingPhase)
        ensures
            r@ == self@.phase,
    {
        &self.phase
    }

    /// What is to be done next; nothing once the preparation is over.
    pub fn operation(&self) -> (r: Option<Operation>)
        ensures
            operation_view(r) == self@.operation(),
    {
        match &self.phase {
            StagingPhase::MakeReleases => Some(
                Operation::CreateDirAll(self.releases_dir.duplicate()),
            ),
            StagingPhase::Open => Some(Operation::OpenDir(self.root.duplicate())),
            StagingPhase::Next => Some(Operation::NextEntry(self.root.duplicate())),
            StagingPhase::Look(path) => Some(Operation::IsDir(path.duplicate())),
            StagingPhase::Remove { path, is_dir } => if *is_dir {
                Some(Operation::RemoveDirAll(path.duplicate()))
            } else {
                Some(Operation::RemoveFile(path.duplicate()))
            },
            _ => None,
        }
    }

    /// Takes in how the pending operation ended.
    pub fn advance(&mut self, outcome: Outcome)
        ensures
            final(self)@ == old(self)@.next(outcome@),
    {
        let mut phase = StagingPhase::Ready;
        std::mem::swap(&mut phase, &mut self.phase);
        match (phase, outcome) {
            (StagingPhase::MakeReleases, Outcome::Done) => {
                self.phase = StagingPhase::Open;
            },
            (StagingPhase::MakeReleases, Outcome::Failed { failure, .. }) => {
                self.phase = StagingPhase::Failed(failure);
            },
            (StagingPhase::Open, Outcome::Done) => {
                self.phase = StagingPhase::Next;
            },
            (StagingPhase::Open, Outcome::Failed { failure, .. }) => {
                self.phase = StagingPhase::Failed(failure);
            },
            (StagingPhase::Next, Outcome::Entry(entry)) => {
                self.phase = settle_entry(&self.root, entry);
            },
            (StagingPhase::Next, Outcome::Failed { failure, .. }) => {
                self.phase = StagingPhase::Failed(failure);
            },
            (StagingPhase::Look(path), Outcome::Flag(is_dir)) => {
                self.phase = StagingPhase::Remove { path, is_dir };
            },
            (StagingPhase::Look(path), Outcome::Failed { .. }) => {
                self.phase = StagingPhase::Remove { path, is_dir: false };
            },
            (StagingPhase::Remove { .. }, Outcome::Done) => {
                self.phase = StagingPhase::Next;
            },
            (StagingPhase::Remove { .. }, Outcome::Failed { failure, .. }) => {
                self.phase = StagingPhase::Failed(failure);
            },
            (phase, _) => {
                self.phase = phase;
            },
        }
    }
}

// ---------------------------------------------------------------------------------------------
// After a failed build
// ---------------------------------------------------------------------------------------------

/// How far the removal of a staging directory has come.
#[derive(Debug, Clone, Copy, PartialEq, Eq)]
pub enum DiscardPhase {
    /// It is found out whether it is a directory.
    LookDir,
    /// It is removed as a directory.
    RemoveDir,
    /// It is no directory: it is found out whether anything is there.
    LookAny,
    /// It is removed as a file.
    RemoveFile,
    /// Whatever came of it, it is over.
    Over,
}

/// The removal of a staging directory after a failed build. Nothing is made of a failure.
#[derive(Debug, PartialEq, Eq)]
pub struct StagingDiscard {
    staging_dir: OsText,
    phase: DiscardPhase,
}

/// The removal of a staging directory, as a value of mathematics.
#[verifier::ext_equal]
pub struct DiscardView {
    pub staging_dir: Seq<u8>,
    pub phase: DiscardPhase,
}

impl View for StagingDiscard {
    type V = DiscardView;

    closed spec fn view(&self) -> DiscardView {
        DiscardView { staging_dir: self.staging_dir@, phase: self.phase }
    }
}

impl DiscardView {
    /// What is to be done next; nothing once the removal is over.
    pub open spec fn operation(self) -> Option<OperationView> {
        match self.phase {
            DiscardPhase::LookDir => Some(OperationView::IsDir(self.staging_dir)),
            DiscardPhase::RemoveDir => Some(OperationView::RemoveDirAll(self.staging_dir)),
            DiscardPhase::LookAny => Some(OperationView::Exists(self.staging_dir)),
            DiscardPhase::RemoveFile => Some(OperationView::RemoveFile(self.staging_dir)),
            DiscardPhase::Over => None,
        }
    }

    /// The removal after its pending operation ended so. An outcome that does not answer that
    /// operation changes nothing.
    pub open spec fn next(self, outcome: OutcomeView) -> DiscardView {
        let phase = match (self.phase, outcome) {
            (DiscardPhase::LookDir, OutcomeView::Flag(true)) => DiscardPhase::RemoveDir,
            (DiscardPhase::LookDir, OutcomeView::Flag(false)) => DiscardPhase::LookAny,
            (DiscardPhase::LookDir, OutcomeView::Failed { .. }) => DiscardPhase::LookAny,
            (DiscardPhase::RemoveDir, OutcomeView::Done) => DiscardPhase::Over,
            (DiscardPhase::RemoveDir, OutcomeView::Failed { .. }) => DiscardPhase::Over,
            (DiscardPhase::LookAny, OutcomeView::Flag(true)) => DiscardPhase::RemoveFile,
            (DiscardPhase::LookAny, OutcomeView::Flag(false)) => DiscardPhase::Over,
            (DiscardPhase::LookAny, OutcomeView::Failed { .. }) => DiscardPhase::Over,
            (DiscardPhase::RemoveFile, OutcomeView::Done) => DiscardPhase::Over,
            (DiscardPhase::RemoveFile, OutcomeView::Failed { .. }) => DiscardPhase::Over,
            _ => self.phase,
        };
        DiscardView { phase, ..self }
    }
}

/// The removal of the staging directory of a layout.
pub fn discard_staging_dir(layout: &SourceInstallLayout) -> (r: StagingDiscard)
    ensures
        r@ == (DiscardView { staging_dir: layout@.staging_dir, phase: DiscardPhase::LookDir }),
{
    StagingDiscard { staging_dir: layout.staging_dir().duplicate(), phase: DiscardPhase::LookDir }
}

impl StagingDiscard {
    /// How far the removal has come.
    pub fn phase(&self) -> (r: DiscardPhase)
        ensures
            r == self@.phase,
    {
        self.phase
    }

    /// What is to be done next; nothing once the removal is over.
    pub fn operation(&self) -> (r: Option<Operation>)
        ensures
            operation_view(r) == self@.operation(),
    {
        let path = self.staging_dir.duplicate();
        match self.phase {
            DiscardPhase::LookDir => Some(Operation::IsDir(path)),
            DiscardPhase::RemoveDir => Some(Operation::RemoveDirAll(path)),
            DiscardPhase::LookAny => Some(Operation::Exists(path)),
            DiscardPhase::RemoveFile => Some(Operation::RemoveFile(path)),
            DiscardPhase::Over => None,
        }
    }

    /// Takes in how the pending operation ended.
    pub fn advance(&mut self, outcome: Outcome)
        ensures
            final(self)@ == old(self)@.next(outcome@),
    {
        self.phase = match (self.phase, outcome) {
            (DiscardPhase::LookDir, Outcome::Flag(is_dir)) => if is_dir {
                DiscardPhase::RemoveDir
            } else {
                DiscardPhase::LookAny
            },
            (DiscardPhase::LookDir, Outcome::Failed { .. }) => DiscardPhase::LookAny,
            (DiscardPhase::RemoveDir, Outcome::Done | Outcome::Failed { .. }) => DiscardPhase::Over,
            (DiscardPhase::LookAny, Outcome::Flag(exists)) => if exists {
                DiscardPhase::RemoveFile
            } else {
                DiscardPhase::Over
            },
            (DiscardPhase::LookAny, Outcome::Failed { .. }) => DiscardPhase::Over,
            (DiscardPhase::RemoveFile, Outcome::Done | Outcome::Failed { .. }) => {
                DiscardPhase::Over
            },
            (phase, _) => phase,
        };
    }
}

// ---------------------------------------------------------------------------------------------
// What is cleared away
// ---------------------------------------------------------------------------------------------

/// The staging directory of a release is one of the entries that a preparation removes; the
/// releases, the link to the current one and the lock are not.
pub proof fn only_staging_directories_are_leftovers(
    source_root: Seq<u8>,
    bin_dir: Seq<u8>,
    release_name: Seq<char>,
)
    ensures
        ({
            let layout = layout_of(source_root, bin_dir, release_name);
            let entry = encode_utf8(".staging-"@ + release_name);
            &&& joined(source_root, entry) == layout.staging_dir
            &&& is_staging_name(entry)
            &&& !is_staging_name(encode_utf8("releases"@))
            &&& !is_staging_name(encode_utf8("current"@))
            &&& !is_staging_name(encode_utf8("update.lock"@))
        }),
{
    reveal_strlit(".staging-");
    reveal_strlit("releases");
    reveal_strlit("current");
    reveal_strlit("update.lock");
    lemma_displayed_utf8(".staging-"@ + release_name);
    lemma_displayed_utf8("releases"@);
    lemma_displayed_utf8("current"@);
    lemma_displayed_utf8("update.lock"@);
    let name = ".staging-"@ + release_name;
    assert(name.take(".staging-"@.len() as int) == ".staging-"@);
    assert(".staging-"@[0] == '.');
    assert("releases"@[0] == 'r');
    assert("current"@[0] == 'c');
    assert("update.lock"@[0] == 'u');
}

/// The paths that are there after an operation ended so.
pub open spec fn present_after(
    present: Set<Seq<u8>>,
    op: Option<OperationView>,
    outcome: OutcomeView,
) -> Set<Seq<u8>> {
    match (op, outcome) {
        (Some(OperationView::RemoveDirAll(path)), OutcomeView::Done) => present.remove(path),
        (Some(OperationView::RemoveFile(path)), OutcomeView::Done) => present.remove(path),
        _ => present,
    }
}

/// The names that have been read after an operation ended so.
pub open spec fn read_after(
    read: Seq<Seq<u8>>,
    op: Option<OperationView>,
    outcome: OutcomeView,
) -> Seq<Seq<u8>> {
    match (op, outcome) {
        (Some(OperationView::NextEntry(_)), OutcomeView::Entry(Some(entry))) => read.push(
            entry.name,
        ),
        _ => read,
    }
}

/// The preparation, the paths that are there and the names that have been read after the
/// operations from `v` on ended with `outcomes`.
pub open spec fn run_from(
    v: StagingView,
    present: Set<Seq<u8>>,
    read: Seq<Seq<u8>>,
    outcomes: Seq<OutcomeView>,
) -> (StagingView, Set<Seq<u8>>, Seq<Seq<u8>>)
    decreases outcomes.len(),
{
    if outcomes.len() == 0 {
        (v, present, read)
    } else {
        let o = outcomes.first();
        run_from(
            v.next(o),
            present_after(present, v.operation(), o),
            read_after(read, v.operation(), o),
            outcomes.drop_first(),
        )
    }
}

/// Whether a path is that of an entry of `root` that has been read and was made for a build.
pub open spec fn leftover(root: Seq<u8>, read: Seq<Seq<u8>>, path: Seq<u8>) -> bool {
    exists|k: int| #![trigger read[k]]
        0 <= k < read.len() && is_staging_name(read[k]) && path == joined(root, read[k])
}

/// The leftover that is about to be removed.
pub open spec fn pending(phase: StagingPhaseView) -> Option<Seq<u8>> {
    match phase {
        StagingPhaseView::Look(path) => Some(path),
        StagingPhaseView::Remove { path, .. } => Some(path),
        _ => None,
    }
}

/// What is known of the leftovers while a preparation is under way that began when the paths in
/// `before` were there: only leftovers are gone, and the ones that have been read are gone but for
/// the one that is about to be removed.
pub open spec fn cleared(
    v: StagingView,
    before: Set<Seq<u8>>,
    present: Set<Seq<u8>>,
    read: Seq<Seq<u8>>,
) -> bool {
    &&& pending(v.phase) matches Some(path) ==> leftover(v.root, read, path)
    &&& forall|p: Seq<u8>| #[trigger]
        before.contains(p) ==> present.contains(p) || leftover(v.root, read, p)
    &&& !(v.phase is Failed) ==> forall|p: Seq<u8>| #[trigger]
        leftover(v.root, read, p) ==> pending(v.phase) == Some(p) || !present.contains(p)
}

proof fn lemma_step_cleared(
    v: StagingView,
    before: Set<Seq<u8>>,
    present: Set<Seq<u8>>,
    read: Seq<Seq<u8>>,
    outcome: OutcomeView,
)
    requires
        cleared(v, before, present, read),
    ensures
        cleared(
            v.next(outcome),
            before,
            present_after(present, v.operation(), outcome),
            read_after(read, v.operation(), outcome),
        ),
        v.next(outcome).root == v.root,
{
    let w = v.next(outcome);
    let left = present_after(present, v.operation(), outcome);
    let more = read_after(read, v.operation(), outcome);
    assert forall|p: Seq<u8>| leftover(v.root, read, p) implies leftover(v.root, more, p) by {
        let k = choose|k: int| #![trigger read[k]]
            0 <= k < read.len() && is_staging_name(read[k]) && p == joined(v.root, read[k]);
        assert(more[k] == read[k]);
    }
    assert forall|p: Seq<u8>| #[trigger] leftover(v.root, more, p) implies leftover(
        v.root,
        read,
        p,
    ) || (w.phase == StagingPhaseView::Look(p)) by {
        let k = choose|k: int| #![trigger more[k]]
            0 <= k < more.len() && is_staging_name(more[k]) && p == joined(v.root, more[k]);
        if k < read.len() {
            assert(read[k] == more[k]);
        }
    }
    if more.len() > read.len() {
        assert(more[read.len() as int] == more.last());
    }
}

proof fn lemma_run_cleared(
    v: StagingView,
    before: Set<Seq<u8>>,
    present: Set<Seq<u8>>,
    read: Seq<Seq<u8>>,
    outcomes: Seq<OutcomeView>,
)
    requires
        cleared(v, before, present, read),
    ensures
        ({
            let (w, left, more) = run_from(v, present, read, outcomes);
            &&& cleared(w, before, left, more)
            &&& w.root == v.root
            &&& w.phase is Ready ==> v.phase is Ready || outcomes.contains(OutcomeView::Entry(None))
        }),
    decreases outcomes.len(),
{
    if outcomes.len() > 0 {
        let o = outcomes.first();
        let rest = outcomes.drop_first();
        lemma_step_cleared(v, before, present, read, o);
        lemma_run_cleared(
            v.next(o),
            before,
            present_after(present, v.operation(), o),
            read_after(read, v.operation(), o),
            rest,
        );
        assert(outcomes[0] == o);
        if rest.contains(OutcomeView::Entry(None)) {
            let k = choose|k: int| 0 <= k < rest.len() && rest[k] == OutcomeView::Entry(None);
            assert(outcomes[k + 1] == rest[k]);
        }
    }
}

/// Exactly the leftovers that the directory of the source installation shows are removed, each
/// before the next entry is read: at every moment the paths that are gone are leftovers that have
/// been read. Whenever the next entry is about to be read, and when the preparation is complete,
/// no leftover that has been read is there. The preparation is complete only when the directory
/// has no further entry; where an entry cannot be read, the leftovers before it are gone.
pub proof fn preparation_removes_the_leftovers(
    layout: LayoutView,
    present: Set<Seq<u8>>,
    outcomes: Seq<OutcomeView>,
)
    ensures
        ({
            let start = StagingView::start(layout);
            let (v, left, read) = run_from(start, present, Seq::empty(), outcomes);
            &&& forall|p: Seq<u8>| #[trigger]
                present.contains(p) ==> left.contains(p) || leftover(layout.source_root, read, p)
            &&& v.phase is Next || v.phase is Ready ==> forall|p: Seq<u8>| #[trigger]
                leftover(layout.source_root, read, p) ==> !left.contains(p)
            &&& v.phase is Ready ==> outcomes.contains(OutcomeView::Entry(None))
        }),
{
    lemma_run_cleared(StagingView::start(layout), present, present, Seq::empty(), outcomes);
}

/// A preparation always has something to do until it is over.
pub proof fn preparation_goes_on_until_over(v: StagingView)
    ensures
        v.operation() is None <==> v.phase is Ready || v.phase is Failed,
{
}

// ---------------------------------------------------------------------------------------------
// Steps
// ---------------------------------------------------------------------------------------------

/// What earlier builds left is whatever has a name that begins with `.staging-`; anything else is
/// passed over. A leftover is removed as a directory where it is one, and otherwise as a file.
pub proof fn leftovers_are_told_by_their_names(
    v: StagingView,
    entry: DirEntryView,
    is_dir: bool,
    unknown: OutcomeView,
)
    requires
        v.phase is Next,
        unknown is Failed,
    ensures
        v.operation() == Some(OperationView::NextEntry(v.root)),
        v.next(OutcomeView::Entry(None)).phase is Ready,
        ({
            let shown = displayed(entry.name);
            let path = joined(v.root, entry.name);
            let w = v.next(OutcomeView::Entry(Some(entry)));
            if shown.len() >= 9 && shown.take(9) == ".staging-"@ {
                &&& w.operation() == Some(OperationView::IsDir(path))
                &&& w.next(OutcomeView::Flag(true)).operation() == Some(
                    OperationView::RemoveDirAll(path),
                )
                &&& w.next(OutcomeView::Flag(false)).operation() == Some(
                    OperationView::RemoveFile(path),
                )
                &&& w.next(unknown).operation() == Some(OperationView::RemoveFile(path))
                &&& w.next(OutcomeView::Flag(is_dir)).next(OutcomeView::Done) == v
            } else {
                w == v
            }
        }),
{
    reveal_strlit(".staging-");
    let w = v.next(OutcomeView::Entry(Some(entry)));
    if ".staging-"@.is_prefix_of(displayed(entry.name)) {
        assert(displayed(entry.name).take(9) =~= ".staging-"@);
        assert(w.next(OutcomeView::Flag(is_dir)).next(OutcomeView::Done) =~= v);
    } else {
        assert(w =~= v);
    }
}

/// The preparation creates the directory of the releases, and with it that of the installation,
/// before it reads the latter. Whatever fails but the look at a leftover ends it, with the reason.
pub proof fn preparation_begins_with_the_directories(
    v: StagingView,
    layout: LayoutView,
    outcome: OutcomeView,
)
    ensures
        StagingView::start(layout).operation() == Some(
            OperationView::CreateDirAll(layout.releases_dir),
        ),
        StagingView::start(layout).root == layout.source_root,
        StagingView::start(layout).next(OutcomeView::Done).operation() == Some(
            OperationView::OpenDir(layout.source_root),
        ),
        StagingView::start(layout).next(OutcomeView::Done).next(OutcomeView::Done).operation()
            == Some(OperationView::NextEntry(layout.source_root)),
        v.phase is MakeReleases || v.phase is Open || v.phase is Next || v.phase is Remove ==> (
        outcome matches OutcomeView::Failed { failure, .. } ==> v.next(outcome).phase
            == StagingPhaseView::Failed(failure)),
        v.next(outcome).root == v.root,
        v.next(outcome).releases_dir == v.releases_dir,
        v.next(outcome).phase is Ready && !(v.phase is Ready) ==> outcome
            == OutcomeView::Entry(None),
{
}

/// The staging directory of a failed build is removed as a directory where it is one, as a file
/// where it is something else, and left alone where nothing is there; nothing else is touched, and
/// whatever comes of it, it is over.
pub proof fn discarding_removes_the_staging_directory(
    v: DiscardView,
    unknown: OutcomeView,
    end: OutcomeView,
)
    requires
        unknown is Failed,
        end is Done || end is Failed,
    ensures
        v.phase is LookDir ==> {
            &&& v.operation() == Some(OperationView::IsDir(v.staging_dir))
            &&& v.next(OutcomeView::Flag(true)).operation() == Some(
                OperationView::RemoveDirAll(v.staging_dir),
            )
            &&& v.next(OutcomeView::Flag(false)).operation() == Some(
                OperationView::Exists(v.staging_dir),
            )
            &&& v.next(unknown).operation() == Some(OperationView::Exists(v.staging_dir))
        },
        v.phase is LookAny ==> {
            &&& v.operation() == Some(OperationView::Exists(v.staging_dir))
            &&& v.next(OutcomeView::Flag(true)).operation() == Some(
                OperationView::RemoveFile(v.staging_dir),
            )
            &&& v.next(OutcomeView::Flag(false)).phase is Over
            &&& v.next(unknown).phase is Over
        },
        v.phase is RemoveDir || v.phase is RemoveFile ==> v.next(end).phase is Over,
        v.phase is Over ==> v.operation() is None && v.next(end) == v,
        v.next(end).staging_dir == v.staging_dir,
        v.next(unknown).staging_dir == v.staging_dir,
{
}

/// An outcome that does not answer the pending operation changes nothing.
pub proof fn preparation_hears_only_answers(v: StagingView, outcome: OutcomeView)
    requires
        !answers(v.operation(), outcome),
    ensures
        v.next(outcome) == v,
{
}

/// An outcome that does not answer the pending operation of a removal changes nothing.
pub proof fn removal_hears_only_answers(v: DiscardView, outcome: OutcomeView)
    requires
        !answers(v.operation(), outcome),
    ensures
        v.next(outcome) == v,
{
}

} // verus!
