//! Installing a staged source package: it is checked and tried out, takes its place among the
//! releases, becomes the current one, and is taken back where it does not work there.

use crate::command::option_view;
use crate::disk::target_of;
use crate::failure::{detail_of, in_context, Failure};
use crate::io::{
    failure_view, operation_view, DirEntryView, ErrorKind, LinkState, LinkStateView,
    Operation, OperationView, Outcome, OutcomeView,
};
use crate::layout::{LayoutView, SourceInstallLayout};
use crate::os_text::{displayed, views, OsText};
use crate::package::{
    validate_source_package, CheckPhase, CheckPhaseView, PackageCheck, PackageCheckView,
};
use crate::path::{parent, parent_of, paths_from, same_path, same_place};
use crate::retention::{doomed_names, paths_in, releases_to_prune};
use crate::symlink::{
    replace_symlink, LinkPhase, LinkPhaseView, LinkReplacement, LinkReplacementView,
};
use crate::text::{concat2, string_views};
use vstd::prelude::*;

verus! {

// ---------------------------------------------------------------------------------------------
// Phases
// ---------------------------------------------------------------------------------------------

/// How far an installation has come.
#[derive(Debug, PartialEq, Eq)]
pub enum InstallPhase {
    /// The staged package is checked.
    Validate(PackageCheck),
    /// The staged package is tried out.
    TestStaged,
    /// It is found out whether the command that users run can be managed.
    InspectVisible,
    /// The directory of the releases is created.
    MakeReleases,
    /// It is found out whether the release exists already.
    ReleaseExists,
    /// The staged package becomes a release.
    Promote,
    /// The release that is current is remembered.
    ReadCurrent,
    /// The new release becomes the current one.
    Switch(LinkReplacement),
    /// The new release is tried out.
    TestInstalled,
    /// The directory of the command that users run is created.
    MakeBin,
    /// It is found out what stands in the place of that command.
    InspectBin,
    /// The command that users run is linked to the current release.
    LinkBin(LinkReplacement),
    /// The releases are listed.
    ListReleases,
    /// Old releases are removed, those from the number on that is given.
    Prune { doomed: Vec<OsText>, from: usize },
    /// After the given failure, the earlier release becomes the current one again.
    Restore(LinkReplacement, Failure),
    /// After the given failure, the link to the current release is removed, as there was none.
    RemoveLink(Failure),
    /// After the given failure, the release is removed.
    RemoveRelease(Failure),
    /// The release is installed.
    Installed,
    /// The release did not work and was taken back.
    RolledBack(Failure),
    /// The release was not installed, or could not be taken back.
    Failed(Failure),
}

/// How far an installation has come, as a value of mathematics.
#[verifier::ext_equal]
pub enum InstallPhaseView {
    Validate(PackageCheckView),
    TestStaged,
    InspectVisible,
    MakeReleases,
    ReleaseExists,
    Promote,
    ReadCurrent,
    Switch(LinkReplacementView),
    TestInstalled,
    MakeBin,
    InspectBin,
    LinkBin(LinkReplacementView),
    ListReleases,
    /// Old releases that are still to be removed.
    Prune(Seq<Seq<u8>>),
    Restore(LinkReplacementView, Seq<Seq<char>>),
    RemoveLink(Seq<Seq<char>>),
    RemoveRelease(Seq<Seq<char>>),
    Installed,
    RolledBack(Seq<Seq<char>>),
    Failed(Seq<Seq<char>>),
}

impl View for InstallPhase {
    type V = InstallPhaseView;

    open spec fn view(&self) -> InstallPhaseView {
        match self {
            InstallPhase::Validate(c) => InstallPhaseView::Validate(c@),
            InstallPhase::TestStaged => InstallPhaseView::TestStaged,
            InstallPhase::InspectVisible => InstallPhaseView::InspectVisible,
            InstallPhase::MakeReleases => InstallPhaseView::MakeReleases,
            InstallPhase::ReleaseExists => InstallPhaseView::ReleaseExists,
            InstallPhase::Promote => InstallPhaseView::Promote,
            InstallPhase::ReadCurrent => InstallPhaseView::ReadCurrent,
            InstallPhase::Switch(l) => InstallPhaseView::Switch(l@),
            InstallPhase::TestInstalled => InstallPhaseView::TestInstalled,
            InstallPhase::MakeBin => InstallPhaseView::MakeBin,
            InstallPhase::InspectBin => InstallPhaseView::InspectBin,
            InstallPhase::LinkBin(l) => InstallPhaseView::LinkBin(l@),
            InstallPhase::ListReleases => InstallPhaseView::ListReleases,
            InstallPhase::Prune { doomed, from } => InstallPhaseView::Prune(
                paths_from(views(doomed@), *from as nat),
            ),
            InstallPhase::Restore(l, f) => InstallPhaseView::Restore(l@, f@),
            InstallPhase::RemoveLink(f) => InstallPhaseView::RemoveLink(f@),
            InstallPhase::RemoveRelease(f) => InstallPhaseView::RemoveRelease(f@),
            InstallPhase::Installed => InstallPhaseView::Installed,
            InstallPhase::RolledBack(f) => InstallPhaseView::RolledBack(f@),
            InstallPhase::Failed(f) => InstallPhaseView::Failed(f@),
        }
    }
}

/// The installation of a staged package.
#[derive(Debug, PartialEq, Eq)]
pub struct Installer {
    layout: SourceInstallLayout,
    pid: u32,
    previous: Option<OsText>,
    warning: Option<Failure>,
    phase: InstallPhase,
}

/// The installation of a staged package, as a value of mathematics.
#[verifier::ext_equal]
pub struct InstallView {
    pub layout: LayoutView,
    /// The process that installs.
    pub pid: nat,
    /// The release that was current before, once that is known.
    pub previous: Option<Seq<u8>>,
    /// Why old releases could not be removed.
    pub warning: Option<Seq<Seq<char>>>,
    pub phase: InstallPhaseView,
}

impl View for Installer {
    type V = InstallView;

    closed spec fn view(&self) -> InstallView {
        InstallView {
            layout: self.layout@,
            pid: self.pid as nat,
            previous: option_view(self.previous),
            warning: failure_view(self.warning),
            phase: self.phase@,
        }
    }
}

// ---------------------------------------------------------------------------------------------
// From phase to phase
// ---------------------------------------------------------------------------------------------

/// Whether what stands in the place of the command that users run may be managed: nothing, or a
/// link to the command of the current release.
pub open spec fn manageable(state: LinkStateView, command: Seq<u8>) -> bool {
    match state {
        LinkStateView::Absent => true,
        LinkStateView::Link(target) => same_place(target, command),
        LinkStateView::Other => false,
    }
}

/// What is said of a command that was not installed by this crate.
pub open spec fn unmanaged(visible_bin: Seq<u8>) -> Seq<Seq<char>> {
    seq!["refusing to replace unmanaged Codex command at "@ + displayed(visible_bin)]
}

/// What stands at a path according to an outcome; nothing where that could not be found out.
pub open spec fn state_of(outcome: OutcomeView) -> Option<LinkStateView> {
    match outcome {
        OutcomeView::Link(state) => Some(state),
        OutcomeView::Failed { .. } => Some(LinkStateView::Absent),
        _ => None,
    }
}

/// The phase that a check of the staged package leads to.
pub open spec fn after_check(check: PackageCheckView) -> InstallPhaseView {
    match check.phase {
        CheckPhaseView::Passed => InstallPhaseView::TestStaged,
        CheckPhaseView::Rejected(f) => InstallPhaseView::Failed(f),
        _ => InstallPhaseView::Validate(check),
    }
}

/// The phase that the switch to the new release leads to.
pub open spec fn after_switch(link: LinkReplacementView) -> InstallPhaseView {
    match link.phase {
        LinkPhaseView::Replaced => InstallPhaseView::TestInstalled,
        LinkPhaseView::NotReplaced(f) => InstallPhaseView::Failed(f),
        _ => InstallPhaseView::Switch(link),
    }
}

/// What is said when a release could not be taken back after `failure`.
pub open spec fn not_restored(why: Seq<Seq<char>>, failure: Seq<Seq<char>>) -> Seq<Seq<char>> {
    in_context(why, "rollback failed after installation error: "@ + detail_of(failure))
}

/// The phase that the switch back to the earlier release leads to.
pub open spec fn after_restore(
    link: LinkReplacementView,
    failure: Seq<Seq<char>>,
) -> InstallPhaseView {
    match link.phase {
        LinkPhaseView::Replaced => InstallPhaseView::RemoveRelease(failure),
        LinkPhaseView::NotReplaced(f) => InstallPhaseView::Failed(not_restored(f, failure)),
        _ => InstallPhaseView::Restore(link, failure),
    }
}

/// The phase in which the remaining old releases are removed.
pub open spec fn pruning(rest: Seq<Seq<u8>>) -> InstallPhaseView {
    if rest.len() == 0 {
        InstallPhaseView::Installed
    } else {
        InstallPhaseView::Prune(rest)
    }
}

/// What is said of a release that is there already.
pub open spec fn exists_already(release_dir: Seq<u8>) -> Seq<Seq<char>> {
    seq!["source release already exists at "@ + displayed(release_dir)]
}

impl InstallView {
    /// An installation that has not begun.
    pub open spec fn start(layout: LayoutView, target: Seq<char>, pid: nat) -> InstallView {
        InstallView {
            layout,
            pid,
            previous: None,
            warning: None,
            phase: InstallPhaseView::Validate(
                PackageCheckView::start(layout.staging_dir, target),
            ),
        }
    }

    /// The installation in another phase.
    pub open spec fn to(self, phase: InstallPhaseView) -> InstallView {
        InstallView { phase, ..self }
    }

    /// The phase in which the release is taken back after `failure`.
    pub open spec fn rollback(self, failure: Seq<Seq<char>>) -> InstallPhaseView {
        match self.previous {
            Some(previous) => after_restore(
                LinkReplacementView::start(self.layout.current_link, previous, self.pid),
                failure,
            ),
            None => InstallPhaseView::RemoveLink(failure),
        }
    }

    /// The phase that linking the command that users run leads to.
    pub open spec fn after_bin(self, link: LinkReplacementView) -> InstallPhaseView {
        match link.phase {
            LinkPhaseView::Replaced => InstallPhaseView::ListReleases,
            LinkPhaseView::NotReplaced(f) => self.rollback(f),
            _ => InstallPhaseView::LinkBin(link),
        }
    }

    /// What is to be done next; nothing once the installation is over.
    pub open spec fn operation(self) -> Option<OperationView> {
        match self.phase {
            InstallPhaseView::Validate(c) => c.operation(),
            InstallPhaseView::TestStaged => Some(OperationView::SmokeTest(self.layout.staging_dir)),
            InstallPhaseView::InspectVisible => Some(
                OperationView::InspectLink(self.layout.visible_bin),
            ),
            InstallPhaseView::MakeReleases => Some(
                OperationView::CreateDirAll(self.layout.releases_dir),
            ),
            InstallPhaseView::ReleaseExists => Some(OperationView::Exists(self.layout.release_dir)),
            InstallPhaseView::Promote => Some(
                OperationView::Rename {
                    from: self.layout.staging_dir,
                    to: self.layout.release_dir,
                },
            ),
            InstallPhaseView::ReadCurrent => Some(
                OperationView::InspectLink(self.layout.current_link),
            ),
            InstallPhaseView::Switch(l) => l.operation(),
            InstallPhaseView::TestInstalled => Some(
                OperationView::SmokeTest(self.layout.release_dir),
            ),
            InstallPhaseView::MakeBin => match parent_of(self.layout.visible_bin) {
                Some(dir) => Some(OperationView::CreateDirAll(dir)),
                None => None,
            },
            InstallPhaseView::InspectBin => Some(
                OperationView::InspectLink(self.layout.visible_bin),
            ),
            InstallPhaseView::LinkBin(l) => l.operation(),
            InstallPhaseView::ListReleases => Some(
                OperationView::ListReadable(self.layout.releases_dir),
            ),
            InstallPhaseView::Prune(rest) => if rest.len() == 0 {
                None
            } else {
                Some(OperationView::RemoveDirAll(rest.first()))
            },
            InstallPhaseView::Restore(l, _) => l.operation(),
            InstallPhaseView::RemoveLink(_) => Some(
                OperationView::RemoveFile(self.layout.current_link),
            ),
            InstallPhaseView::RemoveRelease(_) => Some(
                OperationView::RemoveDirAll(self.layout.release_dir),
            ),
            _ => None,
        }
    }

    /// The phase after the new release was tried out with success.
    pub open spec fn after_test(self) -> InstallPhaseView {
        if parent_of(self.layout.visible_bin) is Some {
            InstallPhaseView::MakeBin
        } else {
            self.rollback(seq!["visible Codex command has no parent directory"@])
        }
    }

    /// The phase after it was found out what stands in the place of the command that users run.
    pub open spec fn after_inspection(self, state: LinkStateView) -> InstallPhaseView {
        if !manageable(state, self.layout.current_command()) {
            self.rollback(unmanaged(self.layout.visible_bin))
        } else if state is Absent {
            self.after_bin(
                LinkReplacementView::start(
                    self.layout.visible_bin,
                    self.layout.current_command(),
                    self.pid,
                ),
            )
        } else {
            InstallPhaseView::ListReleases
        }
    }

    /// The installation after the release that is current was looked up.
    pub open spec fn after_reading(self, previous: Option<Seq<u8>>) -> InstallView {
        InstallView {
            previous,
            phase: after_switch(
                LinkReplacementView::start(
                    self.layout.current_link,
                    self.layout.release_dir,
                    self.pid,
                ),
            ),
            ..self
        }
    }

    /// The installation, complete but for old releases that could not be removed.
    pub open spec fn warned(self, failure: Seq<Seq<char>>) -> InstallView {
        InstallView { warning: Some(failure), phase: InstallPhaseView::Installed, ..self }
    }

    /// The paths of the old releases among the entries of the directory of the releases.
    pub open spec fn doomed(self, entries: Seq<DirEntryView>) -> Seq<Seq<u8>> {
        paths_in(
            self.layout.releases_dir,
            doomed_names(entries, self.layout.releases_dir, self.layout.release_dir),
        )
    }

    /// The installation after its pending operation ended so. An outcome that does not answer
    /// that operation changes nothing.
    pub open spec fn next(self, outcome: OutcomeView) -> InstallView {
        match (self.phase, outcome) {
            (InstallPhaseView::Validate(c), _) => self.to(after_check(c.next(outcome))),
            (InstallPhaseView::TestStaged, OutcomeView::Done) => self.to(
                InstallPhaseView::InspectVisible,
            ),
            (InstallPhaseView::TestStaged, OutcomeView::Failed { failure, .. }) => self.to(
                InstallPhaseView::Failed(
                    in_context(failure, "staged source package smoke test failed"@),
                ),
            ),
            (InstallPhaseView::InspectVisible, _) => match state_of(outcome) {
                Some(state) => if manageable(state, self.layout.current_command()) {
                    self.to(InstallPhaseView::MakeReleases)
                } else {
                    self.to(InstallPhaseView::Failed(unmanaged(self.layout.visible_bin)))
                },
                None => self,
            },
            (InstallPhaseView::MakeReleases, OutcomeView::Done) => self.to(
                InstallPhaseView::ReleaseExists,
            ),
            (InstallPhaseView::MakeReleases, OutcomeView::Failed { failure, .. }) => self.to(
                InstallPhaseView::Failed(failure),
            ),
            (InstallPhaseView::ReleaseExists, OutcomeView::Flag(true)) => self.to(
                InstallPhaseView::Failed(exists_already(self.layout.release_dir)),
            ),
            (InstallPhaseView::ReleaseExists, OutcomeView::Flag(false)) => self.to(
                InstallPhaseView::Promote,
            ),
            (InstallPhaseView::ReleaseExists, OutcomeView::Failed { .. }) => self.to(
                InstallPhaseView::Promote,
            ),
            (InstallPhaseView::Promote, OutcomeView::Done) => self.to(
                InstallPhaseView::ReadCurrent,
            ),
            (InstallPhaseView::Promote, OutcomeView::Failed { failure, .. }) => self.to(
                InstallPhaseView::Failed(in_context(failure, "promote staged source package"@)),
            ),
            (InstallPhaseView::ReadCurrent, _) => match state_of(outcome) {
                Some(state) => self.after_reading(target_of(state)),
                None => self,
            },
            (InstallPhaseView::Switch(l), _) => self.to(after_switch(l.next(outcome))),
            (InstallPhaseView::TestInstalled, OutcomeView::Done) => self.to(self.after_test()),
            (InstallPhaseView::TestInstalled, OutcomeView::Failed { failure, .. }) => self.to(
                self.rollback(failure),
            ),
            (InstallPhaseView::MakeBin, OutcomeView::Done) => self.to(InstallPhaseView::InspectBin),
            (InstallPhaseView::MakeBin, OutcomeView::Failed { failure, .. }) => self.to(
                self.rollback(failure),
            ),
            (InstallPhaseView::InspectBin, _) => match state_of(outcome) {
                Some(state) => self.to(self.after_inspection(state)),
                None => self,
            },
            (InstallPhaseView::LinkBin(l), _) => self.to(self.after_bin(l.next(outcome))),
            (InstallPhaseView::ListReleases, OutcomeView::Entries(entries)) => self.to(
                pruning(self.doomed(entries)),
            ),
            (InstallPhaseView::ListReleases, OutcomeView::Failed { failure, .. }) => self.warned(
                failure,
            ),
            (InstallPhaseView::Prune(rest), OutcomeView::Done) => if rest.len() == 0 {
                self
            } else {
                self.to(pruning(rest.drop_first()))
            },
            (InstallPhaseView::Prune(_), OutcomeView::Failed { failure, .. }) => self.warned(
                failure,
            ),
            (InstallPhaseView::Restore(l, f), _) => self.to(after_restore(l.next(outcome), f)),
            (InstallPhaseView::RemoveLink(f), OutcomeView::Done) => self.to(
                InstallPhaseView::RemoveRelease(f),
            ),
            (InstallPhaseView::RemoveLink(f), OutcomeView::Failed { kind, failure }) => if kind
                is NotFound {
                self.to(InstallPhaseView::RemoveRelease(f))
            } else {
                self.to(
                    InstallPhaseView::Failed(
                        not_restored(
                            in_context(failure, "remove failed source release link"@),
                            f,
                        ),
                    ),
                )
            },
            (InstallPhaseView::RemoveRelease(f), OutcomeView::Done) => self.to(
                InstallPhaseView::RolledBack(
                    in_context(f, "source package activation rolled back"@),
                ),
            ),
            (InstallPhaseView::RemoveRelease(_), OutcomeView::Failed { failure, .. }) => self.to(
                InstallPhaseView::Failed(in_context(failure, "remove failed source release"@)),
            ),
            _ => self,
        }
    }
}

/// The phase that a check of the staged package leads to.
fn settle_check(check: PackageCheck) -> (r: InstallPhase)
    ensures
        r@ == after_check(check@),
{
    match check.phase() {
        CheckPhase::Passed => InstallPhase::TestStaged,
        CheckPhase::Rejected(f) => InstallPhase::Failed(f.duplicate()),
        _ => InstallPhase::Validate(check),
    }
}

/// The phase that the switch to the new release leads to.
fn settle_switch(link: LinkReplacement) -> (r: InstallPhase)
    ensures
        r@ == after_switch(link@),
{
    match link.phase() {
        LinkPhase::Replaced => InstallPhase::TestInstalled,
        LinkPhase::NotReplaced(f) => InstallPhase::Failed(f.duplicate()),
        _ => InstallPhase::Switch(link),
    }
}

/// What is said when a release could not be taken back after `failure`.
fn restore_failure(why: Failure, failure: &Failure) -> (r: Failure)
    ensures
        r@ == not_restored(why@, failure@),
{
    why.context(
        concat2("rollback failed after installation error: ", failure.detail().as_str()),
    )
}

/// The phase that the switch back to the earlier release leads to.
fn settle_restore(link: LinkReplacement, failure: Failure) -> (r: InstallPhase)
    ensures
        r@ == after_restore(link@, failure@),
{
    match link.phase() {
        LinkPhase::Replaced => InstallPhase::RemoveRelease(failure),
        LinkPhase::NotReplaced(f) => InstallPhase::Failed(restore_failure(f.duplicate(), &failure)),
        _ => InstallPhase::Restore(link, failure),
    }
}

/// The phase in which old releases are removed from the number on that is given.
fn settle_prune(doomed: Vec<OsText>, from: usize) -> (r: InstallPhase)
    ensures
        r@ == pruning(paths_from(views(doomed@), from as nat)),
{
    assert(views(doomed@).len() == doomed@.len());
    if from < doomed.len() {
        InstallPhase::Prune { doomed, from }
    } else {
        InstallPhase::Installed
    }
}

/// The switch of the current release to the one in `release_dir`.
pub fn switch_current_release(layout: &SourceInstallLayout, release_dir: &OsText, pid: u32) -> (r:
    LinkReplacement)
    ensures
        r@ == LinkReplacementView::start(layout@.current_link, release_dir@, pid as nat),
{
    replace_symlink(layout.current_link(), release_dir, pid)
}

/// The installation of the package that was staged for `target`, by the process `pid`.
pub fn install_source_package(layout: SourceInstallLayout, target: &str, pid: u32) -> (r: Installer)
    ensures
        r@ == InstallView::start(layout@, target@, pid as nat),
{
    let check = validate_source_package(layout.staging_dir(), target);
    Installer { layout, pid, previous: None, warning: None, phase: InstallPhase::Validate(check) }
}

impl Installer {
    /// How far the installation has come.
    pub fn phase(&self) -> (r: &InstallPhase)
        ensures
            r@ == self@.phase,
    {
        &self.phase
    }

    /// What is to be done next; nothing once the installation is over.
    pub fn operation(&self) -> (r: Option<Operation>)
        ensures
            operation_view(r) == self@.operation(),
    {
        let layout = &self.layout;
        match &self.phase {
            InstallPhase::Validate(c) => c.operation(),
            InstallPhase::TestStaged => Some(
                Operation::SmokeTest(layout.staging_dir().duplicate()),
            ),
            InstallPhase::InspectVisible => Some(
                Operation::InspectLink(layout.visible_bin().duplicate()),
            ),
            InstallPhase::MakeReleases => Some(
                Operation::CreateDirAll(layout.releases_dir().duplicate()),
            ),
            InstallPhase::ReleaseExists => Some(
                Operation::Exists(layout.release_dir().duplicate()),
            ),
            InstallPhase::Promote => Some(
                Operation::Rename {
                    from: layout.staging_dir().duplicate(),
                    to: layout.release_dir().duplicate(),
                },
            ),
            InstallPhase::ReadCurrent => Some(
                Operation::InspectLink(layout.current_link().duplicate()),
            ),
            InstallPhase::Switch(l) => l.operation(),
            InstallPhase::TestInstalled => Some(
                Operation::SmokeTest(layout.release_dir().duplicate()),
            ),
            InstallPhase::MakeBin => match parent(layout.visible_bin()) {
                Some(dir) => Some(Operation::CreateDirAll(dir)),
                None => None,
            },
            InstallPhase::InspectBin => Some(
                Operation::InspectLink(layout.visible_bin().duplicate()),
            ),
            InstallPhase::LinkBin(l) => l.operation(),
            InstallPhase::ListReleases => Some(
                Operation::ListReadable(layout.releases_dir().duplicate()),
            ),
            InstallPhase::Prune { doomed, from } => {
                assert(views(doomed@).len() == doomed@.len());
                if *from < doomed.len() {
                    assert(views(doomed@)[*from as int] == doomed@[*from as int]@);
                    Some(Operation::RemoveDirAll(doomed[*from].duplicate()))
                } else {
                    None
                }
            },
            InstallPhase::Restore(l, _) => l.operation(),
            InstallPhase::RemoveLink(_) => Some(
                Operation::RemoveFile(layout.current_link().duplicate()),
            ),
            InstallPhase::RemoveRelease(_) => Some(
                Operation::RemoveDirAll(layout.release_dir().duplicate()),
            ),
            _ => None,
        }
    }

    /// The phase in which the release is taken back after `failure`.
    fn roll_back(&self, failure: Failure) -> (r: InstallPhase)
        ensures
            r@ == self@.rollback(failure@),
    {
        match &self.previous {
            Some(previous) => settle_restore(
                switch_current_release(&self.layout, previous, self.pid),
                failure,
            ),
            None => InstallPhase::RemoveLink(failure),
        }
    }

    /// The phase that linking the command that users run leads to.
    fn settle_bin(&self, link: LinkReplacement) -> (r: InstallPhase)
        ensures
            r@ == self@.after_bin(link@),
    {
        match link.phase() {
            LinkPhase::Replaced => InstallPhase::ListReleases,
            LinkPhase::NotReplaced(f) => self.roll_back(f.duplicate()),
            _ => InstallPhase::LinkBin(link),
        }
    }

    /// Whether what stands in the place of the command that users run may be managed.
    fn can_manage(&self, state: &LinkState) -> (r: bool)
        ensures
            r == manageable(state@, self@.layout.current_command()),
    {
        match state {
            LinkState::Absent => true,
            LinkState::Link(target) => same_path(target, &self.layout.current_command()),
            LinkState::Other => false,
        }
    }

    /// What is said of a command that was not installed by this crate.
    fn unmanaged_command(&self) -> (r: Failure)
        ensures
            r@ == unmanaged(self@.layout.visible_bin),
    {
        Failure::new(
            concat2(
                "refusing to replace unmanaged Codex command at ",
                self.layout.visible_bin().display().as_str(),
            ),
        )
    }

    /// The phase after the new release was tried out with success.
    fn tested(&self) -> (r: InstallPhase)
        ensures
            r@ == self@.after_test(),
    {
        match parent(self.layout.visible_bin()) {
            Some(_) => InstallPhase::MakeBin,
            None => self.roll_back(Failure::of("visible Codex command has no parent directory")),
        }
    }

    /// The phase after it was found out what stands in the place of the command that users run.
    fn inspected(&self, state: &LinkState) -> (r: InstallPhase)
        ensures
            r@ == self@.after_inspection(state@),
    {
        if !self.can_manage(state) {
            return self.roll_back(self.unmanaged_command());
        }
        match state {
            LinkState::Absent => {
                let command = self.layout.current_command();
                self.settle_bin(
                    replace_symlink(self.layout.visible_bin(), &command, self.pid),
                )
            },
            _ => InstallPhase::ListReleases,
        }
    }

    /// Remembers the release that is current and turns to the new one.
    fn remember(&mut self, state: LinkState)
        ensures
            final(self)@ == old(self)@.after_reading(target_of(state@)),
    {
        self.previous = match state {
            LinkState::Link(target) => Some(target),
            _ => None,
        };
        self.phase = settle_switch(
            switch_current_release(&self.layout, self.layout.release_dir(), self.pid),
        );
    }

    /// Ends the installation although old releases could not be removed.
    fn warn(&mut self, failure: Failure)
        ensures
            final(self)@ == old(self)@.warned(failure@),
    {
        self.warning = Some(failure);
        self.phase = InstallPhase::Installed;
    }

    /// Takes in how the pending operation ended.
    #[verifier::rlimit(40)]
    pub fn advance(&mut self, outcome: Outcome)
        ensures
            final(self)@ == old(self)@.next(outcome@),
    {
        let mut phase = InstallPhase::Installed;
        std::mem::swap(&mut phase, &mut self.phase);
        match (phase, outcome) {
            (InstallPhase::Validate(c), outcome) => {
                let mut check = c;
                check.advance(outcome);
                self.phase = settle_check(check);
            },
            (InstallPhase::TestStaged, Outcome::Done) => {
                self.phase = InstallPhase::InspectVisible;
            },
            (InstallPhase::TestStaged, Outcome::Failed { failure, .. }) => {
                self.phase = InstallPhase::Failed(
                    failure.context("staged source package smoke test failed".to_owned()),
                );
            },
            (InstallPhase::InspectVisible, Outcome::Link(state)) => {
                self.phase = if self.can_manage(&state) {
                    InstallPhase::MakeReleases
                } else {
                    InstallPhase::Failed(self.unmanaged_command())
                };
            },
            (InstallPhase::InspectVisible, Outcome::Failed { .. }) => {
                self.phase = InstallPhase::MakeReleases;
            },
            (InstallPhase::MakeReleases, Outcome::Done) => {
                self.phase = InstallPhase::ReleaseExists;
            },
            (InstallPhase::MakeReleases, Outcome::Failed { failure, .. }) => {
                self.phase = InstallPhase::Failed(failure);
            },
            (InstallPhase::ReleaseExists, Outcome::Flag(exists)) => {
                self.phase = if exists {
                    InstallPhase::Failed(
                        Failure::new(
                            concat2(
                                "source release already exists at ",
                                self.layout.release_dir().display().as_str(),
                            ),
                        ),
                    )
                } else {
                    InstallPhase::Promote
                };
            },
            (InstallPhase::ReleaseExists, Outcome::Failed { .. }) => {
                self.phase = InstallPhase::Promote;
            },
            (InstallPhase::Promote, Outcome::Done) => {
                self.phase = InstallPhase::ReadCurrent;
            },
            (InstallPhase::Promote, Outcome::Failed { failure, .. }) => {
                self.phase = InstallPhase::Failed(
                    failure.context("promote staged source package".to_owned()),
                );
            },
            (InstallPhase::ReadCurrent, Outcome::Link(state)) => {
                self.remember(state);
            },
            (InstallPhase::ReadCurrent, Outcome::Failed { .. }) => {
                self.remember(LinkState::Absent);
            },
            (InstallPhase::Switch(l), outcome) => {
                let mut link = l;
                link.advance(outcome);
                self.phase = settle_switch(link);
            },
            (InstallPhase::TestInstalled, Outcome::Done) => {
                self.phase = self.tested();
            },
            (InstallPhase::TestInstalled, Outcome::Failed { failure, .. }) => {
                self.phase = self.roll_back(failure);
            },
            (InstallPhase::MakeBin, Outcome::Done) => {
                self.phase = InstallPhase::InspectBin;
            },
            (InstallPhase::MakeBin, Outcome::Failed { failure, .. }) => {
                self.phase = self.roll_back(failure);
            },
            (InstallPhase::InspectBin, Outcome::Link(state)) => {
                self.phase = self.inspected(&state);
            },
            (InstallPhase::InspectBin, Outcome::Failed { .. }) => {
                self.phase = self.inspected(&LinkState::Absent);
            },
            (InstallPhase::LinkBin(l), outcome) => {
                let mut link = l;
                link.advance(outcome);
                self.phase = self.settle_bin(link);
            },
            (InstallPhase::ListReleases, Outcome::Entries(entries)) => {
                let doomed = releases_to_prune(
                    &entries,
                    self.layout.releases_dir(),
                    self.layout.release_dir(),
                );
                assert(paths_from(views(doomed@), 0) == views(doomed@));
                self.phase = settle_prune(doomed, 0);
            },
            (InstallPhase::ListReleases, Outcome::Failed { failure, .. }) => {
                self.warn(failure);
            },
            (InstallPhase::Prune { doomed, from }, Outcome::Done) => {
                assert(views(doomed@).len() == doomed@.len());
                if from < doomed.len() {
                    assert(views(doomed@).skip(from as int).drop_first() == views(doomed@).skip(
                        from + 1,
                    ));
                    self.phase = settle_prune(doomed, from + 1);
                } else {
                    self.phase = InstallPhase::Prune { doomed, from };
                }
            },
            (InstallPhase::Prune { .. }, Outcome::Failed { failure, .. }) => {
                self.warn(failure);
            },
            (InstallPhase::Restore(l, f), outcome) => {
                let mut link = l;
                link.advance(outcome);
                self.phase = settle_restore(link, f);
            },
            (InstallPhase::RemoveLink(f), Outcome::Done) => {
                self.phase = InstallPhase::RemoveRelease(f);
            },
            (InstallPhase::RemoveLink(f), Outcome::Failed { kind, failure }) => {
                self.phase = match kind {
                    ErrorKind::NotFound => InstallPhase::RemoveRelease(f),
                    _ => InstallPhase::Failed(
                        restore_failure(
                            failure.context("remove failed source release link".to_owned()),
                            &f,
                        ),
                    ),
                };
            },
            (InstallPhase::RemoveRelease(f), Outcome::Done) => {
                self.phase = InstallPhase::RolledBack(
                    f.context("source package activation rolled back".to_owned()),
                );
            },
            (InstallPhase::RemoveRelease(_), Outcome::Failed { failure, .. }) => {
                self.phase = InstallPhase::Failed(
                    failure.context("remove failed source release".to_owned()),
                );
            },
            (phase, _) => {
                self.phase = phase;
            },
        }
    }

    /// How the installation ended, once it has.
    pub fn result(&self) -> (r: Option<Result<(), Failure>>)
        ensures
            match r {
                Some(Ok(())) => self@.phase is Installed,
                Some(Err(f)) => self@.phase == InstallPhaseView::RolledBack(f@) || self@.phase
                    == InstallPhaseView::Failed(f@),
                None => !(self@.phase is Installed) && !(self@.phase is RolledBack)
                    && !(self@.phase is Failed),
            },
    {
        match &self.phase {
            InstallPhase::Installed => Some(Ok(())),
            InstallPhase::RolledBack(f) => Some(Err(f.duplicate())),
            InstallPhase::Failed(f) => Some(Err(f.duplicate())),
            _ => None,
        }
    }

    /// What to tell the user when old releases could not be removed.
    pub fn warning(&self) -> (r: Option<String>)
        ensures
            match r {
                Some(line) => self@.warning matches Some(f) && line@
                    == "Warning: could not prune old Codex source releases: "@ + detail_of(f),
                None => self@.warning is None,
            },
    {
        match &self.warning {
            Some(f) => Some(
                concat2(
                    "Warning: could not prune old Codex source releases: ",
                    f.detail().as_str(),
                ),
            ),
            None => None,
        }
    }

    /// What to tell the user once the release is installed.
    pub fn report(&self) -> (r: Vec<String>)
        ensures
            string_views(r@) == report_lines(self@.layout),
    {
        let r = vec![
            concat2(
                "Installed complete source package to ",
                self.layout.release_dir().display().as_str(),
            ),
            concat2("Active source package: ", self.layout.current_link().display().as_str()),
            concat2("Codex command: ", self.layout.visible_bin().display().as_str()),
        ];
        assert(string_views(r@) =~= report_lines(self@.layout));
        r
    }
}

/// What the user is told once a release is installed.
pub open spec fn report_lines(layout: LayoutView) -> Seq<Seq<char>> {
    seq![
        "Installed complete source package to "@ + displayed(layout.release_dir),
        "Active source package: "@ + displayed(layout.current_link),
        "Codex command: "@ + displayed(layout.visible_bin),
    ]
}

} // verus!
