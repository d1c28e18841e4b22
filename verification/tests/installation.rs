//! Installing packages, on a file system in memory.

use std::collections::BTreeMap;

use source_update::failure::Failure;
use source_update::installer::{install_source_package, InstallPhase, Installer};
use source_update::io::{DirEntry, ErrorKind, LinkState, Operation, Outcome};
use source_update::layout::SourceInstallLayout;
use source_update::lock::{LockAcquisition, LockPhase, SourceUpdateLock};
use source_update::os_text::OsText;
use source_update::package::{validate_source_package, CheckPhase, PackageCheck};
use source_update::staging::{discard_staging_dir, prepare_staging_dir, DiscardPhase, StagingPhase};
use source_update::symlink::{replace_symlink, LinkPhase};

const TARGET: &str = "x86_64-unknown-linux-gnu";

/// An entry of this name cannot be read.
const UNREADABLE: &str = ".staging-unreadable";

#[derive(Debug, Clone, PartialEq)]
enum Node {
    File { bytes: Vec<u8>, mode: u32 },
    Dir,
    Link(String),
}

/// A file system in memory, with trials that end as planned.
#[derive(Default)]
struct Fake {
    nodes: BTreeMap<String, Node>,
    ages: BTreeMap<String, u64>,
    trials: Vec<Option<String>>,
    running: Vec<String>,
    fail_on: Option<Operation>,
    log: Vec<Operation>,
    open_dir: Vec<(String, bool)>,
}

fn os(text: &str) -> OsText {
    OsText::from_text(text)
}

fn text(path: &OsText) -> String {
    String::from_utf8(path.bytes.clone()).expect("path in UTF-8")
}

fn failed(kind: ErrorKind, message: &str) -> Outcome {
    Outcome::Failed { kind, failure: Failure::of(message) }
}

impl Fake {
    fn resolve(&self, path: &str) -> String {
        for (link, node) in &self.nodes {
            if let Node::Link(target) = node {
                if path == link {
                    return self.resolve(target);
                }
                if let Some(rest) = path.strip_prefix(&format!("{link}/")) {
                    return self.resolve(&format!("{target}/{rest}"));
                }
            }
        }
        path.to_owned()
    }

    fn find(&self, path: &str) -> Option<&Node> {
        self.nodes.get(&self.resolve(path))
    }

    fn read(&self, path: &str) -> Option<String> {
        match self.find(path) {
            Some(Node::File { bytes, .. }) => Some(String::from_utf8(bytes.clone()).unwrap()),
            _ => None,
        }
    }

    fn link(&self, path: &str) -> Option<String> {
        match self.nodes.get(path) {
            Some(Node::Link(target)) => Some(target.clone()),
            _ => None,
        }
    }

    fn make_dirs(&mut self, path: &str) {
        let mut at = String::new();
        for piece in path.split('/').filter(|piece| !piece.is_empty()) {
            at = format!("{at}/{piece}");
            self.nodes.entry(at.clone()).or_insert(Node::Dir);
        }
    }

    fn write(&mut self, path: &str, contents: &[u8], mode: u32) {
        self.make_dirs(&path[..path.rfind('/').unwrap()]);
        self.nodes.insert(path.to_owned(), Node::File { bytes: contents.to_vec(), mode });
    }

    fn children(&self, dir: &str) -> Vec<(String, bool)> {
        let prefix = format!("{dir}/");
        self.nodes
            .iter()
            .filter_map(|(path, node)| {
                let name = path.strip_prefix(&prefix)?;
                (!name.contains('/')).then_some((name.to_owned(), *node == Node::Dir))
            })
            .collect()
    }

    fn below(&self, dir: &str) -> Vec<String> {
        let prefix = format!("{dir}/");
        self.nodes
            .keys()
            .filter(|path| *path == dir || path.starts_with(&prefix))
            .cloned()
            .collect()
    }

    fn perform(&mut self, op: &Operation) -> Outcome {
        if self.fail_on.as_ref() == Some(op) {
            return failed(ErrorKind::Other, "out of order");
        }
        match op {
            Operation::CreateDirAll(path) => {
                self.make_dirs(&text(path));
                Outcome::Done
            }
            Operation::CreateNew { path, text: contents } => {
                let path = text(path);
                if self.nodes.contains_key(&path) {
                    return failed(ErrorKind::AlreadyExists, "file exists");
                }
                self.write(&path, contents.as_bytes(), 0o644);
                Outcome::Done
            }
            Operation::ReadFile(path) => match self.find(&text(path)) {
                Some(Node::File { bytes, .. }) => Outcome::Bytes(bytes.clone()),
                _ => failed(ErrorKind::NotFound, "no such file"),
            },
            Operation::FileAge(path) => Outcome::Age(self.ages.get(&text(path)).copied()),
            Operation::InspectFile(path) => match self.find(&text(path)) {
                Some(Node::File { mode, .. }) => Outcome::File { is_file: true, mode: *mode },
                _ => Outcome::File { is_file: false, mode: 0 },
            },
            Operation::InspectLink(path) => Outcome::Link(match self.nodes.get(&text(path)) {
                None => LinkState::Absent,
                Some(Node::Link(target)) => LinkState::Link(os(target)),
                Some(_) => LinkState::Other,
            }),
            Operation::Exists(path) => Outcome::Flag(self.find(&text(path)).is_some()),
            Operation::IsDir(path) => Outcome::Flag(self.find(&text(path)) == Some(&Node::Dir)),
            Operation::OpenDir(path) => {
                self.open_dir = self.children(&text(path));
                self.open_dir.reverse();
                Outcome::Done
            }
            Operation::NextEntry(_) => match self.open_dir.pop() {
                Some((name, _)) if name == UNREADABLE => failed(ErrorKind::Other, "unreadable"),
                Some((name, is_dir)) => Outcome::Entry(Some(DirEntry { name: os(&name), is_dir })),
                None => Outcome::Entry(None),
            },
            Operation::ListReadable(path) => Outcome::Entries(
                self.children(&text(path))
                    .into_iter()
                    .map(|(name, is_dir)| DirEntry { name: os(&name), is_dir })
                    .collect(),
            ),
            Operation::Rename { from, to } => {
                let (from, to) = (text(from), text(to));
                let moved = self.below(&from);
                if moved.is_empty() {
                    return failed(ErrorKind::NotFound, "nothing to rename");
                }
                for path in moved {
                    let node = self.nodes.remove(&path).unwrap();
                    self.nodes.insert(format!("{to}{}", &path[from.len()..]), node);
                }
                Outcome::Done
            }
            Operation::Symlink { target, link } => {
                let link = text(link);
                if self.nodes.contains_key(&link) {
                    return failed(ErrorKind::AlreadyExists, "link exists");
                }
                self.nodes.insert(link, Node::Link(text(target)));
                Outcome::Done
            }
            Operation::RemoveFile(path) => match self.nodes.remove(&text(path)) {
                Some(_) => Outcome::Done,
                None => failed(ErrorKind::NotFound, "no such file"),
            },
            Operation::RemoveDirAll(path) => {
                for path in self.below(&text(path)) {
                    self.nodes.remove(&path);
                }
                Outcome::Done
            }
            Operation::SmokeTest(_) => match self.trials.pop() {
                Some(Some(message)) => failed(ErrorKind::Other, &message),
                _ => Outcome::Done,
            },
            Operation::Run(command) => Outcome::Exit {
                success: command.args.last().is_some_and(|arg| self.running.contains(&text(arg))),
                status: "exit status: 1".to_owned(),
                stdout: Vec::new(),
            },
            other => panic!("unexpected operation {other:?}"),
        }
    }

    fn install(&mut self, layout: &SourceInstallLayout) -> Installer {
        let mut installer = install_source_package(layout.duplicate(), TARGET, 7);
        while let Some(op) = installer.operation() {
            let outcome = self.perform(&op);
            self.log.push(op);
            installer.advance(outcome);
        }
        installer
    }

    fn acquire(&mut self, layout: &SourceInstallLayout, pid: u32) -> LockAcquisition {
        let mut lock = SourceUpdateLock::acquire(layout, pid);
        while let Some(op) = lock.operation() {
            let outcome = self.perform(&op);
            lock.advance(outcome);
        }
        lock
    }

    fn check(&mut self, package_dir: &str) -> PackageCheck {
        let mut check = validate_source_package(&os(package_dir), TARGET);
        while let Some(op) = check.operation() {
            let outcome = self.perform(&op);
            check.advance(outcome);
        }
        check
    }

    fn write_package(&mut self, package_dir: &str, target: &str, marker: &str) {
        let mut metadata = serde_json::Map::new();
        metadata.insert("layoutVersion".to_owned(), serde_json::Value::from(1));
        for (field, value) in [
            ("version", "0.0.0"),
            ("target", target),
            ("variant", "codex"),
            ("entrypoint", "bin/codex"),
            ("resourcesDir", "codex-resources"),
            ("pathDir", "codex-path"),
        ] {
            metadata.insert(field.to_owned(), serde_json::Value::from(value));
        }
        let bytes = serde_json::to_vec(&serde_json::Value::Object(metadata)).expect("metadata");
        self.write(&format!("{package_dir}/codex-package.json"), &bytes, 0o644);
        for relative in [
            "bin/codex",
            "bin/codex-code-mode-host",
            "codex-path/rg",
            "codex-resources/bwrap",
        ] {
            self.write(&format!("{package_dir}/{relative}"), b"#!/bin/sh\nexit 0\n", 0o755);
        }
        self.write(
            &format!("{package_dir}/codex-resources/marker"),
            marker.as_bytes(),
            0o644,
        );
    }
}

fn layout(name: &str) -> SourceInstallLayout {
    SourceInstallLayout::new(&os("/tmp/source"), &os("/tmp/bin"), name)
}

fn staging_of(layout: &SourceInstallLayout) -> String {
    text(layout.staging_dir())
}

fn error_of(installer: &Installer) -> Failure {
    match installer.result() {
        Some(Err(failure)) => failure,
        other => panic!("expected a failure, found {other:?}"),
    }
}

#[test]
fn installs_complete_packages_atomically_and_retains_two_releases() {
    let mut fake = Fake::default();
    for release_number in 1..=3 {
        let layout = layout(&format!("source-{release_number:02}-{TARGET}"));
        fake.write_package(
            &staging_of(&layout),
            TARGET,
            &format!("codex {release_number}"),
        );
        assert_eq!(fake.install(&layout).result(), Some(Ok(())));
    }

    let current = fake.link("/tmp/source/current").expect("current release");
    let expected_release_name = format!("source-03-{TARGET}");
    assert_eq!(current.rsplit('/').next(), Some(expected_release_name.as_str()));
    assert_eq!(
        fake.read(&format!("{current}/codex-resources/marker")).expect("packaged resource"),
        "codex 3"
    );
    assert_eq!(
        fake.link("/tmp/bin/codex").expect("visible command"),
        "/tmp/source/current/bin/codex"
    );
    assert_eq!(fake.children("/tmp/source/releases").len(), 2);
    assert!(fake.find(&format!("/tmp/source/.staging-source-03-{TARGET}")).is_none());
}

#[test]
fn retention_stays_bounded_when_current_release_sorts_before_old_releases() {
    let mut fake = Fake::default();
    for release_name in ["source-bootstrap-01", "source-bootstrap-02", "source-03"] {
        let layout = layout(release_name);
        fake.write_package(&staging_of(&layout), TARGET, release_name);
        assert_eq!(fake.install(&layout).result(), Some(Ok(())));
    }

    let mut releases: Vec<String> =
        fake.children("/tmp/source/releases").into_iter().map(|(name, _)| name).collect();
    releases.sort();
    assert_eq!(releases, ["source-03", "source-bootstrap-02"]);
}

#[test]
fn rolls_back_current_release_when_post_install_smoke_test_fails() {
    let mut fake = Fake::default();
    let first = layout("source-01");
    fake.write_package(&staging_of(&first), TARGET, "first");
    assert_eq!(fake.install(&first).result(), Some(Ok(())));
    let previous = fake.link("/tmp/source/current").expect("previous current");

    let second = layout("source-02");
    fake.write_package(&staging_of(&second), TARGET, "second");
    fake.trials = vec![Some("synthetic post-install failure".to_owned()), None];
    let installer = fake.install(&second);

    let error = error_of(&installer);
    assert!(error.message().contains("rolled back"));
    assert_eq!(
        error.detail(),
        "source package activation rolled back: synthetic post-install failure"
    );
    assert_eq!(fake.link("/tmp/source/current").expect("rolled back current"), previous);
    assert!(fake.find("/tmp/source/releases/source-02").is_none());
}

#[test]
fn rejects_incomplete_or_wrong_target_packages_before_switching() {
    let mut fake = Fake::default();
    fake.write_package("/tmp/package", "aarch64-unknown-linux-gnu", "wrong target");

    match fake.check("/tmp/package").phase() {
        CheckPhase::Rejected(error) => {
            assert!(error.message().contains("metadata field `target`"));
            assert_eq!(
                error.message(),
                "invalid source package metadata field `target`: expected \
                 \"x86_64-unknown-linux-gnu\", found \"aarch64-unknown-linux-gnu\""
            );
        }
        other => panic!("expected a rejection, found {other:?}"),
    }
}

#[test]
fn source_update_lock_excludes_concurrent_updates_and_releases_on_drop() {
    let mut fake = Fake::default();
    let layout = SourceInstallLayout::new(&os("/tmp/root"), &os("/tmp/root/bin"), "one");
    let lock = fake.acquire(&layout, 1).held().expect("first lock");

    match fake.acquire(&layout, 2).phase() {
        LockPhase::Refused(error) => assert!(error.message().contains("already running")),
        other => panic!("expected a refusal, found {other:?}"),
    }

    assert_eq!(fake.perform(&lock.release()), Outcome::Done);
    assert!(fake.acquire(&layout, 2).held().is_some());
}

// ---------------------------------------------------------------------------------------------
// Installing
// ---------------------------------------------------------------------------------------------

#[test]
fn incomplete_packages_leave_the_installation_alone() {
    let mut fake = Fake::default();
    let layout = layout("source-01");
    fake.write_package(&staging_of(&layout), "aarch64-unknown-linux-gnu", "wrong");
    let before = fake.nodes.clone();
    let installer = fake.install(&layout);
    assert!(matches!(installer.phase(), InstallPhase::Failed(_)));
    assert_eq!(fake.nodes, before);
    assert_eq!(fake.log.len(), 1);
}

#[test]
fn a_first_installation_that_fails_leaves_no_current_release() {
    let mut fake = Fake::default();
    let layout = layout("source-01");
    fake.write_package(&staging_of(&layout), TARGET, "first");
    fake.trials = vec![Some("does not start".to_owned()), None];
    let installer = fake.install(&layout);
    assert!(matches!(installer.phase(), InstallPhase::RolledBack(_)));
    assert_eq!(fake.link("/tmp/source/current"), None);
    assert!(fake.find("/tmp/source/releases/source-01").is_none());
}

#[test]
fn a_staged_package_that_fails_its_trial_is_not_promoted() {
    let mut fake = Fake::default();
    let layout = layout("source-01");
    fake.write_package(&staging_of(&layout), TARGET, "first");
    fake.trials = vec![Some("boom".to_owned())];
    let installer = fake.install(&layout);
    assert_eq!(error_of(&installer).detail(), "staged source package smoke test failed: boom");
    assert!(fake.find("/tmp/source/releases").is_none());
}

#[test]
fn unmanaged_commands_are_not_replaced() {
    let mut fake = Fake::default();
    let layout = layout("source-01");
    fake.write_package(&staging_of(&layout), TARGET, "first");
    fake.write("/tmp/bin/codex", b"#!/bin/sh\n", 0o755);
    let installer = fake.install(&layout);
    assert_eq!(
        error_of(&installer).detail(),
        "refusing to replace unmanaged Codex command at /tmp/bin/codex"
    );
    assert!(fake.find("/tmp/source/releases").is_none());
}

#[test]
fn a_command_that_is_managed_already_is_kept() {
    let mut fake = Fake::default();
    let layout = layout("source-01");
    fake.write_package(&staging_of(&layout), TARGET, "first");
    fake.make_dirs("/tmp/bin");
    fake.nodes.insert(
        "/tmp/bin/codex".to_owned(),
        Node::Link("/tmp//source/./current/bin/codex".to_owned()),
    );
    let installer = fake.install(&layout);
    assert_eq!(installer.result(), Some(Ok(())));
    assert_eq!(fake.link("/tmp/bin/codex").unwrap(), "/tmp//source/./current/bin/codex");
}

#[test]
fn a_release_that_exists_already_is_not_overwritten() {
    let mut fake = Fake::default();
    let layout = layout("source-01");
    fake.write_package(&staging_of(&layout), TARGET, "first");
    fake.make_dirs("/tmp/source/releases/source-01");
    let installer = fake.install(&layout);
    assert_eq!(
        error_of(&installer).detail(),
        "source release already exists at /tmp/source/releases/source-01"
    );
}

#[test]
fn failures_of_each_step_are_reported() {
    for (op, expected) in [
        (
            Operation::CreateDirAll(os("/tmp/source/releases")),
            "out of order",
        ),
        (
            Operation::Rename {
                from: os("/tmp/source/.staging-source-01"),
                to: os("/tmp/source/releases/source-01"),
            },
            "promote staged source package: out of order",
        ),
        (
            Operation::Symlink {
                target: os("/tmp/source/releases/source-01"),
                link: os("/tmp/source/.current.7"),
            },
            "out of order",
        ),
        (
            Operation::Rename { from: os("/tmp/source/.current.7"), to: os("/tmp/source/current") },
            "replace symlink /tmp/source/current: out of order",
        ),
        (
            Operation::CreateDirAll(os("/tmp/bin")),
            "source package activation rolled back: out of order",
        ),
        (
            Operation::Rename { from: os("/tmp/bin/.codex.7"), to: os("/tmp/bin/codex") },
            "source package activation rolled back: replace symlink /tmp/bin/codex: out of order",
        ),
    ] {
        let mut fake = Fake { fail_on: Some(op), ..Fake::default() };
        let layout = layout("source-01");
        fake.write_package(&staging_of(&layout), TARGET, "first");
        let installer = fake.install(&layout);
        assert_eq!(error_of(&installer).detail(), expected);
        assert_eq!(fake.link("/tmp/source/current"), None);
        assert_eq!(fake.link("/tmp/source/.current.7"), None);
        assert_eq!(fake.link("/tmp/bin/.codex.7"), None);
    }
}

#[test]
fn a_rollback_that_fails_names_both_reasons() {
    let mut fake = Fake {
        fail_on: Some(Operation::RemoveFile(os("/tmp/source/current"))),
        trials: vec![Some("bad".to_owned()), None],
        ..Fake::default()
    };
    let first = layout("source-01");
    fake.write_package(&staging_of(&first), TARGET, "first");
    assert_eq!(
        error_of(&fake.install(&first)).detail(),
        "rollback failed after installation error: bad: remove failed source release link: out of \
         order"
    );

    let mut fake = Fake {
        fail_on: Some(Operation::RemoveDirAll(os("/tmp/source/releases/source-01"))),
        trials: vec![Some("bad".to_owned()), None],
        ..Fake::default()
    };
    fake.write_package(&staging_of(&first), TARGET, "first");
    assert_eq!(
        error_of(&fake.install(&first)).detail(),
        "remove failed source release: out of order"
    );
}

#[test]
fn failures_before_the_promotion_change_nothing() {
    let promotion = || Operation::Rename {
        from: os("/tmp/source/.staging-source-01"),
        to: os("/tmp/source/releases/source-01"),
    };
    for kind in ["trial", "command", "release", "promotion"] {
        let mut fake = Fake::default();
        let layout = layout("source-01");
        fake.write_package(&staging_of(&layout), TARGET, "first");
        match kind {
            "trial" => fake.trials = vec![Some("boom".to_owned())],
            "command" => fake.write("/tmp/bin/codex", b"#!/bin/sh\n", 0o755),
            "release" => fake.write("/tmp/source/releases/source-01/marker", b"old", 0o644),
            _ => fake.fail_on = Some(promotion()),
        }
        let before = fake.nodes.clone();
        let installer = fake.install(&layout);
        assert!(matches!(installer.phase(), InstallPhase::Failed(_)), "{kind}");
        for (path, node) in &before {
            assert_eq!(fake.nodes.get(path), Some(node), "{kind}: {path}");
        }
        let added: Vec<&String> =
            fake.nodes.keys().filter(|path| !before.contains_key(*path)).collect();
        assert!(added.is_empty() || added == ["/tmp/source/releases"], "{kind}: {added:?}");
    }
}

#[test]
fn installed_releases_hold_what_was_staged() {
    let mut fake = Fake::default();
    let layout = layout("source-01");
    let staging = staging_of(&layout);
    fake.write_package(&staging, TARGET, "first");
    let staged: Vec<(String, Node)> = fake
        .below(&staging)
        .into_iter()
        .map(|path| (path[staging.len()..].to_owned(), fake.nodes[&path].clone()))
        .collect();
    assert_eq!(fake.install(&layout).result(), Some(Ok(())));
    let release = "/tmp/source/releases/source-01";
    let installed: Vec<(String, Node)> = fake
        .below(release)
        .into_iter()
        .map(|path| (path[release.len()..].to_owned(), fake.nodes[&path].clone()))
        .collect();
    assert_eq!(installed, staged);
    let moves = fake
        .log
        .iter()
        .filter(|op| matches!(op, Operation::Rename { to, .. } if *to == os(release)))
        .count();
    assert_eq!(moves, 1);
}

#[test]
fn each_failure_after_the_switch_is_rolled_back() {
    let swap = Operation::Rename { from: os("/tmp/bin/.codex.7"), to: os("/tmp/bin/codex") };
    let link = Operation::Symlink {
        target: os("/tmp/source/current/bin/codex"),
        link: os("/tmp/bin/.codex.7"),
    };
    let make = Operation::CreateDirAll(os("/tmp/bin"));
    for (first, op, reason) in [
        (true, Some(make), "out of order"),
        (true, Some(link), "out of order"),
        (true, Some(swap), "replace symlink /tmp/bin/codex: out of order"),
        (true, None, "does not start"),
        (false, None, "does not start"),
    ] {
        let mut fake = Fake::default();
        if first {
            let first = layout("source-01");
            fake.write_package(&staging_of(&first), TARGET, "first");
            assert_eq!(fake.install(&first).result(), Some(Ok(())));
            fake.nodes.remove("/tmp/bin/codex");
        }
        let before = fake.nodes.clone();
        let second = layout("source-02");
        fake.write_package(&staging_of(&second), TARGET, "second");
        match op {
            Some(op) => fake.fail_on = Some(op),
            None => fake.trials = vec![Some("does not start".to_owned()), None],
        }
        let installer = fake.install(&second);
        assert!(matches!(installer.phase(), InstallPhase::RolledBack(_)));
        assert_eq!(
            error_of(&installer).detail(),
            format!("source package activation rolled back: {reason}")
        );
        for (path, node) in &before {
            assert_eq!(fake.nodes.get(path), Some(node), "{path}");
        }
        assert_eq!(fake.link("/tmp/source/current").is_some(), first);
        assert!(fake.find("/tmp/source/releases/source-02").is_none());
        assert_eq!(fake.link("/tmp/bin/codex"), None);
    }
}

#[test]
fn only_a_rollback_that_fails_leaves_a_failed_release_current() {
    let first = layout("source-01");
    let second = layout("source-02");
    let back = Operation::Symlink {
        target: os("/tmp/source/releases/source-01"),
        link: os("/tmp/source/.current.7"),
    };
    let mut fake = Fake::default();
    fake.write_package(&staging_of(&first), TARGET, "first");
    assert_eq!(fake.install(&first).result(), Some(Ok(())));
    fake.write_package(&staging_of(&second), TARGET, "second");
    fake.trials = vec![Some("does not start".to_owned()), None];
    fake.fail_on = Some(back);
    let installer = fake.install(&second);
    assert!(matches!(installer.phase(), InstallPhase::Failed(_)));
    assert_eq!(fake.link("/tmp/source/current").unwrap(), "/tmp/source/releases/source-02");
    assert!(fake.find("/tmp/source/releases/source-01").is_some());
    assert_eq!(fake.link("/tmp/bin/codex").unwrap(), "/tmp/source/current/bin/codex");
}

#[test]
fn a_missing_link_does_not_stop_a_rollback() {
    let layout = layout("source-01");
    let mut installer = install_source_package(layout.duplicate(), TARGET, 7);
    let mut fake = Fake { trials: vec![Some("bad".to_owned()), None], ..Fake::default() };
    fake.write_package(&staging_of(&layout), TARGET, "first");
    while let Some(op) = installer.operation() {
        if let InstallPhase::RemoveLink(_) = installer.phase() {
            fake.nodes.remove("/tmp/source/current");
        }
        let outcome = fake.perform(&op);
        installer.advance(outcome);
    }
    assert!(matches!(installer.phase(), InstallPhase::RolledBack(_)));
}

#[test]
fn releases_that_cannot_be_pruned_are_only_warned_about() {
    let mut fake = Fake::default();
    for name in ["source-01", "source-02", "source-03"] {
        let layout = layout(name);
        fake.write_package(&staging_of(&layout), TARGET, name);
        fake.fail_on = Some(Operation::RemoveDirAll(os("/tmp/source/releases/source-01")));
        let installer = fake.install(&layout);
        assert_eq!(installer.result(), Some(Ok(())));
        assert_eq!(
            installer.report(),
            [
                format!("Installed complete source package to /tmp/source/releases/{name}"),
                "Active source package: /tmp/source/current".to_owned(),
                "Codex command: /tmp/bin/codex".to_owned(),
            ]
        );
        let warning = installer.warning();
        if name == "source-03" {
            assert_eq!(
                warning.as_deref(),
                Some("Warning: could not prune old Codex source releases: out of order")
            );
        } else {
            assert_eq!(warning, None);
        }
    }
}

#[test]
fn releases_that_cannot_be_listed_are_only_warned_about() {
    let mut fake = Fake {
        fail_on: Some(Operation::ListReadable(os("/tmp/source/releases"))),
        ..Fake::default()
    };
    let layout = layout("source-01");
    fake.write_package(&staging_of(&layout), TARGET, "first");
    let installer = fake.install(&layout);
    assert_eq!(installer.result(), Some(Ok(())));
    assert!(installer.warning().is_some());
}

#[test]
fn outcomes_that_answer_nothing_are_ignored() {
    let layout = layout("source-01");
    let mut installer = install_source_package(layout.duplicate(), TARGET, 7);
    installer.advance(Outcome::Done);
    assert_eq!(installer, install_source_package(layout, TARGET, 7));
}

// ---------------------------------------------------------------------------------------------
// Checking packages
// ---------------------------------------------------------------------------------------------

#[test]
fn complete_packages_pass_the_check() {
    let mut fake = Fake::default();
    fake.write_package("/tmp/package", TARGET, "complete");
    assert_eq!(fake.check("/tmp/package").phase(), &CheckPhase::Passed);
}

#[test]
fn each_flaw_of_a_package_is_named() {
    let rejection = |fake: &mut Fake| match fake.check("/tmp/package").phase() {
        CheckPhase::Rejected(failure) => failure.detail(),
        other => panic!("expected a rejection, found {other:?}"),
    };
    let whole = |fake: &mut Fake| fake.write_package("/tmp/package", TARGET, "x");

    let mut fake = Fake::default();
    assert_eq!(rejection(&mut fake), "read /tmp/package/codex-package.json: no such file");

    whole(&mut fake);
    fake.write("/tmp/package/codex-package.json", b"{", 0o644);
    assert_eq!(rejection(&mut fake), "EOF while parsing an object at line 1 column 1");

    fake.write("/tmp/package/codex-package.json", b"[]", 0o644);
    assert_eq!(
        rejection(&mut fake),
        "invalid source package metadata field `layoutVersion`: expected 1, found null"
    );

    fake.write("/tmp/package/codex-package.json", b"{\"layoutVersion\": 1.0}", 0o644);
    assert_eq!(
        rejection(&mut fake),
        "invalid source package metadata field `layoutVersion`: expected 1, found 1.0"
    );

    whole(&mut fake);
    fake.nodes.remove("/tmp/package/codex-resources/bwrap");
    assert_eq!(
        rejection(&mut fake),
        "source package is missing executable /tmp/package/codex-resources/bwrap"
    );

    whole(&mut fake);
    fake.write("/tmp/package/codex-path/rg", b"", 0o644);
    assert_eq!(
        rejection(&mut fake),
        "source package file is not executable: /tmp/package/codex-path/rg"
    );

    whole(&mut fake);
    fake.fail_on = Some(Operation::InspectFile(os("/tmp/package/bin/codex")));
    assert_eq!(rejection(&mut fake), "out of order");
}

#[test]
fn what_is_expected_is_shown_as_json() {
    let target = "a\"b\\\u{8}\t\n\u{c}\r\u{0}\u{1f}\u{7f}\u{e9}";
    let mut check = validate_source_package(&os("/p"), target);
    check.advance(Outcome::Bytes(b"{\"layoutVersion\":1,\"target\":[1, \"x\"]}".to_vec()));
    match check.phase() {
        CheckPhase::Rejected(failure) => assert_eq!(
            failure.detail(),
            "invalid source package metadata field `target`: expected \
             \"a\\\"b\\\\\\b\\t\\n\\f\\r\\u0000\\u001f\u{7f}\u{e9}\", found [1,\"x\"]"
        ),
        other => panic!("expected a rejection, found {other:?}"),
    }
}

// ---------------------------------------------------------------------------------------------
// Replacing links
// ---------------------------------------------------------------------------------------------

#[test]
fn links_are_replaced_by_way_of_another_name() {
    let mut fake = Fake::default();
    fake.make_dirs("/a");
    fake.nodes.insert("/a/l".to_owned(), Node::Link("/old".to_owned()));
    fake.nodes.insert("/a/.l.42".to_owned(), Node::Link("/left".to_owned()));
    let mut replacement = replace_symlink(&os("/a/l"), &os("/new"), 42);
    let mut seen = Vec::new();
    while let Some(op) = replacement.operation() {
        seen.push(fake.link("/a/l").expect("the link is never missing"));
        let outcome = fake.perform(&op);
        replacement.advance(outcome);
    }
    assert_eq!(replacement.phase(), &LinkPhase::Replaced);
    assert_eq!(fake.link("/a/l").unwrap(), "/new");
    assert_eq!(fake.link("/a/.l.42"), None);
    assert_eq!(seen, ["/old"; 4]);
}

#[test]
fn links_that_cannot_be_replaced_stay_as_they_are() {
    for op in [
        Operation::CreateDirAll(os("/a")),
        Operation::Symlink { target: os("/new"), link: os("/a/.l.42") },
        Operation::Rename { from: os("/a/.l.42"), to: os("/a/l") },
    ] {
        let mut fake = Fake { fail_on: Some(op), ..Fake::default() };
        fake.make_dirs("/a");
        fake.nodes.insert("/a/l".to_owned(), Node::Link("/old".to_owned()));
        let mut replacement = replace_symlink(&os("/a/l"), &os("/new"), 42);
        while let Some(op) = replacement.operation() {
            let outcome = fake.perform(&op);
            replacement.advance(outcome);
            assert_eq!(fake.link("/a/l").as_deref(), Some("/old"));
        }
        assert!(matches!(replacement.phase(), LinkPhase::NotReplaced(_)));
        assert_eq!(fake.link("/a/.l.42"), None);
    }
}

#[test]
fn links_without_a_directory_are_not_replaced() {
    match replace_symlink(&os("/"), &os("/new"), 1).phase() {
        LinkPhase::NotReplaced(failure) => {
            assert_eq!(failure.detail(), "symlink path has no parent: /");
        }
        other => panic!("expected a failure, found {other:?}"),
    }
}

#[test]
fn links_without_a_name_in_utf8_get_a_stand_in() {
    let mut path = os("/a/");
    path.push(&[0xff]);
    let mut replacement = replace_symlink(&path, &os("/new"), 3);
    replacement.advance(Outcome::Done);
    assert_eq!(replacement.operation(), Some(Operation::RemoveFile(os("/a/.link.3"))));
}

// ---------------------------------------------------------------------------------------------
// The lock
// ---------------------------------------------------------------------------------------------

#[test]
fn a_lock_that_was_left_behind_is_replaced() {
    let layout = layout("one");
    for (age, running, expected) in [
        (Some(600), false, true),
        (Some(599), false, false),
        (Some(600), true, false),
        (None, false, false),
    ] {
        let mut fake = Fake::default();
        assert!(fake.acquire(&layout, 31).held().is_some());
        if let Some(age) = age {
            fake.ages.insert("/tmp/source/update.lock".to_owned(), age);
        }
        if running {
            fake.running.push("31".to_owned());
        }
        assert_eq!(fake.acquire(&layout, 32).held().is_some(), expected);
        let owner = if expected { "32\n" } else { "31\n" };
        assert_eq!(fake.read("/tmp/source/update.lock").unwrap(), owner);
    }
}

#[test]
fn a_lock_that_is_no_text_names_no_process() {
    let layout = layout("one");
    let mut fake = Fake::default();
    fake.write("/tmp/source/update.lock", &[0xff, 0xfe], 0o644);
    fake.ages.insert("/tmp/source/update.lock".to_owned(), 601);
    assert!(fake.acquire(&layout, 5).held().is_some());
}

#[test]
fn failures_to_get_the_lock_are_reported() {
    let layout = layout("one");
    let lock_file = "/tmp/source/update.lock";
    let refusal = |fake: &mut Fake| match fake.acquire(&layout, 5).phase() {
        LockPhase::Refused(failure) => failure.detail(),
        other => panic!("expected a refusal, found {other:?}"),
    };
    let mut fake = Fake {
        fail_on: Some(Operation::CreateDirAll(os("/tmp/source"))),
        ..Fake::default()
    };
    assert_eq!(refusal(&mut fake), "out of order");
    let create = Operation::CreateNew { path: os(lock_file), text: "5\n".to_owned() };
    let mut fake = Fake { fail_on: Some(create), ..Fake::default() };
    assert_eq!(refusal(&mut fake), "create source-update lock: out of order");
    let mut fake = Fake {
        fail_on: Some(Operation::RemoveFile(os(lock_file))),
        ..Fake::default()
    };
    fake.write(lock_file, b"1\n", 0o644);
    fake.ages.insert(lock_file.to_owned(), 1000);
    assert_eq!(refusal(&mut fake), "remove stale source-update lock: out of order");
}

// ---------------------------------------------------------------------------------------------
// Staging
// ---------------------------------------------------------------------------------------------

#[test]
fn leftovers_of_earlier_builds_are_removed() {
    let mut fake = Fake::default();
    let layout = layout("source-02");
    fake.write("/tmp/source/.staging-source-01/bin/codex", b"", 0o755);
    fake.write("/tmp/source/.staging-file", b"", 0o644);
    fake.write("/tmp/source/.stagingother", b"", 0o644);
    fake.make_dirs("/tmp/source/releases/source-00");
    let mut preparation = prepare_staging_dir(&layout);
    while let Some(op) = preparation.operation() {
        let outcome = fake.perform(&op);
        preparation.advance(outcome);
    }
    assert_eq!(preparation.phase(), &StagingPhase::Ready);
    let names: Vec<String> =
        fake.children("/tmp/source").into_iter().map(|(name, _)| name).collect();
    assert_eq!(names, [".stagingother", "releases"]);
    assert_eq!(fake.children("/tmp/source/releases").len(), 1);
}

#[test]
fn failures_to_prepare_are_reported() {
    for op in [
        Operation::CreateDirAll(os("/tmp/source/releases")),
        Operation::OpenDir(os("/tmp/source")),
        Operation::NextEntry(os("/tmp/source")),
        Operation::RemoveFile(os("/tmp/source/.staging-x")),
    ] {
        let mut fake = Fake { fail_on: Some(op), ..Fake::default() };
        fake.write("/tmp/source/.staging-x", b"", 0o644);
        let mut preparation = prepare_staging_dir(&layout("source-02"));
        while let Some(op) = preparation.operation() {
            let outcome = fake.perform(&op);
            preparation.advance(outcome);
        }
        assert_eq!(preparation.phase(), &StagingPhase::Failed(Failure::of("out of order")));
    }
}

#[test]
fn leftovers_before_an_unreadable_entry_are_removed() {
    let mut fake = Fake::default();
    fake.write("/tmp/source/.staging-a", b"", 0o644);
    fake.make_dirs("/tmp/source/.staging-b");
    fake.write(&format!("/tmp/source/{UNREADABLE}"), b"", 0o644);
    fake.write("/tmp/source/.staging-z", b"", 0o644);
    let mut preparation = prepare_staging_dir(&layout("source-02"));
    while let Some(op) = preparation.operation() {
        let outcome = fake.perform(&op);
        preparation.advance(outcome);
    }
    assert_eq!(preparation.phase(), &StagingPhase::Failed(Failure::of("unreadable")));
    let names: Vec<String> =
        fake.children("/tmp/source").into_iter().map(|(name, _)| name).collect();
    assert_eq!(names, [UNREADABLE, ".staging-z", "releases"]);
}

#[test]
fn staging_directories_are_discarded_whatever_they_are() {
    let layout = layout("source-02");
    let staging = "/tmp/source/.staging-source-02";
    for kind in ["directory", "file", "nothing"] {
        let mut fake = Fake::default();
        match kind {
            "directory" => fake.write(&format!("{staging}/bin/codex"), b"", 0o755),
            "file" => fake.write(staging, b"", 0o644),
            _ => {}
        }
        let mut discard = discard_staging_dir(&layout);
        while let Some(op) = discard.operation() {
            let outcome = fake.perform(&op);
            discard.advance(outcome);
        }
        assert_eq!(discard.phase(), DiscardPhase::Over);
        assert!(fake.find(staging).is_none());
    }
}
