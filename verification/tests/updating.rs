//! Updating from a source checkout, with commands that end as planned.

use source_update::agent::{agent_assisted_update_command, shorten};
use source_update::attempt::{try_source_git_update, AttemptPhase, UpdateAttempt};
use source_update::checkout::{
    check_command, ensure_source_checkout_clean, merge_failure_text, read_conflicts,
};
use source_update::command::CommandLine;
use source_update::failure::Failure;
use source_update::io::{ErrorKind, LinkState, Operation, Outcome};
use source_update::layout::{source_release_name, SourceInstallLayout};
use source_update::notice::Notice;
use source_update::os_text::OsText;
use source_update::packaging::{
    source_build_target, source_package_build_command, source_update_display_version,
    target_packs_bwrap, with_build_record, with_system_bwrap,
};
use source_update::readiness::{
    parse_announcement, smoke_test_code_mode_host, smoke_test_package, Trial, TrialAction,
    TrialOutcome, TrialPhase,
};
use source_update::source_update::{run_source_git_update, SourceUpdate, UpdatePhase};
use source_update::transport::{
    readiness_request, refusal, Listener, RequestHead, HTTP_VERSION_NOT_SUPPORTED,
};

fn os(text: &str) -> OsText {
    OsText::from_text(text)
}

fn args(command: &CommandLine) -> Vec<String> {
    command.args.iter().map(|arg| String::from_utf8(arg.bytes.clone()).unwrap()).collect()
}

fn exit(success: bool, stdout: &str) -> Outcome {
    let status = if success { "exit status: 0" } else { "exit status: 1" };
    Outcome::Exit {
        success,
        status: status.to_owned(),
        stdout: stdout.as_bytes().to_vec(),
    }
}

fn failed(message: &str) -> Outcome {
    Outcome::Failed { kind: ErrorKind::Other, failure: Failure::of(message) }
}

// ---------------------------------------------------------------------------------------------
// Commands
// ---------------------------------------------------------------------------------------------

#[test]
fn agent_assisted_update_runs_codex_in_checkout_with_failure_context() {
    let codex_bin = os("/opt/codex/bin/codex");
    let build_dir = os("/work/codex");
    let failure = Failure::of(
        "git merge failed with status 1. Conflicted paths before abort:\ncli/src/main.rs",
    );

    let command = agent_assisted_update_command(&codex_bin, &build_dir, "0.145.0", &failure);
    let args = args(&command);

    assert_eq!(command.program, codex_bin);
    assert_eq!(command.current_dir, Some(build_dir));
    assert_eq!(
        &args[..5],
        &["exec", "--cd", "/work/codex", "-c", "check_for_update_on_startup=false"]
    );
    let prompt = &args[5];
    assert!(prompt.contains("Repository: /work/codex"));
    assert!(prompt.contains("Target Codex release: 0.145.0"));
    assert!(prompt.contains(
        "Failure: git merge failed with status 1. Conflicted paths before abort:\ncli/src/main.rs"
    ));
    assert!(prompt.contains("merge upstream/main"));
    assert!(prompt.contains("Do not merely explain the steps; perform the work."));
    assert_eq!(args.len(), 6);
}

#[test]
fn source_package_build_uses_supported_packaging_path() {
    let build_dir = os("/work/codex");
    let package_dir = os("/work/codex/codex-rs/target/source-update-package");

    let command = source_package_build_command(&build_dir, &package_dir, "x86_64-unknown-linux-gnu");

    assert_eq!(command.program, os("python3"));
    assert_eq!(command.current_dir, Some(build_dir));
    assert_eq!(
        args(&command),
        [
            "/work/codex/scripts/build_codex_package.py",
            "--target",
            "x86_64-unknown-linux-gnu",
            "--cargo-profile",
            "release",
            "--package-dir",
            "/work/codex/codex-rs/target/source-update-package",
            "--force",
        ]
    );
}

#[test]
fn the_bubblewrap_of_the_system_is_packed_where_there_is_one() {
    let command = || source_package_build_command(&os("/w"), &os("/p"), "t");
    assert_eq!(with_system_bwrap(command(), &None), command());
    let told = with_system_bwrap(command(), &Some(os("/usr/bin/bwrap")));
    assert_eq!(args(&told)[8..], ["--bwrap-bin", "/usr/bin/bwrap"]);
    assert!(target_packs_bwrap("aarch64-unknown-linux-musl"));
    assert!(!target_packs_bwrap("aarch64-apple-darwin"));
}

#[test]
fn a_build_records_where_it_comes_from() {
    let command = with_build_record(
        source_package_build_command(&os("/w"), &os("/p"), "t"),
        "2026.01.02 local",
        &os("/w"),
        "0.145.0",
    );
    assert_eq!(
        command.env,
        [
            ("CODEX_CLI_DISPLAY_VERSION".to_owned(), os("2026.01.02 local")),
            ("CODEX_CLI_BUILD_DIR".to_owned(), os("/w")),
            ("CODEX_CLI_UPDATE_BASE_VERSION".to_owned(), os("0.145.0")),
        ]
    );
}

#[test]
fn long_failures_are_cut() {
    let short = "é".repeat(4_000);
    assert_eq!(shorten(&short), short);
    assert_eq!(shorten(&"é".repeat(4_001)), format!("{short}…"));
}

#[test]
fn the_host_target_is_read_from_the_compiler() {
    let output = b"rustc 1.90.0\nbinary: rustc\r\nhost: x86_64-unknown-linux-gnu\r\nhost: other\n";
    assert_eq!(
        source_build_target(true, "", output.to_vec()),
        Ok("x86_64-unknown-linux-gnu".to_owned())
    );
    assert_eq!(
        source_build_target(false, "exit status: 1", output.to_vec()),
        Err("`rustc -vV` failed with status exit status: 1".to_owned())
    );
    assert_eq!(
        source_build_target(true, "", b"rustc 1.90.0\n".to_vec()),
        Err("`rustc -vV` output did not include a host target".to_owned())
    );
    assert_eq!(
        source_build_target(true, "", vec![b'a', 0xff]),
        Err("invalid utf-8 sequence of 1 bytes from index 1".to_owned())
    );
}

#[test]
fn the_date_is_shown_for_local_builds() {
    let version = |success: bool, stdout: &[u8]| {
        source_update_display_version("0.145.0", success, &stdout.to_vec())
    };
    assert_eq!(version(true, b"2026.01.02\n"), "2026.01.02 local");
    assert_eq!(version(false, b"2026.01.02\n"), "0.145.0 local");
    assert_eq!(version(true, b" \n"), "0.145.0 local");
    assert_eq!(version(true, &[0xff]), "0.145.0 local");
}

#[test]
fn checkouts_must_be_clean() {
    let dir = os("/work/codex");
    assert_eq!(ensure_source_checkout_clean(&dir, true, "", &Vec::new()), None);
    assert_eq!(
        ensure_source_checkout_clean(&dir, true, "", &b" M a\n".to_vec()).unwrap(),
        "Source checkout at /work/codex has uncommitted changes. Commit, stash, or discard them before updating."
    );
    assert_eq!(
        ensure_source_checkout_clean(&dir, false, "exit status: 128", &Vec::new()).unwrap(),
        "`git status --porcelain` failed with status exit status: 128"
    );
    assert_eq!(check_command("git pull --ff-only", true, ""), None);
    assert_eq!(
        check_command("git pull --ff-only", false, "exit status: 1").unwrap(),
        "`git pull --ff-only` failed with status exit status: 1"
    );
}

#[test]
fn conflicts_are_named_when_a_merge_fails() {
    assert_eq!(read_conflicts(true, &b"a.rs\nb.rs\n".to_vec()), Some("a.rs\nb.rs".to_owned()));
    assert_eq!(read_conflicts(true, &b"\n".to_vec()), None);
    assert_eq!(read_conflicts(false, &b"a.rs\n".to_vec()), None);
    assert_eq!(read_conflicts(true, &vec![0xff]), None);
    assert_eq!(
        read_conflicts(true, &"x".repeat(5_000).into_bytes()).unwrap().len(),
        4_000
    );
    assert_eq!(
        merge_failure_text("exit status: 1", &Some("a.rs".to_owned())),
        "`git merge --no-edit upstream/main` failed with status exit status: 1. The merge was aborted. Conflicted paths before abort:\na.rs"
    );
    assert_eq!(
        merge_failure_text("exit status: 1", &None),
        "`git merge --no-edit upstream/main` failed with status exit status: 1. The merge was aborted."
    );
}

#[test]
fn releases_are_named_after_time_process_and_target() {
    assert_eq!(
        source_release_name("x86_64-unknown-linux-gnu", 1_700_000_000_123_456_789, 42),
        "source-1700000000123456789-42-x86_64-unknown-linux-gnu"
    );
    assert_eq!(source_release_name("t", 0, 0), "source-0-0-t");
}

#[test]
fn the_layout_follows_the_environment() {
    let layout = SourceInstallLayout::for_environment(
        "t",
        &os("/home/me/.codex"),
        &Some(os("/home/me")),
        &None,
        5,
        6,
    )
    .expect("layout");
    assert_eq!(layout.source_root(), &os("/home/me/.codex/packages/source"));
    assert_eq!(layout.releases_dir(), &os("/home/me/.codex/packages/source/releases"));
    assert_eq!(
        layout.staging_dir(),
        &os("/home/me/.codex/packages/source/.staging-source-5-6-t")
    );
    assert_eq!(
        layout.release_dir(),
        &os("/home/me/.codex/packages/source/releases/source-5-6-t")
    );
    assert_eq!(layout.current_link(), &os("/home/me/.codex/packages/source/current"));
    assert_eq!(layout.visible_bin(), &os("/home/me/.local/bin/codex"));
    let elsewhere = SourceInstallLayout::for_environment(
        "t",
        &os("/home/me/.codex"),
        &Some(os("/home/me")),
        &Some(os("/opt/bin")),
        5,
        6,
    )
    .expect("layout");
    assert_eq!(elsewhere.visible_bin(), &os("/opt/bin/codex"));
    assert_eq!(
        SourceInstallLayout::for_environment("t", &os("/c"), &None, &Some(os("/opt/bin")), 5, 6)
            .expect_err("no home")
            .detail(),
        "HOME is not set; cannot install a source update"
    );
}

// ---------------------------------------------------------------------------------------------
// Attempts
// ---------------------------------------------------------------------------------------------

const RUSTC: &str = "host: x86_64-unknown-linux-gnu\n";

fn metadata() -> Vec<u8> {
    format!(
        "{{\"layoutVersion\":1,\"target\":\"{}\",\"variant\":\"codex\",\"entrypoint\":\"bin/codex\",\"resourcesDir\":\"codex-resources\",\"pathDir\":\"codex-path\"}}",
        "x86_64-unknown-linux-gnu"
    )
    .into_bytes()
}

/// What is answered where nothing goes wrong.
fn fair(op: &Operation) -> Outcome {
    match op {
        Operation::Capture(command) => match args(command)[0].as_str() {
            "status" => exit(true, ""),
            "remote" => exit(true, "url\n"),
            "+%Y.%m.%d" => exit(true, "2026.01.02\n"),
            "-vV" => exit(true, RUSTC),
            other => panic!("unexpected command {other}"),
        },
        Operation::Run(_) => exit(true, ""),
        Operation::LookUpEnvironment => Outcome::Environment {
            codex_home: os("/c"),
            home: Some(os("/h")),
            install_dir: None,
            timestamp: 1,
        },
        Operation::FindBwrap => Outcome::Path(Some(os("/usr/bin/bwrap"))),
        Operation::ReadFile(_) => Outcome::Bytes(metadata()),
        Operation::InspectFile(_) => Outcome::File { is_file: true, mode: 0o755 },
        Operation::InspectLink(_) => Outcome::Link(LinkState::Absent),
        Operation::Exists(_) => Outcome::Flag(false),
        Operation::IsDir(_) => Outcome::Flag(true),
        Operation::NextEntry(_) => Outcome::Entry(None),
        Operation::ListReadable(_) => Outcome::Entries(Vec::new()),
        Operation::CurrentExe => Outcome::Path(Some(os("/opt/codex"))),
        _ => Outcome::Done,
    }
}

/// Short names of the operations of a run.
fn name(op: &Operation) -> String {
    match op {
        Operation::Run(command) | Operation::Capture(command) => {
            let program = String::from_utf8(command.program.bytes.clone()).unwrap();
            format!("{program} {}", args(command)[0])
        }
        Operation::RemoveFile(path) => {
            format!("remove {}", String::from_utf8(path.bytes.clone()).unwrap())
        }
        Operation::RemoveDirAll(path) => {
            format!("remove all {}", String::from_utf8(path.bytes.clone()).unwrap())
        }
        Operation::CreateNew { .. } => "lock".to_owned(),
        Operation::SmokeTest(_) => "trial".to_owned(),
        _ => "other".to_owned(),
    }
}

fn run_attempt(answer: impl Fn(&Operation) -> Outcome) -> (UpdateAttempt, Vec<String>, Vec<Notice>) {
    let mut attempt = try_source_git_update(&os("/work/codex"), "0.145.0", 9);
    let mut names = Vec::new();
    let mut notices = Vec::new();
    while let Some(op) = attempt.operation() {
        notices.extend(attempt.notices());
        let name = name(&op);
        if name != "other" {
            names.push(name);
        }
        attempt.advance(answer(&op));
    }
    (attempt, names, notices)
}

fn failure_of(attempt: &UpdateAttempt) -> String {
    match attempt.phase() {
        AttemptPhase::Failed(failure) => failure.detail(),
        other => panic!("expected a failure, found {other:?}"),
    }
}

#[test]
fn an_attempt_merges_builds_and_installs() {
    let (attempt, names, notices) = run_attempt(fair);
    assert_eq!(attempt.phase(), &AttemptPhase::Succeeded);
    assert_eq!(
        names,
        [
            "git status",
            "git remote",
            "git fetch",
            "git merge",
            "date +%Y.%m.%d",
            "rustc -vV",
            "lock",
            "python3 /work/codex/scripts/build_codex_package.py",
            "trial",
            "remove /c/packages/source/.current.9",
            "trial",
            "remove /h/.local/bin/.codex.9",
            "remove /c/packages/source/update.lock",
        ]
    );
    let lines: Vec<String> = notices
        .into_iter()
        .map(|notice| match notice {
            Notice::Line(text) => text,
            Notice::Warning(text) => panic!("unexpected warning {text}"),
        })
        .collect();
    let release = "/c/packages/source/releases/source-1-9-x86_64-unknown-linux-gnu";
    assert_eq!(
        lines,
        [
            "Running `git fetch upstream main`...".to_owned(),
            "Running `git merge --no-edit upstream/main`...".to_owned(),
            "Running `build Codex source package`...".to_owned(),
            format!("Installed complete source package to {release}"),
            "Active source package: /c/packages/source/current".to_owned(),
            "Codex command: /h/.local/bin/codex".to_owned(),
        ]
    );
}

#[test]
fn the_build_command_is_complete() {
    let mut attempt = try_source_git_update(&os("/work/codex"), "0.145.0", 9);
    while let Some(op) = attempt.operation() {
        if let AttemptPhase::Build(..) = attempt.phase() {
            let Operation::Run(command) = op else { panic!("a build runs a command") };
            assert_eq!(args(&command)[8..], ["--bwrap-bin", "/usr/bin/bwrap"]);
            assert_eq!(command.env[0].1, os("2026.01.02 local"));
            assert_eq!(command.env[2].1, os("0.145.0"));
            assert_eq!(
                args(&command)[6],
                "/c/packages/source/.staging-source-1-9-x86_64-unknown-linux-gnu"
            );
            return;
        }
        attempt.advance(fair(&op));
    }
    panic!("no build");
}

#[test]
fn checkouts_without_upstream_are_pulled() {
    let (attempt, names, _) = run_attempt(|op| match op {
        Operation::Capture(command) if args(command)[0] == "remote" => exit(false, ""),
        other => fair(other),
    });
    assert_eq!(attempt.phase(), &AttemptPhase::Succeeded);
    assert_eq!(names[2], "git pull");
}

#[test]
fn unclean_checkouts_stop_an_attempt_at_once() {
    let (attempt, names, _) = run_attempt(|op| match op {
        Operation::Capture(_) => exit(true, " M a\n"),
        other => fair(other),
    });
    assert!(failure_of(&attempt).contains("uncommitted changes"));
    assert_eq!(names, ["git status"]);
}

#[test]
fn merges_that_fail_are_aborted() {
    let (attempt, names, _) = run_attempt(|op| match op {
        Operation::Run(command) if args(command)[0] == "merge" => exit(false, ""),
        Operation::Capture(command) if args(command)[0] == "diff" => exit(true, "a.rs\n"),
        other => fair(other),
    });
    assert_eq!(
        failure_of(&attempt),
        "`git merge --no-edit upstream/main` failed with status exit status: 1. The merge was aborted. Conflicted paths before abort:\na.rs"
    );
    assert_eq!(names[3..], ["git merge", "git diff", "git merge"]);
}

#[test]
fn builds_that_fail_are_discarded_and_the_lock_is_given_back() {
    let (attempt, names, _) = run_attempt(|op| match op {
        Operation::Run(command) if command.program == os("python3") => exit(false, ""),
        other => fair(other),
    });
    assert_eq!(
        failure_of(&attempt),
        "`build Codex source package` failed with status exit status: 1"
    );
    assert_eq!(
        names[8..],
        [
            "remove all /c/packages/source/.staging-source-1-9-x86_64-unknown-linux-gnu",
            "remove /c/packages/source/update.lock",
        ]
    );
}

#[test]
fn installations_that_fail_give_the_lock_back() {
    let (attempt, names, _) = run_attempt(|op| match op {
        Operation::SmokeTest(_) => failed("boom"),
        other => fair(other),
    });
    assert_eq!(failure_of(&attempt), "staged source package smoke test failed: boom");
    assert_eq!(names.last().unwrap(), "remove /c/packages/source/update.lock");
}

#[test]
fn attempts_need_a_home_directory() {
    let (attempt, _, _) = run_attempt(|op| match op {
        Operation::LookUpEnvironment => Outcome::Environment {
            codex_home: os("/c"),
            home: None,
            install_dir: None,
            timestamp: 1,
        },
        other => fair(other),
    });
    assert_eq!(failure_of(&attempt), "HOME is not set; cannot install a source update");
}

#[test]
fn an_attempt_without_a_date_shows_the_release() {
    let (attempt, _, _) = run_attempt(|op| match op {
        Operation::Capture(command) if command.program == os("date") => failed("no date"),
        Operation::Run(command) if command.program == os("python3") => {
            assert_eq!(command.env[0].1, os("0.145.0 local"));
            exit(true, "")
        }
        other => fair(other),
    });
    assert_eq!(attempt.phase(), &AttemptPhase::Succeeded);
}

// ---------------------------------------------------------------------------------------------
// Updates
// ---------------------------------------------------------------------------------------------

fn run_update(mut answer: impl FnMut(&Operation) -> Outcome) -> (SourceUpdate, Vec<String>) {
    let mut update = run_source_git_update(false, &os("/work/codex"), "0.145.0", 9);
    let mut lines = Vec::new();
    loop {
        for notice in update.notices() {
            match notice {
                Notice::Line(text) | Notice::Warning(text) => lines.push(text),
            }
        }
        match update.operation() {
            Some(op) => update.advance(answer(&op)),
            None => return (update, lines),
        }
    }
}

#[test]
fn windows_is_not_supported() {
    let update = run_source_git_update(true, &os("/work/codex"), "0.145.0", 9);
    assert_eq!(update.operation(), None);
    assert_eq!(
        update.phase(),
        &UpdatePhase::Failed(Failure::of(
            "Source-build auto-update is not supported on Windows yet. Fetch upstream changes and rebuild Codex manually."
        ))
    );
}

#[test]
fn updates_that_work_need_no_repair() {
    let (update, lines) = run_update(|op| {
        assert_ne!(op, &Operation::CurrentExe);
        fair(op)
    });
    assert_eq!(update.phase(), &UpdatePhase::Succeeded);
    assert_eq!(
        lines[..2],
        ["", "Updating Codex from local source checkout at /work/codex..."]
    );
    assert_eq!(
        lines.last().unwrap(),
        "\n🎉 Source update ran successfully! Please restart Codex."
    );
}

#[test]
fn updates_are_repaired_and_retried_once() {
    let mut pulls = 0;
    let mut repairs = 0;
    let (update, lines) = run_update(|op| match op {
        Operation::Capture(command) if args(command)[0] == "status" => {
            pulls += 1;
            if pulls == 1 {
                exit(true, " M a\n")
            } else {
                exit(true, "")
            }
        }
        Operation::Run(command) if command.program == os("/opt/codex") => {
            repairs += 1;
            assert!(args(command)[5].contains("uncommitted changes"));
            exit(true, "")
        }
        other => fair(other),
    });
    assert_eq!(update.phase(), &UpdatePhase::Succeeded);
    assert_eq!((pulls, repairs), (2, 1));
    assert!(lines[2].starts_with("\nAutomatic source update failed: Source checkout at"));
    assert_eq!(lines[3], "Launching Codex in /work/codex to repair the update...");
    assert_eq!(lines[4], "\nRetrying the source update after agent-assisted recovery...");
}

#[test]
fn repairs_that_fail_name_both_failures() {
    let dirty = |op: &Operation| match op {
        Operation::Capture(_) => failed("no git"),
        Operation::Run(_) => exit(false, ""),
        other => fair(other),
    };
    let (update, _) = run_update(dirty);
    assert_eq!(
        update.phase(),
        &UpdatePhase::Failed(Failure::of(
            "agent-assisted source update failed: agent-assisted source update exited with status exit status: 1. Initial automatic update failure: no git"
        ))
    );
    let (update, _) = run_update(|op| match op {
        Operation::CurrentExe => failed("no program"),
        other => dirty(other),
    });
    assert_eq!(
        update.phase(),
        &UpdatePhase::Failed(Failure::of(
            "agent-assisted source update failed: no program. Initial automatic update failure: no git"
        ))
    );
    let (update, _) = run_update(|op| match op {
        Operation::Capture(_) => failed("no git"),
        other => fair(other),
    });
    assert_eq!(
        update.phase(),
        &UpdatePhase::Failed(Failure::of(
            "source update still failed after agent-assisted recovery: no git. Initial failure: no git"
        ))
    );
}

// ---------------------------------------------------------------------------------------------
// Trials
// ---------------------------------------------------------------------------------------------

fn run_trial(
    mut trial: Trial,
    mut answer: impl FnMut(&TrialAction) -> TrialOutcome,
) -> (Trial, Vec<TrialAction>) {
    let mut actions = Vec::new();
    while let Some(action) = trial.action() {
        trial.advance(answer(&action));
        actions.push(action);
    }
    (trial, actions)
}

fn ready_host(line: &str) -> impl FnMut(&TrialAction) -> TrialOutcome + '_ {
    move |action| match action {
        TrialAction::Run(_) => TrialOutcome::Exit { success: true, status: String::new() },
        TrialAction::AwaitLine(_) => TrialOutcome::Line(line.to_owned()),
        TrialAction::Exchange { .. } => TrialOutcome::Line("HTTP/1.1 200 OK\r\n".to_owned()),
        _ => TrialOutcome::Done,
    }
}

#[test]
fn code_mode_host_smoke_test_checks_readiness_endpoint() {
    let host = os("/tmp/codex-code-mode-host");
    let (trial, actions) =
        run_trial(smoke_test_code_mode_host(&host), ready_host("ws://127.0.0.1:4711\n"));
    assert_eq!(trial.phase(), &TrialPhase::Passed);
    let TrialAction::StartHost(command) = &actions[0] else { panic!("the host is started") };
    assert_eq!(command.program, host);
    assert_eq!(args(command), ["--listen", "grpc://127.0.0.1:0"]);
    assert_eq!(
        actions[1..],
        [
            TrialAction::AwaitLine(15),
            TrialAction::Connect("127.0.0.1:4711".to_owned()),
            TrialAction::Exchange {
                request:
                    "GET /readyz HTTP/1.1\r\nHost: 127.0.0.1:4711\r\nConnection: close\r\n\r\n"
                        .to_owned(),
                seconds: 15,
            },
            TrialAction::StopHost,
        ]
    );
}

#[test]
fn packages_are_tried_out_from_version_to_host() {
    let (trial, actions) =
        run_trial(smoke_test_package(&os("/p")), ready_host("http://127.0.0.1:80\n"));
    assert_eq!(trial.phase(), &TrialPhase::Passed);
    let TrialAction::Run(command) = &actions[0] else { panic!("the version is asked for") };
    assert_eq!(command.program, os("/p/bin/codex"));
    assert_eq!(args(command), ["--version"]);
    let TrialAction::Exchange { request, .. } = &actions[4] else { panic!("the host is asked") };
    assert_eq!(request, &readiness_request(Listener::Grpc, "127.0.0.1:80"));
    assert!(request.starts_with("GET /healthz HTTP/1.1\r\n"));
}

#[test]
fn each_failure_of_a_trial_stops_the_host_and_is_reported() {
    let failure = |answer: &mut dyn FnMut(&TrialAction) -> TrialOutcome| {
        let (trial, actions) = run_trial(smoke_test_package(&os("/p")), |action| answer(action));
        let started = actions.iter().any(|action| matches!(action, TrialAction::StartHost(_)));
        let stopped = actions.contains(&TrialAction::StopHost);
        match trial.phase() {
            TrialPhase::Failed(failure) => (failure.detail(), started && stopped),
            other => panic!("expected a failure, found {other:?}"),
        }
    };
    let mut ready = ready_host("http://127.0.0.1:80\n");
    assert_eq!(
        failure(&mut |action| match action {
            TrialAction::Run(_) => {
                TrialOutcome::Exit { success: false, status: "exit status: 2".to_owned() }
            }
            other => ready(other),
        }),
        ("/p/bin/codex --version exited with exit status: 2".to_owned(), false)
    );
    assert_eq!(
        failure(&mut |action| match action {
            TrialAction::StartHost(_) => TrialOutcome::Failed(Failure::of("denied")),
            other => ready(other),
        }),
        ("start /p/bin/codex-code-mode-host: denied".to_owned(), false)
    );
    assert_eq!(
        failure(&mut |action| match action {
            TrialAction::AwaitLine(_) => TrialOutcome::TimedOut(Failure::of("timed out")),
            other => ready(other),
        }),
        (
            "timed out waiting for code-mode host readiness address: timed out".to_owned(),
            true
        )
    );
    assert_eq!(
        failure(&mut |action| match action {
            TrialAction::AwaitLine(_) => TrialOutcome::Line("ftp://x\n".to_owned()),
            other => ready(other),
        }),
        ("code-mode host returned invalid address: \"ftp://x\\n\"".to_owned(), true)
    );
    assert_eq!(
        failure(&mut |action| match action {
            TrialAction::Connect(_) => TrialOutcome::Failed(Failure::of("refused")),
            other => ready(other),
        }),
        ("connect to code-mode host: refused".to_owned(), true)
    );
    assert_eq!(
        failure(&mut |action| match action {
            TrialAction::Exchange { .. } => {
                TrialOutcome::Line("HTTP/1.1 505 HTTP Version Not Supported\r\n".to_owned())
            }
            other => ready(other),
        }),
        (
            "code-mode host readiness check failed: \"HTTP/1.1 505 HTTP Version Not Supported\\r\\n\""
                .to_owned(),
            true
        )
    );
}

#[test]
fn listeners_admit_the_question_they_are_asked() {
    for (listener, line, path) in [
        (Listener::Grpc, "http://[::1]:9", "/healthz"),
        (Listener::LegacyProbe, "ws://[::1]:9", "/readyz"),
    ] {
        assert_eq!(listener.announcement("[::1]:9"), line);
        assert_eq!(parse_announcement(line), Some((listener, "[::1]:9".to_owned())));
        let request = |http2: bool, method: &str, path: &str| RequestHead {
            http2,
            method: method.to_owned(),
            path: path.to_owned(),
        };
        assert_eq!(refusal(listener, &request(false, "GET", path)), None);
        assert_eq!(refusal(listener, &request(true, "POST", "/any")), None);
        for refused in [request(false, "POST", path), request(false, "GET", "/any")] {
            assert_eq!(refusal(listener, &refused), Some(HTTP_VERSION_NOT_SUPPORTED));
        }
    }
}
