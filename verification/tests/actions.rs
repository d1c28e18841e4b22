//! Choosing an update and its command, and what a build records.

use source_update::os_text::OsText;
use source_update::update_action::{
    get_source_git_update_action, get_update_action, get_update_action_for_version, line_words,
    quoted_or_plain, BuildInfo, InstallContext, InstallMethod, StandalonePlatform, UpdateAction,
};
use source_update::version::{build_script_lines, cli_display_version};

fn os(text: &str) -> OsText {
    OsText::from_text(text)
}

fn context(method: InstallMethod) -> InstallContext {
    InstallContext { method }
}

fn packaged() -> BuildInfo {
    BuildInfo { build_dir: None, update_base_version: None }
}

fn local(base: Option<&str>) -> BuildInfo {
    BuildInfo {
        build_dir: Some("/work/codex".to_owned()),
        update_base_version: base.map(str::to_owned),
    }
}

#[test]
fn maps_install_context_to_update_action() {
    let native_release_dir = os("/tmp/native-release");
    let resources_dir = os("/tmp/native-release/codex-resources");

    assert_eq!(UpdateAction::from_install_context(&context(InstallMethod::Other)), None);
    assert_eq!(
        UpdateAction::from_install_context(&context(InstallMethod::Npm)),
        Some(UpdateAction::NpmGlobalLatest)
    );
    assert_eq!(
        UpdateAction::from_install_context(&context(InstallMethod::Bun)),
        Some(UpdateAction::BunGlobalLatest)
    );
    assert_eq!(
        UpdateAction::from_install_context(&context(InstallMethod::Brew)),
        Some(UpdateAction::BrewUpgrade)
    );
    assert_eq!(
        UpdateAction::from_install_context(&context(InstallMethod::Standalone {
            platform: StandalonePlatform::Unix,
            release_dir: native_release_dir.clone(),
            resources_dir: Some(resources_dir.clone()),
        })),
        Some(UpdateAction::StandaloneUnix)
    );
    assert_eq!(
        UpdateAction::from_install_context(&context(InstallMethod::Standalone {
            platform: StandalonePlatform::Windows,
            release_dir: native_release_dir,
            resources_dir: Some(resources_dir),
        })),
        Some(UpdateAction::StandaloneWindows)
    );
}

#[test]
fn standalone_update_commands_rerun_latest_installer() {
    assert_eq!(
        UpdateAction::StandaloneUnix.command_args(),
        Some((
            "sh",
            &[
                "-c",
                "curl -fsSL https://chatgpt.com/codex/install.sh | CODEX_NON_INTERACTIVE=1 sh"
            ][..],
        ))
    );
    assert_eq!(
        UpdateAction::StandaloneWindows.command_args(),
        Some((
            "powershell",
            &[
                "-ExecutionPolicy",
                "Bypass",
                "-c",
                "$env:CODEX_NON_INTERACTIVE=1; irm https://chatgpt.com/codex/install.ps1 | iex"
            ][..],
        ))
    );
}

#[test]
fn source_git_update_has_local_rebuild_command_text() {
    let action = UpdateAction::SourceGit {
        build_dir: os("/tmp/codex"),
        latest_version: "0.136.0".to_string(),
    };

    assert_eq!(action.command_args(), None);
    assert_eq!(
        action.command_str(),
        "cd /tmp/codex && git pull --ff-only && CODEX_CLI_UPDATE_BASE_VERSION=0.136.0 cargo build --release --bin codex"
    );
}

#[test]
fn packaged_updates_are_shown_as_shell_commands() {
    assert_eq!(
        UpdateAction::NpmGlobalLatest.command_str(),
        "npm install -g @openai/codex@latest"
    );
    assert_eq!(
        UpdateAction::BunGlobalLatest.command_str(),
        "bun install -g @openai/codex@latest"
    );
    assert_eq!(UpdateAction::BrewUpgrade.command_str(), "brew upgrade codex");
    assert_eq!(
        UpdateAction::StandaloneUnix.command_str(),
        "sh -c 'curl -fsSL https://chatgpt.com/codex/install.sh | CODEX_NON_INTERACTIVE=1 sh'"
    );
    assert_eq!(
        UpdateAction::StandaloneWindows.command_str(),
        "powershell -ExecutionPolicy Bypass -c '$env:CODEX_NON_INTERACTIVE=1; irm https://chatgpt.com/codex/install.ps1 | iex'"
    );
}

#[test]
fn commands_come_apart_into_their_words() {
    for action in [
        UpdateAction::NpmGlobalLatest,
        UpdateAction::BunGlobalLatest,
        UpdateAction::BrewUpgrade,
        UpdateAction::StandaloneUnix,
        UpdateAction::StandaloneWindows,
    ] {
        let (program, args) = action.command_args().unwrap();
        let mut words = vec![program.to_owned()];
        words.extend(args.iter().map(|arg| (*arg).to_owned()));
        let line = action.command_str();
        assert_eq!(line_words(&line), Some(words.clone()));
        assert_eq!(shlex::split(&line), Some(words));
    }
    assert_eq!(line_words("a 'b c'").unwrap(), ["a", "b c"]);
    assert_eq!(line_words("a 'b"), None);
}

#[test]
fn words_that_cannot_be_quoted_are_joined_by_spaces() {
    let words = vec!["a\0b".to_owned(), "c d".to_owned()];
    assert_eq!(quoted_or_plain(None, &words), "a\0b c d");
    assert_eq!(quoted_or_plain(Some("quoted".to_owned()), &words), "quoted");
}

#[test]
fn only_the_windows_installer_counts_as_such() {
    assert!(UpdateAction::StandaloneWindows.is_standalone_windows());
    assert!(!UpdateAction::StandaloneUnix.is_standalone_windows());
    assert!(!UpdateAction::NpmGlobalLatest.is_standalone_windows());
}

#[test]
fn local_builds_are_updated_from_their_checkout() {
    let npm = context(InstallMethod::Npm);
    let source = |version: &str| {
        Some(UpdateAction::SourceGit {
            build_dir: os("/work/codex"),
            latest_version: version.to_owned(),
        })
    };
    assert_eq!(get_update_action(&local(Some("0.1.0")), &npm), source("0.1.0"));
    assert_eq!(get_update_action(&local(None), &npm), source("unknown"));
    assert_eq!(
        get_update_action_for_version(&local(Some("0.1.0")), &npm, "0.2.0"),
        source("0.2.0")
    );
    assert_eq!(get_source_git_update_action(&packaged(), Some("0.2.0")), None);
    assert_eq!(get_update_action(&packaged(), &npm), Some(UpdateAction::NpmGlobalLatest));
    assert_eq!(
        get_update_action_for_version(&packaged(), &npm, "0.2.0"),
        Some(UpdateAction::NpmGlobalLatest)
    );
    assert_eq!(get_update_action(&packaged(), &context(InstallMethod::Other)), None);
}

#[test]
fn the_recorded_version_is_shown() {
    assert_eq!(cli_display_version(Some("2026.01.02 local"), "0.1.0"), "2026.01.02 local");
    assert_eq!(cli_display_version(None, "0.1.0"), "0.1.0");
}

#[test]
fn the_build_script_records_what_is_set() {
    assert_eq!(
        build_script_lines(&None, &None, &Some("linux".to_owned())),
        [
            "cargo:rerun-if-env-changed=CODEX_CLI_DISPLAY_VERSION",
            "cargo:rerun-if-env-changed=CODEX_CLI_BUILD_DIR",
        ]
    );
    assert_eq!(
        build_script_lines(
            &Some("1 local".to_owned()),
            &Some("/work/codex".to_owned()),
            &Some("macos".to_owned()),
        ),
        [
            "cargo:rerun-if-env-changed=CODEX_CLI_DISPLAY_VERSION",
            "cargo:rustc-env=CODEX_CLI_DISPLAY_VERSION=1 local",
            "cargo:rerun-if-env-changed=CODEX_CLI_BUILD_DIR",
            "cargo:rustc-env=CODEX_CLI_BUILD_DIR=/work/codex",
            "cargo:rustc-link-arg=-ObjC",
        ]
    );
}
