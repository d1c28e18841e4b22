//! What a build records about itself, and which version is shown.

use crate::text::{concat2, string_views, text_view};
use vstd::prelude::*;

verus! {

/// The version to show to users: the one that the build recorded, else the version of the crate.
pub open spec fn shown_version(recorded: Option<&str>, cli_version: Seq<char>) -> Seq<char> {
    match recorded {
        Some(version) => version@,
        None => cli_version,
    }
}

/// The version to show to users: the one that the build recorded, else the version of the crate.
pub fn cli_display_version<'a>(recorded: Option<&'a str>, cli_version: &'a str) -> (r: &'a str)
    ensures
        r@ == shown_version(recorded, cli_version@),
{
    match recorded {
        Some(version) => version,
        None => cli_version,
    }
}

/// A line that has the compiler record a variable, where it is set.
pub open spec fn record_lines(prefix: Seq<char>, value: Option<Seq<char>>) -> Seq<Seq<char>> {
    match value {
        Some(value) => seq![prefix + value],
        None => Seq::empty(),
    }
}

/// What the build script tells cargo: which variables to watch, what to record in the binary, and
/// what to link with for macOS.
pub open spec fn cargo_lines(
    display_version: Option<Seq<char>>,
    build_dir: Option<Seq<char>>,
    target_os: Option<Seq<char>>,
) -> Seq<Seq<char>> {
    seq!["cargo:rerun-if-env-changed=CODEX_CLI_DISPLAY_VERSION"@] + record_lines(
        "cargo:rustc-env=CODEX_CLI_DISPLAY_VERSION="@,
        display_version,
    ) + seq!["cargo:rerun-if-env-changed=CODEX_CLI_BUILD_DIR"@] + record_lines(
        "cargo:rustc-env=CODEX_CLI_BUILD_DIR="@,
        build_dir,
    ) + (if target_os == Some("macos"@) {
        seq!["cargo:rustc-link-arg=-ObjC"@]
    } else {
        Seq::empty()
    })
}

/// Adds a line.
fn add_line(lines: &mut Vec<String>, line: String)
    ensures
        string_views(final(lines)@) == string_views(old(lines)@) + seq![line@],
{
    let ghost before = lines@;
    lines.push(line);
    assert(string_views(lines@) =~= string_views(before) + seq![line@]);
}

/// Adds the line that has the compiler record a variable, where it is set.
fn add_record(lines: &mut Vec<String>, prefix: &str, value: &Option<String>)
    ensures
        string_views(final(lines)@) == string_views(old(lines)@) + record_lines(
            prefix@,
            text_view(*value),
        ),
{
    match value {
        Some(value) => add_line(lines, concat2(prefix, value.as_str())),
        None => {
            assert(string_views(lines@) + Seq::<Seq<char>>::empty() == string_views(lines@));
        },
    }
}

/// What the build script tells cargo, from the variables that it finds.
pub fn build_script_lines(
    display_version: &Option<String>,
    build_dir: &Option<String>,
    target_os: &Option<String>,
) -> (r: Vec<String>)
    ensures
        string_views(r@) == cargo_lines(
            text_view(*display_version),
            text_view(*build_dir),
            text_view(*target_os),
        ),
{
    let mut r: Vec<String> = Vec::new();
    assert(string_views(r@) =~= Seq::<Seq<char>>::empty());
    add_line(&mut r, "cargo:rerun-if-env-changed=CODEX_CLI_DISPLAY_VERSION".to_owned());
    assert(string_views(r@) =~= seq!["cargo:rerun-if-env-changed=CODEX_CLI_DISPLAY_VERSION"@]);
    add_record(&mut r, "cargo:rustc-env=CODEX_CLI_DISPLAY_VERSION=", display_version);
    add_line(&mut r, "cargo:rerun-if-env-changed=CODEX_CLI_BUILD_DIR".to_owned());
    add_record(&mut r, "cargo:rustc-env=CODEX_CLI_BUILD_DIR=", build_dir);
    let macos = match target_os {
        Some(os) => *os == "macos".to_owned(),
        None => false,
    };
    if macos {
        add_line(&mut r, "cargo:rustc-link-arg=-ObjC".to_owned());
    } else {
        assert(string_views(r@) + Seq::<Seq<char>>::empty() == string_views(r@));
    }
    r
}

/// A version that the build recorded is the one that is shown, even where the crate has another.
pub proof fn recorded_versions_are_shown(recorded: &str, cli_version: Seq<char>)
    ensures
        shown_version(Some(recorded), cli_version) == recorded@,
        shown_version(None, cli_version) == cli_version,
{
}

/// The build script always watches both variables, records each one that is set under its own
/// name, and asks for the Objective-C link argument on macOS and nowhere else.
pub proof fn variables_that_are_set_are_recorded(
    display_version: Seq<char>,
    build_dir: Seq<char>,
    target_os: Option<Seq<char>>,
)
    requires
        target_os != Some("macos"@),
    ensures
        cargo_lines(None, None, target_os) == seq![
            "cargo:rerun-if-env-changed=CODEX_CLI_DISPLAY_VERSION"@,
            "cargo:rerun-if-env-changed=CODEX_CLI_BUILD_DIR"@,
        ],
        cargo_lines(Some(display_version), None, target_os) == seq![
            "cargo:rerun-if-env-changed=CODEX_CLI_DISPLAY_VERSION"@,
            "cargo:rustc-env=CODEX_CLI_DISPLAY_VERSION="@ + display_version,
            "cargo:rerun-if-env-changed=CODEX_CLI_BUILD_DIR"@,
        ],
        cargo_lines(None, Some(build_dir), target_os) == seq![
            "cargo:rerun-if-env-changed=CODEX_CLI_DISPLAY_VERSION"@,
            "cargo:rerun-if-env-changed=CODEX_CLI_BUILD_DIR"@,
            "cargo:rustc-env=CODEX_CLI_BUILD_DIR="@ + build_dir,
        ],
        cargo_lines(Some(display_version), Some(build_dir), target_os) == seq![
            "cargo:rerun-if-env-changed=CODEX_CLI_DISPLAY_VERSION"@,
            "cargo:rustc-env=CODEX_CLI_DISPLAY_VERSION="@ + display_version,
            "cargo:rerun-if-env-changed=CODEX_CLI_BUILD_DIR"@,
            "cargo:rustc-env=CODEX_CLI_BUILD_DIR="@ + build_dir,
        ],
        forall|d: Option<Seq<char>>, b: Option<Seq<char>>|
            #[trigger] cargo_lines(d, b, Some("macos"@)) == cargo_lines(d, b, target_os).push(
                "cargo:rustc-link-arg=-ObjC"@,
            ),
{
    assert forall|d: Option<Seq<char>>, b: Option<Seq<char>>|
        #[trigger] cargo_lines(d, b, Some("macos"@)) == cargo_lines(d, b, target_os).push(
            "cargo:rustc-link-arg=-ObjC"@,
        ) by {
        assert(cargo_lines(d, b, Some("macos"@)) =~= cargo_lines(d, b, target_os).push(
            "cargo:rustc-link-arg=-ObjC"@,
        ));
    }
}

} // verus!
