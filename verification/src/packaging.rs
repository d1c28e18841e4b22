//! Building a source package: for which target, under which version, with which command.

use crate::checkout::{check_command, command_failure};
use crate::command::{command_of, option_view, utf8_all, CommandLine, CommandView};
use crate::os_text::{decode, decode_or_explain, utf8_error_text, OsText};
use crate::path::{join_text, joined_text};
use crate::text::{
    chars_of, concat2, find_after_prefix, first_after_prefix, has_text, lines, str_contains,
    string_of, trim, trimmed,
};
use vstd::prelude::*;
use vstd::utf8::*;

verus! {

// ---------------------------------------------------------------------------------------------
// The target
// ---------------------------------------------------------------------------------------------

/// The command that tells the target that the compiler builds for.
pub open spec fn target_command_view() -> CommandView {
    command_of(encode_utf8("rustc"@), utf8_all(seq!["-vV"@]), None)
}

/// The command that tells the target that the compiler builds for.
pub fn target_command() -> (r: CommandLine)
    ensures
        r@ == target_command_view(),
{
    let r = CommandLine::new(OsText::from_text("rustc")).text_arg("-vV");
    assert(r@ =~= target_command_view());
    r
}

/// The target that the compiler builds for, from how the command that tells it ended, or what is
/// wrong with it.
pub open spec fn host_target(success: bool, status: Seq<char>, stdout: Seq<u8>) -> Result<
    Seq<char>,
    Seq<char>,
> {
    if !success {
        Err(command_failure("rustc -vV"@, status))
    } else if !valid_utf8(stdout) {
        Err(utf8_error_text(stdout))
    } else {
        match first_after_prefix(lines(decode_utf8(stdout)), "host: "@) {
            Some(target) => Ok(target),
            None => Err("`rustc -vV` output did not include a host target"@),
        }
    }
}

/// The target that the compiler builds for, from how the command that tells it ended, or what is
/// wrong with it.
pub fn source_build_target(success: bool, status: &str, stdout: Vec<u8>) -> (r: Result<
    String,
    String,
>)
    ensures
        match r {
            Ok(target) => host_target(success, status@, stdout@) == Ok::<_, Seq<char>>(target@),
            Err(message) => host_target(success, status@, stdout@) == Err::<Seq<char>, _>(
                message@,
            ),
        },
{
    if let Some(message) = check_command("rustc -vV", success, status) {
        return Err(message);
    }
    match decode_or_explain(stdout) {
        Err(why) => Err(why),
        Ok(version) => match find_after_prefix(version.as_str(), "host: ") {
            Some(target) => Ok(target),
            None => Err("`rustc -vV` output did not include a host target".to_owned()),
        },
    }
}

// ---------------------------------------------------------------------------------------------
// The version
// ---------------------------------------------------------------------------------------------

/// The command that tells today's date.
pub open spec fn date_command_view() -> CommandView {
    command_of(encode_utf8("date"@), utf8_all(seq!["+%Y.%m.%d"@]), None)
}

/// The command that tells today's date.
pub fn date_command() -> (r: CommandLine)
    ensures
        r@ == date_command_view(),
{
    let r = CommandLine::new(OsText::from_text("date")).text_arg("+%Y.%m.%d");
    assert(r@ =~= date_command_view());
    r
}

/// The date in what a command wrote, where it succeeded and wrote one.
pub open spec fn date_of(success: bool, stdout: Seq<u8>) -> Option<Seq<char>> {
    if success && valid_utf8(stdout) && trimmed(decode_utf8(stdout)).len() > 0 {
        Some(trimmed(decode_utf8(stdout)))
    } else {
        None
    }
}

/// The version to show for a local build: its date where that is known, else the release that it
/// is based on.
pub open spec fn display_version(date: Option<Seq<char>>, latest_version: Seq<char>) -> Seq<char> {
    match date {
        Some(date) => date + " local"@,
        None => latest_version + " local"@,
    }
}

/// The version to show for a local build of `latest_version`, from how the command that tells
/// the date ended.
pub fn source_update_display_version(latest_version: &str, success: bool, stdout: &Vec<u8>) -> (r:
    String)
    ensures
        r@ == display_version(date_of(success, stdout@), latest_version@),
{
    if success {
        if let Some(text) = decode(stdout.as_slice()) {
            let chars = chars_of(text.as_str());
            let date = trim(chars.as_slice());
            if date.len() > 0 {
                return concat2(string_of(date).as_str(), " local");
            }
        }
    }
    concat2(latest_version, " local")
}

// ---------------------------------------------------------------------------------------------
// The package
// ---------------------------------------------------------------------------------------------

/// The command that builds the package of a checkout for `target` in `package_dir`.
pub open spec fn package_command(
    build_dir: Seq<u8>,
    package_dir: Seq<u8>,
    target: Seq<char>,
) -> CommandView {
    command_of(
        encode_utf8("python3"@),
        seq![
            joined_text(build_dir, "scripts/build_codex_package.py"@),
            encode_utf8("--target"@),
            encode_utf8(target),
            encode_utf8("--cargo-profile"@),
            encode_utf8("release"@),
            encode_utf8("--package-dir"@),
            package_dir,
            encode_utf8("--force"@),
        ],
        Some(build_dir),
    )
}

/// The command that builds the package of a checkout for `target` in `package_dir`.
pub fn source_package_build_command(build_dir: &OsText, package_dir: &OsText, target: &str) -> (r:
    CommandLine)
    ensures
        r@ == package_command(build_dir@, package_dir@, target@),
{
    let script = join_text(build_dir, "scripts/build_codex_package.py");
    let r = CommandLine::new(OsText::from_text("python3")).arg(script).text_arg("--target").text_arg(
        target,
    ).text_arg("--cargo-profile").text_arg("release").text_arg("--package-dir").arg(
        package_dir.duplicate(),
    ).text_arg("--force").in_dir(build_dir);
    assert(r@ =~= package_command(build_dir@, package_dir@, target@));
    r
}

/// A command to build a package, told to pack the bubblewrap of the system where there is one.
pub open spec fn with_bwrap(command: CommandView, system_bwrap: Option<Seq<u8>>) -> CommandView {
    match system_bwrap {
        Some(bwrap) => CommandView {
            args: command.args.push(encode_utf8("--bwrap-bin"@)).push(bwrap),
            ..command
        },
        None => command,
    }
}

/// A command to build a package, told to pack the bubblewrap of the system where there is one.
pub fn with_system_bwrap(command: CommandLine, system_bwrap: &Option<OsText>) -> (r: CommandLine)
    ensures
        r@ == with_bwrap(command@, option_view(*system_bwrap)),
{
    match system_bwrap {
        Some(bwrap) => command.text_arg("--bwrap-bin").arg(bwrap.duplicate()),
        None => command,
    }
}

/// Whether a package for `target` holds a bubblewrap.
pub open spec fn packs_bwrap(target: Seq<char>) -> bool {
    has_text(target, "linux"@)
}

/// Whether a package for `target` holds a bubblewrap.
pub fn target_packs_bwrap(target: &str) -> (r: bool)
    ensures
        r == packs_bwrap(target@),
{
    str_contains(target, "linux")
}

/// A command to build a package, with what the build records in the binary.
pub open spec fn recording(
    command: CommandView,
    display_version: Seq<char>,
    build_dir: Seq<u8>,
    latest_version: Seq<char>,
) -> CommandView {
    CommandView {
        env: command.env.push(
            ("CODEX_CLI_DISPLAY_VERSION"@, encode_utf8(display_version)),
        ).push(("CODEX_CLI_BUILD_DIR"@, build_dir)).push(
            ("CODEX_CLI_UPDATE_BASE_VERSION"@, encode_utf8(latest_version)),
        ),
        ..command
    }
}

/// A command to build a package, with what the build records in the binary: the version to show,
/// the checkout, and the release that it is based on.
pub fn with_build_record(
    command: CommandLine,
    display_version: &str,
    build_dir: &OsText,
    latest_version: &str,
) -> (r: CommandLine)
    ensures
        r@ == recording(command@, display_version@, build_dir@, latest_version@),
{
    command.env("CODEX_CLI_DISPLAY_VERSION", OsText::from_text(display_version)).env(
        "CODEX_CLI_BUILD_DIR",
        build_dir.duplicate(),
    ).env("CODEX_CLI_UPDATE_BASE_VERSION", OsText::from_text(latest_version))
}

} // verus!
