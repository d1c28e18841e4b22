//! Bringing a source checkout up to date with git: which commands are run, and what their ends
//! mean.

use crate::command::{command_of, utf8_all, CommandLine, CommandView};
use crate::os_text::{decode, displayed, OsText};
use crate::text::{
    at_most, chars_of, concat2, first_chars, push_text, string_of, text_view, trim, trimmed,
};
use vstd::prelude::*;
use vstd::utf8::*;

verus! {

/// How many characters of a text that others wrote are passed on.
pub const DETAIL_LIMIT: usize = 4_000;

// ---------------------------------------------------------------------------------------------
// Commands
// ---------------------------------------------------------------------------------------------

/// The command that runs git with `args` in a checkout.
pub open spec fn git_command(build_dir: Seq<u8>, args: Seq<Seq<char>>) -> CommandView {
    command_of(encode_utf8("git"@), utf8_all(args), Some(build_dir))
}

/// The arguments with which git lists uncommitted changes.
pub open spec fn status_args() -> Seq<Seq<char>> {
    seq!["status"@, "--porcelain"@]
}

/// The arguments with which git tells where the remote `upstream` is.
pub open spec fn upstream_args() -> Seq<Seq<char>> {
    seq!["remote"@, "get-url"@, "upstream"@]
}

/// The arguments with which git fetches the main branch of `upstream`.
pub open spec fn fetch_args() -> Seq<Seq<char>> {
    seq!["fetch"@, "upstream"@, "main"@]
}

/// The arguments with which git merges the main branch of `upstream`.
pub open spec fn merge_args() -> Seq<Seq<char>> {
    seq!["merge"@, "--no-edit"@, "upstream/main"@]
}

/// The arguments with which git lists the paths that a merge could not settle.
pub open spec fn conflicts_args() -> Seq<Seq<char>> {
    seq!["diff"@, "--name-only"@, "--diff-filter=U"@]
}

/// The arguments with which git gives up a merge.
pub open spec fn abort_args() -> Seq<Seq<char>> {
    seq!["merge"@, "--abort"@]
}

/// The arguments with which git pulls without merging.
pub open spec fn pull_args() -> Seq<Seq<char>> {
    seq!["pull"@, "--ff-only"@]
}

/// The command that runs git with two arguments in a checkout.
fn git2(build_dir: &OsText, a: &str, b: &str) -> (r: CommandLine)
    ensures
        r@ == git_command(build_dir@, seq![a@, b@]),
{
    let r = CommandLine::new(OsText::from_text("git")).text_arg(a).text_arg(b).in_dir(build_dir);
    assert(r@ =~= git_command(build_dir@, seq![a@, b@]));
    r
}

/// The command that runs git with three arguments in a checkout.
fn git3(build_dir: &OsText, a: &str, b: &str, c: &str) -> (r: CommandLine)
    ensures
        r@ == git_command(build_dir@, seq![a@, b@, c@]),
{
    let r = CommandLine::new(OsText::from_text("git")).text_arg(a).text_arg(b).text_arg(c).in_dir(
        build_dir,
    );
    assert(r@ =~= git_command(build_dir@, seq![a@, b@, c@]));
    r
}

/// The command that lists uncommitted changes.
pub fn status_command(build_dir: &OsText) -> (r: CommandLine)
    ensures
        r@ == git_command(build_dir@, status_args()),
{
    git2(build_dir, "status", "--porcelain")
}

/// The command that succeeds exactly when there is a remote `upstream`.
pub fn upstream_command(build_dir: &OsText) -> (r: CommandLine)
    ensures
        r@ == git_command(build_dir@, upstream_args()),
{
    git3(build_dir, "remote", "get-url", "upstream")
}

/// The command that fetches the main branch of `upstream`.
pub fn fetch_command(build_dir: &OsText) -> (r: CommandLine)
    ensures
        r@ == git_command(build_dir@, fetch_args()),
{
    git3(build_dir, "fetch", "upstream", "main")
}

/// The command that merges the main branch of `upstream`.
pub fn merge_command(build_dir: &OsText) -> (r: CommandLine)
    ensures
        r@ == git_command(build_dir@, merge_args()),
{
    git3(build_dir, "merge", "--no-edit", "upstream/main")
}

/// The command that lists the paths that a merge could not settle.
pub fn conflicts_command(build_dir: &OsText) -> (r: CommandLine)
    ensures
        r@ == git_command(build_dir@, conflicts_args()),
{
    git3(build_dir, "diff", "--name-only", "--diff-filter=U")
}

/// The command that gives up a merge.
pub fn abort_command(build_dir: &OsText) -> (r: CommandLine)
    ensures
        r@ == git_command(build_dir@, abort_args()),
{
    git2(build_dir, "merge", "--abort")
}

/// The command that pulls without merging.
pub fn pull_command(build_dir: &OsText) -> (r: CommandLine)
    ensures
        r@ == git_command(build_dir@, pull_args()),
{
    git2(build_dir, "pull", "--ff-only")
}

// ---------------------------------------------------------------------------------------------
// What their ends mean
// ---------------------------------------------------------------------------------------------

/// What is said of a command that did not succeed.
pub open spec fn command_failure(label: Seq<char>, status: Seq<char>) -> Seq<char> {
    "`"@ + label + "` failed with status "@ + status
}

/// What is said of a command that came to its end; nothing where it succeeded.
pub open spec fn checked(label: Seq<char>, success: bool, status: Seq<char>) -> Option<Seq<char>> {
    if success {
        None
    } else {
        Some(command_failure(label, status))
    }
}

/// What is said of a command that came to its end; nothing where it succeeded.
pub fn check_command(label: &str, success: bool, status: &str) -> (r: Option<String>)
    ensures
        text_view(r) == checked(label@, success, status@),
{
    if success {
        return None;
    }
    let mut message = "`".to_owned();
    push_text(&mut message, label);
    push_text(&mut message, "` failed with status ");
    push_text(&mut message, status);
    Some(message)
}

/// What is said before a command is run.
pub open spec fn running_text(label: Seq<char>) -> Seq<char> {
    "Running `"@ + label + "`..."@
}

/// What is said before a command is run.
pub fn running_notice(label: &str) -> (r: String)
    ensures
        r@ == running_text(label@),
{
    let mut r = "Running `".to_owned();
    push_text(&mut r, label);
    push_text(&mut r, "`...");
    r
}

/// What is wrong with a checkout, from how the command that lists uncommitted changes ended.
pub open spec fn unclean(
    build_dir: Seq<u8>,
    success: bool,
    status: Seq<char>,
    stdout: Seq<u8>,
) -> Option<Seq<char>> {
    if !success {
        Some(command_failure("git status --porcelain"@, status))
    } else if stdout.len() > 0 {
        Some(
            "Source checkout at "@ + displayed(build_dir)
                + " has uncommitted changes. Commit, stash, or discard them before updating."@,
        )
    } else {
        None
    }
}

/// What is wrong with a checkout, from how the command that lists uncommitted changes ended;
/// nothing where there are none.
pub fn ensure_source_checkout_clean(
    build_dir: &OsText,
    success: bool,
    status: &str,
    stdout: &Vec<u8>,
) -> (r: Option<String>)
    ensures
        text_view(r) == unclean(build_dir@, success, status@, stdout@),
{
    if !success {
        return check_command("git status --porcelain", success, status);
    }
    if stdout.len() > 0 {
        let mut message = "Source checkout at ".to_owned();
        push_text(&mut message, build_dir.display().as_str());
        push_text(
            &mut message,
            " has uncommitted changes. Commit, stash, or discard them before updating.",
        );
        return Some(message);
    }
    None
}

/// The paths that a merge could not settle, from how the command that lists them ended: at most
/// the beginning of its output, and nothing where it failed, wrote no text, or wrote nothing.
pub open spec fn conflicted_paths(success: bool, stdout: Seq<u8>) -> Option<Seq<char>> {
    if success && valid_utf8(stdout) && trimmed(decode_utf8(stdout)).len() > 0 {
        Some(at_most(trimmed(decode_utf8(stdout)), DETAIL_LIMIT as nat))
    } else {
        None
    }
}

/// The paths that a merge could not settle, from how the command that lists them ended.
pub fn read_conflicts(success: bool, stdout: &Vec<u8>) -> (r: Option<String>)
    ensures
        text_view(r) == conflicted_paths(success, stdout@),
{
    if !success {
        return None;
    }
    match decode(stdout.as_slice()) {
        None => None,
        Some(text) => {
            let chars = chars_of(text.as_str());
            let paths = trim(chars.as_slice());
            if paths.len() == 0 {
                None
            } else {
                Some(string_of(first_chars(paths, DETAIL_LIMIT)))
            }
        },
    }
}

/// What is said of a merge that failed and was given up.
pub open spec fn merge_failure(status: Seq<char>, paths: Option<Seq<char>>) -> Seq<char> {
    command_failure("git merge --no-edit upstream/main"@, status) + ". The merge was aborted."@
        + (match paths {
        Some(paths) => " Conflicted paths before abort:\n"@ + paths,
        None => Seq::<char>::empty(),
    })
}

/// What is said of a merge that failed and was given up.
pub fn merge_failure_text(status: &str, paths: &Option<String>) -> (r: String)
    ensures
        r@ == merge_failure(status@, text_view(*paths)),
{
    let mut message = "`".to_owned();
    push_text(&mut message, "git merge --no-edit upstream/main");
    push_text(&mut message, "` failed with status ");
    push_text(&mut message, status);
    push_text(&mut message, ". The merge was aborted.");
    match paths {
        Some(paths) => {
            let detail = concat2(" Conflicted paths before abort:\n", paths.as_str());
            push_text(&mut message, detail.as_str());
        },
        None => {
            assert(message@ + Seq::<char>::empty() == message@);
        },
    }
    message
}

} // verus!
