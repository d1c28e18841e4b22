//! Having Codex itself repair a source checkout that could not be updated.

use crate::checkout::DETAIL_LIMIT;
use crate::command::{command_of, CommandLine, CommandView};
use crate::failure::{detail_of, Failure};
use crate::os_text::{displayed, OsText};
use crate::text::{at_most, chars_of, concat2, first_chars, push_text, string_of};
use vstd::prelude::*;
use vstd::utf8::*;

verus! {

/// The beginning of a text, with an ellipsis where something is missing.
pub open spec fn shortened(text: Seq<char>) -> Seq<char> {
    if text.len() > DETAIL_LIMIT {
        at_most(text, DETAIL_LIMIT as nat).push('…')
    } else {
        text
    }
}

/// The beginning of a text, with an ellipsis where something is missing.
pub fn shorten(text: &str) -> (r: String)
    ensures
        r@ == shortened(text@),
{
    let chars = chars_of(text);
    let mut r = string_of(first_chars(chars.as_slice(), DETAIL_LIMIT));
    if chars.len() > DETAIL_LIMIT {
        r.push('…');
    }
    r
}

/// What an agent is told to do about a checkout that could not be updated.
pub open spec fn repair_prompt(
    build_dir: Seq<u8>,
    latest_version: Seq<char>,
    detail: Seq<char>,
) -> Seq<char> {
    "Automatic source update failed and needs agent-assisted recovery.\n\nRepository: "@
        + displayed(build_dir) + "\nTarget Codex release: "@ + latest_version + "\nFailure: "@
        + shortened(detail)
        + "\n\nPerform the update repair now. Inspect the repository state, preserve fork-specific changes and unrelated user work, merge upstream/main, resolve any conflicts, and commit the merge if required. Run the repository-required formatting and relevant tests. Leave the checkout clean and ready for the updater to retry the release build and installation after this session exits. Do not merely explain the steps; perform the work. The failed automatic merge, if any, was aborted before this session started."@
}

/// What an agent is told to do about a checkout that could not be updated.
pub fn prompt_for_repair(build_dir: &OsText, latest_version: &str, detail: &str) -> (r: String)
    ensures
        r@ == repair_prompt(build_dir@, latest_version@, detail@),
{
    let mut r =
        "Automatic source update failed and needs agent-assisted recovery.\n\nRepository: ".to_owned();
    push_text(&mut r, build_dir.display().as_str());
    push_text(&mut r, "\nTarget Codex release: ");
    push_text(&mut r, latest_version);
    push_text(&mut r, "\nFailure: ");
    push_text(&mut r, shorten(detail).as_str());
    push_text(
        &mut r,
        "\n\nPerform the update repair now. Inspect the repository state, preserve fork-specific changes and unrelated user work, merge upstream/main, resolve any conflicts, and commit the merge if required. Run the repository-required formatting and relevant tests. Leave the checkout clean and ready for the updater to retry the release build and installation after this session exits. Do not merely explain the steps; perform the work. The failed automatic merge, if any, was aborted before this session started.",
    );
    r
}

/// The command that has the Codex at `codex_bin` repair a checkout.
pub open spec fn repair_command(
    codex_bin: Seq<u8>,
    build_dir: Seq<u8>,
    latest_version: Seq<char>,
    failure: Seq<Seq<char>>,
) -> CommandView {
    command_of(
        codex_bin,
        seq![
            encode_utf8("exec"@),
            encode_utf8("--cd"@),
            build_dir,
            encode_utf8("-c"@),
            encode_utf8("check_for_update_on_startup=false"@),
            encode_utf8(repair_prompt(build_dir, latest_version, detail_of(failure))),
        ],
        Some(build_dir),
    )
}

/// The command that has the Codex at `codex_bin` repair a checkout that could not be updated.
pub fn agent_assisted_update_command(
    codex_bin: &OsText,
    build_dir: &OsText,
    latest_version: &str,
    failure: &Failure,
) -> (r: CommandLine)
    ensures
        r@ == repair_command(codex_bin@, build_dir@, latest_version@, failure@),
{
    let prompt = prompt_for_repair(build_dir, latest_version, failure.detail().as_str());
    let r = CommandLine::new(codex_bin.duplicate()).text_arg("exec").text_arg("--cd").arg(
        build_dir.duplicate(),
    ).text_arg("-c").text_arg("check_for_update_on_startup=false").text_arg(
        prompt.as_str(),
    ).in_dir(build_dir);
    assert(r@ =~= repair_command(codex_bin@, build_dir@, latest_version@, failure@));
    r
}

/// What is said of an agent that did not succeed.
pub open spec fn agent_failure(status: Seq<char>) -> Seq<char> {
    "agent-assisted source update exited with status "@ + status
}

/// What is said of an agent that did not succeed.
pub fn agent_failure_text(status: &str) -> (r: String)
    ensures
        r@ == agent_failure(status@),
{
    concat2("agent-assisted source update exited with status ", status)
}

/// However long the failure is, the prompt holds at most its beginning: the part on the failure
/// is never longer than the limit and an ellipsis.
pub proof fn prompt_detail_is_bounded(text: Seq<char>)
    ensures
        shortened(text).len() <= DETAIL_LIMIT + 1,
        text.len() <= DETAIL_LIMIT ==> shortened(text) == text,
        text.len() > DETAIL_LIMIT ==> shortened(text).take(DETAIL_LIMIT as int) == text.take(
            DETAIL_LIMIT as int,
        ),
{
}

/// What is shown of a long failure is its first four thousand characters and an ellipsis; one that
/// is no longer than that is shown whole.
pub proof fn long_details_are_cut(text: Seq<char>)
    ensures
        text.len() <= 4000 ==> shortened(text) == text,
        text.len() > 4000 ==> shortened(text).len() == 4001 && shortened(text).take(4000)
            == text.take(4000) && shortened(text)[4000] == '…',
{
}

/// The repair is asked of the Codex at the given path, in the checkout and for the checkout, with
/// updates at its start switched off.
pub proof fn repair_is_asked_of_codex(
    codex_bin: Seq<u8>,
    build_dir: Seq<u8>,
    latest_version: Seq<char>,
    failure: Seq<Seq<char>>,
)
    ensures
        ({
            let c = repair_command(codex_bin, build_dir, latest_version, failure);
            &&& c.program == codex_bin
            &&& c.current_dir == Some(build_dir)
            &&& c.env.len() == 0
            &&& c.args.len() == 6
            &&& c.args[0] == encode_utf8("exec"@)
            &&& c.args[1] == encode_utf8("--cd"@)
            &&& c.args[2] == build_dir
            &&& c.args[3] == encode_utf8("-c"@)
            &&& c.args[4] == encode_utf8("check_for_update_on_startup=false"@)
        }),
{
}

/// The prompt of the repair tells which checkout is meant, which release it is to be updated to,
/// and why that failed, of which no more than four thousand characters are shown, and then what is
/// to be done.
pub proof fn prompt_tells_of_the_failure(
    codex_bin: Seq<u8>,
    build_dir: Seq<u8>,
    latest_version: Seq<char>,
    failure: Seq<Seq<char>>,
)
    ensures
        repair_command(codex_bin, build_dir, latest_version, failure).args[5] == encode_utf8(
            "Automatic source update failed and needs agent-assisted recovery.\n\nRepository: "@
                + displayed(build_dir) + "\nTarget Codex release: "@ + latest_version
                + "\nFailure: "@ + (if detail_of(failure).len() <= 4000 {
                detail_of(failure)
            } else {
                detail_of(failure).take(4000).push('…')
            })
                + "\n\nPerform the update repair now. Inspect the repository state, preserve fork-specific changes and unrelated user work, merge upstream/main, resolve any conflicts, and commit the merge if required. Run the repository-required formatting and relevant tests. Leave the checkout clean and ready for the updater to retry the release build and installation after this session exits. Do not merely explain the steps; perform the work. The failed automatic merge, if any, was aborted before this session started."@,
        ),
{
}

} // verus!
