//! How an installation of Codex is brought up to date.

use crate::os_text::{displayed, OsText};
use crate::text::{join_strings, joined_with, push_text, slice_views, string_views, text_view};
use vstd::prelude::*;
use vstd::utf8::*;

verus! {

/// Update action the CLI should perform after the TUI exits.
#[derive(Debug, Clone, PartialEq, Eq)]
pub enum UpdateAction {
    /// Update via `npm install -g @openai/codex@latest`.
    NpmGlobalLatest,
    /// Update via `bun install -g @openai/codex@latest`.
    BunGlobalLatest,
    /// Update via `brew upgrade codex`.
    BrewUpgrade,
    /// Update via `curl -fsSL https://chatgpt.com/codex/install.sh | CODEX_NON_INTERACTIVE=1 sh`.
    StandaloneUnix,
    /// Update via `$env:CODEX_NON_INTERACTIVE=1; irm https://chatgpt.com/codex/install.ps1 | iex`.
    StandaloneWindows,
    /// Update a local source checkout, rebuild it, and reinstall this binary.
    SourceGit { build_dir: OsText, latest_version: String },
}

/// The words of a command, the program first.
pub open spec fn command_words(action: UpdateAction) -> Option<Seq<Seq<char>>> {
    match action {
        UpdateAction::NpmGlobalLatest => Some(
            seq!["npm"@, "install"@, "-g"@, "@openai/codex@latest"@],
        ),
        UpdateAction::BunGlobalLatest => Some(
            seq!["bun"@, "install"@, "-g"@, "@openai/codex@latest"@],
        ),
        UpdateAction::BrewUpgrade => Some(seq!["brew"@, "upgrade"@, "codex"@]),
        UpdateAction::StandaloneUnix => Some(
            seq![
                "sh"@,
                "-c"@,
                "curl -fsSL https://chatgpt.com/codex/install.sh | CODEX_NON_INTERACTIVE=1 sh"@,
            ],
        ),
        UpdateAction::StandaloneWindows => Some(
            seq![
                "powershell"@,
                "-ExecutionPolicy"@,
                "Bypass"@,
                "-c"@,
                "$env:CODEX_NON_INTERACTIVE=1; irm https://chatgpt.com/codex/install.ps1 | iex"@,
            ],
        ),
        UpdateAction::SourceGit { .. } => None,
    }
}

/// The command that pulls a source checkout and rebuilds it.
pub open spec fn rebuild_text(build_dir: Seq<u8>, latest_version: Seq<char>) -> Seq<char> {
    "cd "@ + displayed(build_dir) + " && git pull --ff-only && CODEX_CLI_UPDATE_BASE_VERSION="@
        + latest_version + " cargo build --release --bin codex"@
}

/// The words of a command as one line: quoted for a shell where that can be done, else with a
/// space between each two.
pub open spec fn words_text(quoted: Option<Seq<char>>, words: Seq<Seq<char>>) -> Seq<char> {
    match quoted {
        Some(line) => line,
        None => joined_with(words, " "@),
    }
}

/// The command of an update action as one line.
pub open spec fn command_text(action: UpdateAction) -> Seq<char> {
    match command_words(action) {
        Some(words) => words_text(shell_joined(words), words),
        None => rebuild_text(action->build_dir@, action->latest_version@),
    }
}

/// The line that `shlex::try_join` makes of some words, where it makes one.
pub uninterp spec fn shell_joined(words: Seq<Seq<char>>) -> Option<Seq<char>>;

/// The words that `shlex::split` finds in a line, where it can take the line apart.
pub uninterp spec fn shell_words(line: Seq<char>) -> Option<Seq<Seq<char>>>;

/// The words of a line, where there are some.
pub open spec fn words_view(words: Option<Vec<String>>) -> Option<Seq<Seq<char>>> {
    match words {
        Some(words) => Some(string_views(words@)),
        None => None,
    }
}

/// Calls `shlex::split`, which takes a line apart into words as a shell does. Which words, and
/// whether the line can be taken apart, depends on the line alone, and is not said further but by
/// `shell_join`.
#[verifier::external_body]
fn shell_split(line: &str) -> (r: Option<Vec<String>>)
    ensures
        words_view(r) == shell_words(line@),
{
    shlex::split(line)
}

/// The words that a shell finds in a line; nothing where the line ends in the middle of one.
pub fn line_words(line: &str) -> (r: Option<Vec<String>>)
    ensures
        words_view(r) == shell_words(line@),
{
    shell_split(line)
}

/// Whether a shell finds these words in a line, where there is a line.
pub open spec fn splits_into(line: Option<String>, words: Seq<Seq<char>>) -> bool {
    line matches Some(text) ==> shell_words(text@) == Some(words)
}

/// Whether a character stands for itself in a shell without quotes.
pub open spec fn needs_no_quotes(c: char) -> bool {
    ||| '0' <= c <= '9'
    ||| 'A' <= c <= 'Z'
    ||| 'a' <= c <= 'z'
    ||| c == '+' || c == '-' || c == '.' || c == '/' || c == ':' || c == '@' || c == ']' || c
        == '_'
}

/// Whether a word needs no quotes in a shell.
pub open spec fn bare_word(word: Seq<char>) -> bool {
    word.len() > 0 && forall|i: int| 0 <= i < word.len() ==> needs_no_quotes(#[trigger] word[i])
}

/// Whether no word needs quotes in a shell.
pub open spec fn all_bare(words: Seq<Seq<char>>) -> bool {
    forall|i: int| 0 <= i < words.len() ==> bare_word(#[trigger] words[i])
}

/// Whether a word contains the character NUL.
pub open spec fn some_nul(words: Seq<Seq<char>>) -> bool {
    exists|i: int| 0 <= i < words.len() && (#[trigger] words[i]).contains('\0')
}

/// Calls `shlex::try_join`, which quotes each word where a shell needs it and puts a space
/// between each two. It fails exactly where a word contains the character NUL; words that need
/// no quotes stay as they are, and `shlex::split` finds the words again in the line. What quotes it
/// uses depends on the words alone, and is not said further.
#[verifier::external_body]
fn shell_join(words: &Vec<String>) -> (r: Option<String>)
    ensures
        text_view(r) == shell_joined(string_views(words@)),
        r is None <==> some_nul(string_views(words@)),
        all_bare(string_views(words@)) ==> text_view(r) == Some(
            joined_with(string_views(words@), " "@),
        ),
        splits_into(r, string_views(words@)),
{
    shlex::try_join(words.iter().map(|word| word.as_str())).ok()
}

/// The words of a command as one line: `quoted` where there is one, else the words with a space
/// between each two.
pub fn quoted_or_plain(quoted: Option<String>, words: &Vec<String>) -> (r: String)
    ensures
        r@ == words_text(text_view(quoted), string_views(words@)),
{
    match quoted {
        Some(line) => line,
        None => join_strings(words, " "),
    }
}

/// The program and its arguments as one list.
fn word_list(program: &'static str, args: &'static [&'static str]) -> (words: Vec<String>)
    ensures
        string_views(words@) == seq![program@] + slice_views(args@),
{
    let mut words: Vec<String> = Vec::new();
    words.push(program.to_owned());
    assert(string_views(words@) == seq![program@] + slice_views(args@.take(0)));
    for i in 0..args.len()
        invariant
            string_views(words@) == seq![program@] + slice_views(args@.take(i as int)),
    {
        let ghost before = words@;
        words.push(args[i].to_owned());
        assert(string_views(words@) == string_views(before).push(args@[i as int]@));
        assert(slice_views(args@.take(i + 1)) == slice_views(args@.take(i as int)).push(
            args@[i as int]@,
        ));
    }
    assert(args@.take(args@.len() as int) == args@);
    words
}

/// The command that pulls a source checkout and rebuilds it.
fn rebuild_command(build_dir: &OsText, latest_version: &str) -> (r: String)
    ensures
        r@ == rebuild_text(build_dir@, latest_version@),
{
    let mut r = "cd ".to_owned();
    push_text(&mut r, build_dir.display().as_str());
    push_text(&mut r, " && git pull --ff-only && CODEX_CLI_UPDATE_BASE_VERSION=");
    push_text(&mut r, latest_version);
    push_text(&mut r, " cargo build --release --bin codex");
    r
}

impl UpdateAction {
    /// Returns the list of command-line arguments for invoking the update.
    pub fn command_args(&self) -> (r: Option<(&'static str, &'static [&'static str])>)
        ensures
            match r {
                Some((program, args)) => command_words(*self) == Some(
                    seq![program@] + slice_views(args@),
                ),
                None => command_words(*self) is None,
            },
    {
        let r: (&'static str, &'static [&'static str]) = match self {
            UpdateAction::NpmGlobalLatest => ("npm", &["install", "-g", "@openai/codex@latest"]),
            UpdateAction::BunGlobalLatest => ("bun", &["install", "-g", "@openai/codex@latest"]),
            UpdateAction::BrewUpgrade => ("brew", &["upgrade", "codex"]),
            UpdateAction::StandaloneUnix => (
                "sh",
                &[
                    "-c",
                    "curl -fsSL https://chatgpt.com/codex/install.sh | CODEX_NON_INTERACTIVE=1 sh",
                ],
            ),
            UpdateAction::StandaloneWindows => (
                "powershell",
                &[
                    "-ExecutionPolicy",
                    "Bypass",
                    "-c",
                    "$env:CODEX_NON_INTERACTIVE=1; irm https://chatgpt.com/codex/install.ps1 | iex",
                ],
            ),
            UpdateAction::SourceGit { .. } => return None,
        };
        assert(Some(seq![r.0@] + slice_views(r.1@)) =~~= command_words(*self));
        Some(r)
    }

    /// Returns string representation of the command-line arguments for invoking the update.
    pub fn command_str(&self) -> (r: String)
        ensures
            r@ == command_text(*self),
            command_words(*self) matches Some(words) ==> (all_bare(words) ==> r@ == joined_with(
                words,
                " "@,
            )),
            command_words(*self) matches Some(words) ==> shell_joined(words) == Some(r@)
                && shell_words(r@) == Some(words),
    {
        if let Some((program, args)) = self.command_args() {
            proof {
                commands_can_be_quoted(*self);
            }
            let words = word_list(program, args);
            return quoted_or_plain(shell_join(&words), &words);
        }
        match self {
            UpdateAction::SourceGit { build_dir, latest_version } => rebuild_command(
                build_dir,
                latest_version.as_str(),
            ),
            _ => String::new(),
        }
    }

    /// Whether this update runs the installer for Windows.
    pub fn is_standalone_windows(&self) -> (r: bool)
        ensures
            r == (*self is StandaloneWindows),
    {
        matches!(self, UpdateAction::StandaloneWindows)
    }
}

// ---------------------------------------------------------------------------------------------
// Choosing an action
// ---------------------------------------------------------------------------------------------

/// The platform of a standalone installation.
#[derive(Debug, Clone, Copy, PartialEq, Eq)]
pub enum StandalonePlatform {
    Unix,
    Windows,
}

/// How Codex was installed.
#[derive(Debug, Clone, PartialEq, Eq)]
pub enum InstallMethod {
    /// Managed by npm.
    Npm,
    /// Managed by bun.
    Bun,
    /// Managed by Homebrew.
    Brew,
    /// Installed by the standalone installer.
    Standalone {
        platform: StandalonePlatform,
        release_dir: OsText,
        resources_dir: Option<OsText>,
    },
    /// Installed in another way.
    Other,
}

/// The installation that is running.
#[derive(Debug, Clone, PartialEq, Eq)]
pub struct InstallContext {
    pub method: InstallMethod,
}

/// What was recorded in the binary when it was built.
#[derive(Debug, Clone, PartialEq, Eq)]
pub struct BuildInfo {
    /// Source checkout used to build this binary, when this is a local source build.
    pub build_dir: Option<String>,
    /// Public release version this local source build was based on, when known.
    pub update_base_version: Option<String>,
}

/// Whether `action` is the update for an installation made by `method`; none is for one made in
/// another way.
pub open spec fn action_for_method(method: InstallMethod, action: Option<UpdateAction>) -> bool {
    match method {
        InstallMethod::Npm => action == Some(UpdateAction::NpmGlobalLatest),
        InstallMethod::Bun => action == Some(UpdateAction::BunGlobalLatest),
        InstallMethod::Brew => action == Some(UpdateAction::BrewUpgrade),
        InstallMethod::Standalone { platform: StandalonePlatform::Unix, .. } => action == Some(
            UpdateAction::StandaloneUnix,
        ),
        InstallMethod::Standalone { platform: StandalonePlatform::Windows, .. } => action == Some(
            UpdateAction::StandaloneWindows,
        ),
        InstallMethod::Other => action is None,
    }
}

/// Whether `action` updates the checkout that the binary was built from to `version`, or, where
/// none is given, to the version that the build was based on.
pub open spec fn action_for_source(
    build: BuildInfo,
    version: Option<Seq<char>>,
    action: Option<UpdateAction>,
) -> bool {
    match build.build_dir {
        None => action is None,
        Some(dir) => action matches Some(UpdateAction::SourceGit { build_dir, latest_version })
            && build_dir@ == encode_utf8(dir@) && latest_version@ == (match version {
            Some(v) => v,
            None => match build.update_base_version {
                Some(v) => v@,
                None => "unknown"@,
            },
        }),
    }
}

/// The view of an optional string slice.
pub open spec fn str_view(t: Option<&str>) -> Option<Seq<char>> {
    match t {
        Some(t) => Some(t@),
        None => None,
    }
}

impl UpdateAction {
    /// The update for an installation.
    pub fn from_install_context(context: &InstallContext) -> (r: Option<UpdateAction>)
        ensures
            action_for_method(context.method, r),
    {
        match &context.method {
            InstallMethod::Npm => Some(UpdateAction::NpmGlobalLatest),
            InstallMethod::Bun => Some(UpdateAction::BunGlobalLatest),
            InstallMethod::Brew => Some(UpdateAction::BrewUpgrade),
            InstallMethod::Standalone { platform, .. } => match platform {
                StandalonePlatform::Unix => Some(UpdateAction::StandaloneUnix),
                StandalonePlatform::Windows => Some(UpdateAction::StandaloneWindows),
            },
            InstallMethod::Other => None,
        }
    }
}

/// The update of a local source build: of its checkout, to `latest_version` where that is given,
/// else to the version that the build was based on.
pub fn get_source_git_update_action(build: &BuildInfo, latest_version: Option<&str>) -> (r: Option<
    UpdateAction,
>)
    ensures
        action_for_source(*build, str_view(latest_version), r),
{
    match &build.build_dir {
        None => None,
        Some(dir) => {
            let version: String = match latest_version {
                Some(v) => v.to_owned(),
                None => match &build.update_base_version {
                    Some(v) => v.clone(),
                    None => "unknown".to_owned(),
                },
            };
            Some(
                UpdateAction::SourceGit {
                    build_dir: OsText::from_text(dir.as_str()),
                    latest_version: version,
                },
            )
        },
    }
}

/// The update of this installation: that of its checkout for a local source build, else the one
/// that goes with how it was installed.
pub fn get_update_action(build: &BuildInfo, context: &InstallContext) -> (r: Option<UpdateAction>)
    ensures
        build.build_dir is Some ==> action_for_source(*build, None, r),
        build.build_dir is None ==> action_for_method(context.method, r),
{
    if let Some(source_action) = get_source_git_update_action(build, None) {
        return Some(source_action);
    }
    UpdateAction::from_install_context(context)
}

/// The update of this installation to `latest_version`.
pub fn get_update_action_for_version(
    build: &BuildInfo,
    context: &InstallContext,
    latest_version: &str,
) -> (r: Option<UpdateAction>)
    ensures
        build.build_dir is Some ==> action_for_source(*build, Some(latest_version@), r),
        build.build_dir is None ==> action_for_method(context.method, r),
{
    if let Some(source_action) = get_source_git_update_action(build, Some(latest_version)) {
        return Some(source_action);
    }
    get_update_action(build, context)
}

/// The commands of the package managers need no quotes in a shell.
pub proof fn package_managers_need_no_quotes(action: UpdateAction)
    requires
        action is NpmGlobalLatest || action is BunGlobalLatest || action is BrewUpgrade,
    ensures
        command_words(action) matches Some(words) && all_bare(words),
{
    reveal_strlit("npm");
    reveal_strlit("bun");
    reveal_strlit("brew");
    reveal_strlit("install");
    reveal_strlit("upgrade");
    reveal_strlit("-g");
    reveal_strlit("codex");
    reveal_strlit("@openai/codex@latest");
}

/// Every command of an update can be quoted for a shell.
pub proof fn commands_can_be_quoted(action: UpdateAction)
    ensures
        command_words(action) matches Some(words) ==> !some_nul(words),
{
    reveal_strlit("npm");
    reveal_strlit("bun");
    reveal_strlit("brew");
    reveal_strlit("install");
    reveal_strlit("upgrade");
    reveal_strlit("-g");
    reveal_strlit("codex");
    reveal_strlit("@openai/codex@latest");
    reveal_strlit("sh");
    reveal_strlit("-c");
    reveal_strlit("curl -fsSL https://chatgpt.com/codex/install.sh | CODEX_NON_INTERACTIVE=1 sh");
    reveal_strlit("powershell");
    reveal_strlit("-ExecutionPolicy");
    reveal_strlit("Bypass");
    reveal_strlit("$env:CODEX_NON_INTERACTIVE=1; irm https://chatgpt.com/codex/install.ps1 | iex");
}

/// An update has a command of its own exactly when it does not rebuild a checkout.
pub proof fn source_updates_have_no_packaged_command(action: UpdateAction)
    ensures
        command_words(action) is None <==> action is SourceGit,
{
}

/// The command of each packaged update, word for word.
pub proof fn packaged_updates_have_these_words()
    ensures
        command_words(UpdateAction::NpmGlobalLatest) == Some(
            seq!["npm"@, "install"@, "-g"@, "@openai/codex@latest"@],
        ),
        command_words(UpdateAction::BunGlobalLatest) == Some(
            seq!["bun"@, "install"@, "-g"@, "@openai/codex@latest"@],
        ),
        command_words(UpdateAction::BrewUpgrade) == Some(seq!["brew"@, "upgrade"@, "codex"@]),
        command_words(UpdateAction::StandaloneUnix) == Some(
            seq![
                "sh"@,
                "-c"@,
                "curl -fsSL https://chatgpt.com/codex/install.sh | CODEX_NON_INTERACTIVE=1 sh"@,
            ],
        ),
        command_words(UpdateAction::StandaloneWindows) == Some(
            seq![
                "powershell"@,
                "-ExecutionPolicy"@,
                "Bypass"@,
                "-c"@,
                "$env:CODEX_NON_INTERACTIVE=1; irm https://chatgpt.com/codex/install.ps1 | iex"@,
            ],
        ),
{
}

/// The line for a source update changes to its checkout, pulls it without a merge, and builds the
/// command with the release that it is based on.
pub proof fn source_updates_are_shown_as_a_rebuild(build_dir: OsText, latest_version: String)
    ensures
        command_text(UpdateAction::SourceGit { build_dir, latest_version }) == "cd "@ + displayed(
            build_dir@,
        ) + " && git pull --ff-only && CODEX_CLI_UPDATE_BASE_VERSION="@ + latest_version@
            + " cargo build --release --bin codex"@,
{
}

/// Words that cannot be quoted are shown with a space between each two, and others as the shell
/// takes them.
pub proof fn unquotable_words_are_joined(words: Seq<Seq<char>>, line: Seq<char>)
    ensures
        words_text(Some(line), words) == line,
        words_text(None, words) == joined_with(words, " "@),
{
}

/// Each way of installing has its own update, and one that is not known has none.
pub proof fn updates_go_with_the_way_of_installing(
    action: Option<UpdateAction>,
    release_dir: OsText,
    resources_dir: Option<OsText>,
)
    ensures
        action_for_method(InstallMethod::Npm, action) <==> action == Some(
            UpdateAction::NpmGlobalLatest,
        ),
        action_for_method(InstallMethod::Bun, action) <==> action == Some(
            UpdateAction::BunGlobalLatest,
        ),
        action_for_method(InstallMethod::Brew, action) <==> action == Some(
            UpdateAction::BrewUpgrade,
        ),
        action_for_method(
            InstallMethod::Standalone {
                platform: StandalonePlatform::Unix,
                release_dir,
                resources_dir,
            },
            action,
        ) <==> action == Some(UpdateAction::StandaloneUnix),
        action_for_method(
            InstallMethod::Standalone {
                platform: StandalonePlatform::Windows,
                release_dir,
                resources_dir,
            },
            action,
        ) <==> action == Some(UpdateAction::StandaloneWindows),
        action_for_method(InstallMethod::Other, action) <==> action is None,
{
}

/// A local build is updated in the checkout that it was built from: to the version that is given,
/// else to the one that the build is based on, else to an unknown one. Only a local build is.
pub proof fn local_builds_are_updated_in_their_checkout(
    build: BuildInfo,
    version: Seq<char>,
    action: Option<UpdateAction>,
)
    ensures
        build.build_dir is None ==> (action_for_source(build, None, action) <==> action is None)
            && (action_for_source(build, Some(version), action) <==> action is None),
        build.build_dir matches Some(dir) ==> {
            &&& action_for_source(build, Some(version), action) ==> (action matches Some(
                UpdateAction::SourceGit { build_dir, latest_version },
            ) && build_dir@ == encode_utf8(dir@) && latest_version@ == version)
            &&& action_for_source(build, None, action) ==> (action matches Some(
                UpdateAction::SourceGit { build_dir, latest_version },
            ) && build_dir@ == encode_utf8(dir@) && (build.update_base_version matches Some(base)
                ==> latest_version@ == base@) && (build.update_base_version is None
                ==> latest_version@ == "unknown"@))
        },
{
}

} // verus!
