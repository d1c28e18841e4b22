//! Where a source installation keeps its releases, and which of them is current.

use crate::command::option_view;
use crate::failure::Failure;
use crate::os_text::OsText;
use crate::path::{join_text, joined_text};
use crate::text::{
    decimal, decimal_string, lemma_decimal_digits, lemma_decimal_injective, push_text,
};
use vstd::prelude::*;

verus! {

/// The places that the installation of one release has to do with.
#[derive(Debug, PartialEq, Eq)]
pub struct SourceInstallLayout {
    source_root: OsText,
    releases_dir: OsText,
    staging_dir: OsText,
    release_dir: OsText,
    current_link: OsText,
    visible_bin: OsText,
}

/// The places that the installation of one release has to do with, as values of mathematics.
#[verifier::ext_equal]
pub struct LayoutView {
    /// The directory of the source installation.
    pub source_root: Seq<u8>,
    /// The directory of the installed releases.
    pub releases_dir: Seq<u8>,
    /// Where the package is built.
    pub staging_dir: Seq<u8>,
    /// Where the package is installed.
    pub release_dir: Seq<u8>,
    /// The link to the release that is in use.
    pub current_link: Seq<u8>,
    /// The command that users run.
    pub visible_bin: Seq<u8>,
}

/// The places for a release called `release_name`.
pub open spec fn layout_of(
    source_root: Seq<u8>,
    bin_dir: Seq<u8>,
    release_name: Seq<char>,
) -> LayoutView {
    let releases_dir = joined_text(source_root, "releases"@);
    LayoutView {
        source_root,
        releases_dir,
        staging_dir: joined_text(source_root, ".staging-"@ + release_name),
        release_dir: joined_text(releases_dir, release_name),
        current_link: joined_text(source_root, "current"@),
        visible_bin: joined_text(bin_dir, "codex"@),
    }
}

impl LayoutView {
    /// The Codex command of the release that is in use.
    pub open spec fn current_command(self) -> Seq<u8> {
        joined_text(self.current_link, "bin/codex"@)
    }

    /// The file that keeps concurrent updates apart.
    pub open spec fn lock_file(self) -> Seq<u8> {
        joined_text(self.source_root, "update.lock"@)
    }
}

impl View for SourceInstallLayout {
    type V = LayoutView;

    closed spec fn view(&self) -> LayoutView {
        LayoutView {
            source_root: self.source_root@,
            releases_dir: self.releases_dir@,
            staging_dir: self.staging_dir@,
            release_dir: self.release_dir@,
            current_link: self.current_link@,
            visible_bin: self.visible_bin@,
        }
    }
}

/// The name of a release for `target`, from the time in nanoseconds and the process that makes
/// it.
pub open spec fn release_name_of(target: Seq<char>, timestamp: nat, pid: nat) -> Seq<char> {
    "source-"@ + decimal(timestamp) + "-"@ + decimal(pid) + "-"@ + target
}

/// The name of a release for `target`, from the time in nanoseconds and the process that makes
/// it.
pub fn source_release_name(target: &str, timestamp: u128, pid: u32) -> (r: String)
    ensures
        r@ == release_name_of(target@, timestamp as nat, pid as nat),
{
    let mut r = "source-".to_owned();
    push_text(&mut r, decimal_string(timestamp).as_str());
    push_text(&mut r, "-");
    push_text(&mut r, decimal_string(pid as u128).as_str());
    push_text(&mut r, "-");
    push_text(&mut r, target);
    r
}

/// The directory for commands: the one that was asked for, else `.local/bin` in the home
/// directory.
pub open spec fn bin_dir_of(home: Seq<u8>, install_dir: Option<Seq<u8>>) -> Seq<u8> {
    match install_dir {
        Some(dir) => dir,
        None => joined_text(home, ".local/bin"@),
    }
}

/// The places for a new release for `target`; none where the home directory is not known.
pub open spec fn environment_layout(
    target: Seq<char>,
    codex_home: Seq<u8>,
    home: Option<Seq<u8>>,
    install_dir: Option<Seq<u8>>,
    timestamp: nat,
    pid: nat,
) -> Option<LayoutView> {
    match home {
        Some(home) => Some(
            layout_of(
                joined_text(codex_home, "packages/source"@),
                bin_dir_of(home, install_dir),
                release_name_of(target, timestamp, pid),
            ),
        ),
        None => None,
    }
}

/// What is said when the home directory is not known.
pub open spec fn no_home() -> Seq<Seq<char>> {
    seq!["HOME is not set; cannot install a source update"@]
}

impl SourceInstallLayout {
    /// The places for a new release for `target`: below the Codex home directory, with the
    /// command in `install_dir` where that is given, else in `.local/bin` below the home
    /// directory of the user, which must be known in either case.
    pub fn for_environment(
        target: &str,
        codex_home: &OsText,
        home: &Option<OsText>,
        install_dir: &Option<OsText>,
        timestamp: u128,
        pid: u32,
    ) -> (r: Result<SourceInstallLayout, Failure>)
        ensures
            match r {
                Ok(layout) => environment_layout(
                    target@,
                    codex_home@,
                    option_view(*home),
                    option_view(*install_dir),
                    timestamp as nat,
                    pid as nat,
                ) == Some(layout@),
                Err(failure) => *home is None && failure@ == no_home(),
            },
    {
        let home = match home {
            Some(home) => home,
            None => {
                return Err(Failure::of("HOME is not set; cannot install a source update"));
            },
        };
        let bin_dir = match install_dir {
            Some(dir) => dir.duplicate(),
            None => join_text(home, ".local/bin"),
        };
        let source_root = join_text(codex_home, "packages/source");
        let release_name = source_release_name(target, timestamp, pid);
        Ok(SourceInstallLayout::new(&source_root, &bin_dir, release_name.as_str()))
    }

    /// The places for a release called `release_name`.
    pub fn new(source_root: &OsText, bin_dir: &OsText, release_name: &str) -> (r:
        SourceInstallLayout)
        ensures
            r@ == layout_of(source_root@, bin_dir@, release_name@),
    {
        let releases_dir = join_text(source_root, "releases");
        let mut staging_name = ".staging-".to_owned();
        push_text(&mut staging_name, release_name);
        let release_dir = join_text(&releases_dir, release_name);
        SourceInstallLayout {
            source_root: source_root.duplicate(),
            releases_dir,
            staging_dir: join_text(source_root, staging_name.as_str()),
            release_dir,
            current_link: join_text(source_root, "current"),
            visible_bin: join_text(bin_dir, "codex"),
        }
    }

    /// A copy of this layout.
    pub fn duplicate(&self) -> (r: SourceInstallLayout)
        ensures
            r@ == self@,
    {
        SourceInstallLayout {
            source_root: self.source_root.duplicate(),
            releases_dir: self.releases_dir.duplicate(),
            staging_dir: self.staging_dir.duplicate(),
            release_dir: self.release_dir.duplicate(),
            current_link: self.current_link.duplicate(),
            visible_bin: self.visible_bin.duplicate(),
        }
    }

    /// The directory of the source installation.
    pub fn source_root(&self) -> (r: &OsText)
        ensures
            r@ == self@.source_root,
    {
        &self.source_root
    }

    /// The directory of the installed releases.
    pub fn releases_dir(&self) -> (r: &OsText)
        ensures
            r@ == self@.releases_dir,
    {
        &self.releases_dir
    }

    /// Where the package is built.
    pub fn staging_dir(&self) -> (r: &OsText)
        ensures
            r@ == self@.staging_dir,
    {
        &self.staging_dir
    }

    /// Where the package is installed.
    pub fn release_dir(&self) -> (r: &OsText)
        ensures
            r@ == self@.release_dir,
    {
        &self.release_dir
    }

    /// The link to the release that is in use.
    pub fn current_link(&self) -> (r: &OsText)
        ensures
            r@ == self@.current_link,
    {
        &self.current_link
    }

    /// The command that users run.
    pub fn visible_bin(&self) -> (r: &OsText)
        ensures
            r@ == self@.visible_bin,
    {
        &self.visible_bin
    }

    /// The Codex command of the release that is in use.
    pub fn current_command(&self) -> (r: OsText)
        ensures
            r@ == self@.current_command(),
    {
        join_text(&self.current_link, "bin/codex")
    }

    /// The file that keeps concurrent updates apart.
    pub fn lock_file(&self) -> (r: OsText)
        ensures
            r@ == self@.lock_file(),
    {
        join_text(&self.source_root, "update.lock")
    }
}

proof fn lemma_dash_ends_number(m: nat, n: nat, a: Seq<char>, b: Seq<char>)
    requires
        decimal(m) + "-"@ + a == decimal(n) + "-"@ + b,
    ensures
        m == n,
        a == b,
{
    reveal_strlit("-");
    lemma_decimal_digits(m);
    lemma_decimal_digits(n);
    let x = decimal(m) + "-"@ + a;
    let y = decimal(n) + "-"@ + b;
    let p = decimal(m).len() as int;
    let q = decimal(n).len() as int;
    assert(x[p] == '-');
    assert(y[q] == '-');
    if p < q {
        assert(y[p] == decimal(n)[p]);
    }
    if q < p {
        assert(x[q] == decimal(m)[q]);
    }
    assert(decimal(m) == x.take(p));
    assert(decimal(n) == y.take(q));
    lemma_decimal_injective(m, n);
    assert(a == x.skip(p + 1));
    assert(b == y.skip(q + 1));
}

/// Releases that are made at different times, by different processes or for different targets
/// have different names.
pub proof fn release_names_are_unique(
    target: Seq<char>,
    timestamp: nat,
    pid: nat,
    other_target: Seq<char>,
    other_timestamp: nat,
    other_pid: nat,
)
    requires
        release_name_of(target, timestamp, pid) == release_name_of(
            other_target,
            other_timestamp,
            other_pid,
        ),
    ensures
        target == other_target,
        timestamp == other_timestamp,
        pid == other_pid,
{
    let rest = decimal(pid) + "-"@ + target;
    let other_rest = decimal(other_pid) + "-"@ + other_target;
    let a = release_name_of(target, timestamp, pid);
    let b = release_name_of(other_target, other_timestamp, other_pid);
    let n = "source-"@.len() as int;
    assert(a.skip(n) == decimal(timestamp) + "-"@ + rest);
    assert(b.skip(n) == decimal(other_timestamp) + "-"@ + other_rest);
    lemma_dash_ends_number(timestamp, other_timestamp, rest, other_rest);
    lemma_dash_ends_number(pid, other_pid, target, other_target);
}

/// A release has a directory among the releases and, until it is installed, one beside them that is
/// marked as staging; the link to the release in use is called `current`, and the lock
/// `update.lock`. The command of the release in use is reached through that link.
pub proof fn places_of_a_release(source_root: Seq<u8>, bin_dir: Seq<u8>, name: Seq<char>)
    ensures
        ({
            let layout = layout_of(source_root, bin_dir, name);
            &&& layout.source_root == source_root
            &&& layout.releases_dir == joined_text(source_root, "releases"@)
            &&& layout.release_dir == joined_text(joined_text(source_root, "releases"@), name)
            &&& layout.staging_dir == joined_text(source_root, ".staging-"@ + name)
            &&& layout.current_link == joined_text(source_root, "current"@)
            &&& layout.visible_bin == joined_text(bin_dir, "codex"@)
            &&& layout.current_command() == joined_text(
                joined_text(source_root, "current"@),
                "bin/codex"@,
            )
            &&& layout.lock_file() == joined_text(source_root, "update.lock"@)
        }),
{
}

/// The name of a release tells when, by which process and for which target it was made.
pub proof fn release_names_tell_their_origin(target: Seq<char>, timestamp: nat, pid: nat)
    ensures
        release_name_of(target, timestamp, pid) == "source-"@ + decimal(timestamp) + "-"@
            + decimal(pid) + "-"@ + target,
{
}

/// The command goes to the directory that was asked for, and to `.local/bin` in the home directory
/// only where none was; the releases go below the Codex home in either case. Without a home
/// directory there are no places.
pub proof fn asked_for_directories_are_used(
    target: Seq<char>,
    codex_home: Seq<u8>,
    home: Seq<u8>,
    dir: Seq<u8>,
    timestamp: nat,
    pid: nat,
)
    ensures
        environment_layout(target, codex_home, None, Some(dir), timestamp, pid) is None,
        environment_layout(target, codex_home, None, None, timestamp, pid) is None,
        environment_layout(target, codex_home, Some(home), Some(dir), timestamp, pid) matches Some(
            layout,
        ) && layout.visible_bin == joined_text(dir, "codex"@) && layout.source_root == joined_text(
            codex_home,
            "packages/source"@,
        ),
        environment_layout(target, codex_home, Some(home), None, timestamp, pid) matches Some(
            layout,
        ) && layout.visible_bin == joined_text(joined_text(home, ".local/bin"@), "codex"@)
            && layout.source_root == joined_text(codex_home, "packages/source"@),
        no_home() == seq!["HOME is not set; cannot install a source update"@],
{
}

} // verus!
