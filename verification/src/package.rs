//! What a complete source package holds, and the check that one is complete.

use crate::failure::{in_context, Failure};
use crate::io::{answers, operation_view, Operation, OperationView, Outcome, OutcomeView};
use crate::json::{
    field_view, json_document, json_members, json_text, member, member_of, parse, quote,
    JsonField, JsonFieldView,
};
use crate::os_text::{displayed, views, OsText};
use crate::path::{join_text, joined_text};
use crate::text::{concat2, decimal, decimal_string, has_text, push_text, str_contains};
use vstd::prelude::*;

verus! {

// ---------------------------------------------------------------------------------------------
// Metadata
// ---------------------------------------------------------------------------------------------

/// What a field of the metadata must hold.
#[derive(Debug, PartialEq, Eq)]
pub enum Expected {
    Number(u64),
    Text(String),
}

/// What a field of the metadata must hold, as a value of mathematics.
pub enum ExpectedView {
    Number(u64),
    Text(Seq<char>),
}

impl View for Expected {
    type V = ExpectedView;

    open spec fn view(&self) -> ExpectedView {
        match self {
            Expected::Number(n) => ExpectedView::Number(*n),
            Expected::Text(t) => ExpectedView::Text(t@),
        }
    }
}

/// The fields that the metadata of a package for `target` must have, in the order in which they
/// are looked at.
pub open spec fn expected_fields(target: Seq<char>) -> Seq<(Seq<char>, ExpectedView)> {
    seq![
        ("layoutVersion"@, ExpectedView::Number(1)),
        ("target"@, ExpectedView::Text(target)),
        ("variant"@, ExpectedView::Text("codex"@)),
        ("entrypoint"@, ExpectedView::Text("bin/codex"@)),
        ("resourcesDir"@, ExpectedView::Text("codex-resources"@)),
        ("pathDir"@, ExpectedView::Text("codex-path"@)),
    ]
}

/// Whether a field holds what it must.
pub open spec fn holds(found: Option<JsonFieldView>, expected: ExpectedView) -> bool {
    match (found, expected) {
        (Some(field), ExpectedView::Number(n)) => field.unsigned == Some(n),
        (Some(field), ExpectedView::Text(t)) => field.text == Some(t),
        (None, _) => false,
    }
}

/// What is shown for what a field must hold.
pub open spec fn expected_text(expected: ExpectedView) -> Seq<char> {
    match expected {
        ExpectedView::Number(n) => decimal(n as nat),
        ExpectedView::Text(t) => json_text(t),
    }
}

/// What is shown for what a field holds.
pub open spec fn found_text(found: Option<JsonFieldView>) -> Seq<char> {
    match found {
        Some(field) => field.rendered,
        None => "null"@,
    }
}

/// What is said of a field that does not hold what it must.
pub open spec fn field_message(
    name: Seq<char>,
    shown: Seq<char>,
    found: Option<JsonFieldView>,
) -> Seq<char> {
    "invalid source package metadata field `"@ + name + "`: expected "@ + shown + ", found "@
        + found_text(found)
}

/// What is said of the first field that does not hold what it must.
pub open spec fn first_wrong_field(
    members: Map<Seq<char>, JsonFieldView>,
    fields: Seq<(Seq<char>, ExpectedView)>,
) -> Option<Seq<char>>
    decreases fields.len(),
{
    if fields.len() == 0 {
        None
    } else {
        let (name, expected) = fields.first();
        let found = member_of(members, name);
        if holds(found, expected) {
            first_wrong_field(members, fields.drop_first())
        } else {
            Some(field_message(name, expected_text(expected), found))
        }
    }
}

/// What is wrong with the metadata of a package for `target`.
pub open spec fn metadata_failure(bytes: Seq<u8>, target: Seq<char>) -> Option<Seq<char>> {
    match json_document(bytes) {
        Ok(members) => first_wrong_field(members, expected_fields(target)),
        Err(text) => Some(text),
    }
}

/// A field that the metadata must have.
struct ExpectedField {
    name: &'static str,
    value: Expected,
}

spec fn field_views(fields: Seq<ExpectedField>) -> Seq<(Seq<char>, ExpectedView)> {
    fields.map_values(|f: ExpectedField| (f.name@, f.value@))
}

/// The fields that the metadata of a package for `target` must have.
fn list_expected_fields(target: &str) -> (r: Vec<ExpectedField>)
    ensures
        field_views(r@) == expected_fields(target@),
{
    let r = vec![
        ExpectedField { name: "layoutVersion", value: Expected::Number(1) },
        ExpectedField { name: "target", value: Expected::Text(target.to_owned()) },
        ExpectedField { name: "variant", value: Expected::Text("codex".to_owned()) },
        ExpectedField { name: "entrypoint", value: Expected::Text("bin/codex".to_owned()) },
        ExpectedField { name: "resourcesDir", value: Expected::Text("codex-resources".to_owned()) },
        ExpectedField { name: "pathDir", value: Expected::Text("codex-path".to_owned()) },
    ];
    assert(field_views(r@) =~= expected_fields(target@));
    r
}

/// What is wrong with a field of the metadata: the message, or nothing where the field holds
/// what it must; `shown` is what is shown for that.
pub fn check_field(name: &str, expected: &Expected, shown: &str, found: &Option<JsonField>) -> (r:
    Option<String>)
    ensures
        match r {
            Some(message) => !holds(field_view(*found), expected@) && message@ == field_message(
                name@,
                shown@,
                field_view(*found),
            ),
            None => holds(field_view(*found), expected@),
        },
{
    let right = match (found, expected) {
        (Some(field), Expected::Number(n)) => match field.unsigned {
            Some(m) => m == *n,
            None => false,
        },
        (Some(field), Expected::Text(t)) => match &field.text {
            Some(s) => *s == *t,
            None => false,
        },
        (None, _) => false,
    };
    if right {
        return None;
    }
    let mut message = "invalid source package metadata field `".to_owned();
    push_text(&mut message, name);
    push_text(&mut message, "`: expected ");
    push_text(&mut message, shown);
    push_text(&mut message, ", found ");
    match found {
        Some(field) => push_text(&mut message, field.rendered.as_str()),
        None => push_text(&mut message, "null"),
    }
    Some(message)
}

/// What is wrong with the metadata of a package for `target`, as it stands in a file with these
/// bytes; nothing where it is as it must be.
pub fn check_metadata(bytes: &[u8], target: &str) -> (r: Option<String>)
    ensures
        match r {
            Some(message) => metadata_failure(bytes@, target@) == Some(message@),
            None => metadata_failure(bytes@, target@) is None,
        },
{
    let value = match parse(bytes) {
        Ok(value) => value,
        Err(text) => return Some(text),
    };
    let ghost members = json_document(bytes@)->Ok_0;
    let fields = list_expected_fields(target);
    let ghost all = expected_fields(target@);
    assert(all.skip(0) == all);
    for i in 0..fields.len()
        invariant
            members == json_members(value),
            json_document(bytes@) == Ok::<_, Seq<char>>(members),
            all == expected_fields(target@),
            all == field_views(fields@),
            first_wrong_field(members, all) == first_wrong_field(members, all.skip(i as int)),
    {
        assert(all.skip(i as int).drop_first() == all.skip(i + 1));
        assert(all.skip(i as int).first() == (fields@[i as int].name@, fields@[i as int].value@));
        let shown = match &fields[i].value {
            Expected::Number(n) => decimal_string(*n as u128),
            Expected::Text(t) => quote(t.as_str()),
        };
        let found = member(&value, fields[i].name);
        let flaw = check_field(fields[i].name, &fields[i].value, shown.as_str(), &found);
        if flaw.is_some() {
            return flaw;
        }
    }
    None
}

// ---------------------------------------------------------------------------------------------
// The whole package
// ---------------------------------------------------------------------------------------------

/// Where the metadata of a package is.
pub open spec fn metadata_path(package_dir: Seq<u8>) -> Seq<u8> {
    joined_text(package_dir, "codex-package.json"@)
}

/// The executables that a package for `target` must have.
pub open spec fn executables(package_dir: Seq<u8>, target: Seq<char>) -> Seq<Seq<u8>> {
    let common = seq![
        joined_text(package_dir, "bin/codex"@),
        joined_text(package_dir, "bin/codex-code-mode-host"@),
        joined_text(package_dir, "codex-path/rg"@),
    ];
    if has_text(target, "linux"@) {
        common.push(joined_text(package_dir, "codex-resources/bwrap"@))
    } else {
        common
    }
}

/// The executables that a package for `target` must have.
pub fn required_executables(package_dir: &OsText, target: &str) -> (r: Vec<OsText>)
    ensures
        views(r@) == executables(package_dir@, target@),
{
    let mut r = vec![
        join_text(package_dir, "bin/codex"),
        join_text(package_dir, "bin/codex-code-mode-host"),
        join_text(package_dir, "codex-path/rg"),
    ];
    if str_contains(target, "linux") {
        r.push(join_text(package_dir, "codex-resources/bwrap"));
    }
    assert(views(r@) =~= executables(package_dir@, target@));
    r
}

/// Whether permission bits let anyone execute a file.
pub open spec fn executable_mode(mode: u32) -> bool {
    mode & 0o111 != 0
}

/// What is wrong with what stands at the path of an executable.
pub open spec fn executable_failure(path: Seq<u8>, is_file: bool, mode: u32) -> Option<Seq<char>> {
    if !is_file {
        Some("source package is missing executable "@ + displayed(path))
    } else if !executable_mode(mode) {
        Some("source package file is not executable: "@ + displayed(path))
    } else {
        None
    }
}

/// What is wrong with what stands at the path of an executable; nothing where it is a file that
/// can be executed.
pub fn require_executable(path: &OsText, is_file: bool, mode: u32) -> (r: Option<String>)
    ensures
        match r {
            Some(message) => executable_failure(path@, is_file, mode) == Some(message@),
            None => executable_failure(path@, is_file, mode) is None,
        },
{
    if !is_file {
        return Some(
            concat2("source package is missing executable ", path.display().as_str()),
        );
    }
    if mode & 0o111 == 0 {
        return Some(
            concat2("source package file is not executable: ", path.display().as_str()),
        );
    }
    None
}

/// How far the check of a package has come.
#[derive(Debug, PartialEq, Eq)]
pub enum CheckPhase {
    /// The metadata is read.
    ReadMetadata,
    /// The executable with this number is looked at.
    Inspect(usize),
    /// The package is complete.
    Passed,
    /// The package is not complete.
    Rejected(Failure),
}

/// How far the check of a package has come, as a value of mathematics.
#[verifier::ext_equal]
pub enum CheckPhaseView {
    ReadMetadata,
    Inspect(nat),
    Passed,
    Rejected(Seq<Seq<char>>),
}

impl View for CheckPhase {
    type V = CheckPhaseView;

    open spec fn view(&self) -> CheckPhaseView {
        match self {
            CheckPhase::ReadMetadata => CheckPhaseView::ReadMetadata,
            CheckPhase::Inspect(i) => CheckPhaseView::Inspect(*i as nat),
            CheckPhase::Passed => CheckPhaseView::Passed,
            CheckPhase::Rejected(f) => CheckPhaseView::Rejected(f@),
        }
    }
}

/// The check that the package in a directory is complete and made for a target.
#[derive(Debug, PartialEq, Eq)]
pub struct PackageCheck {
    package_dir: OsText,
    target: String,
    phase: CheckPhase,
}

/// The check of a package, as a value of mathematics.
#[verifier::ext_equal]
pub struct PackageCheckView {
    pub package_dir: Seq<u8>,
    pub target: Seq<char>,
    pub phase: CheckPhaseView,
}

impl View for PackageCheck {
    type V = PackageCheckView;

    closed spec fn view(&self) -> PackageCheckView {
        PackageCheckView {
            package_dir: self.package_dir@,
            target: self.target@,
            phase: self.phase@,
        }
    }
}

impl PackageCheckView {
    /// A check that has not begun.
    pub open spec fn start(package_dir: Seq<u8>, target: Seq<char>) -> PackageCheckView {
        PackageCheckView { package_dir, target, phase: CheckPhaseView::ReadMetadata }
    }

    /// The executables to look at.
    pub open spec fn executables(self) -> Seq<Seq<u8>> {
        executables(self.package_dir, self.target)
    }

    /// The check in another phase.
    pub open spec fn to(self, phase: CheckPhaseView) -> PackageCheckView {
        PackageCheckView { phase, ..self }
    }

    /// What is to be done next; nothing once the check is over.
    pub open spec fn operation(self) -> Option<OperationView> {
        match self.phase {
            CheckPhaseView::ReadMetadata => Some(
                OperationView::ReadFile(metadata_path(self.package_dir)),
            ),
            CheckPhaseView::Inspect(i) => if i < self.executables().len() {
                Some(OperationView::InspectFile(self.executables()[i as int]))
            } else {
                None
            },
            _ => None,
        }
    }

    /// The check after the metadata was read.
    pub open spec fn after_metadata(self, bytes: Seq<u8>) -> PackageCheckView {
        match metadata_failure(bytes, self.target) {
            Some(message) => self.to(CheckPhaseView::Rejected(seq![message])),
            None => self.to(CheckPhaseView::Inspect(0)),
        }
    }

    /// The check after an executable was looked at.
    pub open spec fn after_file(self, i: nat, is_file: bool, mode: u32) -> PackageCheckView {
        if i >= self.executables().len() {
            self
        } else {
            match executable_failure(self.executables()[i as int], is_file, mode) {
                Some(message) => self.to(CheckPhaseView::Rejected(seq![message])),
                None => if i + 1 == self.executables().len() {
                    self.to(CheckPhaseView::Passed)
                } else {
                    self.to(CheckPhaseView::Inspect(i + 1))
                },
            }
        }
    }

    /// The check after its pending operation ended so. An outcome that does not answer that
    /// operation changes nothing.
    pub open spec fn next(self, outcome: OutcomeView) -> PackageCheckView {
        match (self.phase, outcome) {
            (CheckPhaseView::ReadMetadata, OutcomeView::Bytes(bytes)) => self.after_metadata(bytes),
            (CheckPhaseView::ReadMetadata, OutcomeView::Failed { failure, .. }) => self.to(
                CheckPhaseView::Rejected(
                    in_context(failure, "read "@ + displayed(metadata_path(self.package_dir))),
                ),
            ),
            (CheckPhaseView::Inspect(i), OutcomeView::File { is_file, mode }) => self.after_file(
                i,
                is_file,
                mode,
            ),
            (CheckPhaseView::Inspect(_), OutcomeView::Failed { failure, .. }) => self.to(
                CheckPhaseView::Rejected(failure),
            ),
            _ => self,
        }
    }
}

/// The check of the package in `package_dir`, which must be made for `target`.
pub fn validate_source_package(package_dir: &OsText, target: &str) -> (r: PackageCheck)
    ensures
        r@ == PackageCheckView::start(package_dir@, target@),
{
    PackageCheck {
        package_dir: package_dir.duplicate(),
        target: target.to_owned(),
        phase: CheckPhase::ReadMetadata,
    }
}

impl PackageCheck {
    /// How far the check has come.
    pub fn phase(&self) -> (r: &CheckPhase)
        ensures
            r@ == self@.phase,
    {
        &self.phase
    }

    /// What is to be done next; nothing once the check is over.
    pub fn operation(&self) -> (r: Option<Operation>)
        ensures
            operation_view(r) == self@.operation(),
    {
        match self.phase {
            CheckPhase::ReadMetadata => Some(
                Operation::ReadFile(join_text(&self.package_dir, "codex-package.json")),
            ),
            CheckPhase::Inspect(i) => {
                let all = required_executables(&self.package_dir, self.target.as_str());
                assert(views(all@).len() == all@.len());
                if i < all.len() {
                    assert(views(all@)[i as int] == all@[i as int]@);
                    Some(Operation::InspectFile(all[i].duplicate()))
                } else {
                    None
                }
            },
            _ => None,
        }
    }

    /// Takes in what stands at the path of an executable.
    fn take_file(&mut self, i: usize, is_file: bool, mode: u32)
        ensures
            final(self)@ == old(self)@.after_file(i as nat, is_file, mode),
    {
        let all = required_executables(&self.package_dir, self.target.as_str());
        assert(views(all@).len() == all@.len());
        if i >= all.len() {
            return;
        }
        assert(views(all@)[i as int] == all@[i as int]@);
        match require_executable(&all[i], is_file, mode) {
            Some(message) => {
                self.phase = CheckPhase::Rejected(Failure::new(message));
            },
            None => {
                if i + 1 == all.len() {
                    self.phase = CheckPhase::Passed;
                } else {
                    self.phase = CheckPhase::Inspect(i + 1);
                }
            },
        }
    }

    /// Takes in how the pending operation ended.
    pub fn advance(&mut self, outcome: Outcome)
        ensures
            final(self)@ == old(self)@.next(outcome@),
    {
        match (&self.phase, outcome) {
            (CheckPhase::ReadMetadata, Outcome::Bytes(bytes)) => {
                match check_metadata(bytes.as_slice(), self.target.as_str()) {
                    Some(message) => {
                        self.phase = CheckPhase::Rejected(Failure::new(message));
                    },
                    None => {
                        self.phase = CheckPhase::Inspect(0);
                    },
                }
            },
            (CheckPhase::ReadMetadata, Outcome::Failed { failure, .. }) => {
                let path = join_text(&self.package_dir, "codex-package.json");
                let context = concat2("read ", path.display().as_str());
                self.phase = CheckPhase::Rejected(failure.context(context));
            },
            (CheckPhase::Inspect(i), Outcome::File { is_file, mode }) => {
                self.take_file(*i, is_file, mode);
            },
            (CheckPhase::Inspect(_), Outcome::Failed { failure, .. }) => {
                self.phase = CheckPhase::Rejected(failure);
            },
            _ => {},
        }
    }
}

// ---------------------------------------------------------------------------------------------
// What the check accepts
// ---------------------------------------------------------------------------------------------

/// What the check can find: the bytes of the metadata, and the permission bits of the regular
/// files.
pub struct PackageFiles {
    pub metadata: Seq<u8>,
    pub modes: Map<Seq<u8>, u32>,
}

/// Whether a file that can be executed stands at a path.
pub open spec fn has_executable(files: PackageFiles, path: Seq<u8>) -> bool {
    files.modes.contains_key(path) && executable_mode(files.modes[path])
}

/// Whether a package is complete and made for `target`.
pub open spec fn complete_package(
    files: PackageFiles,
    package_dir: Seq<u8>,
    target: Seq<char>,
) -> bool {
    &&& metadata_failure(files.metadata, target) is None
    &&& forall|i: int|
        0 <= i < executables(package_dir, target).len() ==> has_executable(
            files,
            #[trigger] executables(package_dir, target)[i],
        )
}

/// What is answered to an operation of the check.
pub open spec fn answer(files: PackageFiles, op: OperationView) -> OutcomeView {
    match op {
        OperationView::ReadFile(_) => OutcomeView::Bytes(files.metadata),
        OperationView::InspectFile(path) => if files.modes.contains_key(path) {
            OutcomeView::File { is_file: true, mode: files.modes[path] }
        } else {
            OutcomeView::File { is_file: false, mode: 0 }
        },
        _ => OutcomeView::Done,
    }
}

/// The check after `n` more of its operations were answered.
pub open spec fn check_after(v: PackageCheckView, files: PackageFiles, n: nat) -> PackageCheckView
    decreases n,
{
    match v.operation() {
        Some(op) if n > 0 => check_after(v.next(answer(files, op)), files, (n - 1) as nat),
        _ => v,
    }
}

proof fn lemma_inspections(v: PackageCheckView, files: PackageFiles, i: nat)
    requires
        v.phase == CheckPhaseView::Inspect(i),
        i < v.executables().len(),
    ensures
        check_after(v, files, (v.executables().len() - i) as nat).operation() is None,
        check_after(v, files, (v.executables().len() - i) as nat).phase is Passed <==> (forall|
            k: int,
        |
            i <= k < v.executables().len() ==> has_executable(
                files,
                #[trigger] v.executables()[k],
            )),
    decreases v.executables().len() - i,
{
    let all = v.executables();
    let path = all[i as int];
    let n = (all.len() - i) as nat;
    let op = OperationView::InspectFile(path);
    assert(v.operation() == Some(op));
    let w = v.next(answer(files, op));
    assert(check_after(v, files, n) == check_after(w, files, (n - 1) as nat));
    if !has_executable(files, path) {
        assert(w.phase is Rejected);
        assert(check_after(w, files, (n - 1) as nat) == w);
    } else if i + 1 == all.len() {
        assert(w.phase is Passed);
        assert(check_after(w, files, (n - 1) as nat) == w);
    } else {
        assert(w.phase == CheckPhaseView::Inspect(i + 1));
        assert(w.executables() == all);
        lemma_inspections(w, files, i + 1);
    }
}

/// When each of its operations is answered with what is there, the check comes to an end, and it
/// passes a package exactly when that is complete and made for the target.
pub proof fn check_passes_complete_packages(
    files: PackageFiles,
    package_dir: Seq<u8>,
    target: Seq<char>,
)
    ensures
        check_after(
            PackageCheckView::start(package_dir, target),
            files,
            1 + executables(package_dir, target).len(),
        ).operation() is None,
        check_after(
            PackageCheckView::start(package_dir, target),
            files,
            1 + executables(package_dir, target).len(),
        ).phase is Passed <==> complete_package(files, package_dir, target),
{
    let v = PackageCheckView::start(package_dir, target);
    let n = executables(package_dir, target).len();
    let op = OperationView::ReadFile(metadata_path(package_dir));
    assert(v.operation() == Some(op));
    let w = v.next(answer(files, op));
    assert(check_after(v, files, 1 + n) == check_after(w, files, n));
    if metadata_failure(files.metadata, target) is None {
        assert(w.phase == CheckPhaseView::Inspect(0));
        assert(w.executables() == executables(package_dir, target));
        lemma_inspections(w, files, 0);
    } else {
        assert(w.phase is Rejected);
        assert(check_after(w, files, n) == w);
    }
}

/// Whether the executable that is looked at is one of those to look at.
pub open spec fn on_the_list(v: PackageCheckView) -> bool {
    v.phase matches CheckPhaseView::Inspect(i) ==> i < v.executables().len()
}

/// A check that has begun as it should always has something to do until it is over.
pub proof fn check_goes_on_until_over(v: PackageCheckView, outcome: OutcomeView)
    requires
        on_the_list(v),
    ensures
        on_the_list(v.next(outcome)),
        v.operation() is None <==> v.phase is Passed || v.phase is Rejected,
{
}

// ---------------------------------------------------------------------------------------------
// What a complete package is
// ---------------------------------------------------------------------------------------------

/// Whether a member has this text.
pub open spec fn says(
    members: Map<Seq<char>, JsonFieldView>,
    name: Seq<char>,
    text: Seq<char>,
) -> bool {
    members.contains_key(name) && members[name].text == Some(text)
}

/// Whether metadata tells the first version of the layout.
pub open spec fn says_first_layout(members: Map<Seq<char>, JsonFieldView>) -> bool {
    members.contains_key("layoutVersion"@) && members["layoutVersion"@].unsigned == Some(1u64)
}

/// What is said of a member that does not hold what it must; a member that is missing is shown as
/// `null`.
pub open spec fn complaint(
    members: Map<Seq<char>, JsonFieldView>,
    name: Seq<char>,
    shown: Seq<char>,
) -> Option<Seq<char>> {
    let found = if members.contains_key(name) {
        members[name].rendered
    } else {
        "null"@
    };
    Some(
        "invalid source package metadata field `"@ + name + "`: expected "@ + shown + ", found "@
            + found,
    )
}

proof fn lemma_fields_in_turn(members: Map<Seq<char>, JsonFieldView>, target: Seq<char>)
    ensures
        first_wrong_field(members, expected_fields(target)) == (if !says_first_layout(members) {
            complaint(members, "layoutVersion"@, "1"@)
        } else if !says(members, "target"@, target) {
            complaint(members, "target"@, json_text(target))
        } else if !says(members, "variant"@, "codex"@) {
            complaint(members, "variant"@, json_text("codex"@))
        } else if !says(members, "entrypoint"@, "bin/codex"@) {
            complaint(members, "entrypoint"@, json_text("bin/codex"@))
        } else if !says(members, "resourcesDir"@, "codex-resources"@) {
            complaint(members, "resourcesDir"@, json_text("codex-resources"@))
        } else if !says(members, "pathDir"@, "codex-path"@) {
            complaint(members, "pathDir"@, json_text("codex-path"@))
        } else {
            None
        }),
{
    reveal_strlit("1");
    assert(decimal(1) =~= "1"@);
    let f0 = expected_fields(target);
    let f1 = f0.drop_first();
    let f2 = f1.drop_first();
    let f3 = f2.drop_first();
    let f4 = f3.drop_first();
    let f5 = f4.drop_first();
    let f6 = f5.drop_first();
    assert(f6.len() == 0);
    assert(first_wrong_field(members, f6) is None);
    assert(f5.first() == ("pathDir"@, ExpectedView::Text("codex-path"@)));
    assert(f4.first() == ("resourcesDir"@, ExpectedView::Text("codex-resources"@)));
    assert(f3.first() == ("entrypoint"@, ExpectedView::Text("bin/codex"@)));
    assert(f2.first() == ("variant"@, ExpectedView::Text("codex"@)));
    assert(f1.first() == ("target"@, ExpectedView::Text(target)));
    assert(f0.first() == ("layoutVersion"@, ExpectedView::Number(1)));
    assert(first_wrong_field(members, f5) == if says(members, "pathDir"@, "codex-path"@) {
        None
    } else {
        complaint(members, "pathDir"@, json_text("codex-path"@))
    });
    assert(first_wrong_field(members, f4) == if says(
        members,
        "resourcesDir"@,
        "codex-resources"@,
    ) {
        first_wrong_field(members, f5)
    } else {
        complaint(members, "resourcesDir"@, json_text("codex-resources"@))
    });
    assert(first_wrong_field(members, f3) == if says(members, "entrypoint"@, "bin/codex"@) {
        first_wrong_field(members, f4)
    } else {
        complaint(members, "entrypoint"@, json_text("bin/codex"@))
    });
    assert(first_wrong_field(members, f2) == if says(members, "variant"@, "codex"@) {
        first_wrong_field(members, f3)
    } else {
        complaint(members, "variant"@, json_text("codex"@))
    });
    assert(first_wrong_field(members, f1) == if says(members, "target"@, target) {
        first_wrong_field(members, f2)
    } else {
        complaint(members, "target"@, json_text(target))
    });
}

/// Metadata is as it must be exactly when it is a JSON document whose members tell the first
/// version of the layout, the target, the variant, and where the command, its resources and its
/// helpers are. What is said is about the first of these that is not so.
pub proof fn metadata_tells_what_was_built(
    bytes: Seq<u8>,
    target: Seq<char>,
    members: Map<Seq<char>, JsonFieldView>,
)
    requires
        json_document(bytes) == Ok::<_, Seq<char>>(members),
    ensures
        metadata_failure(bytes, target) is None <==> says_first_layout(members) && says(
            members,
            "target"@,
            target,
        ) && says(members, "variant"@, "codex"@) && says(members, "entrypoint"@, "bin/codex"@)
            && says(members, "resourcesDir"@, "codex-resources"@) && says(
            members,
            "pathDir"@,
            "codex-path"@,
        ),
        metadata_failure(bytes, target) == (if !says_first_layout(members) {
            complaint(members, "layoutVersion"@, "1"@)
        } else if !says(members, "target"@, target) {
            complaint(members, "target"@, json_text(target))
        } else if !says(members, "variant"@, "codex"@) {
            complaint(members, "variant"@, json_text("codex"@))
        } else if !says(members, "entrypoint"@, "bin/codex"@) {
            complaint(members, "entrypoint"@, json_text("bin/codex"@))
        } else if !says(members, "resourcesDir"@, "codex-resources"@) {
            complaint(members, "resourcesDir"@, json_text("codex-resources"@))
        } else if !says(members, "pathDir"@, "codex-path"@) {
            complaint(members, "pathDir"@, json_text("codex-path"@))
        } else {
            None
        }),
{
    lemma_fields_in_turn(members, target);
}

/// A package has its command, its code-mode host and its search tool, and for Linux a bubblewrap
/// besides; nothing else is asked for.
pub proof fn packages_hold_their_programs(package_dir: Seq<u8>, target: Seq<char>)
    ensures
        executables(package_dir, target).take(3) == seq![
            joined_text(package_dir, "bin/codex"@),
            joined_text(package_dir, "bin/codex-code-mode-host"@),
            joined_text(package_dir, "codex-path/rg"@),
        ],
        has_text(target, "linux"@) ==> executables(package_dir, target).len() == 4 && executables(
            package_dir,
            target,
        )[3] == joined_text(package_dir, "codex-resources/bwrap"@),
        !has_text(target, "linux"@) ==> executables(package_dir, target).len() == 3,
{
}

/// A file can be executed when its owner, its group or everyone may do so, each by a bit of its
/// own.
pub proof fn one_bit_is_enough_to_execute(mode: u32)
    ensures
        executable_mode(mode) <==> mode & 1 == 1 || mode & 8 == 8 || mode & 64 == 64,
{
    assert((mode & 0o111 != 0) == (mode & 1 == 1 || mode & 8 == 8 || mode & 64 == 64))
        by (bit_vector);
}

/// The check reads the metadata in the package, and then looks at each program in turn, the first
/// one first. Metadata that cannot be read, or is not as it must be, ends it.
pub proof fn metadata_is_read_first(
    v: PackageCheckView,
    bytes: Seq<u8>,
    outcome: OutcomeView,
)
    requires
        v.phase is ReadMetadata,
        outcome is Failed,
    ensures
        ({
            let path = joined_text(v.package_dir, "codex-package.json"@);
            &&& v.operation() == Some(OperationView::ReadFile(path))
            &&& outcome matches OutcomeView::Failed { failure, .. } ==> v.next(outcome).phase
                == CheckPhaseView::Rejected(seq!["read "@ + displayed(path)] + failure)
            &&& match metadata_failure(bytes, v.target) {
                Some(why) => v.next(OutcomeView::Bytes(bytes)).phase == CheckPhaseView::Rejected(
                    seq![why],
                ),
                None => v.next(OutcomeView::Bytes(bytes)).operation() == Some(
                    OperationView::InspectFile(joined_text(v.package_dir, "bin/codex"@)),
                ),
            }
        }),
{
}

/// A program that is not there, is no file or cannot be executed ends the check; after the last one
/// that is as it must be the check has passed.
pub proof fn every_program_is_looked_at(
    v: PackageCheckView,
    i: nat,
    mode: u32,
    outcome: OutcomeView,
)
    requires
        v.phase == CheckPhaseView::Inspect(i),
        i < executables(v.package_dir, v.target).len(),
        outcome is Failed,
    ensures
        ({
            let path = executables(v.package_dir, v.target)[i as int];
            let good = v.next(OutcomeView::File { is_file: true, mode });
            let n = if has_text(v.target, "linux"@) {
                4int
            } else {
                3int
            };
            &&& v.operation() == Some(OperationView::InspectFile(path))
            &&& v.next(OutcomeView::File { is_file: false, mode }).phase
                == CheckPhaseView::Rejected(
                seq!["source package is missing executable "@ + displayed(path)],
            )
            &&& mode & 0o111 == 0 ==> good.phase == CheckPhaseView::Rejected(
                seq!["source package file is not executable: "@ + displayed(path)],
            )
            &&& mode & 0o111 != 0 ==> good.phase == (if i + 1 == n {
                CheckPhaseView::Passed
            } else {
                CheckPhaseView::Inspect(i + 1)
            })
            &&& outcome matches OutcomeView::Failed { failure, .. } ==> v.next(outcome).phase
                == CheckPhaseView::Rejected(failure)
        }),
{
}

/// A check is about one package and one target from its start to its end.
pub proof fn checks_keep_their_subject(
    package_dir: Seq<u8>,
    target: Seq<char>,
    v: PackageCheckView,
    outcome: OutcomeView,
)
    ensures
        PackageCheckView::start(package_dir, target).package_dir == package_dir,
        PackageCheckView::start(package_dir, target).target == target,
        PackageCheckView::start(package_dir, target).phase is ReadMetadata,
        v.next(outcome).package_dir == v.package_dir,
        v.next(outcome).target == v.target,
{
}

/// An outcome that does not answer the pending operation changes nothing.
pub proof fn check_hears_only_answers(v: PackageCheckView, outcome: OutcomeView)
    requires
        on_the_list(v),
        !answers(v.operation(), outcome),
    ensures
        v.next(outcome) == v,
{
}

/// Metadata that is no JSON document is never as it must be, whatever the target: the package is
/// rejected with what was said against the document, and no program is looked at.
pub proof fn unreadable_metadata_is_rejected(
    v: PackageCheckView,
    bytes: Seq<u8>,
    why: Seq<char>,
)
    requires
        v.phase is ReadMetadata,
        json_document(bytes) == Err::<Map<Seq<char>, JsonFieldView>, _>(why),
    ensures
        metadata_failure(bytes, v.target) == Some(why),
        v.next(OutcomeView::Bytes(bytes)).phase == CheckPhaseView::Rejected(seq![why]),
        v.next(OutcomeView::Bytes(bytes)).operation() is None,
{
}

} // verus!
