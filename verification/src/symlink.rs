//! Pointing a symbolic link at another target without a moment in which it is missing.

use crate::disk::{disk_after, file_at, link_at, truthful, within, Disk};
use crate::failure::{in_context, Failure};
use crate::io::{answers, operation_view, Operation, OperationView, Outcome, OutcomeView};
use crate::os_text::{displayed, lemma_encode_concat, OsText};
use crate::path::{
    file_name, join_text, joined_text, lemma_ascii_bytes, lemma_entry_of_directory,
    lemma_named_plain, named, parent, parent_of, plain_name, SEPARATOR,
};
use crate::text::{concat2, decimal, decimal_string, lemma_decimal_digits, push_text};
use vstd::prelude::*;
use vstd::utf8::*;

verus! {

/// The name of a link as text; `link` where it has none.
pub open spec fn link_name(link: Seq<u8>) -> Seq<char> {
    match named(link) {
        Some(name) => if valid_utf8(name) {
            decode_utf8(name)
        } else {
            "link"@
        },
        None => "link"@,
    }
}

/// The name under which the process `pid` creates a link before it takes the place of `link`.
pub open spec fn temp_name(link: Seq<u8>, pid: nat) -> Seq<char> {
    "."@ + link_name(link) + "."@ + decimal(pid)
}

/// Where the process `pid` creates a link before it takes the place of `link`.
pub open spec fn temp_link(link: Seq<u8>, pid: nat) -> Seq<u8> {
    match parent_of(link) {
        Some(dir) => joined_text(dir, temp_name(link, pid)),
        None => link,
    }
}

/// What is said of a link that is in no directory.
pub open spec fn no_parent(link: Seq<u8>) -> Seq<Seq<char>> {
    seq!["symlink path has no parent: "@ + displayed(link)]
}

/// Where the process `pid` creates a link before it takes the place of `link`, which is in the
/// directory `dir`.
fn temp_path(link: &OsText, dir: &OsText, pid: u32) -> (r: OsText)
    ensures
        r@ == joined_text(dir@, temp_name(link@, pid as nat)),
{
    let name = match file_name(link) {
        Some(name) => match name.to_text() {
            Some(text) => text,
            None => "link".to_owned(),
        },
        None => "link".to_owned(),
    };
    let mut r = ".".to_owned();
    push_text(&mut r, name.as_str());
    push_text(&mut r, ".");
    push_text(&mut r, decimal_string(pid as u128).as_str());
    join_text(dir, r.as_str())
}

/// How far the replacement of a link has come.
#[derive(Debug, PartialEq, Eq)]
pub enum LinkPhase {
    /// The directory of the link is created.
    MakeParent,
    /// What an earlier attempt may have left is removed.
    ClearTemp,
    /// The new link is created under another name.
    MakeLink,
    /// The new link takes the place of the old one.
    Swap,
    /// It could not: it is removed.
    ClearAfter(Failure),
    Replaced,
    NotReplaced(Failure),
}

/// How far the replacement of a link has come, as a value of mathematics.
#[verifier::ext_equal]
pub enum LinkPhaseView {
    MakeParent,
    ClearTemp,
    MakeLink,
    Swap,
    ClearAfter(Seq<Seq<char>>),
    Replaced,
    NotReplaced(Seq<Seq<char>>),
}

impl View for LinkPhase {
    type V = LinkPhaseView;

    open spec fn view(&self) -> LinkPhaseView {
        match self {
            LinkPhase::MakeParent => LinkPhaseView::MakeParent,
            LinkPhase::ClearTemp => LinkPhaseView::ClearTemp,
            LinkPhase::MakeLink => LinkPhaseView::MakeLink,
            LinkPhase::Swap => LinkPhaseView::Swap,
            LinkPhase::ClearAfter(f) => LinkPhaseView::ClearAfter(f@),
            LinkPhase::Replaced => LinkPhaseView::Replaced,
            LinkPhase::NotReplaced(f) => LinkPhaseView::NotReplaced(f@),
        }
    }
}

/// The replacement of a link by one with another target.
#[derive(Debug, PartialEq, Eq)]
pub struct LinkReplacement {
    link: OsText,
    target: OsText,
    pid: u32,
    phase: LinkPhase,
}

/// The replacement of a link, as a value of mathematics.
#[verifier::ext_equal]
pub struct LinkReplacementView {
    pub link: Seq<u8>,
    pub target: Seq<u8>,
    pub pid: nat,
    pub phase: LinkPhaseView,
}

impl View for LinkReplacement {
    type V = LinkReplacementView;

    closed spec fn view(&self) -> LinkReplacementView {
        LinkReplacementView {
            link: self.link@,
            target: self.target@,
            pid: self.pid as nat,
            phase: self.phase@,
        }
    }
}

impl LinkReplacementView {
    /// A replacement that has not begun; it is over at once where the link is in no directory.
    pub open spec fn start(link: Seq<u8>, target: Seq<u8>, pid: nat) -> LinkReplacementView {
        LinkReplacementView {
            link,
            target,
            pid,
            phase: if parent_of(link) is Some {
                LinkPhaseView::MakeParent
            } else {
                LinkPhaseView::NotReplaced(no_parent(link))
            },
        }
    }

    /// The replacement in another phase.
    pub open spec fn to(self, phase: LinkPhaseView) -> LinkReplacementView {
        LinkReplacementView { phase, ..self }
    }

    /// Where the new link is created.
    pub open spec fn temp(self) -> Seq<u8> {
        temp_link(self.link, self.pid)
    }

    /// What is to be done next; nothing once the replacement is over.
    pub open spec fn operation(self) -> Option<OperationView> {
        match (self.phase, parent_of(self.link)) {
            (LinkPhaseView::MakeParent, Some(dir)) => Some(OperationView::CreateDirAll(dir)),
            (LinkPhaseView::ClearTemp, Some(_)) => Some(OperationView::RemoveFile(self.temp())),
            (LinkPhaseView::MakeLink, Some(_)) => Some(
                OperationView::Symlink { target: self.target, link: self.temp() },
            ),
            (LinkPhaseView::Swap, Some(_)) => Some(
                OperationView::Rename { from: self.temp(), to: self.link },
            ),
            (LinkPhaseView::ClearAfter(_), Some(_)) => Some(OperationView::RemoveFile(self.temp())),
            _ => None,
        }
    }

    /// The replacement after its pending operation was done.
    pub open spec fn after_done(self) -> LinkReplacementView {
        match self.phase {
            LinkPhaseView::MakeParent => self.to(LinkPhaseView::ClearTemp),
            LinkPhaseView::ClearTemp => self.to(LinkPhaseView::MakeLink),
            LinkPhaseView::MakeLink => self.to(LinkPhaseView::Swap),
            LinkPhaseView::Swap => self.to(LinkPhaseView::Replaced),
            LinkPhaseView::ClearAfter(f) => self.to(LinkPhaseView::NotReplaced(f)),
            _ => self,
        }
    }

    /// The replacement after its pending operation failed. Nothing is made of a failure to remove
    /// what an attempt left.
    pub open spec fn after_failure(self, failure: Seq<Seq<char>>) -> LinkReplacementView {
        match self.phase {
            LinkPhaseView::MakeParent => self.to(LinkPhaseView::NotReplaced(failure)),
            LinkPhaseView::ClearTemp => self.to(LinkPhaseView::MakeLink),
            LinkPhaseView::MakeLink => self.to(LinkPhaseView::NotReplaced(failure)),
            LinkPhaseView::Swap => self.to(
                LinkPhaseView::ClearAfter(
                    in_context(failure, "replace symlink "@ + displayed(self.link)),
                ),
            ),
            LinkPhaseView::ClearAfter(f) => self.to(LinkPhaseView::NotReplaced(f)),
            _ => self,
        }
    }

    /// The replacement after its pending operation ended so. An outcome that does not answer that
    /// operation changes nothing.
    pub open spec fn next(self, outcome: OutcomeView) -> LinkReplacementView {
        match outcome {
            OutcomeView::Done => self.after_done(),
            OutcomeView::Failed { failure, .. } => self.after_failure(failure),
            _ => self,
        }
    }
}

/// The replacement of the link at `link` by one to `target`, made by the process `pid`.
pub fn replace_symlink(link: &OsText, target: &OsText, pid: u32) -> (r: LinkReplacement)
    ensures
        r@ == LinkReplacementView::start(link@, target@, pid as nat),
{
    let phase = match parent(link) {
        Some(_) => LinkPhase::MakeParent,
        None => {
            let message = concat2("symlink path has no parent: ", link.display().as_str());
            LinkPhase::NotReplaced(Failure::new(message))
        },
    };
    LinkReplacement { link: link.duplicate(), target: target.duplicate(), pid, phase }
}

impl LinkReplacement {
    /// How far the replacement has come.
    pub fn phase(&self) -> (r: &LinkPhase)
        ensures
            r@ == self@.phase,
    {
        &self.phase
    }

    /// What is to be done next; nothing once the replacement is over.
    pub fn operation(&self) -> (r: Option<Operation>)
        ensures
            operation_view(r) == self@.operation(),
    {
        let dir = match parent(&self.link) {
            Some(dir) => dir,
            None => return None,
        };
        let temp = temp_path(&self.link, &dir, self.pid);
        match &self.phase {
            LinkPhase::MakeParent => Some(Operation::CreateDirAll(dir)),
            LinkPhase::ClearTemp => Some(Operation::RemoveFile(temp)),
            LinkPhase::MakeLink => Some(
                Operation::Symlink { target: self.target.duplicate(), link: temp },
            ),
            LinkPhase::Swap => Some(Operation::Rename { from: temp, to: self.link.duplicate() }),
            LinkPhase::ClearAfter(_) => Some(Operation::RemoveFile(temp)),
            _ => None,
        }
    }

    /// Takes in how the pending operation ended.
    pub fn advance(&mut self, outcome: Outcome)
        ensures
            final(self)@ == old(self)@.next(outcome@),
    {
        match (&self.phase, outcome) {
            (LinkPhase::MakeParent, Outcome::Done) => {
                self.phase = LinkPhase::ClearTemp;
            },
            (LinkPhase::MakeParent, Outcome::Failed { failure, .. }) => {
                self.phase = LinkPhase::NotReplaced(failure);
            },
            (LinkPhase::ClearTemp, Outcome::Done | Outcome::Failed { .. }) => {
                self.phase = LinkPhase::MakeLink;
            },
            (LinkPhase::MakeLink, Outcome::Done) => {
                self.phase = LinkPhase::Swap;
            },
            (LinkPhase::MakeLink, Outcome::Failed { failure, .. }) => {
                self.phase = LinkPhase::NotReplaced(failure);
            },
            (LinkPhase::Swap, Outcome::Done) => {
                self.phase = LinkPhase::Replaced;
            },
            (LinkPhase::Swap, Outcome::Failed { failure, .. }) => {
                let context = concat2("replace symlink ", self.link.display().as_str());
                self.phase = LinkPhase::ClearAfter(failure.context(context));
            },
            (LinkPhase::ClearAfter(f), Outcome::Done | Outcome::Failed { .. }) => {
                let kept = f.duplicate();
                self.phase = LinkPhase::NotReplaced(kept);
            },
            _ => {},
        }
    }
}

/// Whether the replacement of a link is over.
pub open spec fn over(l: LinkReplacementView) -> bool {
    l.phase is Replaced || l.phase is NotReplaced
}

/// A replacement always has something to do until it is over, provided that the link is in a
/// directory; where it is not, the replacement is over from the start.
pub proof fn replacement_goes_on_until_over(l: LinkReplacementView, outcome: OutcomeView)
    requires
        over(l) || parent_of(l.link) is Some,
    ensures
        over(l.next(outcome)) || parent_of(l.next(outcome).link) is Some,
        l.operation() is None <==> over(l),
        over(l) ==> l.next(outcome) == l,
{
}

// ---------------------------------------------------------------------------------------------
// What becomes of the link
// ---------------------------------------------------------------------------------------------

/// The link that stands in for another for a while is called otherwise.
pub proof fn lemma_temp_elsewhere(link: Seq<u8>, pid: nat)
    requires
        parent_of(link) is Some,
    ensures
        named(temp_link(link, pid)) == Some(encode_utf8(temp_name(link, pid))),
        temp_link(link, pid) != link,
{
    let name = link_name(link);
    let temp = temp_name(link, pid);
    reveal_strlit(".");
    reveal_strlit("link");
    assert(!encode_utf8(name).contains(SEPARATOR)) by {
        assert(is_ascii_chars("link"@) && !"link"@.contains('/'));
        lemma_ascii_bytes("link"@);
        if let Some(bytes) = named(link) {
            lemma_named_plain(link);
            if valid_utf8(bytes) {
                decode_utf8_encode_utf8(bytes);
            }
        }
    }
    lemma_decimal_digits(pid);
    assert(is_ascii_chars("."@) && !"."@.contains('/'));
    assert(is_ascii_chars(decimal(pid)) && !decimal(pid).contains('/'));
    lemma_ascii_bytes("."@);
    lemma_ascii_bytes(decimal(pid));
    lemma_encode_concat("."@, name);
    lemma_encode_concat("."@ + name, "."@);
    lemma_encode_concat("."@ + name + "."@, decimal(pid));
    let bytes = encode_utf8(temp);
    let dot = encode_utf8("."@);
    let middle = encode_utf8(name);
    let number = encode_utf8(decimal(pid));
    assert(bytes == dot + middle + dot + number);
    assert forall|k: int| 0 <= k < bytes.len() implies bytes[k] != SEPARATOR by {
        let n = middle.len() as int;
        if k < 1 {
            assert(dot.contains(dot[k]));
        } else if k < 1 + n {
            assert(middle.contains(middle[k - 1]));
        } else if k < 2 + n {
            assert(dot.contains(dot[k - 1 - n]));
        } else {
            assert(number.contains(number[k - 2 - n]));
        }
    }
    assert(plain_name(bytes));
    lemma_entry_of_directory(parent_of(link)->0, bytes);
    if temp_link(link, pid) == link {
        encode_utf8_valid_utf8(temp);
        encode_utf8_decode_utf8(temp);
        assert(link_name(link) == temp);
    }
}

/// What is known of the replacement of the link at `link` by one to `target` while it is under
/// way: when the new link is about to take its place, it exists.
pub open spec fn replacing(
    l: LinkReplacementView,
    disk: Disk,
    link: Seq<u8>,
    target: Seq<u8>,
    pid: nat,
) -> bool {
    &&& l.link == link
    &&& l.target == target
    &&& l.pid == pid
    &&& l.phase is Swap ==> link_at(disk, temp_link(link, pid)) == Some(target)
}

/// Whether a file system differs from another at most in what stands at `link` and at the link
/// that stands in for it, and by the directory of the two and those that lead to it.
pub open spec fn others_untouched(before: Disk, after: Disk, link: Seq<u8>, pid: nat) -> bool {
    &&& forall|p: Seq<u8>|
        p != link && p != temp_link(link, pid) ==> #[trigger] link_at(after, p) == link_at(
            before,
            p,
        )
    &&& forall|p: Seq<u8>|
        p != link && p != temp_link(link, pid) ==> #[trigger] file_at(after, p) == file_at(
            before,
            p,
        )
    &&& forall|p: Seq<u8>|
        !(parent_of(link) matches Some(dir) && within(p, dir)) ==> #[trigger] after.dirs.contains(p)
            == before.dirs.contains(p)
    &&& forall|p: Seq<u8>| before.dirs.contains(p) ==> #[trigger] after.dirs.contains(p)
}

/// One step of the replacement of a link: the link stays as it is until it is replaced.
pub proof fn lemma_replacing_step(
    l: LinkReplacementView,
    disk: Disk,
    link: Seq<u8>,
    target: Seq<u8>,
    pid: nat,
    outcome: OutcomeView,
)
    requires
        replacing(l, disk, link, target, pid),
        truthful(disk, l.operation(), outcome),
        parent_of(link) is Some,
        !over(l),
    ensures
        ({
            let after = disk_after(disk, l.operation(), outcome);
            &&& replacing(l.next(outcome), after, link, target, pid)
            &&& others_untouched(disk, after, link, pid)
            &&& l.next(outcome).phase is Replaced ==> link_at(after, link) == Some(target)
            &&& !(l.next(outcome).phase is Replaced) ==> link_at(after, link) == link_at(disk, link)
                && file_at(after, link) == file_at(disk, link)
        }),
{
    lemma_temp_elsewhere(link, pid);
}

/// Whether `outcomes` are what a file system in the state `disk` can answer, one after the other,
/// from `l` on.
pub open spec fn truthful_run(
    l: LinkReplacementView,
    disk: Disk,
    outcomes: Seq<OutcomeView>,
) -> bool
    decreases outcomes.len(),
{
    outcomes.len() > 0 ==> {
        let o = outcomes.first();
        &&& truthful(disk, l.operation(), o)
        &&& truthful_run(l.next(o), disk_after(disk, l.operation(), o), outcomes.drop_first())
    }
}

/// The replacement and the file system after the operations from `l` on ended with `outcomes`.
pub open spec fn run_from(l: LinkReplacementView, disk: Disk, outcomes: Seq<OutcomeView>) -> (
    LinkReplacementView,
    Disk,
)
    decreases outcomes.len(),
{
    if outcomes.len() == 0 {
        (l, disk)
    } else {
        let o = outcomes.first();
        run_from(l.next(o), disk_after(disk, l.operation(), o), outcomes.drop_first())
    }
}

/// What is known of the file system while a replacement is under way that began on `before`.
pub open spec fn link_kept(l: LinkReplacementView, before: Disk, disk: Disk) -> bool {
    &&& others_untouched(before, disk, l.link, l.pid)
    &&& l.phase is Replaced ==> link_at(disk, l.link) == Some(l.target)
    &&& !(l.phase is Replaced) ==> link_at(disk, l.link) == link_at(before, l.link) && file_at(
        disk,
        l.link,
    ) == file_at(before, l.link)
}

proof fn lemma_run_keeps_link(
    l: LinkReplacementView,
    before: Disk,
    disk: Disk,
    outcomes: Seq<OutcomeView>,
)
    requires
        replacing(l, disk, l.link, l.target, l.pid),
        link_kept(l, before, disk),
        truthful_run(l, disk, outcomes),
    ensures
        ({
            let (m, after) = run_from(l, disk, outcomes);
            &&& link_kept(m, before, after)
            &&& m.link == l.link
            &&& m.target == l.target
            &&& m.pid == l.pid
        }),
    decreases outcomes.len(),
{
    if outcomes.len() > 0 {
        let o = outcomes.first();
        let after = disk_after(disk, l.operation(), o);
        lemma_replacing_step(l, disk, l.link, l.target, l.pid, o);
        lemma_run_keeps_link(l.next(o), before, after, outcomes.drop_first());
    }
}

/// A link that is replaced is never missing: at every moment it leads where it led before, or to
/// its new target. It leads to the new target when the replacement has succeeded; as long as it
/// has not, and when it failed, whatever stood at its path is as it was. But for the link that
/// stands in for it for a while, nothing else is changed or removed.
pub proof fn replaced_links_are_never_missing(
    link: Seq<u8>,
    target: Seq<u8>,
    pid: nat,
    disk: Disk,
    outcomes: Seq<OutcomeView>,
)
    requires
        truthful_run(LinkReplacementView::start(link, target, pid), disk, outcomes),
    ensures
        ({
            let start = LinkReplacementView::start(link, target, pid);
            let (l, after) = run_from(start, disk, outcomes);
            &&& link_at(disk, link) is Some ==> link_at(after, link) is Some
            &&& l.phase is Replaced ==> link_at(after, link) == Some(target)
            &&& !(l.phase is Replaced) ==> link_at(after, link) == link_at(disk, link) && file_at(
                after,
                link,
            ) == file_at(disk, link)
            &&& others_untouched(disk, after, link, pid)
        }),
{
    lemma_run_keeps_link(LinkReplacementView::start(link, target, pid), disk, disk, outcomes);
}

// ---------------------------------------------------------------------------------------------
// Steps
// ---------------------------------------------------------------------------------------------

/// A link is replaced in four steps: its directory is created, what an earlier attempt left is
/// removed, a link to the new target is made under a hidden name with the number of the process
/// in the same directory, and that takes the place of the old link.
pub proof fn links_are_made_aside_and_moved(
    link: Seq<u8>,
    target: Seq<u8>,
    pid: nat,
    dir: Seq<u8>,
    name: Seq<char>,
    cleared: OutcomeView,
)
    requires
        parent_of(link) == Some(dir),
        named(link) == Some(encode_utf8(name)),
        cleared is Done || cleared is Failed,
    ensures
        ({
            let aside = joined_text(dir, "."@ + name + "."@ + decimal(pid));
            let start = LinkReplacementView::start(link, target, pid);
            let made = start.next(OutcomeView::Done);
            let clear = made.next(cleared);
            let swap = clear.next(OutcomeView::Done);
            &&& start.operation() == Some(OperationView::CreateDirAll(dir))
            &&& made.operation() == Some(OperationView::RemoveFile(aside))
            &&& clear.operation() == Some(OperationView::Symlink { target, link: aside })
            &&& swap.operation() == Some(OperationView::Rename { from: aside, to: link })
            &&& swap.next(OutcomeView::Done).phase is Replaced
        }),
{
    encode_utf8_valid_utf8(name);
    encode_utf8_decode_utf8(name);
}

/// A link whose name is not text, or that has none, is replaced by way of a link called `link`; one
/// in no directory is not replaced.
pub proof fn unnamed_links_are_replaced_too(link: Seq<u8>, target: Seq<u8>, pid: nat)
    ensures
        parent_of(link) is None ==> LinkReplacementView::start(link, target, pid).phase
            == LinkPhaseView::NotReplaced(
            seq!["symlink path has no parent: "@ + displayed(link)],
        ) && LinkReplacementView::start(link, target, pid).operation() is None,
        parent_of(link) matches Some(dir) ==> (named(link) is None || !valid_utf8(named(link)->0))
            ==> LinkReplacementView::start(link, target, pid).next(OutcomeView::Done).operation()
            == Some(
            OperationView::RemoveFile(joined_text(dir, "."@ + "link"@ + "."@ + decimal(pid))),
        ),
{
}

/// Where a step fails the old link stays: the failure is passed on, and when the new link could not
/// take its place it is removed first, whatever comes of that.
pub proof fn failed_replacements_are_told(
    l: LinkReplacementView,
    outcome: OutcomeView,
    cleared: OutcomeView,
)
    requires
        parent_of(l.link) is Some,
        cleared is Done || cleared is Failed,
    ensures
        outcome matches OutcomeView::Failed { failure, .. } ==> {
            &&& l.phase is MakeParent || l.phase is MakeLink ==> l.next(outcome).phase
                == LinkPhaseView::NotReplaced(failure)
            &&& l.phase is Swap ==> l.next(outcome).operation() == Some(
                OperationView::RemoveFile(l.temp()),
            ) && l.next(outcome).next(cleared).phase == LinkPhaseView::NotReplaced(
                seq!["replace symlink "@ + displayed(l.link)] + failure,
            )
        },
        l.next(outcome).link == l.link,
        l.next(outcome).target == l.target,
        l.next(outcome).pid == l.pid,
        l.next(outcome).phase is Replaced ==> l.phase is Replaced || (l.phase is Swap
            && outcome is Done),
{
}

/// An outcome that does not answer the pending operation changes nothing.
pub proof fn replacement_hears_only_answers(l: LinkReplacementView, outcome: OutcomeView)
    requires
        over(l) || parent_of(l.link) is Some,
        !answers(l.operation(), outcome),
    ensures
        l.next(outcome) == l,
{
}

} // verus!
