//! Why something did not work, as a chain of messages.

use crate::text::{join_strings, joined_with, separators_stand_between_parts, string_views};
use vstd::prelude::*;

verus! {

/// A chain of messages, the outermost first: each tells what went wrong at one level, and the
/// next one why.
#[derive(Debug, PartialEq, Eq)]
pub struct Failure {
    pub messages: Vec<String>,
}

impl View for Failure {
    type V = Seq<Seq<char>>;

    open spec fn view(&self) -> Seq<Seq<char>> {
        string_views(self.messages@)
    }
}

/// The chain with `context` as the new outermost message.
pub open spec fn in_context(chain: Seq<Seq<char>>, context: Seq<char>) -> Seq<Seq<char>> {
    seq![context] + chain
}

/// The outermost message of a chain.
pub open spec fn outermost(chain: Seq<Seq<char>>) -> Seq<char> {
    if chain.len() == 0 {
        Seq::<char>::empty()
    } else {
        chain.first()
    }
}

/// All messages of a chain on one line.
pub open spec fn detail_of(chain: Seq<Seq<char>>) -> Seq<char> {
    joined_with(chain, ": "@)
}

impl Failure {
    /// A failure with one message.
    pub fn new(message: String) -> (r: Failure)
        ensures
            r@ == seq![message@],
    {
        let mut messages: Vec<String> = Vec::new();
        messages.push(message);
        let r = Failure { messages };
        assert(r@ == seq![message@]);
        r
    }

    /// A failure with the message `text`.
    pub fn of(text: &str) -> (r: Failure)
        ensures
            r@ == seq![text@],
    {
        Failure::new(text.to_owned())
    }

    /// The same failure with `context` as the new outermost message.
    pub fn context(self, context: String) -> (r: Failure)
        ensures
            r@ == in_context(self@, context@),
    {
        let ghost before = self@;
        let mut messages = self.messages;
        messages.insert(0, context);
        let r = Failure { messages };
        assert(r@ == in_context(before, context@));
        r
    }

    /// The outermost message.
    pub fn message(&self) -> (r: String)
        ensures
            r@ == outermost(self@),
    {
        if self.messages.len() == 0 {
            String::new()
        } else {
            self.messages[0].clone()
        }
    }

    /// All messages, from the outermost in, with a colon between each two.
    pub fn detail(&self) -> (r: String)
        ensures
            r@ == detail_of(self@),
    {
        join_strings(&self.messages, ": ")
    }

    /// A copy of this failure.
    pub fn duplicate(&self) -> (r: Failure)
        ensures
            r@ == self@,
    {
        let mut messages: Vec<String> = Vec::new();
        for i in 0..self.messages.len()
            invariant
                string_views(messages@) == self@.take(i as int),
        {
            let ghost before = messages@;
            messages.push(self.messages[i].clone());
            assert(string_views(messages@) == string_views(before).push(
                self.messages@[i as int]@,
            ));
            assert(self@.take(i + 1) == self@.take(i as int).push(self.messages@[i as int]@));
        }
        let r = Failure { messages };
        assert(self@.take(self@.len() as int) == self@);
        r
    }
}

/// A context is put in front of the messages that were there, none of which is lost.
pub proof fn context_comes_first(chain: Seq<Seq<char>>, context: Seq<char>)
    ensures
        in_context(chain, context).len() == chain.len() + 1,
        in_context(chain, context)[0] == context,
        forall|i: int| 0 <= i < chain.len() ==> in_context(chain, context)[i + 1] == #[trigger] chain[i],
        outermost(in_context(chain, context)) == context,
        chain.len() > 0 ==> outermost(chain) == chain[0],
{
}

/// On one line, a context stands before the rest, with a colon and a space between them.
pub proof fn details_are_joined_by_colons(chain: Seq<Seq<char>>, context: Seq<char>)
    ensures
        detail_of(Seq::empty()).len() == 0,
        detail_of(seq![context]) == context,
        chain.len() > 0 ==> detail_of(in_context(chain, context)) == context + ": "@ + detail_of(
            chain,
        ),
{
    separators_stand_between_parts(context, chain, ": "@);
}

} // verus!
