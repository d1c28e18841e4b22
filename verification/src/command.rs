//! Commands to run: a program, its arguments, its environment and its directory.

use crate::os_text::{views, OsText};
use vstd::prelude::*;
use vstd::utf8::*;

verus! {

/// A command to run.
#[derive(Debug, PartialEq, Eq)]
pub struct CommandLine {
    pub program: OsText,
    pub args: Vec<OsText>,
    /// Variables to set on top of the environment that the command inherits.
    pub env: Vec<(String, OsText)>,
    /// The directory to run in; where there is none, that of the caller.
    pub current_dir: Option<OsText>,
}

/// What a command is, as values of mathematics.
#[verifier::ext_equal]
pub struct CommandView {
    pub program: Seq<u8>,
    pub args: Seq<Seq<u8>>,
    pub env: Seq<(Seq<char>, Seq<u8>)>,
    pub current_dir: Option<Seq<u8>>,
}

/// The views of some variables.
pub open spec fn env_views(env: Seq<(String, OsText)>) -> Seq<(Seq<char>, Seq<u8>)> {
    env.map_values(|v: (String, OsText)| (v.0@, v.1@))
}

/// The view of an optional text.
pub open spec fn option_view(t: Option<OsText>) -> Option<Seq<u8>> {
    match t {
        Some(t) => Some(t@),
        None => None,
    }
}

impl View for CommandLine {
    type V = CommandView;

    open spec fn view(&self) -> CommandView {
        CommandView {
            program: self.program@,
            args: views(self.args@),
            env: env_views(self.env@),
            current_dir: option_view(self.current_dir),
        }
    }
}

/// The command that runs `program` with `args`, in the directory `dir` where there is one.
pub open spec fn command_of(
    program: Seq<u8>,
    args: Seq<Seq<u8>>,
    dir: Option<Seq<u8>>,
) -> CommandView {
    CommandView { program, args, env: Seq::empty(), current_dir: dir }
}

/// The UTF-8 bytes of some strings.
pub open spec fn utf8_all(texts: Seq<Seq<char>>) -> Seq<Seq<u8>> {
    texts.map_values(|t: Seq<char>| encode_utf8(t))
}

impl CommandLine {
    /// The command that runs `program` without arguments.
    pub fn new(program: OsText) -> (r: CommandLine)
        ensures
            r@ == command_of(program@, Seq::empty(), None),
    {
        let r = CommandLine { program, args: Vec::new(), env: Vec::new(), current_dir: None };
        assert(r@ =~= command_of(program@, Seq::empty(), None));
        r
    }

    /// The same command with one more argument.
    pub fn arg(self, arg: OsText) -> (r: CommandLine)
        ensures
            r@ == (CommandView { args: self@.args.push(arg@), ..self@ }),
    {
        let ghost before = self@;
        let mut r = self;
        r.args.push(arg);
        assert(r@ =~= CommandView { args: before.args.push(arg@), ..before });
        r
    }

    /// The same command with one more argument, in UTF-8.
    pub fn text_arg(self, arg: &str) -> (r: CommandLine)
        ensures
            r@ == (CommandView { args: self@.args.push(encode_utf8(arg@)), ..self@ }),
    {
        self.arg(OsText::from_text(arg))
    }

    /// The same command with one more variable in its environment.
    pub fn env(self, name: &str, value: OsText) -> (r: CommandLine)
        ensures
            r@ == (CommandView { env: self@.env.push((name@, value@)), ..self@ }),
    {
        let ghost before = self@;
        let mut r = self;
        r.env.push((name.to_owned(), value));
        assert(r@ =~= CommandView { env: before.env.push((name@, value@)), ..before });
        r
    }

    /// The same command, run in the directory `dir`.
    pub fn in_dir(self, dir: &OsText) -> (r: CommandLine)
        ensures
            r@ == (CommandView { current_dir: Some(dir@), ..self@ }),
    {
        let ghost before = self@;
        let mut r = self;
        r.current_dir = Some(dir.duplicate());
        assert(r@ =~= CommandView { current_dir: Some(dir@), ..before });
        r
    }
}

} // verus!
