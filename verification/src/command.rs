//! Descriptions of command invocations.

use crate::text::texts;
use vstd::prelude::*;

verus! {

/// A program, its arguments, and whether it runs with elevated privileges.
///
/// A command is built up by value and describes an invocation; running it is
/// the executor's business.
#[derive(Clone, Debug, PartialEq, Eq)]
pub struct Command {
    pub program: String,
    pub args: Vec<String>,
    pub elevated: bool,
}

/// A command as plain text.
pub struct CommandView {
    pub program: Seq<char>,
    pub args: Seq<Seq<char>>,
    pub elevated: bool,
}

impl CommandView {
    pub open spec fn new(program: Seq<char>) -> CommandView {
        CommandView { program, args: Seq::empty(), elevated: false }
    }

    pub open spec fn arg(self, arg: Seq<char>) -> CommandView {
        CommandView { args: self.args.push(arg), ..self }
    }

    pub open spec fn args(self, more: Seq<Seq<char>>) -> CommandView {
        CommandView { args: self.args + more, ..self }
    }

    pub open spec fn comparg(self, flag: Seq<char>, value: Seq<char>) -> CommandView {
        self.arg(flag).arg(value)
    }

    pub open spec fn sudo(self) -> CommandView {
        CommandView { elevated: true, ..self }
    }
}

impl View for Command {
    type V = CommandView;

    open spec fn view(&self) -> CommandView {
        CommandView { program: self.program@, args: texts(self.args@), elevated: self.elevated }
    }
}

impl Command {
    /// The invocation of `program` with no arguments.
    pub fn new(program: &str) -> (r: Command)
        ensures
            r@ == CommandView::new(program@),
    {
        let r = Command { program: program.to_owned(), args: Vec::new(), elevated: false };
        assert(texts(r.args@) =~= Seq::empty());
        r
    }

    /// Adds one argument.
    pub fn arg(self, arg: &str) -> (r: Command)
        ensures
            r@ == self@.arg(arg@),
    {
        let mut args = self.args;
        let ghost before = args@;
        args.push(arg.to_owned());
        assert(texts(args@) =~= texts(before).push(arg@));
        Command { program: self.program, args, elevated: self.elevated }
    }

    /// Adds the arguments of `more`, in order.
    pub fn args(self, more: &Vec<String>) -> (r: Command)
        ensures
            r@ == self@.args(texts(more@)),
    {
        let mut args = self.args;
        let ghost before = args@;
        let mut i: usize = 0;
        while i < more.len()
            invariant
                i <= more.len(),
                texts(args@) == texts(before) + texts(more@).take(i as int),
            decreases more.len() - i,
        {
            let ghost prev = args@;
            args.push(more[i].clone());
            assert(texts(args@) =~= texts(prev).push(more@[i as int]@));
            assert(texts(more@).take(i + 1) =~= texts(more@).take(i as int).push(more@[i as int]@));
            i += 1;
        }
        assert(texts(more@).take(i as int) =~= texts(more@));
        Command { program: self.program, args, elevated: self.elevated }
    }

    /// Adds a flag and the value that belongs to it.
    pub fn comparg(self, flag: &str, value: &str) -> (r: Command)
        ensures
            r@ == self@.comparg(flag@, value@),
    {
        self.arg(flag).arg(value)
    }

    /// Asks for the command to be run with elevated privileges.
    pub fn sudo(self) -> (r: Command)
        ensures
            r@ == self@.sudo(),
    {
        Command { program: self.program, args: self.args, elevated: true }
    }
}

} // verus!
