//! The shape of an external command the engine asks to have run: a program
//! name, its arguments, and an optional working directory. The engine only
//! ever builds these values; running them is outside the library.

use vstd::prelude::*;

verus! {

/// An external command invocation, by value.
pub struct Command {
    pub program: String,
    pub args: Vec<String>,
    pub cwd: Option<String>,
}

/// The mathematical shape of a `Command`.
#[verifier::ext_equal]
pub struct CommandModel {
    pub program: Seq<char>,
    pub args: Seq<Seq<char>>,
    pub cwd: Option<Seq<char>>,
}

impl View for Command {
    type V = CommandModel;

    open spec fn view(&self) -> CommandModel {
        CommandModel {
            program: self.program@,
            args: self.args.deep_view(),
            cwd: match self.cwd {
                Some(d) => Some(d@),
                None => None,
            },
        }
    }
}

impl DeepView for Command {
    type V = CommandModel;

    open spec fn deep_view(&self) -> CommandModel {
        self.view()
    }
}

impl Command {
    /// A command with no arguments, run in the caller's directory.
    pub fn new(program: &str) -> (r: Command)
        ensures
            r@.program == program@,
            r@.args == Seq::<Seq<char>>::empty(),
            r@.cwd is None,
    {
        let r = Command { program: String::from_str(program), args: Vec::new(), cwd: None };
        assert(r@.args =~= Seq::<Seq<char>>::empty());
        r
    }

    /// The same command with one more argument.
    pub fn arg(self, a: &str) -> (r: Command)
        ensures
            r@.program == self@.program,
            r@.args == self@.args.push(a@),
            r@.cwd == self@.cwd,
    {
        let mut args = self.args;
        let ghost prev = args.deep_view();
        args.push(String::from_str(a));
        assert(args.deep_view() =~= prev.push(a@));
        Command { program: self.program, args, cwd: self.cwd }
    }

    /// The same command with one more argument, taken by value.
    pub fn arg_string(self, a: String) -> (r: Command)
        ensures
            r@.program == self@.program,
            r@.args == self@.args.push(a@),
            r@.cwd == self@.cwd,
    {
        let mut args = self.args;
        let ghost prev = args.deep_view();
        args.push(a);
        assert(args.deep_view() =~= prev.push(a@));
        Command { program: self.program, args, cwd: self.cwd }
    }

    /// The same command with every entry of `list` appended to its arguments.
    pub fn args_from(self, list: &Vec<String>) -> (r: Command)
        ensures
            r@.program == self@.program,
            r@.args == self@.args + list.deep_view(),
            r@.cwd == self@.cwd,
    {
        let mut args = self.args;
        let ghost prev = args.deep_view();
        let mut i: usize = 0;
        while i < list.len()
            invariant
                i <= list.len(),
                args.deep_view() == prev + list.deep_view().subrange(0, i as int),
            decreases list.len() - i,
        {
            let ghost before = args.deep_view();
            args.push(list[i].clone());
            assert(args.deep_view() =~= before.push(list.deep_view()[i as int]));
            assert(args.deep_view() =~= prev + list.deep_view().subrange(0, i + 1));
            i += 1;
        }
        assert(list.deep_view().subrange(0, list.len() as int) =~= list.deep_view());
        Command { program: self.program, args, cwd: self.cwd }
    }

    /// The same command, to be run inside the directory `d`.
    pub fn in_dir(self, d: String) -> (r: Command)
        ensures
            r@.program == self@.program,
            r@.args == self@.args,
            r@.cwd == Some(d@),
    {
        Command { program: self.program, args: self.args, cwd: Some(d) }
    }
}

} // verus!
