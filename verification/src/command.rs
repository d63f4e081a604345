use vstd::prelude::*;

verus! {

/// An outside program to run: its name and its arguments, in order.
pub struct CommandSpec {
    pub program: String,
    pub args: Vec<String>,
}

/// What a `CommandSpec` holds, as texts.
pub struct CommandView {
    pub program: Seq<char>,
    pub args: Seq<Seq<char>>,
}

impl View for CommandSpec {
    type V = CommandView;

    open spec fn view(&self) -> CommandView {
        CommandView { program: self.program@, args: self.args@.map_values(|a: String| a@) }
    }
}

/// A command of `program` with no arguments yet.
pub fn command(program: &str) -> (cmd: CommandSpec)
    ensures
        cmd@.program == program@,
        cmd@.args == Seq::<Seq<char>>::empty(),
{
    let cmd = CommandSpec { program: program.to_owned(), args: Vec::new() };
    assert(cmd@.args =~= Seq::<Seq<char>>::empty());
    cmd
}

impl CommandSpec {
    /// Appends one argument.
    pub fn arg(&mut self, arg: &str)
        ensures
            final(self)@.program == old(self)@.program,
            final(self)@.args == old(self)@.args.push(arg@),
    {
        let ghost before = self@.args;
        self.args.push(arg.to_owned());
        assert(self@.args =~= before.push(arg@));
    }
}

} // verus!
