//! Programs to run.

use vstd::prelude::*;

verus! {

/// A program and its arguments.
#[derive(Debug, PartialEq, Eq)]
pub struct CommandLine {
    pub program: String,
    pub args: Vec<String>,
}

/// A [`CommandLine`] with its texts as character sequences.
#[verifier::ext_equal]
pub struct CommandData {
    pub program: Seq<char>,
    pub args: Seq<Seq<char>>,
}

impl View for CommandLine {
    type V = CommandData;

    open spec fn view(&self) -> CommandData {
        CommandData { program: self.program@, args: self.args@.map_values(|a: String| a@) }
    }
}

impl CommandData {
    /// The command with one more argument.
    pub open spec fn arg(self, arg: Seq<char>) -> CommandData {
        CommandData { program: self.program, args: self.args.push(arg) }
    }
}

/// A program without arguments.
pub open spec fn bare(program: Seq<char>) -> CommandData {
    CommandData { program, args: Seq::empty() }
}

impl CommandLine {
    /// A program without arguments.
    pub fn new(program: &str) -> (command: CommandLine)
        ensures
            command@ == bare(program@),
    {
        let command = CommandLine { program: program.to_owned(), args: Vec::new() };
        assert(command@.args =~= Seq::empty());
        command
    }

    /// The command with one more argument.
    pub fn arg(self, arg: &str) -> (command: CommandLine)
        ensures
            command@ == self@.arg(arg@),
    {
        let ghost before = self@;
        let mut args = self.args;
        args.push(arg.to_owned());
        let command = CommandLine { program: self.program, args };
        assert(command@.args =~= before.args.push(arg@));
        command
    }
}

/// Arguments stand behind the program in the order in which they were added,
/// each as it was given.
pub proof fn law_arguments_stand_in_order(program: Seq<char>, args: Seq<Seq<char>>, arg: Seq<char>)
    ensures
        bare(program).program == program,
        bare(program).args.len() == 0,
        (CommandData { program, args }).arg(arg).program == program,
        (CommandData { program, args }).arg(arg).args == args + seq![arg],
{
    assert(args.push(arg) =~= args + seq![arg]);
}

/// A command is its program and its arguments.
pub proof fn law_command_data(command: CommandLine)
    ensures
        command@.program == command.program@,
        command@.args.len() == command.args@.len(),
        forall|i: int|
            0 <= i < command.args@.len() ==> #[trigger] command@.args[i] == command.args@[i]@,
{
}

} // verus!
