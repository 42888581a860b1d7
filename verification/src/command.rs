use vstd::prelude::*;

verus! {

/// A command: what it does in words, the word that calls it, and the program it runs.
pub struct Command<'a, F> {
    description: &'a str,
    command: &'a str,
    program: F,
}

impl<'a, F> Command<'a, F> {
    /// A command of a description, a calling word and a program.
    pub fn new(description: &'a str, command: &'a str, program: F) -> (r: Self)
        ensures
            r.description() == description,
            r.command() == command,
            r.program() == program,
    {
        Command { description, command, program }
    }

    /// A command of a description, a calling word and a program, as a constant would hold it.
    pub fn new_const(description: &'a str, command: &'a str, program: F) -> (r: Self)
        ensures
            r.description() == description,
            r.command() == command,
            r.program() == program,
    {
        Command { description, command, program }
    }

    /// What the command does, in words.
    pub closed spec fn description(self) -> &'a str {
        self.description
    }

    /// The word that calls the command.
    pub closed spec fn command(self) -> &'a str {
        self.command
    }

    /// The program the command runs.
    pub closed spec fn program(self) -> F {
        self.program
    }

    /// Runs the program once; what it gives back is dropped.
    pub fn execute<T>(&self)
        where
            F: Fn() -> T,
        requires
            self.program().requires(()),
    {
        let _ = (self.program)();
    }
}

} // verus!
