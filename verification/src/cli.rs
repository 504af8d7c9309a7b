//! The arguments of the interpreter.
use vstd::prelude::*;

verus! {

/// What the interpreter was asked to do: to run the file with the path
/// `file`, or, without one, to read lines and evaluate them.
#[derive(Default, Debug, PartialEq, Eq)]
pub struct InterpreterArgs {
    pub file: Option<String>,
}

impl InterpreterArgs {
    /// The path that the arguments of a command line name: the argument
    /// after the name of the program, if there is one.
    pub open spec fn named(args: Seq<String>) -> Option<Seq<char>> {
        if args.len() <= 1 {
            None
        } else {
            Some(args[1]@)
        }
    }

    /// Reads the arguments of a command line, the name of the program
    /// first. More than one argument after it is not accepted.
    pub fn from(value: Vec<String>) -> (args: InterpreterArgs)
        requires
            value.len() <= 2,
        ensures
            match args.file {
                Some(path) => Self::named(value@) == Some(path@),
                None => Self::named(value@) is None,
            },
    {
        if value.len() <= 1 {
            InterpreterArgs { file: None }
        } else {
            InterpreterArgs { file: Some(value[1].clone()) }
        }
    }
}

} // verus!
