//! The functions that the language provides under fixed names.
use vstd::prelude::*;

verus! {

/// A function of the language's own library.
#[derive(Clone, Copy, Debug, PartialEq, Eq, Structural)]
pub enum BuiltinFunction {
    Kind,
    Write,
    Read,
    Len,
    First,
    Last,
    Split,
    Chars,
    Append,
    StripStart,
    StripEnd,
}

impl BuiltinFunction {
    /// The name under which the function is called.
    pub open spec fn name(self) -> Seq<char> {
        match self {
            BuiltinFunction::Kind => "kind"@,
            BuiltinFunction::Write => "write"@,
            BuiltinFunction::Read => "read"@,
            BuiltinFunction::Len => "len"@,
            BuiltinFunction::First => "first"@,
            BuiltinFunction::Last => "last"@,
            BuiltinFunction::Split => "split"@,
            BuiltinFunction::Chars => "chars"@,
            BuiltinFunction::Append => "append"@,
            BuiltinFunction::StripStart => "strip_start"@,
            BuiltinFunction::StripEnd => "strip_end"@,
        }
    }

    /// The number of arguments that the function takes.
    pub open spec fn arity(self) -> u32 {
        match self {
            BuiltinFunction::Kind
            | BuiltinFunction::Write
            | BuiltinFunction::Read
            | BuiltinFunction::Len
            | BuiltinFunction::First
            | BuiltinFunction::Last
            | BuiltinFunction::Chars => 1,
            BuiltinFunction::Split
            | BuiltinFunction::Append
            | BuiltinFunction::StripStart
            | BuiltinFunction::StripEnd => 2,
        }
    }

    /// The function that an identifier names, if it names one. `writeln`
    /// names the function that writes.
    pub open spec fn named(name: Seq<char>) -> Option<BuiltinFunction> {
        if name == "kind"@ {
            Some(BuiltinFunction::Kind)
        } else if name == "writeln"@ {
            Some(BuiltinFunction::Write)
        } else if name == "read"@ {
            Some(BuiltinFunction::Read)
        } else if name == "len"@ {
            Some(BuiltinFunction::Len)
        } else if name == "first"@ {
            Some(BuiltinFunction::First)
        } else if name == "last"@ {
            Some(BuiltinFunction::Last)
        } else if name == "chars"@ {
            Some(BuiltinFunction::Chars)
        } else if name == "split"@ {
            Some(BuiltinFunction::Split)
        } else if name == "append"@ {
            Some(BuiltinFunction::Append)
        } else if name == "strip_start"@ {
            Some(BuiltinFunction::StripStart)
        } else if name == "strip_end"@ {
            Some(BuiltinFunction::StripEnd)
        } else {
            None
        }
    }

    /// The name under which the function is called.
    pub fn label(&self) -> (s: &'static str)
        ensures
            s@ == self.name(),
    {
        match self {
            BuiltinFunction::Kind => "kind",
            BuiltinFunction::Write => "write",
            BuiltinFunction::Read => "read",
            BuiltinFunction::Len => "len",
            BuiltinFunction::First => "first",
            BuiltinFunction::Last => "last",
            BuiltinFunction::Split => "split",
            BuiltinFunction::Chars => "chars",
            BuiltinFunction::Append => "append",
            BuiltinFunction::StripStart => "strip_start",
            BuiltinFunction::StripEnd => "strip_end",
        }
    }

    /// The number of arguments that the function takes.
    pub fn expected_args(&self) -> (n: u32)
        ensures
            n == self.arity(),
    {
        match self {
            BuiltinFunction::Kind
            | BuiltinFunction::Write
            | BuiltinFunction::Read
            | BuiltinFunction::Len
            | BuiltinFunction::First
            | BuiltinFunction::Last
            | BuiltinFunction::Chars => 1,
            BuiltinFunction::Split
            | BuiltinFunction::Append
            | BuiltinFunction::StripStart
            | BuiltinFunction::StripEnd => 2,
        }
    }
}

} // verus!
