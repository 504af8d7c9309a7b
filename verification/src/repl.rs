//! The prompt of the interactive loop.
use vstd::prelude::*;

verus! {

/// The colour of the prompt: green after a line that worked, red after one
/// that failed.
#[derive(Debug, PartialEq, Eq, Clone, Copy, Structural)]
pub enum PromptColour {
    Works,
    Error,
}

impl PromptColour {
    /// The escape sequence that switches to the colour.
    pub open spec fn code(self) -> Seq<char> {
        match self {
            PromptColour::Works => "\x1b[92m"@,
            PromptColour::Error => "\x1b[91m"@,
        }
    }

    /// The escape sequence that switches to the colour.
    pub fn colour(&self) -> (code: &'static str)
        ensures
            code@ == self.code(),
    {
        match self {
            PromptColour::Works => "\x1b[92m",
            PromptColour::Error => "\x1b[91m",
        }
    }
}

/// The banner that is shown when the loop starts.
pub const LOGO: &'static str = "
___        ___
.'|        .'|=|`.     .'|=|_.'   .'|=|_.'
.'  |      .'  | |  `. .'  |      .'  |  ___
|   |      |   |=|   | |   |      |   |=|_.'
|   |  ___ |   | |   | `.  |  ___ |   |  ___
|___|=|_.' |___| |___|   `.|=|_.' |___|=|_.'


";

/// What is shown before each line that is read.
pub const SYMBOL: &'static str = ">> ";

/// The prompt: a banner, a symbol, and the colour of the symbol.
pub struct ReplPrompt<'a> {
    pub logo: &'a str,
    pub symbol: &'a str,
    pub colour: PromptColour,
}

impl<'a> ReplPrompt<'a> {
    /// The prompt at the start of the loop: green.
    pub fn new() -> (prompt: ReplPrompt<'a>)
        ensures
            prompt.logo@ == LOGO@,
            prompt.symbol@ == SYMBOL@,
            prompt.colour == PromptColour::Works,
    {
        ReplPrompt { logo: LOGO, symbol: SYMBOL, colour: PromptColour::Works }
    }

    /// The escape sequence that switches to the colour of the prompt.
    pub fn colour(&self) -> (code: &'static str)
        ensures
            code@ == self.colour.code(),
    {
        self.colour.colour()
    }

    /// Turns the prompt green.
    pub fn works(&mut self)
        ensures
            final(self).colour == PromptColour::Works,
            final(self).logo == old(self).logo,
            final(self).symbol == old(self).symbol,
    {
        self.colour = PromptColour::Works;
    }

    /// Turns the prompt red.
    pub fn errored(&mut self)
        ensures
            final(self).colour == PromptColour::Error,
            final(self).logo == old(self).logo,
            final(self).symbol == old(self).symbol,
    {
        self.colour = PromptColour::Error;
    }
}

impl<'a> Default for ReplPrompt<'a> {
    fn default() -> (prompt: ReplPrompt<'a>)
        ensures
            prompt.logo@ == LOGO@,
            prompt.symbol@ == SYMBOL@,
            prompt.colour == PromptColour::Works,
    {
        ReplPrompt::new()
    }
}

} // verus!
