//! Source positions of tokens.
use crate::text::{join, nat_digits, number_to_string};
use vstd::prelude::*;

verus! {

/// The region of the source that a token covers: the lines it starts and
/// ends on (counted from 1) and the columns within those lines.
#[derive(Clone, Copy, Debug, PartialEq, Eq, Structural)]
pub struct Span {
    pub start_line: usize,
    pub end_line: usize,
    pub start_col: usize,
    pub end_col: usize,
}

impl Span {
    /// The column part of the rendering: a single column, or a range.
    pub open spec fn columns_text(self) -> Seq<char> {
        if self.start_col == self.end_col - 1 {
            nat_digits((self.start_col + 1) as nat)
        } else {
            nat_digits((self.start_col + 1) as nat) + " to "@ + nat_digits(self.end_col as nat)
        }
    }

    /// The line part of the rendering: a single line, or a range.
    pub open spec fn lines_text(self) -> Seq<char> {
        if self.start_line == self.end_line {
            "line "@ + nat_digits(self.start_line as nat)
        } else {
            "lines "@ + nat_digits(self.start_line as nat) + " to "@ + nat_digits(
                self.end_line as nat,
            )
        }
    }

    /// How a span reads in a diagnostic: `EOF` for a span that ends before
    /// the first column, else the columns followed by the lines.
    pub open spec fn text(self) -> Seq<char> {
        if self.end_col < 1 {
            "EOF"@
        } else {
            self.columns_text() + " on "@ + self.lines_text()
        }
    }

    /// Renders the span for a diagnostic.
    pub fn to_string(&self) -> (s: String)
        ensures
            s@ == self.text(),
    {
        if self.end_col < 1 {
            return String::from_str("EOF");
        }
        let first = number_to_string(self.start_col as u128 + 1);
        let range = if self.start_col == self.end_col - 1 {
            first
        } else {
            let upto = join(first.as_str(), " to ");
            join(upto.as_str(), number_to_string(self.end_col as u128).as_str())
        };
        let lines = if self.start_line == self.end_line {
            join("line ", number_to_string(self.start_line as u128).as_str())
        } else {
            let from = join("lines ", number_to_string(self.start_line as u128).as_str());
            let upto = join(from.as_str(), " to ");
            join(upto.as_str(), number_to_string(self.end_line as u128).as_str())
        };
        let head = join(range.as_str(), " on ");
        join(head.as_str(), lines.as_str())
    }

    /// The span whose four fields are zero.
    pub open spec fn nowhere() -> Span {
        Span { start_line: 0, end_line: 0, start_col: 0, end_col: 0 }
    }
}

/// A span that points nowhere, for tokens that were not read from a source.
pub fn dummy_span() -> (span: Span)
    ensures
        span == Span::nowhere(),
{
    Span { start_line: 0, end_line: 0, start_col: 0, end_col: 0 }
}

} // verus!
