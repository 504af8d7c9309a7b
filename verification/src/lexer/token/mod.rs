//! Tokens: a kind and the place in the source where it was read.
pub mod kind;
pub mod span;

use crate::text::join;
use kind::{TokenKind, TokenKindView};
use span::{dummy_span, Span};
use vstd::prelude::*;
use vstd::std_specs::cmp::PartialEqSpecImpl;

verus! {

/// The character that stands for the end of the input.
pub const EOF_CHAR: char = '\0';

/// One token of the source.
#[derive(Debug)]
pub struct Token {
    pub kind: TokenKind,
    pub span: Span,
}

/// The mathematical value of a [`Token`].
pub struct TokenView {
    pub kind: TokenKindView,
    pub span: Span,
}

impl View for Token {
    type V = TokenView;

    open spec fn view(&self) -> TokenView {
        TokenView { kind: self.kind@, span: self.span }
    }
}

impl TokenView {
    /// How the token reads in a diagnostic: its kind, then its place.
    pub open spec fn text(self) -> Seq<char> {
        self.kind.text() + " => "@ + self.span.text()
    }

    /// Whether the token marks the end of input.
    pub open spec fn reached_eof(self) -> bool {
        self.kind is Eof
    }

    /// Whether the token is a delimiter or a semicolon: a token that the
    /// language knows, whatever the position it was met in.
    pub open spec fn is_actually_legal(self) -> bool {
        self.kind is LBracket || self.kind is RBracket || self.kind is LParen
            || self.kind is RParen || self.kind is LCurly || self.kind is RCurly
            || self.kind is Semicolon
    }

    /// Equality of tokens as values of the language: the place is
    /// disregarded, and any two illegal tokens are alike.
    pub open spec fn alike(self, other: TokenView) -> bool {
        (self.kind is Illegal && other.kind is Illegal) || self.kind == other.kind
    }
}

impl Clone for Token {
    fn clone(&self) -> (copy: Self)
        ensures
            copy@ == self@,
    {
        Token { kind: self.kind.clone(), span: self.span }
    }
}

impl PartialEq for Token {
    fn eq(&self, other: &Self) -> (r: bool) {
        match (&self.kind, &other.kind) {
            (TokenKind::Illegal { ch: _ }, TokenKind::Illegal { ch: _ }) => true,
            _ => self.kind.same_as(&other.kind),
        }
    }
}

impl PartialEqSpecImpl for Token {
    open spec fn obeys_eq_spec() -> bool {
        true
    }

    open spec fn eq_spec(&self, other: &Self) -> bool {
        self@.alike(other@)
    }
}

impl Eq for Token {

}

impl Token {
    /// Whether the token marks the end of input.
    pub fn reached_eof(&self) -> (r: bool)
        ensures
            r == self@.reached_eof(),
    {
        match self.kind {
            TokenKind::Eof => true,
            _ => false,
        }
    }

    /// Whether the token is a delimiter or a semicolon. A diagnostic about
    /// such a token in a wrong place repeats what another one already says.
    pub fn is_actually_legal(&self) -> (r: bool)
        ensures
            r == self@.is_actually_legal(),
    {
        match self.kind {
            TokenKind::LBracket
            | TokenKind::RBracket
            | TokenKind::LParen
            | TokenKind::RParen
            | TokenKind::LCurly
            | TokenKind::RCurly
            | TokenKind::Semicolon => true,
            _ => false,
        }
    }

    /// Renders the token for a diagnostic.
    pub fn to_string(&self) -> (s: String)
        ensures
            s@ == self@.text(),
    {
        let head = join(self.kind.to_string().as_str(), " => ");
        join(head.as_str(), self.span.to_string().as_str())
    }
}

/// A token of the given kind that was not read from a source.
pub fn dummy_token(kind: TokenKind) -> (token: Token)
    ensures
        token.kind == kind,
        token.span == Span::nowhere(),
{
    Token { kind, span: dummy_span() }
}

} // verus!
