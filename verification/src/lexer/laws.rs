//! What holds of every text.
//!
//! The cursor only moves on and never leaves the text: each token that is
//! read before the end of the text takes at least one character, and at
//! the end every token is an end of input.
use super::token::kind::TokenKindView;
use super::token::EOF_CHAR;
use super::LexerView;
use vstd::prelude::*;

verus! {

impl LexerView {
    /// Whether `self` can come after `before`: the same text, with the
    /// cursor no further back and within the text.
    pub open spec fn follows(self, before: LexerView) -> bool {
        &&& self.input == before.input
        &&& before.position <= self.position <= self.input.len()
    }
}

/// Skipping whitespace only moves the cursor on.
pub proof fn skip_whitespace_follows(lexer: LexerView)
    requires
        0 <= lexer.position <= lexer.input.len(),
    ensures
        lexer.skip_whitespace().follows(lexer),
    decreases lexer.input.len() - lexer.position,
{
    if lexer.position < lexer.input.len() && super::is_blank(lexer.current()) {
        skip_whitespace_follows(lexer.advance());
    }
}

/// Reading an identifier only moves the cursor on.
pub proof fn ident_end_follows(lexer: LexerView)
    requires
        0 <= lexer.position <= lexer.input.len(),
    ensures
        lexer.ident_end().follows(lexer),
        lexer.position < lexer.input.len() && super::is_ident_char(lexer.current())
            ==> lexer.position < lexer.ident_end().position,
    decreases lexer.input.len() - lexer.position,
{
    if lexer.position < lexer.input.len() && super::is_ident_char(lexer.current()) {
        ident_end_follows(lexer.advance());
    }
}

/// Reading a number only moves the cursor on.
pub proof fn number_end_follows(lexer: LexerView, dot: bool)
    requires
        0 <= lexer.position <= lexer.input.len(),
    ensures
        lexer.number_end(dot).1.follows(lexer),
        lexer.position < lexer.input.len() && super::is_digit(lexer.current()) ==> lexer.position
            < lexer.number_end(dot).1.position,
    decreases lexer.input.len() - lexer.position,
{
    if lexer.position < lexer.input.len() && (super::is_digit(lexer.current())
        || lexer.current() == '.') {
        number_end_follows(lexer.advance(), dot || lexer.current() == '.');
    }
}

/// Reading the body of a string only moves the cursor on.
pub proof fn string_body_follows(lexer: LexerView, read: Seq<char>)
    requires
        0 <= lexer.position <= lexer.input.len(),
    ensures
        lexer.string_body(read).2.follows(lexer),
    decreases lexer.input.len() - lexer.position,
{
    if lexer.current() != '"' {
        let escaped = if lexer.current() == '\\' {
            lexer.advance()
        } else {
            lexer
        };
        let taken = escaped.advance();
        if !taken.reached_end_of_input() {
            string_body_follows(taken, read.push(escaped.current()));
        }
    }
}

/// Reading a line comment only moves the cursor on.
pub proof fn line_comment_end_follows(lexer: LexerView)
    requires
        0 <= lexer.position <= lexer.input.len(),
    ensures
        lexer.line_comment_end().follows(lexer),
    decreases lexer.input.len() - lexer.position,
{
    if lexer.current() != '\n' && !lexer.reached_end_of_input() {
        line_comment_end_follows(lexer.advance());
    }
}

/// Reading a block comment only moves the cursor on.
pub proof fn block_comment_end_follows(lexer: LexerView)
    requires
        0 <= lexer.position <= lexer.input.len(),
    ensures
        lexer.block_comment_end().1.follows(lexer),
    decreases lexer.input.len() - lexer.position,
{
    if (lexer.peek() != '*' || lexer.peek_peek() != '/') && !lexer.reached_end_of_input() {
        block_comment_end_follows(lexer.advance());
    }
}

/// A token that starts within the text takes at least one character.
pub proof fn token_takes_characters(lexer: LexerView)
    requires
        0 <= lexer.position <= lexer.input.len(),
    ensures
        lexer.token_kind().1.follows(lexer),
        lexer.position < lexer.input.len() ==> lexer.position < lexer.token_kind().1.position,
{
    ident_end_follows(lexer);
    number_end_follows(lexer, false);
    string_body_follows(lexer.advance(), Seq::empty());
    line_comment_end_follows(lexer.advance().advance());
    block_comment_end_follows(lexer.advance().advance());
}

/// The cursor only moves on when a token is read, and a token that is read
/// before the end of the text moves it.
pub proof fn next_token_follows(lexer: LexerView)
    requires
        0 <= lexer.position <= lexer.input.len(),
    ensures
        lexer.next_token().1.follows(lexer),
        lexer.position < lexer.input.len() ==> lexer.position < lexer.next_token().1.position,
{
    skip_whitespace_follows(lexer);
    token_takes_characters(lexer.skip_whitespace());
    if lexer.position < lexer.input.len() && super::is_blank(lexer.current()) {
        skip_whitespace_follows(lexer.advance());
    }
}

/// At the end of the text every token is an end of input, and the cursor
/// stays.
pub proof fn at_the_end_every_token_is_the_end(lexer: LexerView)
    requires
        lexer.position == lexer.input.len(),
    ensures
        lexer.next_token().0.kind == TokenKindView::Eof,
        lexer.next_token().0.span == lexer.end_span(),
        lexer.next_token().1 == lexer,
        lexer.remaining() == Seq::<super::token::TokenView>::empty(),
{
    assert(lexer.skip_whitespace() == lexer);
    assert(lexer.current() == EOF_CHAR);
}

/// The tokens that are still to be read are the next token and those that
/// are still to be read after it.
pub proof fn remaining_is_the_next_and_the_rest(lexer: LexerView)
    requires
        0 <= lexer.position < lexer.input.len(),
    ensures
        lexer.remaining() == seq![lexer.next_token().0] + lexer.next_token().1.remaining(),
{
    next_token_follows(lexer);
}

} // verus!
