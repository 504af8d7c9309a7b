//! What holds of every parse.
//!
//! Parsing only ever takes tokens and adds errors: after any production
//! the state follows on the one before it. So wherever the model asks,
//! before it goes on, that the tokens ahead did not grow, they did not.
use super::ast::{ExpressionView, IdentView, Precedence, StatementView};
use super::model::{dummy, ParserView};
use crate::lexer::token::kind::TokenKindView;
use crate::lexer::token::span::Span;
use crate::lexer::token::TokenView;
use vstd::prelude::*;

verus! {

/// What follows on a state that follows on another follows on that one.
pub proof fn follows_is_transitive(first: ParserView, second: ParserView, third: ParserView)
    requires
        second.follows(first),
        third.follows(second),
    ensures
        third.follows(first),
{
}

/// Taking a token shortens the tokens ahead, unless the current token is
/// an end of input.
pub proof fn advance_follows(p: ParserView)
    ensures
        p.advance().follows(p),
        !(p.curr.kind is Eof) ==> p.advance().fuel() < p.fuel(),
{
}

/// The parameters of a function literal only take tokens.
pub proof fn more_params_follow(p: ParserView, params: Seq<IdentView>)
    ensures
        p.more_params(params).1.follows(p),
    decreases p.fuel(),
{
    if p.peek_is(TokenKindView::Comma) {
        let at = p.advance().advance();
        advance_follows(p);
        advance_follows(p.advance());
        if at.ident() is Ok && at.fuel() < p.fuel() {
            more_params_follow(at, params.push(at.ident()->Ok_0));
        }
    }
}

/// The parameters of a function literal only take tokens.
pub proof fn function_params_follow(p: ParserView, start: Span)
    ensures
        p.function_params(start).1.follows(p),
        !(p.curr.kind is Eof) ==> p.function_params(start).1.fuel() < p.fuel(),
{
    advance_follows(p);
    let first = p.advance();
    if !p.peek_is(TokenKindView::RParen) && first.ident() is Ok {
        more_params_follow(first, seq![first.ident()->Ok_0]);
    }
}

/// An expression only takes tokens.
pub proof fn expression_follows(p: ParserView, precedence: Precedence)
    ensures
        p.expression(precedence).1.follows(p),
    decreases p.fuel(), 4nat,
{
    prefix_follows(p);
    let (left, after) = p.prefix();
    if left is Ok {
        infix_follows(after, precedence, left->Ok_0);
    }
}

/// What a token starts only takes tokens.
pub proof fn prefix_follows(p: ParserView)
    ensures
        p.prefix().1.follows(p),
    decreases p.fuel(), 2nat,
{
    match p.curr.kind {
        TokenKindView::Bang | TokenKindView::Minus => unary_follows(p),
        TokenKindView::LParen => grouped_follows(p),
        TokenKindView::If => conditional_follows(p),
        TokenKindView::Function => function_follows(p),
        TokenKindView::LBracket => expr_list_follows(p, dummy(TokenKindView::RBracket)),
        TokenKindView::LCurly => hash_follows(p),
        _ => {},
    }
}

/// One extension of an expression takes at least one token.
pub proof fn extension_follows(p: ParserView, left: ExpressionView)
    ensures
        match p.extension(left) {
            Some((_, after)) => after.follows(p) && after.fuel() < p.fuel(),
            None => true,
        },
    decreases p.fuel(), 2nat,
{
    advance_follows(p);
    if p.peek_is_binary() {
        binary_follows(p.advance(), left);
    } else if p.peek.kind is LParen {
        expr_list_follows(p.advance(), dummy(TokenKindView::RParen));
    } else if p.peek.kind is LBracket {
        index_follows(p.advance(), left);
    }
}

/// The extensions of an expression only take tokens.
pub proof fn infix_follows(p: ParserView, precedence: Precedence, left: ExpressionView)
    ensures
        p.infix(precedence, left).1.follows(p),
    decreases p.fuel(), 3nat,
{
    if !p.peek_is(TokenKindView::Semicolon) && precedence.rank() < Precedence::of(
        p.peek.kind,
    ).rank() {
        extension_follows(p, left);
        match p.extension(left) {
            Some((Ok(extended), after)) => {
                infix_follows(after, precedence, extended);
            },
            _ => {},
        }
    }
}

/// A prefix operator with its operand takes at least one token, unless it
/// is asked for at an end of input.
pub proof fn unary_follows(p: ParserView)
    ensures
        p.unary().1.follows(p),
    decreases p.fuel(), 1nat,
{
    if !(p.curr.kind is Eof) {
        advance_follows(p);
        expression_follows(p.advance(), Precedence::Prefix);
    }
}

/// An infix operator with its right operand takes at least one token,
/// unless it is asked for at an end of input.
pub proof fn binary_follows(p: ParserView, left: ExpressionView)
    ensures
        p.binary(left).1.follows(p),
        !(p.curr.kind is Eof) ==> p.binary(left).1.fuel() < p.fuel(),
    decreases p.fuel(), 1nat,
{
    if !(p.curr.kind is Eof) {
        advance_follows(p);
        expression_follows(p.advance(), Precedence::of(p.curr.kind));
    }
}

/// A group in parentheses only takes tokens.
pub proof fn grouped_follows(p: ParserView)
    ensures
        p.grouped().1.follows(p),
    decreases p.fuel(), 1nat,
{
    if !(p.curr.kind is Eof) {
        advance_follows(p);
        expression_follows(p.advance(), Precedence::Lowest);
    }
}

/// An index takes at least one token, unless it is asked for at an end of
/// input.
pub proof fn index_follows(p: ParserView, arr: ExpressionView)
    ensures
        p.index(arr).1.follows(p),
        !(p.curr.kind is Eof) ==> p.index(arr).1.fuel() < p.fuel(),
    decreases p.fuel(), 1nat,
{
    if !(p.curr.kind is Eof) {
        advance_follows(p);
        expression_follows(p.advance(), Precedence::Lowest);
    }
}

/// A list of expressions takes at least one token, unless it is asked for
/// at an end of input.
pub proof fn expr_list_follows(p: ParserView, end: TokenView)
    ensures
        p.expr_list(end).1.follows(p),
        !(p.curr.kind is Eof) ==> p.expr_list(end).1.fuel() < p.fuel(),
    decreases p.fuel(), 0nat,
{
    advance_follows(p);
    if !p.peek_is(end.kind) && !(p.curr.kind is Eof) {
        expression_follows(p.advance(), Precedence::Lowest);
        let (first, after) = p.advance().expression(Precedence::Lowest);
        if first is Ok {
            more_exprs_follow(after, end, seq![first->Ok_0], Span::nowhere());
        }
    }
}

/// The rest of a list of expressions only takes tokens.
pub proof fn more_exprs_follow(
    p: ParserView,
    end: TokenView,
    exprs: Seq<ExpressionView>,
    start: Span,
)
    ensures
        p.more_exprs(end, exprs, start).1.follows(p),
    decreases p.fuel(), 0nat,
{
    if p.peek_is(TokenKindView::Comma) {
        let comma = p.advance();
        advance_follows(p);
        advance_follows(comma);
        expression_follows(comma.advance(), Precedence::Lowest);
        let (next, after) = comma.advance().expression(Precedence::Lowest);
        if next is Ok {
            more_exprs_follow(after, end, exprs.push(next->Ok_0), comma.curr.span);
        }
    }
}

/// A hash-map literal only takes tokens.
pub proof fn hash_follows(p: ParserView)
    ensures
        p.hash().1.follows(p),
    decreases p.fuel(), 1nat,
{
    hash_pairs_follow(p, Seq::empty());
}

/// The pairs of a hash-map literal only take tokens.
pub proof fn hash_pairs_follow(p: ParserView, pairs: Seq<(ExpressionView, ExpressionView)>)
    ensures
        p.hash_pairs(pairs).1.follows(p),
    decreases p.fuel(), 0nat,
{
    if !p.peek_is(TokenKindView::RCurly) && !(p.curr.kind is Eof) {
        advance_follows(p);
        expression_follows(p.advance(), Precedence::Lowest);
        let (key, after_key) = p.advance().expression(Precedence::Lowest);
        if key is Ok {
            let colon = after_key.expect_peek(dummy(TokenKindView::Colon)).1;
            advance_follows(after_key);
            advance_follows(colon);
            expression_follows(colon.advance(), Precedence::Lowest);
            let (val, after_val) = colon.advance().expression(Precedence::Lowest);
            if val is Ok {
                let next = if after_val.peek_is(TokenKindView::RCurly) {
                    after_val
                } else {
                    after_val.expect_peek(dummy(TokenKindView::Comma)).1
                };
                advance_follows(after_val);
                hash_pairs_follow(next, pairs.push((key->Ok_0, val->Ok_0)));
            }
        }
    }
}

/// A conditional only takes tokens.
#[verifier::rlimit(60)]
pub proof fn conditional_follows(p: ParserView)
    ensures
        p.conditional().1.follows(p),
    decreases p.fuel(), 1nat,
{
    let (opened, at_paren) = p.expect_peek(dummy(TokenKindView::LParen));
    if !(p.curr.kind is Eof) && opened {
        advance_follows(p);
        advance_follows(at_paren);
        expression_follows(at_paren.advance(), Precedence::Lowest);
        let (cond, after_cond) = at_paren.advance().expression(Precedence::Lowest);
        let (closed, at_close) = after_cond.expect_peek(dummy(TokenKindView::RParen));
        let (body, at_brace) = at_close.expect_peek(dummy(TokenKindView::LCurly));
        advance_follows(after_cond);
        advance_follows(at_close);
        if cond is Ok && closed && body {
            advance_follows(at_brace);
            block_follows(at_brace.advance(), Seq::empty());
            let (consequence, after_block) = at_brace.advance().block(Seq::empty());
            let (opened, at_else) = after_block.advance().expect_peek(
                dummy(TokenKindView::LCurly),
            );
            advance_follows(after_block);
            advance_follows(after_block.advance());
            if after_block.peek_is(TokenKindView::Else) && opened {
                advance_follows(at_else);
                block_follows(at_else.advance(), Seq::empty());
            }
        }
    }
}

/// A function literal only takes tokens.
#[verifier::rlimit(60)]
pub proof fn function_follows(p: ParserView)
    ensures
        p.function().1.follows(p),
    decreases p.fuel(), 1nat,
{
    let start = p.curr.span;
    let (name, named) = p.function_name();
    let (opened, at_paren) = named.expect_peek(dummy(TokenKindView::LParen));
    let (params, after_params) = at_paren.function_params(start);
    let (body, at_brace) = after_params.expect_peek(dummy(TokenKindView::LCurly));
    if !(p.curr.kind is Eof) && opened {
        advance_follows(p);
        advance_follows(named);
        function_params_follow(at_paren, start);
        advance_follows(after_params);
        if params is Ok && body {
            advance_follows(at_brace);
            block_follows(at_brace.advance(), Seq::empty());
        }
    }
}

/// A block only takes tokens.
pub proof fn block_follows(p: ParserView, stmts: Seq<StatementView>)
    ensures
        p.block(stmts).1.follows(p),
    decreases p.fuel(), 7nat,
{
    if !(p.curr_is(TokenKindView::RCurly) || p.curr.kind is Eof) {
        statement_follows(p);
        let (stmt, after) = p.statement();
        let next = after.advance();
        advance_follows(after);
        let stmts = match stmt {
            Some(stmt) => stmts.push(stmt),
            None => stmts,
        };
        block_follows(next, stmts);
    }
}

/// A statement only takes tokens.
pub proof fn statement_follows(p: ParserView)
    ensures
        p.statement().1.follows(p),
    decreases p.fuel(), 6nat,
{
    advance_follows(p);
    match p.curr.kind {
        TokenKindView::Let => {
            let at_name = p.expect_peek(dummy(TokenKindView::Ident { label: Seq::empty() })).1;
            let at_assign = at_name.expect_peek(dummy(TokenKindView::Assign)).1;
            advance_follows(at_name);
            advance_follows(at_assign);
            expression_follows(at_assign.advance(), Precedence::Lowest);
            advance_follows(at_assign.advance().expression(Precedence::Lowest).1);
        },
        TokenKindView::Return | TokenKindView::Source => {
            expression_follows(p.advance(), Precedence::Lowest);
            advance_follows(p.advance().expression(Precedence::Lowest).1);
        },
        _ => {
            expression_follows(p, Precedence::Lowest);
            advance_follows(p.expression(Precedence::Lowest).1);
        },
    }
}

/// A program only takes tokens.
pub proof fn program_follows(p: ParserView, stmts: Seq<StatementView>)
    ensures
        p.program(stmts).1.follows(p),
    decreases p.fuel(),
{
    if !(p.curr.kind is Eof) {
        statement_follows(p);
        let (stmt, after) = p.statement();
        let next = after.advance();
        advance_follows(after);
        let stmts = match stmt {
            Some(stmt) => stmts.push(stmt),
            None => stmts,
        };
        program_follows(next, stmts);
    }
}

/// Parsing a program ends at an end of input.
pub proof fn program_ends_at_the_end(p: ParserView, stmts: Seq<StatementView>)
    ensures
        p.program(stmts).1.curr.kind is Eof,
    decreases p.fuel(),
{
    if !(p.curr.kind is Eof) {
        statement_follows(p);
        let (stmt, after) = p.statement();
        let next = after.advance();
        advance_follows(after);
        let stmts = match stmt {
            Some(stmt) => stmts.push(stmt),
            None => stmts,
        };
        program_ends_at_the_end(next, stmts);
    }
}

} // verus!
