//! The abstract syntax tree, and the mathematical value of each node.
//!
//! A tree owns its children. Only the parameters and the body of a function
//! literal are shared, so that a function value can keep them without a copy.
pub mod nodes;
pub mod render;
pub mod sources;
pub mod statement;

use crate::lexer::token::kind::{TokenKind, TokenKindView};
use crate::lexer::token::{Token, TokenView};
use nodes::{
    ArrayLiteral, ConditionalOperator, FunctionCall, FunctionLiteral, HashLiteral, IdentNode,
    IndexAccess, InfixOperator, PrefixOperator, PrimitiveNode,
};
use statement::Statement;
use vstd::prelude::*;

verus! {

/// A whole program: its statements in order.
#[derive(Default, Debug, PartialEq)]
pub struct Program {
    pub statements: Vec<Statement>,
}

/// An expression.
#[derive(PartialEq, Debug)]
pub enum Expression {
    Identifier(IdentNode),
    Primitive(PrimitiveNode),
    Unary(PrefixOperator),
    Binary(InfixOperator),
    Conditional(ConditionalOperator),
    FunctionDef(FunctionLiteral),
    FunctionCall(FunctionCall),
    Array(ArrayLiteral),
    ArrIndex(IndexAccess),
    HashMapLiteral(HashLiteral),
}

/// The value of an identifier node.
pub struct IdentView {
    pub token: TokenView,
    pub label: Seq<char>,
}

/// The value of a literal. A float is kept as the text that was read.
pub enum PrimitiveView {
    Integer(i64),
    Float(Seq<char>),
    Char(char),
    Str(Seq<char>),
    Boolean(bool),
}

/// The value of an expression.
pub enum ExpressionView {
    Identifier(IdentView),
    Primitive(PrimitiveView),
    Unary { operator: TokenView, right: Box<ExpressionView> },
    Binary { operator: TokenView, left: Box<ExpressionView>, right: Box<ExpressionView> },
    Conditional {
        cond: Box<ExpressionView>,
        consequence: Seq<StatementView>,
        alternative: Option<Seq<StatementView>>,
    },
    FunctionDef { name: Option<Seq<char>>, params: Seq<IdentView>, body: Seq<StatementView> },
    FunctionCall { function: Box<ExpressionView>, args: Seq<ExpressionView> },
    Array { elements: Seq<ExpressionView> },
    ArrIndex { arr: Box<ExpressionView>, index: Box<ExpressionView> },
    HashMapLiteral { pairs: Seq<(ExpressionView, ExpressionView)> },
}

/// The value of a statement.
pub enum StatementView {
    Assignment { name: IdentView, val: ExpressionView },
    Return(ExpressionView),
    Expression(ExpressionView),
    Source(Seq<char>),
}

/// The values of a list of identifiers.
pub open spec fn idents_view(idents: Seq<IdentNode>) -> Seq<IdentView> {
    Seq::new(idents.len(), |i: int| idents[i]@)
}

/// The value of an optional text.
pub open spec fn name_view(name: Option<String>) -> Option<Seq<char>> {
    match name {
        Some(text) => Some(text@),
        None => None,
    }
}

/// The values of a list of expressions.
pub open spec fn exprs_view(exprs: Seq<Expression>) -> Seq<ExpressionView>
    decreases exprs,
{
    Seq::new(
        exprs.len(),
        |i: int|
            if 0 <= i < exprs.len() {
                expr_view(exprs[i])
            } else {
                arbitrary()
            },
    )
}

/// The values of a list of pairs of expressions.
pub open spec fn pairs_view(pairs: Seq<(Expression, Expression)>) -> Seq<
    (ExpressionView, ExpressionView),
>
    decreases pairs,
{
    Seq::new(
        pairs.len(),
        |i: int|
            if 0 <= i < pairs.len() {
                (expr_view(pairs[i].0), expr_view(pairs[i].1))
            } else {
                arbitrary()
            },
    )
}

/// The values of a list of statements.
pub open spec fn stmts_view(stmts: Seq<Statement>) -> Seq<StatementView>
    decreases stmts,
{
    Seq::new(
        stmts.len(),
        |i: int|
            if 0 <= i < stmts.len() {
                stmt_view(stmts[i])
            } else {
                arbitrary()
            },
    )
}

/// The value of a statement.
pub open spec fn stmt_view(stmt: Statement) -> StatementView
    decreases stmt,
{
    match stmt {
        Statement::Assignment(l) => StatementView::Assignment { name: l.name@, val: expr_view(l.val) },
        Statement::Return(r) => StatementView::Return(expr_view(r.returnable)),
        Statement::Expression(e) => StatementView::Expression(expr_view(e)),
        Statement::Source(s) => StatementView::Source(s.path@),
    }
}

/// The value of an expression.
pub open spec fn expr_view(expr: Expression) -> ExpressionView
    decreases expr,
{
    match expr {
        Expression::Identifier(i) => ExpressionView::Identifier(i@),
        Expression::Primitive(p) => ExpressionView::Primitive(p@),
        Expression::Unary(u) => ExpressionView::Unary {
            operator: u.operator@,
            right: Box::new(expr_view(*u.right_expr)),
        },
        Expression::Binary(b) => ExpressionView::Binary {
            operator: b.operator@,
            left: Box::new(expr_view(*b.left_expr)),
            right: Box::new(expr_view(*b.right_expr)),
        },
        Expression::Conditional(c) => ExpressionView::Conditional {
            cond: Box::new(expr_view(*c.cond)),
            consequence: stmts_view(c.consequence.statements@),
            alternative: match c.alternative {
                Some(block) => Some(stmts_view(block.statements@)),
                None => None,
            },
        },
        Expression::FunctionDef(f) => ExpressionView::FunctionDef {
            name: name_view(f.name),
            params: idents_view((*f.params)@),
            body: stmts_view((*f.body).statements@),
        },
        Expression::FunctionCall(c) => ExpressionView::FunctionCall {
            function: Box::new(expr_view(*c.function)),
            args: exprs_view(c.args@),
        },
        Expression::Array(a) => ExpressionView::Array { elements: exprs_view(a.elements@) },
        Expression::ArrIndex(a) => ExpressionView::ArrIndex {
            arr: Box::new(expr_view(*a.arr)),
            index: Box::new(expr_view(*a.index)),
        },
        Expression::HashMapLiteral(h) => ExpressionView::HashMapLiteral { pairs: pairs_view(h.pairs@) },
    }
}

impl View for Expression {
    type V = ExpressionView;

    open spec fn view(&self) -> ExpressionView {
        expr_view(*self)
    }
}

impl View for Program {
    type V = Seq<StatementView>;

    open spec fn view(&self) -> Seq<StatementView> {
        stmts_view(self.statements@)
    }
}

/// How tightly an operator binds. A level binds tighter than the ones
/// before it, but for the last two, which bind alike.
#[derive(PartialEq, Eq, Clone, Copy, Debug, Structural)]
pub enum Precedence {
    Lowest,
    Equality,
    Comparative,
    Additive,
    Multiplicative,
    Prefix,
    FnCall,
    Index,
}

impl Precedence {
    /// The place of a level in the order of levels.
    pub open spec fn rank(self) -> int {
        match self {
            Precedence::Lowest => 0,
            Precedence::Equality => 1,
            Precedence::Comparative => 2,
            Precedence::Additive => 3,
            Precedence::Multiplicative => 4,
            Precedence::Prefix => 5,
            Precedence::FnCall => 6,
            Precedence::Index => 6,
        }
    }

    /// The level at which a token binds as an infix operator; a token that
    /// is none binds at the lowest level.
    pub open spec fn of(kind: TokenKindView) -> Precedence {
        match kind {
            TokenKindView::Equal | TokenKindView::NotEqual => Precedence::Equality,
            TokenKindView::LessThan
            | TokenKindView::LessThanEqual
            | TokenKindView::GreaterThan
            | TokenKindView::GreaterThanEqual => Precedence::Index,
            TokenKindView::Plus | TokenKindView::Minus | TokenKindView::Or => Precedence::Additive,
            TokenKindView::ForwardSlash
            | TokenKindView::Asterisk
            | TokenKindView::Modulo
            | TokenKindView::And => Precedence::Multiplicative,
            TokenKindView::LParen => Precedence::FnCall,
            TokenKindView::LBracket => Precedence::Index,
            _ => Precedence::Lowest,
        }
    }

    /// The rank of the level, as a number.
    pub fn level(&self) -> (n: u8)
        ensures
            n == self.rank(),
    {
        match self {
            Precedence::Lowest => 0,
            Precedence::Equality => 1,
            Precedence::Comparative => 2,
            Precedence::Additive => 3,
            Precedence::Multiplicative => 4,
            Precedence::Prefix => 5,
            Precedence::FnCall => 6,
            Precedence::Index => 6,
        }
    }

    /// Whether this level binds less tightly than `other`.
    pub fn lower_than(&self, other: &Precedence) -> (r: bool)
        ensures
            r == (self.rank() < other.rank()),
    {
        self.level() < other.level()
    }

    /// The level at which `token` binds as an infix operator.
    pub fn from(token: &Token) -> (p: Precedence)
        ensures
            p == Precedence::of(token@.kind),
    {
        match token.kind {
            TokenKind::Equal | TokenKind::NotEqual => Precedence::Equality,
            TokenKind::LessThan
            | TokenKind::LessThanEqual
            | TokenKind::GreaterThan
            | TokenKind::GreaterThanEqual => Precedence::Index,
            TokenKind::Plus | TokenKind::Minus | TokenKind::Or => Precedence::Additive,
            TokenKind::ForwardSlash
            | TokenKind::Asterisk
            | TokenKind::Modulo
            | TokenKind::And => Precedence::Multiplicative,
            TokenKind::LParen => Precedence::FnCall,
            TokenKind::LBracket => Precedence::Index,
            _ => Precedence::Lowest,
        }
    }
}

} // verus!
