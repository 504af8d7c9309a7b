//! The nodes that expressions are made of.
use super::statement::BlockStatement;
use super::{expr_view, Expression, ExpressionView, IdentView, PrimitiveView};
use crate::lexer::token::kind::TokenKind;
use crate::lexer::token::Token;
use std::rc::Rc;
use vstd::prelude::*;

verus! {

/// A name.
#[derive(PartialEq, Debug)]
pub struct IdentNode {
    pub token: Token,
    pub label: String,
}

impl View for IdentNode {
    type V = IdentView;

    open spec fn view(&self) -> IdentView {
        IdentView { token: self.token@, label: self.label@ }
    }
}

/// A literal value. A float is kept as the text that was read.
#[derive(PartialEq, Debug)]
pub enum PrimitiveNode {
    IntegerLiteral(i64),
    FloatLiteral(String),
    CharLiteral(char),
    StringLiteral(String),
    BooleanLiteral(bool),
}

impl View for PrimitiveNode {
    type V = PrimitiveView;

    open spec fn view(&self) -> PrimitiveView {
        match self {
            PrimitiveNode::IntegerLiteral(i) => PrimitiveView::Integer(*i),
            PrimitiveNode::FloatLiteral(text) => PrimitiveView::Float(text@),
            PrimitiveNode::CharLiteral(c) => PrimitiveView::Char(*c),
            PrimitiveNode::StringLiteral(text) => PrimitiveView::Str(text@),
            PrimitiveNode::BooleanLiteral(b) => PrimitiveView::Boolean(*b),
        }
    }
}

/// A prefix operator and its operand.
#[derive(PartialEq, Debug)]
pub struct PrefixOperator {
    pub operator: Token,
    pub right_expr: Box<Expression>,
}

impl View for PrefixOperator {
    type V = ExpressionView;

    open spec fn view(&self) -> ExpressionView {
        expr_view(Expression::Unary(*self))
    }
}

/// An infix operator and its two operands.
#[derive(PartialEq, Debug)]
pub struct InfixOperator {
    pub operator: Token,
    pub left_expr: Box<Expression>,
    pub right_expr: Box<Expression>,
}

impl View for InfixOperator {
    type V = ExpressionView;

    open spec fn view(&self) -> ExpressionView {
        expr_view(Expression::Binary(*self))
    }
}

/// A conditional: a condition, the block taken when it holds, and the block
/// taken otherwise, if there is one.
#[derive(PartialEq, Debug)]
pub struct ConditionalOperator {
    pub cond: Box<Expression>,
    pub consequence: BlockStatement,
    pub alternative: Option<BlockStatement>,
}

impl View for ConditionalOperator {
    type V = ExpressionView;

    open spec fn view(&self) -> ExpressionView {
        expr_view(Expression::Conditional(*self))
    }
}

/// A function literal. The name serves diagnostics only.
#[derive(PartialEq, Debug)]
pub struct FunctionLiteral {
    pub name: Option<String>,
    pub params: Rc<Vec<IdentNode>>,
    pub body: Rc<BlockStatement>,
}

impl View for FunctionLiteral {
    type V = ExpressionView;

    open spec fn view(&self) -> ExpressionView {
        expr_view(Expression::FunctionDef(*self))
    }
}

/// A call: the expression that gives the function, and the arguments.
#[derive(PartialEq, Debug)]
pub struct FunctionCall {
    pub function: Box<Expression>,
    pub args: Vec<Expression>,
}

impl View for FunctionCall {
    type V = ExpressionView;

    open spec fn view(&self) -> ExpressionView {
        expr_view(Expression::FunctionCall(*self))
    }
}

/// An array literal.
#[derive(PartialEq, Debug)]
pub struct ArrayLiteral {
    pub elements: Vec<Expression>,
}

impl View for ArrayLiteral {
    type V = ExpressionView;

    open spec fn view(&self) -> ExpressionView {
        expr_view(Expression::Array(*self))
    }
}

/// An index into a collection.
#[derive(PartialEq, Debug)]
pub struct IndexAccess {
    pub arr: Box<Expression>,
    pub index: Box<Expression>,
}

impl View for IndexAccess {
    type V = ExpressionView;

    open spec fn view(&self) -> ExpressionView {
        expr_view(Expression::ArrIndex(*self))
    }
}

/// A hash-map literal: its pairs of key and value, in order.
#[derive(PartialEq, Debug)]
pub struct HashLiteral {
    pub pairs: Vec<(Expression, Expression)>,
}

impl View for HashLiteral {
    type V = ExpressionView;

    open spec fn view(&self) -> ExpressionView {
        expr_view(Expression::HashMapLiteral(*self))
    }
}

impl IdentNode {
    /// The node of an identifier token.
    pub fn new(token: Token) -> (node: IdentNode)
        requires
            token@.kind is Ident,
        ensures
            node@ == (IdentView { token: token@, label: token@.kind->Ident_label }),
    {
        let label = match &token.kind {
            TokenKind::Ident { label } => label.clone(),
            _ => String::new(),
        };
        IdentNode { token, label }
    }
}

impl PrefixOperator {
    /// The node of a prefix operator applied to `right`.
    pub fn new(token: Token, right: Expression) -> (node: PrefixOperator)
        ensures
            node@ == (ExpressionView::Unary { operator: token@, right: Box::new(right@) }),
    {
        PrefixOperator { operator: token, right_expr: Box::new(right) }
    }
}

impl InfixOperator {
    /// The node of an infix operator between `left_expr` and `right_expr`.
    pub fn new(token: Token, left_expr: Expression, right_expr: Expression) -> (node:
        InfixOperator)
        ensures
            node@ == (ExpressionView::Binary {
                operator: token@,
                left: Box::new(left_expr@),
                right: Box::new(right_expr@),
            }),
    {
        InfixOperator {
            operator: token,
            left_expr: Box::new(left_expr),
            right_expr: Box::new(right_expr),
        }
    }
}

} // verus!
