//! Statements and blocks of statements.
use super::nodes::IdentNode;
use super::{stmt_view, stmts_view, Expression, StatementView};
use vstd::prelude::*;

verus! {

/// A statement.
#[derive(PartialEq, Debug)]
pub enum Statement {
    /// `let name = val;`
    Assignment(LetStatement),
    /// `return returnable;`
    Return(ReturnStatement),
    /// An expression that stands as a statement.
    Expression(Expression),
    /// `source "path";`
    Source(SourceStatement),
}

impl View for Statement {
    type V = StatementView;

    open spec fn view(&self) -> StatementView {
        stmt_view(*self)
    }
}

/// The binding of a name to the value of an expression.
#[derive(PartialEq, Debug)]
pub struct LetStatement {
    pub name: IdentNode,
    pub val: Expression,
}

impl View for LetStatement {
    type V = StatementView;

    open spec fn view(&self) -> StatementView {
        stmt_view(Statement::Assignment(*self))
    }
}

/// The return of the value of an expression.
#[derive(PartialEq, Debug)]
pub struct ReturnStatement {
    pub returnable: Expression,
}

impl View for ReturnStatement {
    type V = StatementView;

    open spec fn view(&self) -> StatementView {
        stmt_view(Statement::Return(*self))
    }
}

/// The statements between two braces, in order.
#[derive(PartialEq, Debug)]
pub struct BlockStatement {
    pub statements: Vec<Statement>,
}

impl View for BlockStatement {
    type V = Seq<StatementView>;

    open spec fn view(&self) -> Seq<StatementView> {
        stmts_view(self.statements@)
    }
}

/// The inclusion of another source, named by its path without extension.
#[derive(PartialEq, Debug)]
pub struct SourceStatement {
    pub path: String,
}

impl View for SourceStatement {
    type V = StatementView;

    open spec fn view(&self) -> StatementView {
        stmt_view(Statement::Source(*self))
    }
}

} // verus!
