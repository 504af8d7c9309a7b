//! The sources that a tree includes.
//!
//! A program names the sources that it includes by literal paths, so they
//! can be found, and read, before the program is evaluated.
use super::statement::{BlockStatement, Statement};
use super::{
    exprs_view, pairs_view, stmts_view, Expression, ExpressionView, Program, StatementView,
};
use vstd::prelude::*;

verus! {

/// The texts of a list of strings.
pub open spec fn paths_view(paths: Seq<String>) -> Seq<Seq<char>> {
    Seq::new(paths.len(), |i: int| paths[i]@)
}

/// The paths that the expressions of a list include, in order.
pub open spec fn exprs_sources(exprs: Seq<ExpressionView>) -> Seq<Seq<char>>
    decreases exprs,
{
    if exprs.len() == 0 {
        Seq::empty()
    } else {
        exprs_sources(exprs.drop_last()) + exprs.last().sources()
    }
}

/// The paths that the keys and values of a hash-map literal include, in
/// order.
pub open spec fn pairs_sources(pairs: Seq<(ExpressionView, ExpressionView)>) -> Seq<Seq<char>>
    decreases pairs,
{
    if pairs.len() == 0 {
        Seq::empty()
    } else {
        pairs_sources(pairs.drop_last()) + pairs.last().0.sources() + pairs.last().1.sources()
    }
}

/// The paths that the statements of a block or a program include, in
/// order.
pub open spec fn block_sources(stmts: Seq<StatementView>) -> Seq<Seq<char>>
    decreases stmts,
{
    if stmts.len() == 0 {
        Seq::empty()
    } else {
        block_sources(stmts.drop_last()) + stmts.last().sources()
    }
}

impl StatementView {
    /// The paths that the statement includes, in order: its own, for an
    /// inclusion, else those of its expression.
    pub open spec fn sources(self) -> Seq<Seq<char>>
        decreases self,
    {
        match self {
            StatementView::Assignment { name, val } => val.sources(),
            StatementView::Return(returnable) => returnable.sources(),
            StatementView::Expression(expr) => expr.sources(),
            StatementView::Source(path) => seq![path],
        }
    }
}

impl ExpressionView {
    /// The paths that the blocks within the expression include, in order.
    pub open spec fn sources(self) -> Seq<Seq<char>>
        decreases self,
    {
        match self {
            ExpressionView::Identifier(_) => Seq::empty(),
            ExpressionView::Primitive(_) => Seq::empty(),
            ExpressionView::Unary { operator, right } => right.sources(),
            ExpressionView::Binary { operator, left, right } => left.sources() + right.sources(),
            ExpressionView::Conditional { cond, consequence, alternative } => cond.sources()
                + block_sources(consequence) + (match alternative {
                Some(alternative) => block_sources(alternative),
                None => Seq::empty(),
            }),
            ExpressionView::FunctionDef { name, params, body } => block_sources(body),
            ExpressionView::FunctionCall { function, args } => function.sources() + exprs_sources(
                args,
            ),
            ExpressionView::Array { elements } => exprs_sources(elements),
            ExpressionView::ArrIndex { arr, index } => arr.sources() + index.sources(),
            ExpressionView::HashMapLiteral { pairs } => pairs_sources(pairs),
        }
    }
}

/// Adds the paths that the statements include to `paths`.
fn collect_block(stmts: &Vec<Statement>, paths: &mut Vec<String>)
    ensures
        paths_view(final(paths)@) == paths_view(old(paths)@) + block_sources(stmts_view(stmts@)),
    decreases stmts,
{
    let mut i: usize = 0;
    assert(stmts_view(stmts@).take(0) =~= Seq::empty());
    assert(paths_view(paths@) + Seq::<Seq<char>>::empty() =~= paths_view(paths@));
    while i < stmts.len()
        invariant
            i <= stmts.len(),
            paths_view(paths@) == paths_view(old(paths)@) + block_sources(
                stmts_view(stmts@).take(i as int),
            ),
        decreases stmts.len() - i,
    {
        proof {
            vstd::std_specs::vec::axiom_vec_index_decreases(*stmts, i as int);
            assert(stmts_view(stmts@).take(i + 1).drop_last() =~= stmts_view(stmts@).take(
                i as int,
            ));
            assert(stmts_view(stmts@).take(i + 1).last() == stmts@[i as int]@);
        }
        stmts[i].collect_sources(paths);
        assert(paths_view(paths@) =~= paths_view(old(paths)@) + (block_sources(
            stmts_view(stmts@).take(i as int),
        ) + stmts@[i as int]@.sources()));
        i = i + 1;
    }
    assert(stmts_view(stmts@).take(i as int) =~= stmts_view(stmts@));
}

/// Adds the paths that the expressions include to `paths`.
fn collect_exprs(exprs: &Vec<Expression>, paths: &mut Vec<String>)
    ensures
        paths_view(final(paths)@) == paths_view(old(paths)@) + exprs_sources(exprs_view(exprs@)),
    decreases exprs,
{
    let mut i: usize = 0;
    assert(exprs_view(exprs@).take(0) =~= Seq::empty());
    assert(paths_view(paths@) + Seq::<Seq<char>>::empty() =~= paths_view(paths@));
    while i < exprs.len()
        invariant
            i <= exprs.len(),
            paths_view(paths@) == paths_view(old(paths)@) + exprs_sources(
                exprs_view(exprs@).take(i as int),
            ),
        decreases exprs.len() - i,
    {
        proof {
            vstd::std_specs::vec::axiom_vec_index_decreases(*exprs, i as int);
            assert(exprs_view(exprs@).take(i + 1).drop_last() =~= exprs_view(exprs@).take(
                i as int,
            ));
            assert(exprs_view(exprs@).take(i + 1).last() == exprs@[i as int]@);
        }
        exprs[i].collect_sources(paths);
        assert(paths_view(paths@) =~= paths_view(old(paths)@) + (exprs_sources(
            exprs_view(exprs@).take(i as int),
        ) + exprs@[i as int]@.sources()));
        i = i + 1;
    }
    assert(exprs_view(exprs@).take(i as int) =~= exprs_view(exprs@));
}

/// Adds the paths that the keys and values include to `paths`.
fn collect_pairs(pairs: &Vec<(Expression, Expression)>, paths: &mut Vec<String>)
    ensures
        paths_view(final(paths)@) == paths_view(old(paths)@) + pairs_sources(pairs_view(pairs@)),
    decreases pairs,
{
    let mut i: usize = 0;
    assert(pairs_view(pairs@).take(0) =~= Seq::empty());
    assert(paths_view(paths@) + Seq::<Seq<char>>::empty() =~= paths_view(paths@));
    while i < pairs.len()
        invariant
            i <= pairs.len(),
            paths_view(paths@) == paths_view(old(paths)@) + pairs_sources(
                pairs_view(pairs@).take(i as int),
            ),
        decreases pairs.len() - i,
    {
        proof {
            vstd::std_specs::vec::axiom_vec_index_decreases(*pairs, i as int);
            assert(decreases_to!(pairs@[i as int] => pairs@[i as int].0));
            assert(decreases_to!(pairs@[i as int] => pairs@[i as int].1));
            assert(pairs_view(pairs@).take(i + 1).drop_last() =~= pairs_view(pairs@).take(
                i as int,
            ));
            assert(pairs_view(pairs@).take(i + 1).last() == (
                pairs@[i as int].0@,
                pairs@[i as int].1@,
            ));
        }
        pairs[i].0.collect_sources(paths);
        pairs[i].1.collect_sources(paths);
        assert(paths_view(paths@) =~= paths_view(old(paths)@) + (pairs_sources(
            pairs_view(pairs@).take(i as int),
        ) + pairs@[i as int].0@.sources() + pairs@[i as int].1@.sources()));
        i = i + 1;
    }
    assert(pairs_view(pairs@).take(i as int) =~= pairs_view(pairs@));
}

impl BlockStatement {
    /// Adds the paths that the block includes to `paths`.
    pub fn collect_sources(&self, paths: &mut Vec<String>)
        ensures
            paths_view(final(paths)@) == paths_view(old(paths)@) + block_sources(self@),
        decreases self,
    {
        collect_block(&self.statements, paths);
    }
}

impl Statement {
    /// Adds the paths that the statement includes to `paths`.
    pub fn collect_sources(&self, paths: &mut Vec<String>)
        ensures
            paths_view(final(paths)@) == paths_view(old(paths)@) + self@.sources(),
        decreases self,
    {
        match self {
            Statement::Assignment(statement) => {
                assert(self@ == StatementView::Assignment {
                    name: statement.name@,
                    val: statement.val@,
                });
                statement.val.collect_sources(paths);
            },
            Statement::Return(statement) => {
                assert(self@ == StatementView::Return(statement.returnable@));
                statement.returnable.collect_sources(paths);
            },
            Statement::Expression(expression) => {
                expression.collect_sources(paths);
            },
            Statement::Source(source) => {
                assert(self@ == StatementView::Source(source.path@));
                paths.push(source.path.clone());
                assert(paths_view(paths@) =~= paths_view(old(paths)@) + seq![source.path@]);
            },
        }
    }
}

impl Expression {
    /// Adds the paths that the blocks within the expression include to
    /// `paths`.
    pub fn collect_sources(&self, paths: &mut Vec<String>)
        ensures
            paths_view(final(paths)@) == paths_view(old(paths)@) + self@.sources(),
        decreases self,
    {
        let ghost before = paths_view(paths@);
        match self {
            Expression::Identifier(_) | Expression::Primitive(_) => {
                assert(before + Seq::<Seq<char>>::empty() =~= before);
            },
            Expression::Unary(x) => {
                assert(self@ == ExpressionView::Unary {
                    operator: x.operator@,
                    right: Box::new((*x.right_expr)@),
                });
                x.right_expr.collect_sources(paths);
            },
            Expression::Binary(x) => {
                assert(self@ == ExpressionView::Binary {
                    operator: x.operator@,
                    left: Box::new((*x.left_expr)@),
                    right: Box::new((*x.right_expr)@),
                });
                x.left_expr.collect_sources(paths);
                x.right_expr.collect_sources(paths);
                assert(paths_view(paths@) =~= before + ((*x.left_expr)@.sources() + (
                *x.right_expr)@.sources()));
            },
            Expression::Conditional(x) => {
                assert(self@ == ExpressionView::Conditional {
                    cond: Box::new((*x.cond)@),
                    consequence: x.consequence@,
                    alternative: match x.alternative {
                        Some(block) => Some(block@),
                        None => None,
                    },
                });
                x.cond.collect_sources(paths);
                x.consequence.collect_sources(paths);
                match &x.alternative {
                    Some(alternative) => {
                        proof {
                            assert(decreases_to!(*x => x.alternative));
                            assert(decreases_to!(x.alternative => x.alternative->0));
                        }
                        alternative.collect_sources(paths);
                        assert(paths_view(paths@) =~= before + ((*x.cond)@.sources()
                            + block_sources(x.consequence@) + block_sources(alternative@)));
                    },
                    None => {
                        assert(paths_view(paths@) =~= before + ((*x.cond)@.sources()
                            + block_sources(x.consequence@) + Seq::<Seq<char>>::empty()));
                    },
                }
            },
            Expression::FunctionDef(x) => {
                assert(self@ == ExpressionView::FunctionDef {
                    name: super::name_view(x.name),
                    params: super::idents_view((*x.params)@),
                    body: (*x.body)@,
                });
                x.body.collect_sources(paths);
            },
            Expression::FunctionCall(x) => {
                assert(self@ == ExpressionView::FunctionCall {
                    function: Box::new((*x.function)@),
                    args: exprs_view(x.args@),
                });
                proof {
                    assert(decreases_to!(*self => self->FunctionCall_0));
                    assert(decreases_to!(*x => x.args));
                }
                x.function.collect_sources(paths);
                collect_exprs(&x.args, paths);
                assert(paths_view(paths@) =~= before + ((*x.function)@.sources() + exprs_sources(
                    exprs_view(x.args@),
                )));
            },
            Expression::Array(x) => {
                assert(self@ == ExpressionView::Array { elements: exprs_view(x.elements@) });
                proof {
                    assert(decreases_to!(*self => self->Array_0));
                    assert(decreases_to!(*x => x.elements));
                }
                collect_exprs(&x.elements, paths);
            },
            Expression::ArrIndex(x) => {
                assert(self@ == ExpressionView::ArrIndex {
                    arr: Box::new((*x.arr)@),
                    index: Box::new((*x.index)@),
                });
                x.arr.collect_sources(paths);
                x.index.collect_sources(paths);
                assert(paths_view(paths@) =~= before + ((*x.arr)@.sources() + (
                *x.index)@.sources()));
            },
            Expression::HashMapLiteral(x) => {
                assert(self@ == ExpressionView::HashMapLiteral { pairs: pairs_view(x.pairs@) });
                proof {
                    assert(decreases_to!(*self => self->HashMapLiteral_0));
                    assert(decreases_to!(*x => x.pairs));
                }
                collect_pairs(&x.pairs, paths);
            },
        }
    }
}

impl Program {
    /// The paths of the sources that the program includes, wherever in it,
    /// in the order in which they are written.
    pub fn source_paths(&self) -> (paths: Vec<String>)
        ensures
            paths_view(paths@) == block_sources(self@),
    {
        let mut paths: Vec<String> = Vec::new();
        assert(paths_view(paths@) =~= Seq::empty());
        collect_block(&self.statements, &mut paths);
        assert(Seq::<Seq<char>>::empty() + block_sources(self@) =~= block_sources(self@));
        paths
    }
}

} // verus!
