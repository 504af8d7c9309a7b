//! How the nodes of a tree read when they are written out.
use super::nodes::{
    ArrayLiteral, ConditionalOperator, FunctionCall, FunctionLiteral, HashLiteral, IdentNode,
    IndexAccess, InfixOperator, PrefixOperator, PrimitiveNode,
};
use super::statement::{BlockStatement, LetStatement, ReturnStatement, SourceStatement, Statement};
use super::{
    exprs_view, idents_view, pairs_view, stmts_view, Expression,
    ExpressionView, IdentView, PrimitiveView, Program, StatementView,
};
use crate::text::{int_text, integer_to_string, join};
use vstd::prelude::*;

verus! {

impl IdentView {
    /// How the identifier reads.
    pub open spec fn text(self) -> Seq<char> {
        "Ident '"@ + self.label + "'"@
    }
}

impl PrimitiveView {
    /// How the literal reads: its value, then its kind.
    pub open spec fn text(self) -> Seq<char> {
        match self {
            PrimitiveView::Integer(i) => int_text(i as int) + " (Int)"@,
            PrimitiveView::Float(text) => text + " (Float)"@,
            PrimitiveView::Char(c) => "'"@ + seq![c] + "' (Char)"@,
            PrimitiveView::Str(text) => "\""@ + text + "\" (Str)"@,
            PrimitiveView::Boolean(b) => (if b {
                "true"@
            } else {
                "false"@
            }) + " (Bool)"@,
        }
    }
}

/// The texts of a list of identifiers, with `", "` between them.
pub open spec fn idents_text(idents: Seq<IdentView>) -> Seq<char>
    decreases idents.len(),
{
    if idents.len() == 0 {
        Seq::empty()
    } else if idents.len() == 1 {
        idents[0].text()
    } else {
        idents_text(idents.drop_last()) + ", "@ + idents.last().text()
    }
}

/// The texts of a list of expressions, with `", "` between them.
pub open spec fn exprs_text(exprs: Seq<ExpressionView>) -> Seq<char>
    decreases exprs,
{
    if exprs.len() == 0 {
        Seq::empty()
    } else if exprs.len() == 1 {
        exprs[0].text()
    } else {
        exprs_text(exprs.drop_last()) + ", "@ + exprs.last().text()
    }
}

/// The texts of the pairs of a hash-map literal, each as `key: value`,
/// with `","` between them.
pub open spec fn pairs_text(pairs: Seq<(ExpressionView, ExpressionView)>) -> Seq<char>
    decreases pairs,
{
    if pairs.len() == 0 {
        Seq::empty()
    } else if pairs.len() == 1 {
        pairs[0].0.text() + ": "@ + pairs[0].1.text()
    } else {
        pairs_text(pairs.drop_last()) + ","@ + pairs.last().0.text() + ": "@ + pairs.last().1.text()
    }
}

/// The texts of the statements of a block or a program, each followed by
/// a line feed.
pub open spec fn block_text(stmts: Seq<StatementView>) -> Seq<char>
    decreases stmts,
{
    if stmts.len() == 0 {
        Seq::empty()
    } else {
        block_text(stmts.drop_last()) + stmts.last().text() + "\n"@
    }
}

impl StatementView {
    /// How the statement reads.
    pub open spec fn text(self) -> Seq<char>
        decreases self,
    {
        match self {
            StatementView::Assignment { name, val } => "Let => { "@ + name.text()
                + " | Assigned | "@ + val.text() + " }"@,
            StatementView::Return(returnable) => "return "@ + returnable.text() + ";"@,
            StatementView::Expression(expr) => expr.text(),
            StatementView::Source(path) => "Source "@ + path,
        }
    }
}

impl ExpressionView {
    /// How the expression reads.
    pub open spec fn text(self) -> Seq<char>
        decreases self,
    {
        match self {
            ExpressionView::Identifier(ident) => ident.text(),
            ExpressionView::Primitive(literal) => literal.text(),
            ExpressionView::Unary { operator, right } => "Prefix("@ + operator.text() + ")"@
                + right.text(),
            ExpressionView::Binary { operator, left, right } => left.text() + " Infix("@
                + operator.text() + ") "@ + right.text(),
            ExpressionView::Conditional { cond, consequence, alternative } => {
                "Conditonal => { condition => "@ + cond.text() + " | consequence => {\n"@
                    + block_text(consequence) + "}"@ + (match alternative {
                    Some(alternative) => " | alternative => {\n"@ + block_text(alternative) + "}"@,
                    None => Seq::empty(),
                }) + " \n}}"@
            },
            ExpressionView::FunctionDef { name, params, body } => match name {
                Some(name) => "\nFunc => { Name => "@ + name + " | Params => ("@ + idents_text(
                    params,
                ) + ") | Body => {\n"@ + block_text(body) + "}\n"@,
                None => "Func\n--> Params => ("@ + idents_text(params) + ")\n-->{\n"@ + block_text(
                    body,
                ) + "}"@,
            },
            ExpressionView::FunctionCall { function, args } => "Fn Call "@ + function.text()
                + " => params { "@ + exprs_text(args) + " }"@,
            ExpressionView::Array { elements } => "Array => { Elements => [ "@ + exprs_text(
                elements,
            ) + " ] }"@,
            ExpressionView::ArrIndex { arr, index } => "Array => "@ + arr.text() + " | Index => "@
                + index.text(),
            ExpressionView::HashMapLiteral { pairs } => "{ "@ + pairs_text(pairs) + " }"@,
        }
    }
}

/// `text` followed by `part`.
fn followed(text: String, part: &str) -> (joined: String)
    ensures
        joined@ == text@ + part@,
{
    join(text.as_str(), part)
}

impl IdentNode {
    /// Renders the identifier.
    pub fn to_string(&self) -> (s: String)
        ensures
            s@ == self@.text(),
    {
        followed(join("Ident '", self.label.as_str()), "'")
    }
}

impl PrimitiveNode {
    /// Renders the literal.
    pub fn to_string(&self) -> (s: String)
        ensures
            s@ == self@.text(),
    {
        match self {
            PrimitiveNode::IntegerLiteral(i) => followed(integer_to_string(*i), " (Int)"),
            PrimitiveNode::FloatLiteral(text) => join(text.as_str(), " (Float)"),
            PrimitiveNode::CharLiteral(c) => {
                let mut s = String::from_str("'");
                s.push(*c);
                assert(s@ =~= "'"@ + seq![*c]);
                followed(s, "' (Char)")
            },
            PrimitiveNode::StringLiteral(text) => followed(join("\"", text.as_str()), "\" (Str)"),
            PrimitiveNode::BooleanLiteral(b) => if *b {
                join("true", " (Bool)")
            } else {
                join("false", " (Bool)")
            },
        }
    }
}

/// Renders a list of identifiers.
pub fn idents_to_string(idents: &Vec<IdentNode>) -> (s: String)
    ensures
        s@ == idents_text(idents_view(idents@)),
{
    let mut s = String::new();
    let mut i: usize = 0;
    while i < idents.len()
        invariant
            i <= idents.len(),
            s@ == idents_text(idents_view(idents@).take(i as int)),
        decreases idents.len() - i,
    {
        assert(idents_view(idents@).take(i + 1).drop_last() =~= idents_view(idents@).take(
            i as int,
        ));
        if i > 0 {
            s = followed(s, ", ");
        }
        s = followed(s, idents[i].to_string().as_str());
        i = i + 1;
    }
    assert(idents_view(idents@).take(i as int) =~= idents_view(idents@));
    s
}

/// Renders a list of expressions.
pub fn exprs_to_string(exprs: &Vec<Expression>) -> (s: String)
    ensures
        s@ == exprs_text(exprs_view(exprs@)),
    decreases exprs,
{
    let mut s = String::new();
    let mut i: usize = 0;
    while i < exprs.len()
        invariant
            i <= exprs.len(),
            s@ == exprs_text(exprs_view(exprs@).take(i as int)),
        decreases exprs.len() - i,
    {
        proof {
            vstd::std_specs::vec::axiom_vec_index_decreases(*exprs, i as int);
            assert(exprs_view(exprs@).take(i + 1).drop_last() =~= exprs_view(exprs@).take(
                i as int,
            ));
        }
        if i > 0 {
            s = followed(s, ", ");
        }
        s = followed(s, exprs[i].to_string().as_str());
        i = i + 1;
    }
    assert(exprs_view(exprs@).take(i as int) =~= exprs_view(exprs@));
    s
}

/// Renders the pairs of a hash-map literal.
pub fn pairs_to_string(pairs: &Vec<(Expression, Expression)>) -> (s: String)
    ensures
        s@ == pairs_text(pairs_view(pairs@)),
    decreases pairs,
{
    let mut s = String::new();
    let mut i: usize = 0;
    while i < pairs.len()
        invariant
            i <= pairs.len(),
            s@ == pairs_text(pairs_view(pairs@).take(i as int)),
        decreases pairs.len() - i,
    {
        proof {
            vstd::std_specs::vec::axiom_vec_index_decreases(*pairs, i as int);
            assert(decreases_to!(pairs@[i as int] => pairs@[i as int].0));
            assert(decreases_to!(pairs@[i as int] => pairs@[i as int].1));
            assert(pairs_view(pairs@).take(i + 1).drop_last() =~= pairs_view(pairs@).take(
                i as int,
            ));
        }
        if i > 0 {
            s = followed(s, ",");
        }
        s = followed(s, pairs[i].0.to_string().as_str());
        s = followed(s, ": ");
        s = followed(s, pairs[i].1.to_string().as_str());
        i = i + 1;
    }
    assert(pairs_view(pairs@).take(i as int) =~= pairs_view(pairs@));
    s
}

/// Renders the statements of a block or a program.
pub fn stmts_to_string(stmts: &Vec<Statement>) -> (s: String)
    ensures
        s@ == block_text(stmts_view(stmts@)),
    decreases stmts,
{
    let mut s = String::new();
    let mut i: usize = 0;
    while i < stmts.len()
        invariant
            i <= stmts.len(),
            s@ == block_text(stmts_view(stmts@).take(i as int)),
        decreases stmts.len() - i,
    {
        proof {
            vstd::std_specs::vec::axiom_vec_index_decreases(*stmts, i as int);
            assert(stmts_view(stmts@).take(i + 1).drop_last() =~= stmts_view(stmts@).take(
                i as int,
            ));
        }
        s = followed(s, stmts[i].to_string().as_str());
        s = followed(s, "\n");
        i = i + 1;
    }
    assert(stmts_view(stmts@).take(i as int) =~= stmts_view(stmts@));
    s
}

impl BlockStatement {
    /// Renders the block.
    pub fn to_string(&self) -> (s: String)
        ensures
            s@ == block_text(self@),
        decreases self,
    {
        stmts_to_string(&self.statements)
    }
}

impl Program {
    /// Renders the program.
    pub fn to_string(&self) -> (s: String)
        ensures
            s@ == block_text(self@),
    {
        stmts_to_string(&self.statements)
    }
}

impl LetStatement {
    /// Renders the binding.
    pub fn to_string(&self) -> (s: String)
        ensures
            s@ == self@.text(),
        decreases self,
    {
        let head = join("Let => { ", self.name.to_string().as_str());
        let assigned = followed(head, " | Assigned | ");
        followed(followed(assigned, self.val.to_string().as_str()), " }")
    }
}

impl ReturnStatement {
    /// Renders the return.
    pub fn to_string(&self) -> (s: String)
        ensures
            s@ == self@.text(),
        decreases self,
    {
        followed(join("return ", self.returnable.to_string().as_str()), ";")
    }
}

impl SourceStatement {
    /// Renders the inclusion.
    pub fn to_string(&self) -> (s: String)
        ensures
            s@ == self@.text(),
    {
        join("Source ", self.path.as_str())
    }
}

impl Statement {
    /// Renders the statement.
    pub fn to_string(&self) -> (s: String)
        ensures
            s@ == self@.text(),
        decreases self,
    {
        match self {
            Statement::Assignment(statement) => statement.to_string(),
            Statement::Return(statement) => statement.to_string(),
            Statement::Expression(expression) => expression.to_string(),
            Statement::Source(source) => source.to_string(),
        }
    }
}

impl PrefixOperator {
    /// Renders the operator and its operand.
    pub fn to_string(&self) -> (s: String)
        ensures
            s@ == self@.text(),
        decreases self,
    {
        let head = followed(join("Prefix(", self.operator.to_string().as_str()), ")");
        followed(head, self.right_expr.to_string().as_str())
    }
}

impl InfixOperator {
    /// Renders the operator and its operands.
    pub fn to_string(&self) -> (s: String)
        ensures
            s@ == self@.text(),
        decreases self,
    {
        let left = followed(self.left_expr.to_string(), " Infix(");
        let operator = followed(followed(left, self.operator.to_string().as_str()), ") ");
        followed(operator, self.right_expr.to_string().as_str())
    }
}

impl ConditionalOperator {
    /// Renders the conditional.
    pub fn to_string(&self) -> (s: String)
        ensures
            s@ == self@.text(),
        decreases self,
    {
        let head = join("Conditonal => { condition => ", self.cond.to_string().as_str());
        let consequence = followed(
            followed(followed(head, " | consequence => {\n"), self.consequence.to_string().as_str()),
            "}",
        );
        let both = match &self.alternative {
            Some(alternative) => {
                proof {
                    assert(decreases_to!(*self => self.alternative));
                    assert(decreases_to!(self.alternative => self.alternative->0));
                }
                followed(
                    followed(
                        followed(consequence, " | alternative => {\n"),
                        alternative.to_string().as_str(),
                    ),
                    "}",
                )
            },
            None => {
                assert(consequence@ + Seq::<char>::empty() =~= consequence@);
                consequence
            },
        };
        followed(both, " \n}}")
    }
}

impl FunctionLiteral {
    /// Renders the function literal.
    pub fn to_string(&self) -> (s: String)
        ensures
            s@ == self@.text(),
        decreases self,
    {
        let params = idents_to_string(&self.params);
        let body = self.body.to_string();
        match &self.name {
            Some(name) => {
                let head = followed(join("\nFunc => { Name => ", name.as_str()), " | Params => (");
                followed(followed(followed(followed(head, params.as_str()), ") | Body => {\n"), body.as_str()), "}\n")
            },
            None => {
                let head = followed(join("Func\n--> Params => (", params.as_str()), ")\n-->{\n");
                followed(followed(head, body.as_str()), "}")
            },
        }
    }
}

impl FunctionCall {
    /// Renders the call.
    pub fn to_string(&self) -> (s: String)
        ensures
            s@ == self@.text(),
        decreases self,
    {
        let head = followed(join("Fn Call ", self.function.to_string().as_str()), " => params { ");
        followed(followed(head, exprs_to_string(&self.args).as_str()), " }")
    }
}

impl ArrayLiteral {
    /// Renders the array literal.
    pub fn to_string(&self) -> (s: String)
        ensures
            s@ == self@.text(),
        decreases self,
    {
        let head = join("Array => { Elements => [ ", exprs_to_string(&self.elements).as_str());
        followed(head, " ] }")
    }
}

impl IndexAccess {
    /// Renders the index.
    pub fn to_string(&self) -> (s: String)
        ensures
            s@ == self@.text(),
        decreases self,
    {
        let head = followed(join("Array => ", self.arr.to_string().as_str()), " | Index => ");
        followed(head, self.index.to_string().as_str())
    }
}

impl HashLiteral {
    /// Renders the hash-map literal.
    pub fn to_string(&self) -> (s: String)
        ensures
            s@ == self@.text(),
        decreases self,
    {
        followed(join("{ ", pairs_to_string(&self.pairs).as_str()), " }")
    }
}

impl Expression {
    /// Renders the expression.
    pub fn to_string(&self) -> (s: String)
        ensures
            s@ == self@.text(),
        decreases self,
    {
        match self {
            Expression::Identifier(x) => x.to_string(),
            Expression::Primitive(x) => x.to_string(),
            Expression::Unary(x) => x.to_string(),
            Expression::Binary(x) => x.to_string(),
            Expression::Conditional(x) => x.to_string(),
            Expression::FunctionDef(x) => x.to_string(),
            Expression::FunctionCall(x) => x.to_string(),
            Expression::Array(x) => x.to_string(),
            Expression::ArrIndex(x) => x.to_string(),
            Expression::HashMapLiteral(x) => x.to_string(),
        }
    }
}

} // verus!
