//! The evaluator: walks a program against a chain of environments.
//!
//! Errors are values: an error in a part of an expression is the value of
//! the whole, and a block stops at the first error or return. Scopes are
//! kept by handle, so that a function value finds the scope it was defined
//! in for as long as the evaluator lives.
pub mod environment;
pub mod lace_lib;
pub mod laws;
pub mod model;
pub mod object;
pub mod validity;

use crate::lexer::token::kind::TokenKind;
use crate::lexer::token::Token;
use crate::lexer::Lexer;
use crate::parser::ast::nodes::{
    ConditionalOperator, HashLiteral, IdentNode, IndexAccess, PrimitiveNode,
};
use crate::parser::ast::statement::{BlockStatement, Statement};
use crate::parser::ast::{
    exprs_view, idents_view, pairs_view, stmts_view, Expression, ExpressionView, Program,
    StatementView,
};
use crate::parser::errors::ParserError;
use crate::parser::Parser;
use crate::text::{
    chars_of, has_suffix, integer_to_string, join, number_to_string, same_text, string_of,
};
use environment::{scopes_view, Environment};
use lace_lib::str::texts;
use model::{
    apply_builtin, bang, bind_params, bool_infix, checked, define, identifier, index_into, infix,
    integer_infix, key_position, minus, prefix, primitive, report, resolve, set_key,
    source_position, source_text, str_infix, well_keyed, with_source, ScopeView, StateView,
};
use object::builtin::BuiltinFunction;
use object::function::{share, Function};
use object::{entries_view, objects_view, Object, ObjectView};
use vstd::prelude::*;

verus! {

/// How deep calls and inclusions may nest unless another limit is set.
pub const DEFAULT_DEPTH: usize = 256;

/// An error value with the given message.
fn failure(message: &str) -> (e: Object)
    ensures
        e@ == ObjectView::Error(message@),
{
    Object::Error(String::from_str(message))
}

/// The value of an integer operation.
fn checked_value(result: Option<i64>) -> (r: Object)
    ensures
        r@ == checked(result),
{
    match result {
        Some(value) => Object::Integer(value),
        None => failure("Integer overflow"),
    }
}

impl BuiltinFunction {
    /// The library function that `name` names, as a value.
    pub fn try_builtin(name: &str) -> (function: Option<Object>)
        ensures
            match function {
                Some(f) => BuiltinFunction::named(name@) matches Some(b) && f@
                    == ObjectView::Builtin(b),
                None => BuiltinFunction::named(name@) is None,
            },
    {
        let func = if same_text(name, "kind") {
            BuiltinFunction::Kind
        } else if same_text(name, "writeln") {
            BuiltinFunction::Write
        } else if same_text(name, "read") {
            BuiltinFunction::Read
        } else if same_text(name, "len") {
            BuiltinFunction::Len
        } else if same_text(name, "first") {
            BuiltinFunction::First
        } else if same_text(name, "last") {
            BuiltinFunction::Last
        } else if same_text(name, "chars") {
            BuiltinFunction::Chars
        } else if same_text(name, "split") {
            BuiltinFunction::Split
        } else if same_text(name, "append") {
            BuiltinFunction::Append
        } else if same_text(name, "strip_start") {
            BuiltinFunction::StripStart
        } else if same_text(name, "strip_end") {
            BuiltinFunction::StripEnd
        } else {
            return None;
        };
        Some(Object::Builtin(func))
    }
}

/// The values of the sources of an evaluator.
pub open spec fn sources_view(sources: Seq<(String, String)>) -> Seq<(Seq<char>, Seq<char>)> {
    Seq::new(sources.len(), |i: int| (sources[i].0@, sources[i].1@))
}

/// An evaluator: the scopes of the programs that it has evaluated, what
/// they wrote out, the lines that they can read, and the sources that they
/// can include.
pub struct Eval {
    scopes: Vec<Environment>,
    current: usize,
    depth_limit: usize,
    output: Vec<String>,
    input: Vec<String>,
    sources: Vec<(String, String)>,
}

impl View for Eval {
    type V = StateView;

    closed spec fn view(&self) -> StateView {
        StateView {
            scopes: scopes_view(self.scopes@),
            current: self.current as nat,
            output: texts(self.output@),
            input: texts(self.input@),
            sources: sources_view(self.sources@),
        }
    }
}

impl Eval {
    /// How deep calls and inclusions may nest.
    pub closed spec fn limit(&self) -> nat {
        self.depth_limit as nat
    }

    /// The state of an evaluator that has evaluated nothing: one scope,
    /// without bindings, in use.
    pub open spec fn fresh() -> StateView {
        StateView {
            scopes: seq![ScopeView { store: Seq::empty(), outer: None }],
            current: 0,
            output: Seq::empty(),
            input: Seq::empty(),
            sources: Seq::empty(),
        }
    }

    /// An evaluator with an empty global scope.
    pub fn new() -> (eval: Eval)
        ensures
            eval@ == Eval::fresh(),
            eval.limit() == DEFAULT_DEPTH,
    {
        let mut scopes: Vec<Environment> = Vec::new();
        scopes.push(Environment::new());
        let eval = Eval {
            scopes,
            current: 0,
            depth_limit: DEFAULT_DEPTH,
            output: Vec::new(),
            input: Vec::new(),
            sources: Vec::new(),
        };
        assert(eval@.scopes =~= Eval::fresh().scopes);
        assert(eval@.output =~= Seq::empty());
        assert(eval@.input =~= Seq::empty());
        assert(eval@.sources =~= Seq::empty());
        eval
    }

    /// Sets how deep calls and inclusions may nest.
    pub fn set_depth_limit(&mut self, limit: usize)
        ensures
            final(self)@ == old(self)@,
            final(self).limit() == limit,
    {
        self.depth_limit = limit;
    }

    /// Adds a line to those that the program can read.
    pub fn feed_input(&mut self, line: String)
        ensures
            final(self)@ == (StateView { input: old(self)@.input.push(line@), ..old(self)@ }),
            final(self).limit() == old(self).limit(),
    {
        self.input.push(line);
        assert(texts(self.input@) =~= texts(old(self).input@).push(line@));
    }

    /// Sets the text of the source that the program can include under
    /// `path`.
    pub fn load_source(&mut self, path: String, code: String)
        ensures
            final(self)@ == (StateView {
                sources: with_source(old(self)@.sources, path@, code@),
                ..old(self)@
            }),
            final(self).limit() == old(self).limit(),
    {
        match self.find_source(path.as_str()) {
            Some(i) => {
                self.sources[i] = (path, code);
                assert(sources_view(self.sources@) =~= sources_view(old(self).sources@).update(
                    i as int,
                    (path@, code@),
                ));
            },
            None => {
                self.sources.push((path, code));
                assert(sources_view(self.sources@) =~= sources_view(old(self).sources@).push(
                    (path@, code@),
                ));
            },
        }
    }

    /// Hands out the lines that were written out, and forgets them.
    pub fn take_output(&mut self) -> (lines: Vec<String>)
        ensures
            texts(lines@) == old(self)@.output,
            final(self)@ == (StateView { output: Seq::empty(), ..old(self)@ }),
            final(self).limit() == old(self).limit(),
    {
        let mut lines: Vec<String> = Vec::new();
        std::mem::swap(&mut lines, &mut self.output);
        assert(texts(self.output@) =~= Seq::empty());
        lines
    }

    /// `!right`. An error is handed on as it is.
    pub fn eval_bang_expr(right: &Object) -> (r: Object)
        ensures
            r@ == bang(right@),
            right@ is Error ==> r@ == right@,
    {
        let truth_value = match right {
            Object::Error(_) => {
                return right.clone();
            },
            Object::Boolean(b) => *b,
            Object::Null => false,
            _ => true,
        };
        Object::Boolean(!truth_value)
    }

    /// `-right`. An error is handed on as it is.
    pub fn eval_minus_expr(right: &Object) -> (r: Object)
        ensures
            r@ == minus(right@),
            right@ is Error ==> r@ == right@,
    {
        match right {
            Object::Error(_) => right.clone(),
            Object::Integer(i) => checked_value(0i64.checked_sub(*i)),
            Object::Float(_) => failure("Floating point arithmetic is not supported"),
            _ => failure("Invalid datatype"),
        }
    }

    /// A prefix operator applied to a value. An error is handed on as it
    /// is.
    pub fn eval_prefix(operator: &Token, right: &Object) -> (r: Object)
        ensures
            r@ == prefix(operator@, right@),
            right@ is Error ==> r@ == right@,
    {
        if right.errored() {
            return right.clone();
        }
        match operator.kind {
            TokenKind::Bang => Self::eval_bang_expr(right),
            TokenKind::Minus => Self::eval_minus_expr(right),
            _ => Object::Error(join("Invalid operator: ", operator.to_string().as_str())),
        }
    }

    /// An infix operator between two integers.
    pub fn eval_integer_infix_expr(operator: &Token, x: i64, y: i64) -> (r: Object)
        ensures
            r@ == integer_infix(operator@, x, y),
    {
        match operator.kind {
            TokenKind::Plus => checked_value(x.checked_add(y)),
            TokenKind::Minus => checked_value(x.checked_sub(y)),
            TokenKind::Asterisk => checked_value(x.checked_mul(y)),
            TokenKind::ForwardSlash => if y == 0 {
                failure("Division by zero")
            } else {
                checked_value(x.checked_div(y))
            },
            TokenKind::Modulo => if y == 0 {
                failure("Division by zero")
            } else {
                checked_value(x.checked_rem(y))
            },
            TokenKind::Equal => Object::Boolean(x == y),
            TokenKind::NotEqual => Object::Boolean(x != y),
            TokenKind::LessThan => Object::Boolean(x < y),
            TokenKind::GreaterThan => Object::Boolean(x > y),
            TokenKind::LessThanEqual => Object::Boolean(x <= y),
            TokenKind::GreaterThanEqual => Object::Boolean(x >= y),
            _ => Object::Error(join("No infix for ", operator.to_string().as_str())),
        }
    }

    /// An infix operator between two booleans.
    pub fn eval_bool_infix_expr(operator: &Token, left: bool, right: bool) -> (r: Object)
        ensures
            r@ == bool_infix(operator@, left, right),
    {
        match operator.kind {
            TokenKind::Equal => Object::Boolean(left == right),
            TokenKind::NotEqual => Object::Boolean(left != right),
            TokenKind::And => Object::Boolean(left && right),
            TokenKind::Or => Object::Boolean(left || right),
            _ => failure("No infix for bool"),
        }
    }

    /// An infix operator between two strings.
    pub fn eval_str_infix_expr(operator: &Token, left: String, right: String) -> (r: Object)
        ensures
            r@ == str_infix(operator@, left@, right@),
    {
        match operator.kind {
            TokenKind::Equal => Object::Boolean(left == right),
            TokenKind::Plus => Object::Str(join(left.as_str(), right.as_str())),
            TokenKind::Minus => {
                let whole = chars_of(left.as_str());
                let end = chars_of(right.as_str());
                if has_suffix(&whole, &end) {
                    Object::Str(string_of(&whole, 0, whole.len() - end.len()))
                } else {
                    let head = join("Cannot subtract ", right.as_str());
                    let from = join(head.as_str(), " from ");
                    Object::Error(join(from.as_str(), left.as_str()))
                }
            },
            _ => Object::Error(
                join(operator.to_string().as_str(), " operation cannot be performed on strings"),
            ),
        }
    }

    /// An infix operator between two values, by their kinds. An error on
    /// either side is handed on as it is, the left one first.
    pub fn eval_infix(operator: &Token, left: Object, right: Object) -> (r: Object)
        ensures
            r@ == infix(operator@, left@, right@),
            left@ is Error ==> r@ == left@,
            !(left@ is Error) && right@ is Error ==> r@ == right@,
    {
        if left.errored() {
            return left;
        }
        if right.errored() {
            return right;
        }
        match (left, right) {
            (Object::Integer(x), Object::Integer(y)) => Self::eval_integer_infix_expr(
                operator,
                x,
                y,
            ),
            (Object::Float(_), Object::Float(_)) => failure(
                "Floating point arithmetic is not supported",
            ),
            (Object::Boolean(x), Object::Boolean(y)) => Self::eval_bool_infix_expr(operator, x, y),
            (Object::Str(x), Object::Str(y)) => Self::eval_str_infix_expr(operator, x, y),
            (Object::Str(x), Object::Integer(y)) => Self::eval_str_infix_expr(
                operator,
                x,
                integer_to_string(y),
            ),
            _ => {
                let head = join("Cannot perform ", operator.to_string().as_str());
                Object::Error(join(head.as_str(), " operation on this datatype"))
            },
        }
    }

    /// The value of a literal.
    pub fn eval_primitive(literal: &PrimitiveNode) -> (r: Object)
        ensures
            r@ == primitive(literal@),
    {
        match literal {
            PrimitiveNode::IntegerLiteral(i) => Object::Integer(*i),
            PrimitiveNode::FloatLiteral(text) => Object::Float(text.clone()),
            PrimitiveNode::CharLiteral(c) => Object::Char(*c),
            PrimitiveNode::StringLiteral(text) => Object::Str(text.clone()),
            PrimitiveNode::BooleanLiteral(b) => Object::Boolean(*b),
        }
    }

    /// The index of the pair with the key `key`, if there is one.
    fn find_key(entries: &Vec<(Object, Object)>, key: &Object) -> (found: Option<usize>)
        ensures
            match found {
                Some(i) => key_position(entries_view(entries@), key@, 0) == Some(i as int) && i
                    < entries.len(),
                None => key_position(entries_view(entries@), key@, 0) is None,
            },
    {
        let mut i: usize = 0;
        while i < entries.len()
            invariant
                i <= entries.len(),
                key_position(entries_view(entries@), key@, i as int) == key_position(
                    entries_view(entries@),
                    key@,
                    0,
                ),
            decreases entries.len() - i,
        {
            assert(entries_view(entries@)[i as int].0 == entries@[i as int].0@);
            if entries[i].0.same_key(key) {
                return Some(i);
            }
            i = i + 1;
        }
        None
    }

    /// The element of a collection at an index. An error in place of the
    /// collection or of the index is handed on as it is.
    pub fn index_into(collection: &Object, index: &Object) -> (r: Object)
        ensures
            r@ == index_into(collection@, index@),
            collection@ is Error ==> r@ == collection@,
            !(collection@ is Error) && index@ is Error ==> r@ == index@,
    {
        if collection.errored() {
            return collection.clone();
        }
        if index.errored() {
            return index.clone();
        }
        match (collection, index) {
            (Object::Array(a), Object::Integer(i)) => {
                assert(collection@ == ObjectView::Array(objects_view(a@)));
                if *i < 0 {
                    failure("Negative indexing isn't valid")
                } else if *i as u64 >= a.len() as u64 {
                    let head = join("Index ", integer_to_string(*i).as_str());
                    let of = join(head.as_str(), " out of bounds for an array of length ");
                    Object::Error(join(of.as_str(), number_to_string(a.len() as u128).as_str()))
                } else {
                    let element = a[*i as usize].clone();
                    assert(objects_view(a@)[*i as int] == a@[*i as int]@);
                    element
                }
            },
            (Object::HashLiteral(h), _) => {
                assert(collection@ == ObjectView::HashLiteral(entries_view(h@)));
                match Self::find_key(h, index) {
                    Some(i) => {
                        let value = h[i].1.clone();
                        assert(entries_view(h@)[i as int].1 == h@[i as int].1@);
                        value
                    },
                    None => Object::Null,
                }
            },
            _ => {
                let head = join("Did not find value ", collection.kind());
                let of = join(head.as_str(), " for ");
                Object::Error(join(of.as_str(), index.kind()))
            },
        }
    }

    /// Sets `key` to `value` among the pairs of a hash map. No key comes
    /// to occur twice.
    fn set_key(entries: &mut Vec<(Object, Object)>, key: Object, value: Object)
        ensures
            entries_view(final(entries)@) == set_key(entries_view(old(entries)@), key@, value@),
            well_keyed(entries_view(old(entries)@)) && key@.hashable() ==> well_keyed(
                entries_view(final(entries)@),
            ),
    {
        proof {
            if well_keyed(entries_view(entries@)) && key@.hashable() {
                laws::set_key_keeps_keys_apart(entries_view(entries@), key@, value@);
            }
        }
        match Self::find_key(entries, &key) {
            Some(i) => {
                entries[i] = (key, value);
                assert(entries_view(entries@) =~= entries_view(old(entries)@).update(
                    i as int,
                    (key@, value@),
                ));
            },
            None => {
                entries.push((key, value));
                assert(entries_view(entries@) =~= entries_view(old(entries)@).push(
                    (key@, value@),
                ));
            },
        }
    }
}

impl Eval {
    /// The value that `name` is bound to in the scope in use or, failing
    /// that, in the scopes around it, nearest first.
    pub fn get(&self, name: &str) -> (value: Option<Object>)
        ensures
            match value {
                Some(v) => resolve(self@.scopes, self@.current, name@) == Some(v@),
                None => resolve(self@.scopes, self@.current, name@) is None,
            },
    {
        Environment::lookup(&self.scopes, self.current, name)
    }

    /// The value of an identifier.
    fn eval_ident(&self, ident: &IdentNode) -> (r: Object)
        ensures
            r@ == identifier(ident@.label, self@),
    {
        match self.get(ident.label.as_str()) {
            Some(value) => value,
            None => match BuiltinFunction::try_builtin(ident.label.as_str()) {
                Some(function) => function,
                None => failure("Identifier not found"),
            },
        }
    }

    /// Binds `name` to `value` in the scope in use.
    fn define(&mut self, name: String, value: Object)
        ensures
            final(self)@ == define(old(self)@, name@, value@),
            final(self).limit() == old(self).limit(),
    {
        if self.current < self.scopes.len() {
            let at = self.current;
            let ghost before = self.scopes@;
            assert(self@.scopes[at as int] == before[at as int]@);
            self.scopes[at].upsert(name, value);
            assert(scopes_view(self.scopes@) =~= scopes_view(before).update(
                at as int,
                self.scopes@[at as int]@,
            ));
        }
    }

    /// The call of a library function with arguments.
    pub fn apply_builtin(&mut self, function: BuiltinFunction, args: Vec<Object>) -> (r: Object)
        ensures
            (r@, final(self)@) == apply_builtin(function, objects_view(args@), old(self)@),
            final(self).limit() == old(self).limit(),
    {
        let expected = function.expected_args();
        if args.len() as u64 != expected as u64 {
            let head = join(
                "Incorrect number of arguments provided. Expected ",
                number_to_string(expected as u128).as_str(),
            );
            let received = join(head.as_str(), ", Received ");
            let count = join(received.as_str(), number_to_string(args.len() as u128).as_str());
            return Object::Error(join(count.as_str(), "."));
        }
        assert(objects_view(args@)[0] == args@[0]@);
        if expected == 2 {
            assert(objects_view(args@)[1] == args@[1]@);
        }
        match function {
            BuiltinFunction::Kind => lace_lib::base::kind(args[0].clone()),
            BuiltinFunction::Write => {
                let line = lace_lib::base::write(args[0].clone());
                let ghost written = texts(self.output@);
                self.output.push(line);
                assert(texts(self.output@) =~= written.push(line@));
                Object::Null
            },
            BuiltinFunction::Read => {
                if self.input.len() == 0 {
                    return failure("Failed to read from stdin");
                }
                let ghost lines = texts(self.input@);
                let line = self.input.remove(0);
                assert(texts(self.input@) =~= lines.drop_first());
                assert(lines[0] == line@);
                let read = lace_lib::base::read(args[0].clone(), line);
                if read.errored() {
                    read
                } else {
                    match &args[0] {
                        Object::Str(name) => {
                            self.define(name.clone(), read);
                            Object::Null
                        },
                        _ => failure("Couldn't find variable"),
                    }
                }
            },
            BuiltinFunction::Len => lace_lib::base::len(args[0].clone()),
            BuiltinFunction::First => lace_lib::base::first(args[0].clone()),
            BuiltinFunction::Last => lace_lib::base::last(args[0].clone()),
            BuiltinFunction::Chars => lace_lib::str::chars(args[0].clone()),
            BuiltinFunction::Split => lace_lib::str::split(args[0].clone(), args[1].clone()),
            BuiltinFunction::Append => lace_lib::array::append(args[0].clone(), args[1].clone()),
            BuiltinFunction::StripStart => lace_lib::base::strip_start(
                args[0].clone(),
                args[1].clone(),
            ),
            BuiltinFunction::StripEnd => lace_lib::base::strip_end(
                args[0].clone(),
                args[1].clone(),
            ),
        }
    }

    /// The scope of a call: inside the scope that the function was defined
    /// in, with the parameters bound to the arguments.
    fn extended_func_env(function: &Function, args: Vec<Object>) -> (env: Environment)
        ensures
            env@ == (ScopeView {
                store: bind_params(
                    Seq::empty(),
                    idents_view((*function.params)@),
                    objects_view(args@),
                    0,
                ),
                outer: Some(function.environment as nat),
            }),
    {
        let mut env = Environment::new_enclosed_env(function.environment);
        let params = &function.params;
        let mut i: usize = 0;
        while i < params.len() && i < args.len()
            invariant
                i <= params.len(),
                i <= args.len(),
                env@.outer == Some(function.environment as nat),
                bind_params(
                    env@.store,
                    idents_view((**params)@),
                    objects_view(args@),
                    i as int,
                ) == bind_params(
                    Seq::empty(),
                    idents_view((**params)@),
                    objects_view(args@),
                    0,
                ),
            decreases params.len() - i,
        {
            assert(objects_view(args@)[i as int] == args@[i as int]@);
            env.upsert(params[i].label.clone(), args[i].clone());
            i = i + 1;
        }
        env
    }

    /// The call of a value with arguments. `depth` is how deep calls may
    /// still nest.
    fn apply_func(&mut self, function: Object, args: Vec<Object>, depth: usize) -> (r: Object)
        ensures
            (r@, final(self)@) == old(self)@.apply(function@, objects_view(args@), depth as nat),
            final(self).limit() == old(self).limit(),
        decreases 2 * depth,
    {
        match function {
            Object::Function(func) => {
                if depth == 0 {
                    return failure("Maximum call depth exceeded");
                }
                if func.environment >= self.scopes.len() {
                    return failure("Function environment is not available");
                }
                let scope = Self::extended_func_env(&func, args);
                let caller = self.current;
                let ghost before = scopes_view(self.scopes@);
                self.current = self.scopes.len();
                self.scopes.push(scope);
                assert(scopes_view(self.scopes@) =~= before.push(scope@));
                let value = self.eval_block(&func.body, depth - 1);
                self.current = caller;
                match value {
                    Object::Return(inner) => *inner,
                    other => other,
                }
            },
            Object::Builtin(builtin) => self.apply_builtin(builtin, args),
            other => Object::Error(join(other.to_string().as_str(), " not found")),
        }
    }

    /// The value of a block: the value of its last statement, or the first
    /// error or return among its statements.
    fn eval_block(&mut self, block: &BlockStatement, depth: usize) -> (r: Object)
        ensures
            (r@, final(self)@) == old(self)@.eval_block(block@, 0, ObjectView::Null, depth as nat),
            final(self).limit() == old(self).limit(),
        decreases 2 * depth + 1, block,
    {
        let mut last = Object::Null;
        let mut i: usize = 0;
        while i < block.statements.len()
            invariant
                i <= block.statements.len(),
                self@.eval_block(block@, i as int, last@, depth as nat) == old(self)@.eval_block(
                    block@,
                    0,
                    ObjectView::Null,
                    depth as nat,
                ),
                self.limit() == old(self).limit(),
            decreases block.statements.len() - i,
        {
            proof {
                vstd::std_specs::vec::axiom_vec_index_decreases(block.statements, i as int);
                assert(decreases_to!(*block => block.statements));
                assert(block@[i as int] == block.statements@[i as int]@);
            }
            let value = self.eval_statement(&block.statements[i], depth);
            match value {
                Object::Error(_) | Object::Return(_) => {
                    return value;
                },
                _ => {
                    last = value;
                },
            }
            i = i + 1;
        }
        last
    }

    /// The value of a list of statements: the value of the last of them.
    fn eval_statements(&mut self, statements: &Vec<Statement>, depth: usize) -> (r: Object)
        ensures
            (r@, final(self)@) == old(self)@.eval_program(
                stmts_view(statements@),
                0,
                ObjectView::Null,
                depth as nat,
            ),
            final(self).limit() == old(self).limit(),
        decreases 2 * depth + 1, statements,
    {
        let mut last = Object::Null;
        let mut i: usize = 0;
        while i < statements.len()
            invariant
                i <= statements.len(),
                self@.eval_program(stmts_view(statements@), i as int, last@, depth as nat) == old(
                    self,
                )@.eval_program(stmts_view(statements@), 0, ObjectView::Null, depth as nat),
                self.limit() == old(self).limit(),
            decreases statements.len() - i,
        {
            proof {
                vstd::std_specs::vec::axiom_vec_index_decreases(*statements, i as int);
                assert(stmts_view(statements@)[i as int] == statements@[i as int]@);
            }
            last = self.eval_statement(&statements[i], depth);
            i = i + 1;
        }
        last
    }

    /// The index of the source with the path `path`, if there is one.
    fn find_source(&self, path: &str) -> (found: Option<usize>)
        ensures
            match found {
                Some(i) => source_position(self@.sources, path@, 0) == Some(i as int) && i
                    < self.sources.len(),
                None => source_position(self@.sources, path@, 0) is None,
            },
    {
        let mut i: usize = 0;
        while i < self.sources.len()
            invariant
                i <= self.sources.len(),
                source_position(self@.sources, path@, i as int) == source_position(
                    self@.sources,
                    path@,
                    0,
                ),
            decreases self.sources.len() - i,
        {
            if same_text(self.sources[i].0.as_str(), path) {
                return Some(i);
            }
            i = i + 1;
        }
        None
    }

    /// The text of a source by its path.
    fn source_code(&self, path: &str) -> (code: Option<String>)
        ensures
            match code {
                Some(text) => source_text(self@.sources, path@) == Some(text@),
                None => source_text(self@.sources, path@) is None,
            },
    {
        match self.find_source(path) {
            Some(i) => Some(self.sources[i].1.clone()),
            None => None,
        }
    }

    /// Evaluates a source text in the scope in use, after the messages of
    /// its parse errors were written out.
    fn run_source(&mut self, code: String, depth: usize) -> (r: Object)
        ensures
            (r@, final(self)@) == old(self)@.run_source(code@, depth as nat),
            final(self).limit() == old(self).limit(),
        decreases 2 * depth + 2,
    {
        let lexer = Lexer::new(code);
        let mut parser = Parser::new(lexer);
        let program = parser.parse_program();
        let mut i: usize = 0;
        while i < parser.errors.len()
            invariant
                i <= parser.errors.len(),
                report(self@.output, parser@.errors, i as int) == report(
                    old(self)@.output,
                    parser@.errors,
                    0,
                ),
                self@ == (StateView { output: self@.output, ..old(self)@ }),
                self.limit() == old(self).limit(),
            decreases parser.errors.len() - i,
        {
            let message = parser.errors[i].emit_err();
            let ghost written = texts(self.output@);
            self.output.push(message);
            assert(texts(self.output@) =~= written.push(message@));
            i = i + 1;
        }
        self.eval_statements(&program.statements, depth)
    }

    /// The value of a statement.
    fn eval_statement(&mut self, statement: &Statement, depth: usize) -> (r: Object)
        ensures
            (r@, final(self)@) == old(self)@.eval_statement(statement@, depth as nat),
            final(self).limit() == old(self).limit(),
        decreases 2 * depth + 1, statement,
    {
        match statement {
            Statement::Assignment(st) => {
                assert(statement@ == StatementView::Assignment { name: st.name@, val: st.val@ });
                let val = self.eval_expression(&st.val, depth);
                if val.errored() {
                    return val;
                }
                self.define(st.name.label.clone(), val);
                Object::Null
            },
            Statement::Return(ret) => {
                assert(statement@ == StatementView::Return(ret.returnable@));
                let return_val = self.eval_expression(&ret.returnable, depth);
                if return_val.errored() {
                    return_val
                } else {
                    Object::Return(Box::new(return_val))
                }
            },
            Statement::Expression(expr) => self.eval_expression(expr, depth),
            Statement::Source(sourceable) => {
                assert(statement@ == StatementView::Source(sourceable.path@));
                match self.source_code(sourceable.path.as_str()) {
                    None => Object::Error(join("Couldn't find ", sourceable.path.as_str())),
                    Some(code) => {
                        if depth == 0 {
                            failure("Maximum call depth exceeded")
                        } else {
                            self.run_source(code, depth - 1)
                        }
                    },
                }
            },
        }
    }

    /// The values of a list of expressions, from left to right, or the
    /// first error among them.
    fn eval_expressions(&mut self, expressions: &Vec<Expression>, depth: usize) -> (r: Result<
        Vec<Object>,
        Object,
    >)
        ensures
            (
                match r {
                    Ok(values) => Ok(objects_view(values@)),
                    Err(error) => Err(error@),
                },
                final(self)@,
            ) == old(self)@.eval_expressions(
                exprs_view(expressions@),
                0,
                Seq::empty(),
                depth as nat,
            ),
            final(self).limit() == old(self).limit(),
        decreases 2 * depth + 1, expressions,
    {
        let mut res: Vec<Object> = Vec::new();
        let mut i: usize = 0;
        assert(objects_view(res@) =~= Seq::empty());
        while i < expressions.len()
            invariant
                i <= expressions.len(),
                self@.eval_expressions(
                    exprs_view(expressions@),
                    i as int,
                    objects_view(res@),
                    depth as nat,
                ) == old(self)@.eval_expressions(
                    exprs_view(expressions@),
                    0,
                    Seq::empty(),
                    depth as nat,
                ),
                self.limit() == old(self).limit(),
            decreases expressions.len() - i,
        {
            proof {
                vstd::std_specs::vec::axiom_vec_index_decreases(*expressions, i as int);
                assert(exprs_view(expressions@)[i as int] == expressions@[i as int]@);
            }
            let eval_expr = self.eval_expression(&expressions[i], depth);
            if eval_expr.errored() {
                return Err(eval_expr);
            }
            let ghost listed = objects_view(res@);
            res.push(eval_expr);
            assert(objects_view(res@) =~= listed.push(eval_expr@));
            i = i + 1;
        }
        Ok(res)
    }

    /// The value of a hash-map literal: a hash map that holds no key
    /// twice, or the first error.
    fn eval_hashmap_expr(&mut self, h_pairs: &HashLiteral, depth: usize) -> (r: Object)
        ensures
            (r@, final(self)@) == old(self)@.eval_expression(h_pairs@, depth as nat),
            final(self).limit() == old(self).limit(),
            r@ matches ObjectView::HashLiteral(entries) ==> well_keyed(entries),
        decreases 2 * depth + 1, h_pairs,
    {
        let mut hmap: Vec<(Object, Object)> = Vec::new();
        let mut i: usize = 0;
        assert(entries_view(hmap@) =~= Seq::empty());
        assert(h_pairs@ == ExpressionView::HashMapLiteral { pairs: pairs_view(h_pairs.pairs@) });
        while i < h_pairs.pairs.len()
            invariant
                i <= h_pairs.pairs.len(),
                self@.eval_pairs(
                    pairs_view(h_pairs.pairs@),
                    i as int,
                    entries_view(hmap@),
                    depth as nat,
                ) == old(self)@.eval_pairs(
                    pairs_view(h_pairs.pairs@),
                    0,
                    Seq::empty(),
                    depth as nat,
                ),
                self.limit() == old(self).limit(),
                well_keyed(entries_view(hmap@)),
            decreases h_pairs.pairs.len() - i,
        {
            proof {
                vstd::std_specs::vec::axiom_vec_index_decreases(h_pairs.pairs, i as int);
                assert(decreases_to!(*h_pairs => h_pairs.pairs));
                assert(decreases_to!(h_pairs.pairs@[i as int] => h_pairs.pairs@[i as int].0));
                assert(decreases_to!(h_pairs.pairs@[i as int] => h_pairs.pairs@[i as int].1));
                assert(pairs_view(h_pairs.pairs@)[i as int] == (
                    h_pairs.pairs@[i as int].0@,
                    h_pairs.pairs@[i as int].1@,
                ));
            }
            let key = self.eval_expression(&h_pairs.pairs[i].0, depth);
            if key.errored() {
                return key;
            }
            if !key.hashable() {
                return Object::Error(join("Cannot hash a ", key.kind()));
            }
            let val = self.eval_expression(&h_pairs.pairs[i].1, depth);
            if val.errored() {
                return val;
            }
            Self::set_key(&mut hmap, key, val);
            i = i + 1;
        }
        Object::HashLiteral(hmap)
    }

    /// The value of an index into a collection.
    fn eval_index_expr(&mut self, index_expr: &IndexAccess, depth: usize) -> (r: Object)
        ensures
            (r@, final(self)@) == old(self)@.eval_expression(index_expr@, depth as nat),
            final(self).limit() == old(self).limit(),
        decreases 2 * depth + 1, index_expr,
    {
        assert(index_expr@ == ExpressionView::ArrIndex {
            arr: Box::new((*index_expr.arr)@),
            index: Box::new((*index_expr.index)@),
        });
        let collection = self.eval_expression(&index_expr.arr, depth);
        if collection.errored() {
            return collection;
        }
        let index = self.eval_expression(&index_expr.index, depth);
        if index.errored() {
            return index;
        }
        Self::index_into(&collection, &index)
    }

    /// The value of a conditional.
    fn eval_conditional(&mut self, conditional: &ConditionalOperator, depth: usize) -> (r: Object)
        ensures
            (r@, final(self)@) == old(self)@.eval_expression(conditional@, depth as nat),
            final(self).limit() == old(self).limit(),
        decreases 2 * depth + 1, conditional,
    {
        assert(conditional@ == ExpressionView::Conditional {
            cond: Box::new((*conditional.cond)@),
            consequence: conditional.consequence@,
            alternative: match conditional.alternative {
                Some(block) => Some(block@),
                None => None,
            },
        });
        let condition = self.eval_expression(&conditional.cond, depth);
        if condition.errored() {
            return condition;
        }
        let holds = match condition {
            Object::Boolean(true) => true,
            _ => false,
        };
        if holds {
            self.eval_block(&conditional.consequence, depth)
        } else {
            match &conditional.alternative {
                Some(alternative) => {
                    proof {
                        assert(decreases_to!(*conditional => conditional.alternative));
                        assert(decreases_to!(conditional.alternative => conditional.alternative->0));
                    }
                    self.eval_block(alternative, depth)
                },
                None => Object::Null,
            }
        }
    }

    /// The value of an expression.
    fn eval_expression(&mut self, expression: &Expression, depth: usize) -> (r: Object)
        ensures
            (r@, final(self)@) == old(self)@.eval_expression(expression@, depth as nat),
            final(self).limit() == old(self).limit(),
        decreases 2 * depth + 1, expression,
    {
        match expression {
            Expression::Identifier(ident) => self.eval_ident(ident),
            Expression::Primitive(literal) => Self::eval_primitive(literal),
            Expression::Unary(prefix) => {
                assert(expression@ == ExpressionView::Unary {
                    operator: prefix.operator@,
                    right: Box::new((*prefix.right_expr)@),
                });
                let right = self.eval_expression(&prefix.right_expr, depth);
                if right.errored() {
                    return right;
                }
                Self::eval_prefix(&prefix.operator, &right)
            },
            Expression::Binary(infix) => {
                assert(expression@ == ExpressionView::Binary {
                    operator: infix.operator@,
                    left: Box::new((*infix.left_expr)@),
                    right: Box::new((*infix.right_expr)@),
                });
                let left = self.eval_expression(&infix.left_expr, depth);
                if left.errored() {
                    return left;
                }
                let right = self.eval_expression(&infix.right_expr, depth);
                if right.errored() {
                    return right;
                }
                Self::eval_infix(&infix.operator, left, right)
            },
            Expression::Conditional(conditional) => self.eval_conditional(conditional, depth),
            Expression::FunctionDef(func) => {
                assert(expression@ == ExpressionView::FunctionDef {
                    name: crate::parser::ast::name_view(func.name),
                    params: idents_view((*func.params)@),
                    body: (*func.body)@,
                });
                Object::Function(
                    Function {
                        params: share(&func.params),
                        body: share(&func.body),
                        environment: self.current,
                    },
                )
            },
            Expression::FunctionCall(fn_call) => {
                assert(expression@ == ExpressionView::FunctionCall {
                    function: Box::new((*fn_call.function)@),
                    args: exprs_view(fn_call.args@),
                });
                let function = self.eval_expression(&fn_call.function, depth);
                if function.errored() {
                    return function;
                }
                proof {
                    assert(decreases_to!(*expression => expression->FunctionCall_0));
                    assert(decreases_to!(*fn_call => fn_call.args));
                }
                match self.eval_expressions(&fn_call.args, depth) {
                    Ok(args) => self.apply_func(function, args, depth),
                    Err(error) => error,
                }
            },
            Expression::Array(arr) => {
                assert(expression@ == ExpressionView::Array { elements: exprs_view(arr.elements@) });
                proof {
                    assert(decreases_to!(*expression => expression->Array_0));
                    assert(decreases_to!(*arr => arr.elements));
                }
                match self.eval_expressions(&arr.elements, depth) {
                    Ok(elements) => Object::Array(elements),
                    Err(error) => error,
                }
            },
            Expression::ArrIndex(index_access) => self.eval_index_expr(index_access, depth),
            Expression::HashMapLiteral(hmap) => self.eval_hashmap_expr(hmap, depth),
        }
    }

    /// Evaluates a program: the statements in order, each whatever the
    /// value of the one before it. The value of the program is the value
    /// of its last statement.
    pub fn eval(&mut self, program: Program) -> (r: Object)
        ensures
            (r@, final(self)@) == old(self)@.eval_program(
                program@,
                0,
                ObjectView::Null,
                old(self).limit(),
            ),
            final(self).limit() == old(self).limit(),
    {
        let depth = self.depth_limit;
        self.eval_statements(&program.statements, depth)
    }
}

impl Default for Eval {
    fn default() -> (eval: Eval)
        ensures
            eval@ == Eval::fresh(),
            eval.limit() == DEFAULT_DEPTH,
    {
        Eval::new()
    }
}

impl BuiltinFunction {
    /// Calls the function with arguments, in the state of `evaluator`.
    pub fn apply(&self, args: Vec<Object>, evaluator: &mut Eval) -> (r: Object)
        ensures
            (r@, final(evaluator)@) == apply_builtin(*self, objects_view(args@), old(evaluator)@),
            final(evaluator).limit() == old(evaluator).limit(),
    {
        evaluator.apply_builtin(*self, args)
    }
}

} // verus!
