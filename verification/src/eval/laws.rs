//! What holds of every evaluation.
//!
//! An error in a part is the value of the whole: each law below says so
//! for one construct of the language. The others tell what indexing and
//! binding give.
use super::model::{
    apply_builtin, arity_error, bang, bind, define, identifier, index_into, infix, key_position,
    local, minus, position, prefix, reach, resolve, set_key, well_keyed, Bindings, ScopeView, StateView,
};
use super::object::builtin::BuiltinFunction;
use super::object::ObjectView;
use crate::lexer::token::TokenView;
use crate::parser::ast::{ExpressionView, IdentView, StatementView};
use vstd::prelude::*;

verus! {

/// The operators hand an error on as it is: an operator that is applied
/// to an error gives that error, an operator between two values gives the
/// error among them, the left one where both are errors, and an index
/// gives the error in place of its collection or, failing that, of its
/// index.
pub proof fn operators_hand_errors_on(operator: TokenView, error: ObjectView, other: ObjectView)
    requires
        error is Error,
    ensures
        bang(error) == error,
        minus(error) == error,
        prefix(operator, error) == error,
        infix(operator, error, other) == error,
        !(other is Error) ==> infix(operator, other, error) == error,
        index_into(error, other) == error,
        !(other is Error) ==> index_into(other, error) == error,
{
}

/// An error in the operand of a prefix operator is the value of the whole
/// expression.
pub proof fn error_passes_prefix(
    state: StateView,
    operator: TokenView,
    right: ExpressionView,
    depth: nat,
)
    requires
        state.eval_expression(right, depth).0 is Error,
    ensures
        state.eval_expression(ExpressionView::Unary { operator, right: Box::new(right) }, depth)
            == state.eval_expression(right, depth),
{
}

/// An error in the left operand of an infix operator is the value of the
/// whole expression, and the right operand stays unevaluated.
pub proof fn error_passes_infix_left(
    state: StateView,
    operator: TokenView,
    left: ExpressionView,
    right: ExpressionView,
    depth: nat,
)
    requires
        state.eval_expression(left, depth).0 is Error,
    ensures
        state.eval_expression(
            ExpressionView::Binary { operator, left: Box::new(left), right: Box::new(right) },
            depth,
        ) == state.eval_expression(left, depth),
{
}

/// An error in the right operand of an infix operator, after a left
/// operand without one, is the value of the whole expression.
pub proof fn error_passes_infix_right(
    state: StateView,
    operator: TokenView,
    left: ExpressionView,
    right: ExpressionView,
    depth: nat,
)
    requires
        !(state.eval_expression(left, depth).0 is Error),
        state.eval_expression(left, depth).1.eval_expression(right, depth).0 is Error,
    ensures
        state.eval_expression(
            ExpressionView::Binary { operator, left: Box::new(left), right: Box::new(right) },
            depth,
        ) == state.eval_expression(left, depth).1.eval_expression(right, depth),
{
}

/// An error in the condition of a conditional is the value of the whole
/// expression, and neither block is evaluated.
pub proof fn error_passes_condition(
    state: StateView,
    cond: ExpressionView,
    consequence: Seq<StatementView>,
    alternative: Option<Seq<StatementView>>,
    depth: nat,
)
    requires
        state.eval_expression(cond, depth).0 is Error,
    ensures
        state.eval_expression(
            ExpressionView::Conditional { cond: Box::new(cond), consequence, alternative },
            depth,
        ) == state.eval_expression(cond, depth),
{
}

/// An error in the expression that gives the function of a call is the
/// value of the call, and no argument is evaluated.
pub proof fn error_passes_callee(
    state: StateView,
    function: ExpressionView,
    args: Seq<ExpressionView>,
    depth: nat,
)
    requires
        state.eval_expression(function, depth).0 is Error,
    ensures
        state.eval_expression(
            ExpressionView::FunctionCall { function: Box::new(function), args },
            depth,
        ) == state.eval_expression(function, depth),
{
}

/// An error among the arguments of a call is the value of the call, and
/// the function is not applied.
pub proof fn error_passes_arguments(
    state: StateView,
    function: ExpressionView,
    args: Seq<ExpressionView>,
    depth: nat,
)
    requires
        !(state.eval_expression(function, depth).0 is Error),
        state.eval_expression(function, depth).1.eval_expressions(
            args,
            0,
            Seq::empty(),
            depth,
        ).0 is Err,
    ensures
        ({
            let (error, after) = state.eval_expression(function, depth).1.eval_expressions(
                args,
                0,
                Seq::empty(),
                depth,
            );
            state.eval_expression(
                ExpressionView::FunctionCall { function: Box::new(function), args },
                depth,
            ) == (error->Err_0, after)
        }),
{
}

/// An error among the elements of an array literal is the value of the
/// literal.
pub proof fn error_passes_elements(state: StateView, elements: Seq<ExpressionView>, depth: nat)
    requires
        state.eval_expressions(elements, 0, Seq::empty(), depth).0 is Err,
    ensures
        ({
            let (error, after) = state.eval_expressions(elements, 0, Seq::empty(), depth);
            state.eval_expression(ExpressionView::Array { elements }, depth) == (
                error->Err_0,
                after,
            )
        }),
{
}

/// The first error in a list of expressions is what the list gives, and
/// the expressions after it stay unevaluated.
pub proof fn error_stops_list(
    state: StateView,
    exprs: Seq<ExpressionView>,
    i: int,
    values: Seq<ObjectView>,
    depth: nat,
)
    requires
        0 <= i < exprs.len(),
        state.eval_expression(exprs[i], depth).0 is Error,
    ensures
        ({
            let (error, after) = state.eval_expression(exprs[i], depth);
            state.eval_expressions(exprs, i, values, depth) == (
                Err::<Seq<ObjectView>, ObjectView>(error),
                after,
            )
        }),
{
}

/// An error in the collection of an index is the value of the whole
/// expression, and the index stays unevaluated.
pub proof fn error_passes_collection(
    state: StateView,
    arr: ExpressionView,
    index: ExpressionView,
    depth: nat,
)
    requires
        state.eval_expression(arr, depth).0 is Error,
    ensures
        state.eval_expression(
            ExpressionView::ArrIndex { arr: Box::new(arr), index: Box::new(index) },
            depth,
        ) == state.eval_expression(arr, depth),
{
}

/// An error in the index, after a collection without one, is the value of
/// the whole expression.
pub proof fn error_passes_index(
    state: StateView,
    arr: ExpressionView,
    index: ExpressionView,
    depth: nat,
)
    requires
        !(state.eval_expression(arr, depth).0 is Error),
        state.eval_expression(arr, depth).1.eval_expression(index, depth).0 is Error,
    ensures
        state.eval_expression(
            ExpressionView::ArrIndex { arr: Box::new(arr), index: Box::new(index) },
            depth,
        ) == state.eval_expression(arr, depth).1.eval_expression(index, depth),
{
}

/// An error in a key of a hash-map literal is the value of the literal.
pub proof fn error_passes_key(
    state: StateView,
    pairs: Seq<(ExpressionView, ExpressionView)>,
    i: int,
    entries: Seq<(ObjectView, ObjectView)>,
    depth: nat,
)
    requires
        0 <= i < pairs.len(),
        state.eval_expression(pairs[i].0, depth).0 is Error,
    ensures
        state.eval_pairs(pairs, i, entries, depth) == state.eval_expression(pairs[i].0, depth),
{
}

/// An error in a value of a hash-map literal, after a key that can be
/// one, is the value of the literal.
pub proof fn error_passes_value(
    state: StateView,
    pairs: Seq<(ExpressionView, ExpressionView)>,
    i: int,
    entries: Seq<(ObjectView, ObjectView)>,
    depth: nat,
)
    requires
        0 <= i < pairs.len(),
        state.eval_expression(pairs[i].0, depth).0.hashable(),
        state.eval_expression(pairs[i].0, depth).1.eval_expression(pairs[i].1, depth).0 is Error,
    ensures
        state.eval_pairs(pairs, i, entries, depth) == state.eval_expression(
            pairs[i].0,
            depth,
        ).1.eval_expression(pairs[i].1, depth),
{
}

/// An error in the expression of a binding is the value of the binding,
/// and nothing is bound.
pub proof fn error_passes_binding(
    state: StateView,
    name: IdentView,
    val: ExpressionView,
    depth: nat,
)
    requires
        state.eval_expression(val, depth).0 is Error,
    ensures
        state.eval_statement(StatementView::Assignment { name, val }, depth)
            == state.eval_expression(val, depth),
{
}

/// An error in the expression of a return is the value of the return, not
/// wrapped.
pub proof fn error_passes_return(state: StateView, returnable: ExpressionView, depth: nat)
    requires
        state.eval_expression(returnable, depth).0 is Error,
    ensures
        state.eval_statement(StatementView::Return(returnable), depth) == state.eval_expression(
            returnable,
            depth,
        ),
{
}

/// A block stops at a statement whose value is an error or a return: that
/// value is the value of the block, and the statements after it stay
/// unevaluated.
pub proof fn error_stops_block(
    state: StateView,
    stmts: Seq<StatementView>,
    i: int,
    last: ObjectView,
    depth: nat,
)
    requires
        0 <= i < stmts.len(),
        state.eval_statement(stmts[i], depth).0 is Error || state.eval_statement(
            stmts[i],
            depth,
        ).0 is Return,
    ensures
        state.eval_block(stmts, i, last, depth) == state.eval_statement(stmts[i], depth),
{
}

/// A program goes on after a statement, whatever its value: the value of
/// the statement is only the value of the program so far.
pub proof fn program_goes_on(
    state: StateView,
    stmts: Seq<StatementView>,
    i: int,
    last: ObjectView,
    depth: nat,
)
    requires
        0 <= i < stmts.len(),
    ensures
        ({
            let (value, after) = state.eval_statement(stmts[i], depth);
            state.eval_program(stmts, i, last, depth) == after.eval_program(
                stmts,
                i + 1,
                value,
                depth,
            )
        }),
{
}

/// A lookup takes the innermost binding of a name: what the scope itself
/// binds to the name wins over what any scope around it binds to it.
pub proof fn lookup_takes_the_innermost(scopes: Seq<ScopeView>, at: nat, name: Seq<char>)
    requires
        at < scopes.len(),
        local(scopes[at as int].store, name) is Some,
    ensures
        resolve(scopes, at, name) == local(scopes[at as int].store, name),
        reach(scopes[at as int], scopes, name) == local(scopes[at as int].store, name),
{
}

/// A lookup walks outward: a name that the scope itself does not bind
/// gives what a lookup from the scope around it gives, and nothing where
/// no scope lies around it.
pub proof fn lookup_walks_outward(scopes: Seq<ScopeView>, at: nat, name: Seq<char>)
    requires
        at < scopes.len(),
        local(scopes[at as int].store, name) is None,
    ensures
        match scopes[at as int].outer {
            Some(outer) => outer < at ==> resolve(scopes, at, name) == resolve(
                scopes,
                outer,
                name,
            ),
            None => resolve(scopes, at, name) is None,
        },
        match scopes[at as int].outer {
            Some(outer) => reach(scopes[at as int], scopes, name) == resolve(scopes, outer, name),
            None => reach(scopes[at as int], scopes, name) is None,
        },
{
}

/// What is bound to a name in the scope in use is what the name gives
/// from then on, whatever a scope around it binds to that name; and no
/// other scope is touched.
pub proof fn binding_is_seen_here_only(state: StateView, name: Seq<char>, value: ObjectView)
    requires
        state.current < state.scopes.len(),
    ensures
        identifier(name, define(state, name, value)) == value,
        define(state, name, value).scopes.len() == state.scopes.len(),
        forall|i: int|
            0 <= i < state.scopes.len() && i != state.current ==> define(
                state,
                name,
                value,
            ).scopes[i] == state.scopes[i],
        define(state, name, value).scopes[state.current as int].outer
            == state.scopes[state.current as int].outer,
{
    scope_holds_what_was_bound(state.scopes[state.current as int].store, name, value, seq!['x'] + name);
}

/// A conditional takes its consequence when its condition is the boolean
/// `true`, and only then: any other value that is no error takes the
/// alternative, or gives `Null` where there is none.
pub proof fn only_true_takes_the_consequence(
    state: StateView,
    cond: ExpressionView,
    consequence: Seq<StatementView>,
    alternative: Option<Seq<StatementView>>,
    depth: nat,
)
    requires
        !(state.eval_expression(cond, depth).0 is Error),
    ensures
        ({
            let (value, after) = state.eval_expression(cond, depth);
            let whole = state.eval_expression(
                ExpressionView::Conditional { cond: Box::new(cond), consequence, alternative },
                depth,
            );
            if value == ObjectView::Boolean(true) {
                whole == after.eval_block(consequence, 0, ObjectView::Null, depth)
            } else {
                match alternative {
                    Some(alternative) => whole == after.eval_block(
                        alternative,
                        0,
                        ObjectView::Null,
                        depth,
                    ),
                    None => whole == (ObjectView::Null, after),
                }
            }
        }),
{
}

/// A function literal gives a function value that names the scope in
/// use, and changes nothing.
pub proof fn a_function_keeps_the_scope_in_use(
    state: StateView,
    name: Option<Seq<char>>,
    params: Seq<IdentView>,
    body: Seq<StatementView>,
    depth: nat,
)
    ensures
        state.eval_expression(ExpressionView::FunctionDef { name, params, body }, depth) == (
            ObjectView::Function { params, body, env: state.current },
            state,
        ),
{
}

/// A function is evaluated in the scope that it was defined in: the value
/// of a call, and every scope after it, is the same whatever scope is in
/// use where the call is made.
pub proof fn call_ignores_the_scope_of_the_caller(
    state: StateView,
    elsewhere: nat,
    params: Seq<IdentView>,
    body: Seq<StatementView>,
    env: nat,
    args: Seq<ObjectView>,
    depth: nat,
)
    ensures
        ({
            let moved = StateView { current: elsewhere, ..state };
            let here = state.call(params, body, env, args, depth);
            let there = moved.call(params, body, env, args, depth);
            here.0 == there.0 && here.1 == (StateView { current: state.current, ..there.1 })
        }),
{
}

/// An index within the bounds of an array gives the element there; a
/// negative index and an index past the end each give an error, and the
/// two errors differ.
pub proof fn array_index_in_and_out_of_bounds(items: Seq<ObjectView>, i: i64, j: i64, k: i64)
    requires
        0 <= i < items.len(),
        j < 0,
        k >= items.len(),
    ensures
        index_into(ObjectView::Array(items), ObjectView::Integer(i)) == items[i as int],
        index_into(ObjectView::Array(items), ObjectView::Integer(j)) is Error,
        index_into(ObjectView::Array(items), ObjectView::Integer(k)) is Error,
        index_into(ObjectView::Array(items), ObjectView::Integer(j)) != index_into(
            ObjectView::Array(items),
            ObjectView::Integer(k),
        ),
{
    reveal_strlit("Negative indexing isn't valid");
    reveal_strlit("Index ");
    let negative = index_into(ObjectView::Array(items), ObjectView::Integer(j));
    let beyond = index_into(ObjectView::Array(items), ObjectView::Integer(k));
    assert(negative->Error_0[0] == 'N');
    assert(beyond->Error_0[0] == 'I');
}

/// A hash map gives `Null`, not an error, for a key that it does not hold.
pub proof fn hash_miss_is_null(entries: Seq<(ObjectView, ObjectView)>, key: ObjectView)
    requires
        !(key is Error),
        key_position(entries, key, 0) is None,
    ensures
        index_into(ObjectView::HashLiteral(entries), key) == ObjectView::Null,
{
}

/// The key that `key_position` finds is the first pair with that key.
pub proof fn key_position_finds(entries: Seq<(ObjectView, ObjectView)>, key: ObjectView, i: int)
    requires
        0 <= i,
    ensures
        match key_position(entries, key, i) {
            Some(at) => i <= at < entries.len() && entries[at].0 == key && key.hashable()
                && forall|j: int| i <= j < at ==> !(entries[j].0.hashable() && entries[j].0 == key),
            None => forall|j: int|
                i <= j < entries.len() ==> !(entries[j].0.hashable() && entries[j].0 == key),
        },
    decreases entries.len() - i,
{
    if i < entries.len() && !(entries[i].0.hashable() && entries[i].0 == key) {
        key_position_finds(entries, key, i + 1);
    }
}

/// A hash map holds under a key what was last set under it, and setting a
/// key leaves what the other keys hold.
pub proof fn hash_holds_what_was_set(
    entries: Seq<(ObjectView, ObjectView)>,
    key: ObjectView,
    value: ObjectView,
    other: ObjectView,
)
    requires
        key.hashable(),
        other != key,
        !(other is Error),
    ensures
        index_into(ObjectView::HashLiteral(set_key(entries, key, value)), key) == value,
        index_into(ObjectView::HashLiteral(set_key(entries, key, value)), other) == index_into(
            ObjectView::HashLiteral(entries),
            other,
        ),
{
    let after = set_key(entries, key, value);
    key_position_finds(entries, key, 0);
    key_position_finds(entries, other, 0);
    key_position_finds(after, key, 0);
    key_position_finds(after, other, 0);
    match key_position(entries, key, 0) {
        Some(at) => {
            assert(after[at] == (key, value));
            assert(forall|j: int| 0 <= j < after.len() && j != at ==> after[j] == entries[j]);
        },
        None => {
            assert(after[entries.len() as int] == (key, value));
            assert(forall|j: int| 0 <= j < entries.len() ==> after[j] == entries[j]);
        },
    }
}

/// Setting a key keeps the pairs those of a hash map: no key comes to occur
/// twice.
pub proof fn set_key_keeps_keys_apart(
    entries: Seq<(ObjectView, ObjectView)>,
    key: ObjectView,
    value: ObjectView,
)
    requires
        well_keyed(entries),
        key.hashable(),
    ensures
        well_keyed(set_key(entries, key, value)),
{
    key_position_finds(entries, key, 0);
    let after = set_key(entries, key, value);
    match key_position(entries, key, 0) {
        Some(at) => {
            assert forall|i: int| 0 <= i < after.len() implies (#[trigger] after[i]).0
                == entries[i].0 by {}
            assert forall|i: int, j: int| 0 <= i < j < after.len() implies (#[trigger] after[i]).0
                != (#[trigger] after[j]).0 by {
                assert(entries[i].0 != entries[j].0);
            }
        },
        None => {
            assert forall|i: int, j: int| 0 <= i < j < after.len() implies (#[trigger] after[i]).0
                != (#[trigger] after[j]).0 by {
                if j < entries.len() {
                    assert(entries[i].0 != entries[j].0);
                } else {
                    assert(entries[i].0.hashable());
                }
            }
            assert forall|i: int| 0 <= i < after.len() implies (#[trigger] after[i]).0.hashable() by {
                if i < entries.len() {
                    assert(entries[i].0.hashable());
                }
            }
        },
    }
}

/// The hash map of a literal holds no key twice.
pub proof fn a_hash_literal_holds_no_key_twice(
    state: StateView,
    pairs: Seq<(ExpressionView, ExpressionView)>,
    i: int,
    entries: Seq<(ObjectView, ObjectView)>,
    depth: nat,
)
    requires
        well_keyed(entries),
    ensures
        state.eval_pairs(pairs, i, entries, depth).0 matches ObjectView::HashLiteral(all)
            ==> well_keyed(all),
    decreases pairs.len() - i,
{
    if 0 <= i < pairs.len() {
        let (key, after_key) = state.eval_expression(pairs[i].0, depth);
        let (value, after_value) = after_key.eval_expression(pairs[i].1, depth);
        if !(key is Error) && key.hashable() && !(value is Error) {
            set_key_keeps_keys_apart(entries, key, value);
            a_hash_literal_holds_no_key_twice(
                after_value,
                pairs,
                i + 1,
                set_key(entries, key, value),
                depth,
            );
        }
    }
}

/// The binding that `position` finds is the first binding of the name.
pub proof fn position_finds(store: Bindings, name: Seq<char>, i: int)
    requires
        0 <= i,
    ensures
        match position(store, name, i) {
            Some(at) => i <= at < store.len() && store[at].0 == name && forall|j: int|
                i <= j < at ==> store[j].0 != name,
            None => forall|j: int| i <= j < store.len() ==> store[j].0 != name,
        },
    decreases store.len() - i,
{
    if i < store.len() && store[i].0 != name {
        position_finds(store, name, i + 1);
    }
}

/// A scope holds under a name what was last bound to it, and binding a
/// name leaves what the other names are bound to.
pub proof fn scope_holds_what_was_bound(
    store: Bindings,
    name: Seq<char>,
    value: ObjectView,
    other: Seq<char>,
)
    requires
        other != name,
    ensures
        local(bind(store, name, value), name) == Some(value),
        local(bind(store, name, value), other) == local(store, other),
{
    let after = bind(store, name, value);
    position_finds(store, name, 0);
    position_finds(store, other, 0);
    position_finds(after, name, 0);
    position_finds(after, other, 0);
    match position(store, name, 0) {
        Some(at) => {
            assert(after[at] == (name, value));
            assert(forall|j: int| 0 <= j < after.len() && j != at ==> after[j] == store[j]);
        },
        None => {
            assert(after[store.len() as int] == (name, value));
            assert(forall|j: int| 0 <= j < store.len() ==> after[j] == store[j]);
        },
    }
}

/// A library function that is called with a wrong number of arguments
/// gives an error that names the number it takes, and does nothing else.
pub proof fn wrong_arity_is_an_error(
    function: BuiltinFunction,
    args: Seq<ObjectView>,
    state: StateView,
)
    requires
        args.len() != function.arity(),
    ensures
        apply_builtin(function, args, state) == (arity_error(function.arity(), args.len()), state),
{
}

} // verus!
