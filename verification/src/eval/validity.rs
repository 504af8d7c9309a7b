//! Function values keep their scopes.
//!
//! A function value names the scope that it was defined in by a handle.
//! Scopes are only ever added, so a handle that is valid once stays valid.
//! The laws below show that an evaluator that starts in a sound state
//! stays in one: every function value that it holds or gives names a scope
//! that exists, every scope lies inside one that was created before it, and
//! the scope in use exists.
use super::model::{
    apply_builtin, bind, bind_params, define, index_into, key_position, lib_read,
    local, position, report, resolve, set_key, Bindings, ScopeView, StateView,
};
use super::object::builtin::BuiltinFunction;
use super::object::ObjectView;
use crate::parser::ast::{ExpressionView, IdentView, StatementView};
use vstd::prelude::*;

verus! {

/// Whether every function value in `value` names one of the first `count`
/// scopes.
pub open spec fn fits(value: ObjectView, count: nat) -> bool
    decreases value,
{
    match value {
        ObjectView::Function { env, .. } => env < count,
        ObjectView::Array(items) => forall|i: int|
            0 <= i < items.len() ==> fits(#[trigger] items[i], count),
        ObjectView::HashLiteral(entries) => forall|i: int|
            0 <= i < entries.len() ==> fits((#[trigger] entries[i]).0, count) && fits(
                entries[i].1,
                count,
            ),
        ObjectView::Return(inner) => fits(*inner, count),
        _ => true,
    }
}

/// Whether every value of a list fits.
pub open spec fn all_fit(values: Seq<ObjectView>, count: nat) -> bool {
    forall|i: int| 0 <= i < values.len() ==> fits(#[trigger] values[i], count)
}

/// Whether every value that is bound fits.
pub open spec fn bindings_fit(store: Bindings, count: nat) -> bool {
    forall|i: int| 0 <= i < store.len() ==> fits((#[trigger] store[i]).1, count)
}

/// Whether a state is sound: the scope in use exists, every scope lies
/// inside one that was created before it, and every value that is bound
/// fits.
pub open spec fn sound(state: StateView) -> bool {
    &&& state.current < state.scopes.len()
    &&& forall|i: int|
        0 <= i < state.scopes.len() ==> bindings_fit(
            (#[trigger] state.scopes[i]).store,
            state.scopes.len(),
        ) && (state.scopes[i].outer matches Some(outer) ==> outer < i)
}

/// Whether `after` can come after `before` in an evaluation: it is sound,
/// no scope was lost, and the same scope is in use.
pub open spec fn keeps(after: StateView, before: StateView) -> bool {
    &&& sound(after)
    &&& before.scopes.len() <= after.scopes.len()
    &&& after.current == before.current
}

/// A value that fits still fits once scopes were added.
pub proof fn fits_for_more(value: ObjectView, count: nat, more: nat)
    requires
        fits(value, count),
        count <= more,
    ensures
        fits(value, more),
    decreases value,
{
    match value {
        ObjectView::Array(items) => {
            assert forall|i: int| 0 <= i < items.len() implies fits(#[trigger] items[i], more) by {
                fits_for_more(items[i], count, more);
            }
        },
        ObjectView::HashLiteral(entries) => {
            assert forall|i: int| 0 <= i < entries.len() implies fits(
                (#[trigger] entries[i]).0,
                more,
            ) && fits(entries[i].1, more) by {
                fits_for_more(entries[i].0, count, more);
                fits_for_more(entries[i].1, count, more);
            }
        },
        ObjectView::Return(inner) => {
            fits_for_more(*inner, count, more);
        },
        _ => {},
    }
}

/// A value that holds no other value and is no function fits.
pub proof fn plain_fits(value: ObjectView, count: nat)
    requires
        !(value is Function || value is Array || value is HashLiteral || value is Return),
    ensures
        fits(value, count),
{
}

/// An array fits when its elements do, and only then.
pub proof fn array_fits(value: ObjectView, count: nat)
    requires
        value is Array,
    ensures
        fits(value, count) <==> all_fit(value->Array_0, count),
{
}

/// A hash map fits when its keys and values do, and only then.
pub proof fn hash_fits(value: ObjectView, count: nat)
    requires
        value is HashLiteral,
    ensures
        fits(value, count) <==> forall|i: int|
            0 <= i < value->HashLiteral_0.len() ==> fits(
                (#[trigger] value->HashLiteral_0[i]).0,
                count,
            ) && fits(value->HashLiteral_0[i].1, count),
{
}

/// Values that fit still fit once scopes were added.
pub proof fn all_fit_for_more(values: Seq<ObjectView>, count: nat, more: nat)
    requires
        all_fit(values, count),
        count <= more,
    ensures
        all_fit(values, more),
{
    assert forall|i: int| 0 <= i < values.len() implies fits(#[trigger] values[i], more) by {
        fits_for_more(values[i], count, more);
    }
}

/// Bindings that fit still fit once scopes were added.
pub proof fn bindings_fit_for_more(store: Bindings, count: nat, more: nat)
    requires
        bindings_fit(store, count),
        count <= more,
    ensures
        bindings_fit(store, more),
{
    assert forall|i: int| 0 <= i < store.len() implies fits((#[trigger] store[i]).1, more) by {
        fits_for_more(store[i].1, count, more);
    }
}

/// Binding a value that fits keeps the bindings fitting.
pub proof fn bind_fits(store: Bindings, name: Seq<char>, value: ObjectView, count: nat)
    requires
        bindings_fit(store, count),
        fits(value, count),
    ensures
        bindings_fit(bind(store, name, value), count),
{
    super::laws::position_finds(store, name, 0);
    let after = bind(store, name, value);
    assert forall|i: int| 0 <= i < after.len() implies fits((#[trigger] after[i]).1, count) by {
        match position(store, name, 0) {
            Some(at) => {
                if i != at {
                    assert(after[i] == store[i]);
                }
            },
            None => {
                if i < store.len() {
                    assert(after[i] == store[i]);
                }
            },
        }
    }
}

/// The bindings of parameters to arguments that fit fit.
pub proof fn bind_params_fits(
    store: Bindings,
    params: Seq<IdentView>,
    args: Seq<ObjectView>,
    i: int,
    count: nat,
)
    requires
        bindings_fit(store, count),
        all_fit(args, count),
    ensures
        bindings_fit(bind_params(store, params, args, i), count),
    decreases params.len() - i,
{
    if 0 <= i < params.len() && i < args.len() {
        bind_fits(store, params[i].label, args[i], count);
        bind_params_fits(bind(store, params[i].label, args[i]), params, args, i + 1, count);
    }
}

/// What a name is bound to in a sound state fits.
pub proof fn resolve_fits(state: StateView, at: nat, name: Seq<char>)
    requires
        sound(state),
    ensures
        match resolve(state.scopes, at, name) {
            Some(value) => fits(value, state.scopes.len()),
            None => true,
        },
    decreases at,
{
    if at < state.scopes.len() {
        let store = state.scopes[at as int].store;
        super::laws::position_finds(store, name, 0);
        match local(store, name) {
            Some(value) => {},
            None => match state.scopes[at as int].outer {
                Some(outer) => if outer < at {
                    resolve_fits(state, outer, name);
                },
                None => {},
            },
        }
    }
}

/// Binding a value that fits in the scope in use keeps a state sound.
pub proof fn define_keeps(state: StateView, name: Seq<char>, value: ObjectView)
    requires
        sound(state),
        fits(value, state.scopes.len()),
    ensures
        keeps(define(state, name, value), state),
{
    let after = define(state, name, value);
    bind_fits(state.scopes[state.current as int].store, name, value, state.scopes.len());
    assert forall|i: int| 0 <= i < after.scopes.len() implies bindings_fit(
        (#[trigger] after.scopes[i]).store,
        after.scopes.len(),
    ) && (after.scopes[i].outer matches Some(outer) ==> outer < i) by {
        if i != state.current {
            assert(after.scopes[i] == state.scopes[i]);
        }
    }
}

/// Setting a key of a hash map to values that fit keeps the map fitting.
pub proof fn set_key_fits(
    entries: Seq<(ObjectView, ObjectView)>,
    key: ObjectView,
    value: ObjectView,
    count: nat,
)
    requires
        fits(ObjectView::HashLiteral(entries), count),
        fits(key, count),
        fits(value, count),
    ensures
        fits(ObjectView::HashLiteral(set_key(entries, key, value)), count),
{
    super::laws::key_position_finds(entries, key, 0);
    let after = set_key(entries, key, value);
    hash_fits(ObjectView::HashLiteral(entries), count);
    hash_fits(ObjectView::HashLiteral(after), count);
    assert forall|i: int| 0 <= i < after.len() implies fits((#[trigger] after[i]).0, count)
        && fits(after[i].1, count) by {
        match key_position(entries, key, 0) {
            Some(at) => {
                if i != at {
                    assert(after[i] == entries[i]);
                }
            },
            None => {
                if i < entries.len() {
                    assert(after[i] == entries[i]);
                }
            },
        }
    }
}

/// The element of a collection that fits fits.
pub proof fn index_into_fits(collection: ObjectView, index: ObjectView, count: nat)
    requires
        fits(collection, count),
    ensures
        fits(index_into(collection, index), count),
{
    let element = index_into(collection, index);
    match collection {
        ObjectView::HashLiteral(entries) => {
            super::laws::key_position_finds(entries, index, 0);
            match key_position(entries, index, 0) {
                Some(i) => {
                    assert(fits(entries[i].1, count));
                },
                None => {},
            }
        },
        ObjectView::Array(items) => {
            if let ObjectView::Integer(i) = index {
                if 0 <= i < items.len() {
                    assert(fits(items[i as int], count));
                } else {
                    plain_fits(element, count);
                }
            } else {
                plain_fits(element, count);
            }
        },
        _ => {
            plain_fits(element, count);
        },
    }
}

/// Writing out the messages of errors changes nothing but what was
/// written out.
pub proof fn report_keeps(state: StateView, errors: Seq<crate::parser::errors::ParseErrorView>)
    requires
        sound(state),
    ensures
        keeps(StateView { output: report(state.output, errors, 0), ..state }, state),
{
}

/// A part of a list of values that fit fits.
pub proof fn part_fits(items: Seq<ObjectView>, from: int, to: int, count: nat)
    requires
        all_fit(items, count),
        0 <= from <= to <= items.len(),
    ensures
        fits(ObjectView::Array(items.subrange(from, to)), count),
{
    let part = items.subrange(from, to);
    assert forall|i: int| 0 <= i < part.len() implies fits(#[trigger] part[i], count) by {
        assert(fits(items[from + i], count));
    }
    array_fits(ObjectView::Array(part), count);
}

/// What the library gives for a value that fits, or for two, fits.
pub proof fn library_fits(function: BuiltinFunction, first: ObjectView, second: ObjectView, count: nat)
    requires
        fits(first, count),
        fits(second, count),
    ensures
        fits(super::model::lib_kind(first), count),
        fits(super::model::lib_len(first), count),
        fits(super::model::lib_first(first), count),
        fits(super::model::lib_last(first), count),
        fits(super::model::lib_chars(first), count),
        fits(super::model::lib_split(first, second), count),
        fits(super::model::lib_append(first, second), count),
        fits(super::model::lib_strip_start(first, second), count),
        fits(super::model::lib_strip_end(first, second), count),
{
    plain_fits(super::model::lib_kind(first), count);
    plain_fits(super::model::lib_len(first), count);
    match first {
        ObjectView::Array(items) => {
            array_fits(first, count);
            if items.len() > 0 {
                assert(fits(items[0], count));
                assert(fits(items[items.len() - 1], count));
            } else {
                plain_fits(super::model::lib_first(first), count);
                plain_fits(super::model::lib_last(first), count);
            }
            plain_fits(super::model::lib_chars(first), count);
            plain_fits(super::model::lib_split(first, second), count);
            match second {
                ObjectView::Array(more) => {
                    array_fits(second, count);
                    assert forall|i: int| 0 <= i < (items + more).len() implies fits(
                        #[trigger] (items + more)[i],
                        count,
                    ) by {
                        if i < items.len() {
                            assert(fits(items[i], count));
                        } else {
                            assert(fits(more[i - items.len()], count));
                        }
                    }
                    array_fits(ObjectView::Array(items + more), count);
                    if more.len() <= items.len() {
                        part_fits(items, more.len() as int, items.len() as int, count);
                        part_fits(items, 0, items.len() - more.len(), count);
                    }
                },
                _ => {
                    assert forall|i: int| 0 <= i < items.push(second).len() implies fits(
                        #[trigger] items.push(second)[i],
                        count,
                    ) by {
                        if i < items.len() {
                            assert(fits(items[i], count));
                        }
                    }
                    array_fits(ObjectView::Array(items.push(second)), count);
                    if let ObjectView::Integer(n) = second {
                        if 0 <= n <= items.len() {
                            part_fits(items, n as int, items.len() as int, count);
                            part_fits(items, 0, n as int, count);
                        } else {
                            plain_fits(super::model::lib_strip_start(first, second), count);
                            plain_fits(super::model::lib_strip_end(first, second), count);
                        }
                    } else {
                        plain_fits(super::model::lib_strip_start(first, second), count);
                        plain_fits(super::model::lib_strip_end(first, second), count);
                    }
                },
            }
        },
        ObjectView::Str(text) => {
            plain_fits(super::model::lib_first(first), count);
            plain_fits(super::model::lib_last(first), count);
            let letters = super::model::char_objects(text);
            assert forall|i: int| 0 <= i < letters.len() implies fits(
                #[trigger] letters[i],
                count,
            ) by {
                super::model::letter_is_a_character(text[i]);
                plain_fits(letters[i], count);
            }
            array_fits(super::model::lib_chars(first), count);
            plain_fits(super::model::lib_append(first, second), count);
            plain_fits(super::model::lib_strip_start(first, second), count);
            plain_fits(super::model::lib_strip_end(first, second), count);
            match second {
                ObjectView::Str(d) => {
                    strs_fit(super::model::split_text(text, d), count);
                },
                ObjectView::Char(c) => {
                    strs_fit(super::model::split_text(text, seq![c]), count);
                },
                _ => {
                    plain_fits(super::model::lib_split(first, second), count);
                },
            }
        },
        _ => {
            plain_fits(super::model::lib_first(first), count);
            plain_fits(super::model::lib_last(first), count);
            plain_fits(super::model::lib_chars(first), count);
            plain_fits(super::model::lib_split(first, second), count);
            plain_fits(super::model::lib_append(first, second), count);
            plain_fits(super::model::lib_strip_start(first, second), count);
            plain_fits(super::model::lib_strip_end(first, second), count);
        },
    }
}

/// Texts, as values, fit.
pub proof fn strs_fit(texts: Seq<Seq<char>>, count: nat)
    ensures
        fits(ObjectView::Array(super::model::str_objects(texts)), count),
{
    let all = super::model::str_objects(texts);
    assert forall|i: int| 0 <= i < all.len() implies fits(#[trigger] all[i], count) by {
        plain_fits(all[i], count);
    }
    array_fits(ObjectView::Array(all), count);
}

/// A library function that is called with arguments that fit, in a sound
/// state, gives a value that fits and keeps the state sound.
pub proof fn apply_builtin_keeps(function: BuiltinFunction, args: Seq<ObjectView>, state: StateView)
    requires
        sound(state),
        all_fit(args, state.scopes.len()),
    ensures
        keeps(apply_builtin(function, args, state).1, state),
        fits(apply_builtin(function, args, state).0, state.scopes.len()),
{
    let count = state.scopes.len();
    let value = apply_builtin(function, args, state).0;
    if args.len() == function.arity() {
        assert(fits(args[0], count));
        if function.arity() == 2 {
            assert(fits(args[1], count));
            library_fits(function, args[0], args[1], count);
        } else {
            library_fits(function, args[0], args[0], count);
        }
        match function {
            BuiltinFunction::Read => {
                plain_fits(value, count);
                if state.input.len() > 0 {
                    let read = lib_read(args[0], state.input[0]);
                    let rest = StateView { input: state.input.drop_first(), ..state };
                    plain_fits(read, count);
                    if !(read is Error) {
                        if let ObjectView::Str(name) = args[0] {
                            define_keeps(rest, name, read);
                        }
                    }
                }
            },
            BuiltinFunction::Write => {
                plain_fits(value, count);
            },
            _ => {},
        }
    } else {
        plain_fits(value, count);
    }
}

/// The value of an expression in a sound state fits, and the state stays
/// sound.
pub proof fn eval_expression_keeps(state: StateView, expr: ExpressionView, depth: nat)
    requires
        sound(state),
    ensures
        keeps(state.eval_expression(expr, depth).1, state),
        fits(
            state.eval_expression(expr, depth).0,
            state.eval_expression(expr, depth).1.scopes.len(),
        ),
    decreases 2 * depth, expr, 0nat,
{
    match expr {
        ExpressionView::Identifier(ident) => {
            resolve_fits(state, state.current, ident.label);
        },
        ExpressionView::Primitive(literal) => {},
        ExpressionView::Unary { operator, right } => {
            eval_expression_keeps(state, *right, depth);
        },
        ExpressionView::Binary { operator, left, right } => {
            eval_expression_keeps(state, *left, depth);
            let after_left = state.eval_expression(*left, depth).1;
            eval_expression_keeps(after_left, *right, depth);
        },
        ExpressionView::Conditional { cond, consequence, alternative } => {
            eval_expression_keeps(state, *cond, depth);
            let after = state.eval_expression(*cond, depth).1;
            eval_block_keeps(after, consequence, 0, ObjectView::Null, depth);
            match alternative {
                Some(alternative) => {
                    eval_block_keeps(after, alternative, 0, ObjectView::Null, depth);
                },
                None => {},
            }
        },
        ExpressionView::FunctionDef { name, params, body } => {},
        ExpressionView::FunctionCall { function, args } => {
            eval_expression_keeps(state, *function, depth);
            let (function, after) = state.eval_expression(*function, depth);
            eval_expressions_keep(after, args, 0, Seq::empty(), depth);
            let (args, ready) = after.eval_expressions(args, 0, Seq::empty(), depth);
            if !(function is Error) {
                match args {
                    Err(error) => {},
                    Ok(args) => {
                        fits_for_more(function, after.scopes.len(), ready.scopes.len());
                        match function {
                            ObjectView::Function { params, body, env } => {
                                if depth > 0 {
                                    call_keeps(ready, params, body, env, args, (depth - 1) as nat);
                                }
                            },
                            ObjectView::Builtin(builtin) => {
                                apply_builtin_keeps(builtin, args, ready);
                            },
                            _ => {},
                        }
                    },
                }
            }
        },
        ExpressionView::Array { elements } => {
            eval_expressions_keep(state, elements, 0, Seq::empty(), depth);
        },
        ExpressionView::ArrIndex { arr, index } => {
            eval_expression_keeps(state, *arr, depth);
            let (collection, after_arr) = state.eval_expression(*arr, depth);
            eval_expression_keeps(after_arr, *index, depth);
            let (index, after_index) = after_arr.eval_expression(*index, depth);
            fits_for_more(collection, after_arr.scopes.len(), after_index.scopes.len());
            index_into_fits(collection, index, after_index.scopes.len());
        },
        ExpressionView::HashMapLiteral { pairs } => {
            eval_pairs_keep(state, pairs, 0, Seq::empty(), depth);
        },
    }
}

/// The values of a list of expressions in a sound state fit, and the
/// state stays sound.
pub proof fn eval_expressions_keep(
    state: StateView,
    exprs: Seq<ExpressionView>,
    i: int,
    values: Seq<ObjectView>,
    depth: nat,
)
    requires
        sound(state),
        all_fit(values, state.scopes.len()),
    ensures
        keeps(state.eval_expressions(exprs, i, values, depth).1, state),
        match state.eval_expressions(exprs, i, values, depth).0 {
            Ok(all) => all_fit(
                all,
                state.eval_expressions(exprs, i, values, depth).1.scopes.len(),
            ),
            Err(error) => fits(
                error,
                state.eval_expressions(exprs, i, values, depth).1.scopes.len(),
            ),
        },
    decreases 2 * depth, exprs, exprs.len() - i,
{
    if 0 <= i < exprs.len() {
        eval_expression_keeps(state, exprs[i], depth);
        let (value, after) = state.eval_expression(exprs[i], depth);
        if !(value is Error) {
            all_fit_for_more(values, state.scopes.len(), after.scopes.len());
            assert forall|j: int| 0 <= j < values.push(value).len() implies fits(
                #[trigger] values.push(value)[j],
                after.scopes.len(),
            ) by {
                if j < values.len() {
                    assert(fits(values[j], after.scopes.len()));
                }
            }
            eval_expressions_keep(after, exprs, i + 1, values.push(value), depth);
        }
    }
}

/// The hash map of a literal in a sound state fits, and the state stays
/// sound.
pub proof fn eval_pairs_keep(
    state: StateView,
    pairs: Seq<(ExpressionView, ExpressionView)>,
    i: int,
    entries: Seq<(ObjectView, ObjectView)>,
    depth: nat,
)
    requires
        sound(state),
        fits(ObjectView::HashLiteral(entries), state.scopes.len()),
    ensures
        keeps(state.eval_pairs(pairs, i, entries, depth).1, state),
        fits(
            state.eval_pairs(pairs, i, entries, depth).0,
            state.eval_pairs(pairs, i, entries, depth).1.scopes.len(),
        ),
    decreases 2 * depth, pairs, pairs.len() - i,
{
    if 0 <= i < pairs.len() {
        eval_expression_keeps(state, pairs[i].0, depth);
        let (key, after_key) = state.eval_expression(pairs[i].0, depth);
        eval_expression_keeps(after_key, pairs[i].1, depth);
        let (value, after_value) = after_key.eval_expression(pairs[i].1, depth);
        if !(key is Error) && key.hashable() && !(value is Error) {
            fits_for_more(
                ObjectView::HashLiteral(entries),
                state.scopes.len(),
                after_value.scopes.len(),
            );
            fits_for_more(key, after_key.scopes.len(), after_value.scopes.len());
            set_key_fits(entries, key, value, after_value.scopes.len());
            eval_pairs_keep(after_value, pairs, i + 1, set_key(entries, key, value), depth);
        }
    }
}

/// The value of a statement in a sound state fits, and the state stays
/// sound.
pub proof fn eval_statement_keeps(state: StateView, stmt: StatementView, depth: nat)
    requires
        sound(state),
    ensures
        keeps(state.eval_statement(stmt, depth).1, state),
        fits(
            state.eval_statement(stmt, depth).0,
            state.eval_statement(stmt, depth).1.scopes.len(),
        ),
    decreases 2 * depth, stmt, 0nat,
{
    match stmt {
        StatementView::Assignment { name, val } => {
            eval_expression_keeps(state, val, depth);
            let (value, after) = state.eval_expression(val, depth);
            if !(value is Error) {
                define_keeps(after, name.label, value);
            }
        },
        StatementView::Return(returnable) => {
            eval_expression_keeps(state, returnable, depth);
        },
        StatementView::Expression(expr) => {
            eval_expression_keeps(state, expr, depth);
        },
        StatementView::Source(path) => {
            match super::model::source_text(state.sources, path) {
                Some(code) => {
                    if depth > 0 {
                        run_source_keeps(state, code, (depth - 1) as nat);
                    }
                },
                None => {},
            }
        },
    }
}

/// The value of a block in a sound state fits, and the state stays sound.
pub proof fn eval_block_keeps(
    state: StateView,
    stmts: Seq<StatementView>,
    i: int,
    last: ObjectView,
    depth: nat,
)
    requires
        sound(state),
        fits(last, state.scopes.len()),
    ensures
        keeps(state.eval_block(stmts, i, last, depth).1, state),
        fits(
            state.eval_block(stmts, i, last, depth).0,
            state.eval_block(stmts, i, last, depth).1.scopes.len(),
        ),
    decreases 2 * depth, stmts, stmts.len() - i,
{
    if 0 <= i < stmts.len() {
        eval_statement_keeps(state, stmts[i], depth);
        let (value, after) = state.eval_statement(stmts[i], depth);
        if !(value is Error || value is Return) {
            eval_block_keeps(after, stmts, i + 1, value, depth);
        }
    }
}

/// The value of a program in a sound state fits, and the state stays
/// sound.
pub proof fn eval_program_keeps(
    state: StateView,
    stmts: Seq<StatementView>,
    i: int,
    last: ObjectView,
    depth: nat,
)
    requires
        sound(state),
        fits(last, state.scopes.len()),
    ensures
        keeps(state.eval_program(stmts, i, last, depth).1, state),
        fits(
            state.eval_program(stmts, i, last, depth).0,
            state.eval_program(stmts, i, last, depth).1.scopes.len(),
        ),
    decreases 2 * depth, stmts, stmts.len() - i,
{
    if 0 <= i < stmts.len() {
        eval_statement_keeps(state, stmts[i], depth);
        let (value, after) = state.eval_statement(stmts[i], depth);
        eval_program_keeps(after, stmts, i + 1, value, depth);
    }
}

/// The call of a function value that fits, with arguments that fit, in a
/// sound state: the scope of the function exists, the value of the call
/// fits, and the state stays sound.
pub proof fn call_keeps(
    state: StateView,
    params: Seq<IdentView>,
    body: Seq<StatementView>,
    env: nat,
    args: Seq<ObjectView>,
    depth: nat,
)
    requires
        sound(state),
        env < state.scopes.len(),
        all_fit(args, state.scopes.len()),
    ensures
        keeps(state.call(params, body, env, args, depth).1, state),
        fits(
            state.call(params, body, env, args, depth).0,
            state.call(params, body, env, args, depth).1.scopes.len(),
        ),
    decreases 2 * depth + 1,
{
    let count = state.scopes.len();
    let scope = ScopeView { store: bind_params(Seq::empty(), params, args, 0), outer: Some(env) };
    let entered = StateView { scopes: state.scopes.push(scope), current: count, ..state };
    all_fit_for_more(args, count, count + 1);
    bind_params_fits(Seq::empty(), params, args, 0, count + 1);
    assert forall|i: int| 0 <= i < entered.scopes.len() implies bindings_fit(
        (#[trigger] entered.scopes[i]).store,
        entered.scopes.len(),
    ) && (entered.scopes[i].outer matches Some(outer) ==> outer < i) by {
        if i < count {
            assert(entered.scopes[i] == state.scopes[i]);
            bindings_fit_for_more(state.scopes[i].store, count, count + 1);
        }
    }
    eval_block_keeps(entered, body, 0, ObjectView::Null, depth);
}

/// The inclusion of a source in a sound state gives a value that fits and
/// keeps the state sound.
pub proof fn run_source_keeps(state: StateView, code: Seq<char>, depth: nat)
    requires
        sound(state),
    ensures
        keeps(state.run_source(code, depth).1, state),
        fits(state.run_source(code, depth).0, state.run_source(code, depth).1.scopes.len()),
    decreases 2 * depth + 1,
{
    let (stmts, parser) = super::model::parsed(code);
    let reported = StateView { output: report(state.output, parser.errors, 0), ..state };
    report_keeps(state, parser.errors);
    eval_program_keeps(reported, stmts, 0, ObjectView::Null, depth);
}

/// A call of a function value that an evaluation gave, in the state in
/// which it was given or a later one, always finds its scope: from a
/// state that starts sound, no call ever fails for want of the scope that
/// the function was defined in.
pub proof fn functions_keep_their_scopes(
    state: StateView,
    expr: ExpressionView,
    depth: nat,
    later: StateView,
)
    requires
        sound(state),
        state.eval_expression(expr, depth).0 is Function,
        state.eval_expression(expr, depth).1.scopes.len() <= later.scopes.len(),
    ensures
        state.eval_expression(expr, depth).0->Function_env < later.scopes.len(),
{
    eval_expression_keeps(state, expr, depth);
}

/// The state of an evaluator that has evaluated nothing is sound.
pub proof fn fresh_is_sound()
    ensures
        sound(super::Eval::fresh()),
{
    let state = super::Eval::fresh();
    assert forall|i: int| 0 <= i < state.scopes.len() implies bindings_fit(
        (#[trigger] state.scopes[i]).store,
        state.scopes.len(),
    ) && (state.scopes[i].outer matches Some(outer) ==> outer < i) by {
        assert(state.scopes[i].store.len() == 0);
    }
}

} // verus!
