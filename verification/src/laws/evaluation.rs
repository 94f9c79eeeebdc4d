//! What evaluation returns, how pointers evaluate, and how budgets end an
//! evaluation that does not end by itself.
use vstd::prelude::*;
use crate::model::{
    CallV, ErrV, FnV, ImplKindV, ImplV, key, KindV, reference, TraceV, Val, zid,
};
use crate::semantics::{
    CallOrTypeV, check_identity, collect_args, dispatch, Env, eval, eval_args, eval_call,
    get_reference, last_of_kind, parse_call, parse_function, parse_implementation,
    parse_implementations, parse_typed_list, pick_implementation, refine, stated_type, substitute,
};
use crate::key_index::KeyIndex;
use crate::laws::records::lemma_position_is;
use crate::semantics::substitute_entries;
use crate::zid::Zid;

verus! {
/// A pointer to an object of the store evaluates to what the object
/// evaluates to; where the object fails, the pointer fails in the same way,
/// with the pointer as the outermost step of the trace.
pub proof fn lemma_reference_round_trip(z: Zid, env: Env)
    requires
        env.store.contains_key(z),
        env.steps > 0,
    ensures
        match eval(env.store[z], env.step()) {
            Ok(r) => eval(Val::Reference(z), env) == Ok::<Val, (ErrV, Val)>(r),
            Err((e, _)) => eval(Val::Reference(z), env) == Err::<Val, (ErrV, Val)>(
                (e.inside_reference_to(z), Val::Reference(z)),
            ),
        },
{
}

/// A pointer to an object that is in its evaluated shape evaluates, with
/// any budget that has a step, to that object: to what the object itself
/// evaluates to with the same budget.
pub proof fn lemma_reference_to_evaluated(z: Zid, env: Env)
    requires
        env.store.contains_key(z),
        evaluated(env.store[z]),
        env.steps > 0,
    ensures
        eval(Val::Reference(z), env) == eval(env.store[z], env),
        eval(Val::Reference(z), env) == Ok::<Val, (ErrV, Val)>(env.store[z]),
{
    let o = env.store[z];
    assert(eval(o, env.step()) == Ok::<Val, (ErrV, Val)>(o));
    assert(eval(o, env) == Ok::<Val, (ErrV, Val)>(o));
}

/// A pointer to an object that the store lacks fails with
/// `MissingPersistentObject`.
pub proof fn lemma_missing_object(z: Zid, env: Env)
    requires
        !env.store.contains_key(z),
        env.steps > 0,
    ensures
        eval(Val::Reference(z), env) == Err::<Val, (ErrV, Val)>(
            (ErrV::of(KindV::MissingPersistentObject(z)), Val::Reference(z)),
        ),
{
}

/// A final value evaluates to itself, whatever the budget.
pub proof fn lemma_final_evaluates_to_itself(v: Val, env: Env)
    requires
        v.is_final(),
    ensures
        eval(v, env) == Ok::<Val, (ErrV, Val)>(v),
{
}


/// The value is in one of the shapes that evaluation ends in: it is no
/// pointer, no raw record, no call and no placeholder, and if it is a list,
/// the type of its elements was refined.
pub open spec fn evaluated(v: Val) -> bool {
    match v {
        Val::Reference(_) => false,
        Val::Untyped(_) => false,
        Val::FunctionCall(_) => false,
        Val::Invalid(_) => false,
        Val::TypedList(l) => l.elem_type is Valid,
        _ => true,
    }
}

proof fn lemma_dispatch_shape(function: Zid, c: CallV, env: Env)
    ensures
        dispatch(function, c, env) matches Ok(r) ==> evaluated(r),
    decreases env.steps, 2nat,
{
    if env.steps > 0 {
        let inner = env.step();
        match eval_args(c, inner, 0, Seq::empty()) {
            Err(_) => {},
            Ok(a) => {
                if function == zid(802) && a.len() == 3 {
                    lemma_arguments_evaluated_one_by_one(c, inner);
                    lemma_eval_shape(c.args[1], inner);
                    lemma_eval_shape(c.args[2], inner);
                } else if function == zid(811) && a.len() == 1 {
                    match parse_typed_list(a[0]) {
                        Ok(l) => {
                            if l.entries.len() > 0 && inner.steps > 0 {
                                lemma_eval_shape(l.entries[0], inner.step());
                            }
                        },
                        Err(_) => {},
                    }
                } else {
                }
            },
        }
    }
}

proof fn lemma_eval_call_shape(c: CallV, env: Env)
    ensures
        eval_call(c, env) matches Ok(r) ==> evaluated(r),
    decreases env.steps, 3nat,
{
    if env.depth > 0 && env.steps > 0 {
        match pick_implementation(c.function, env.call()) {
            Err(_) => {},
            Ok(imp) => match imp.kind {
                ImplKindV::Composition(body) => match substitute(body, c.args) {
                    Err(_) => {},
                    Ok(sub) => lemma_eval_shape(sub, env.call()),
                },
                ImplKindV::Code(_) => {},
                ImplKindV::Builtin(_) => lemma_dispatch_shape(c.function.identity, c, env.call()),
            },
        }
    }
}

proof fn lemma_refine_shape(v: Val, env: Env)
    requires
        v is Untyped,
    ensures
        refine(v, env, true) matches Ok(r) ==> evaluated(r),
    decreases env.steps, 4nat,
{
    if v.get(key(1, 1)) is Some && env.steps > 0 {
        match parse_call(v, env.step(), None) {
            Ok(CallOrTypeV::Call(c)) => lemma_eval_call_shape(c, env.step()),
            _ => {},
        }
    }
}

/// Evaluation ends in a refined shape: what it returns is no pointer, no
/// raw record, no call and no placeholder, and a list that it returns has
/// a refined element type.
pub proof fn lemma_eval_shape(v: Val, env: Env)
    ensures
        eval(v, env) matches Ok(r) ==> evaluated(r),
    decreases env.steps, 5nat,
{
    match v {
        Val::Reference(z) => {
            if env.steps > 0 && env.store.contains_key(z) {
                lemma_eval_shape(env.store[z], env.step());
            }
        },
        Val::Untyped(_) => {
            if env.steps > 0 {
                lemma_refine_shape(v, env.step());
            }
        },
        Val::FunctionCall(c) => {
            if env.steps > 0 {
                lemma_eval_call_shape(*c, env.step());
            }
        },
        _ => {},
    }
}

/// What a builtin returns needs no further evaluation: the evaluator may
/// drive it on with any budget and gets the same value.
pub proof fn lemma_builtin_result_is_final(function: Zid, c: CallV, env: Env, any: Env)
    ensures
        dispatch(function, c, env) matches Ok(r) ==> evaluated(r) && eval(r, any) == Ok::<
            Val,
            (ErrV, Val),
        >(r),
{
    lemma_dispatch_shape(function, c, env);
}

/// A value in its evaluated shape evaluates to itself, whatever the
/// budget.
pub proof fn lemma_evaluated_is_stable(v: Val, env: Env)
    requires
        evaluated(v),
    ensures
        eval(v, env) == Ok::<Val, (ErrV, Val)>(v),
{
}

/// Among evaluated values the keys tell a final value from one that is not
/// final.
pub proof fn lemma_keys_tell_final(a: Val, b: Val)
    requires
        evaluated(a),
        evaluated(b),
        a.is_final(),
        !b.is_final(),
    ensures
        a.keys() != b.keys(),
{
    let ka = a.keys();
    let kb = b.keys();
    match a {
        Val::Type(t) => {
            let s = t->Standard_0;
            assert(ka == s.keys());
            assert(ka.len() >= 4);
            assert(ka[1] == key(4, 1));
        },
        _ => {
            assert(ka.len() == 2);
        },
    }
    match b {
        Val::Type(_) => {
            assert(kb[1] == key(7, 1));
        },
        Val::Function(_) => {
            assert(kb[1] == key(8, 1));
        },
        Val::Implementation(_) => {
            assert(kb[1] == key(14, 1));
        },
        Val::TestCase(_) => {
            assert(kb[1] == key(20, 1));
        },
        Val::TypedList(l) => {
            if l.entries.len() > 0 {
                assert(kb[1] == key(0, 1));
            } else {
                assert(kb.len() == 1);
            }
        },
        _ => {},
    }
    match a {
        Val::Boolean(_) => assert(ka[1] == key(40, 1)),
        Val::Text(_) => assert(ka[1] == key(6, 1)),
        Val::ArgumentReference(_) => assert(ka[1] == key(18, 1)),
        _ => {},
    }
}


/// A function whose one implementation is the composition `body`.
pub open spec fn is_composition(f: FnV, body: Val) -> bool {
    &&& f.implementations.entries.len() == 1
    &&& f.implementations.entries[0] matches Val::Implementation(i)
    &&& i.kind == ImplKindV::Composition(body)
}

/// A function whose one implementation is a composition is reduced by it,
/// whatever the budget, as long as a step is left.
pub proof fn lemma_pick_composition(f: FnV, body: Val, env: Env)
    requires
        is_composition(f, body),
        env.steps > 0,
    ensures
        pick_implementation(f, env) is Ok,
        pick_implementation(f, env)->Ok_0.kind == ImplKindV::Composition(body),
{
    let inner = env.step();
    let items = f.implementations.entries;
    let imp = *(items[0]->Implementation_0);
    let acc = Seq::<ImplV>::empty().push(imp);
    assert(eval(items[0], inner) == Ok::<Val, (ErrV, Val)>(items[0]));
    assert(parse_implementation(items[0], inner) == Ok::<ImplV, (ErrV, Val)>(imp));
    assert(parse_implementations(items, inner, 1, acc) == Ok::<Seq<ImplV>, ErrV>(acc));
    assert(parse_implementations(items, inner, 0, Seq::empty()) == Ok::<Seq<ImplV>, ErrV>(acc));
    assert(acc.len() == 1 && acc[0] == imp);
    assert(last_of_kind(acc, 0, 0) is None);
    assert(last_of_kind(acc, 1, 0) is None);
    assert(last_of_kind(acc, 1, 1) == Some(imp));
}

/// The environment after `k` steps.
pub open spec fn after(env: Env, k: nat) -> Env {
    Env { store: env.store, depth: env.depth, steps: (env.steps - k) as nat }
}

/// In the given store the value reduces to the call `c`: with `m` steps or
/// more its evaluation is the reduction of `c` with `k` steps less, and
/// with fewer steps it fails on the budget.
pub open spec fn reduces_to_call_in(v: Val, c: CallV, k: nat, m: nat, store: Map<Zid, Val>) -> bool {
    &&& 1 <= k <= m
    &&& forall|e: Env|
        e.store == store ==> if e.steps >= m {
            #[trigger] eval(v, e) == eval_call(c, after(e, k))
        } else {
            eval(v, e) is Err && eval(v, e)->Err_0.0.is_budget()
        }
}

/// The trace of an error that came out of `n` reductions of `function`.
pub open spec fn reductions(function: Zid, n: nat) -> Seq<TraceV> {
    Seq::new(n, |i: int| TraceV::Substituted(function))
}

proof fn lemma_record_evaluates_to_call(v: Val, z: Zid, c: CallV, e: Env)
    requires
        v is Untyped,
        v.get(key(1, 1)) == Some(reference(7)),
        v.get(key(7, 1)) == Some(Val::Reference(z)),
        z != zid(881),
        e.store.contains_key(z),
        e.store[z] == Val::Function(Box::new(c.function)),
        c.function.arguments.len() < u32::MAX,
        collect_args(
            v,
            c.function.identity,
            c.function.arguments.len(),
            None,
            0,
            Seq::empty(),
        ) == Ok::<Seq<Val>, ErrV>(c.args),
    ensures
        if e.steps >= 4 {
            eval(v, e) == eval_call(c, after(e, 2))
        } else {
            eval(v, e) is Err && eval(v, e)->Err_0.0.is_budget()
        },
{
    if e.steps == 0 {
    } else {
        let e1 = e.step();
        assert(eval(v, e) == refine(v, e1, true));
        if e1.steps == 0 {
        } else {
            let e2 = e1.step();
            assert(stated_type(reference(7), e2) == Ok::<Zid, ErrV>(zid(7)));
            if e2.steps == 0 {
                assert(parse_call(v, e2, None) is Err);
                assert(parse_call(v, e2, None)->Err_0.0.is_budget());
            } else {
                let inner = e2.step();
                if inner.steps == 0 {
                    assert(check_identity(reference(7), zid(7), inner) is Err);
                    assert(parse_call(v, e2, None) is Err);
                    assert(parse_call(v, e2, None)->Err_0.0.kind is StepBudgetExceeded);
                } else {
                    assert(get_reference(reference(7), inner.step()) == Ok::<
                        (Zid, Val),
                        (ErrV, Val),
                    >((zid(7), reference(7))));
                    assert(check_identity(reference(7), zid(7), inner) is Ok);
                    let f = Val::Function(Box::new(c.function));
                    assert(eval(f, inner.step()) == Ok::<Val, (ErrV, Val)>(f));
                    assert(eval(Val::Reference(z), inner) == Ok::<Val, (ErrV, Val)>(f));
                    assert(parse_function(f, inner) == Ok::<FnV, (ErrV, Val)>(c.function));
                    assert(c == CallV { function: c.function, args: c.args });
                    assert(parse_call(v, e2, None) == Ok::<CallOrTypeV, (ErrV, Val)>(
                        CallOrTypeV::Call(c),
                    ));
                    assert(after(e, 2) == e2);
                }
            }
        }
    }
}

/// A raw record that is a call of a function of the store reduces to that
/// call: the record states the type `Z7`, holds a pointer to the function
/// under `Z7K1`, and holds the arguments of the call under their keys.
pub proof fn lemma_record_reduces_to_call(v: Val, z: Zid, c: CallV, store: Map<Zid, Val>)
    requires
        v is Untyped,
        v.get(key(1, 1)) == Some(reference(7)),
        v.get(key(7, 1)) == Some(Val::Reference(z)),
        z != zid(881),
        store.contains_key(z),
        store[z] == Val::Function(Box::new(c.function)),
        c.function.arguments.len() < u32::MAX,
        collect_args(
            v,
            c.function.identity,
            c.function.arguments.len(),
            None,
            0,
            Seq::empty(),
        ) == Ok::<Seq<Val>, ErrV>(c.args),
    ensures
        reduces_to_call_in(v, c, 2, 4, store),
{
    assert forall|e: Env| e.store == store implies if e.steps >= 4 {
        #[trigger] eval(v, e) == eval_call(c, after(e, 2))
    } else {
        eval(v, e) is Err && eval(v, e)->Err_0.0.is_budget()
    } by {
        lemma_record_evaluates_to_call(v, z, c, e);
    }
}

/// Budget termination.  A call of a function whose composition, with the
/// arguments of the call in place, reduces to that call again fails on a
/// budget, whatever the budget is: it neither returns nor runs on.
pub proof fn lemma_self_reduction_fails(c: CallV, body: Val, k: nat, m: nat, env: Env)
    requires
        is_composition(c.function, body),
        substitute(body, c.args) is Ok,
        reduces_to_call_in(substitute(body, c.args)->Ok_0, c, k, m, env.store),
    ensures
        eval_call(c, env) is Err,
        eval_call(c, env)->Err_0.0.is_budget(),
    decreases env.steps,
{
    if env.depth == 0 {
    } else if env.steps == 0 {
    } else {
        let inner = env.call();
        if inner.steps == 0 {
        } else {
            lemma_pick_composition(c.function, body, inner);
            let sub = substitute(body, c.args)->Ok_0;
            if inner.steps >= m {
                assert(eval(sub, inner) == eval_call(c, after(inner, k)));
                lemma_self_reduction_fails(c, body, k, m, after(inner, k));
            } else {
                assert(eval(sub, inner) is Err);
            }
        }
    }
}

/// The recursion guard.  Where the steps allow the depth to run out
/// first, such a call fails with `RecursedTooDeep`, after as many
/// reductions as the depth allowed: the trace names the function once for
/// each.
pub proof fn lemma_recursion_guard(c: CallV, body: Val, k: nat, m: nat, env: Env)
    requires
        is_composition(c.function, body),
        substitute(body, c.args) is Ok,
        reduces_to_call_in(substitute(body, c.args)->Ok_0, c, k, m, env.store),
        env.steps >= (k + 1) * env.depth + m,
    ensures
        eval_call(c, env) is Err,
        eval_call(c, env)->Err_0.0.kind is RecursedTooDeep,
        eval_call(c, env)->Err_0.0.trace == reductions(c.function.identity, env.depth),
    decreases env.depth,
{
    let function = c.function.identity;
    if env.depth == 0 {
        assert(eval_call(c, env)->Err_0.0.trace =~= reductions(function, 0));
    } else {
        let d = env.depth;
        assert((k + 1) * d == (k + 1) * (d - 1) + (k + 1)) by (nonlinear_arith)
            requires
                d >= 1,
        ;
        assert((k + 1) * (d - 1) >= 0) by (nonlinear_arith)
            requires
                d >= 1,
        ;
        let inner = env.call();
        lemma_pick_composition(c.function, body, inner);
        let sub = substitute(body, c.args)->Ok_0;
        let next = after(inner, k);
        assert(eval(sub, inner) == eval_call(c, next));
        lemma_recursion_guard(c, body, k, m, next);
        let e0 = eval_call(c, next)->Err_0.0;
        let e = e0.traced(TraceV::Substituted(function));
        assert(eval_call(c, env)->Err_0.0 == e);
        assert(e.trace =~= reductions(function, d));
    }
}

/// The recursion guard at the entry of an evaluation.  A raw record that
/// reduces to such a call fails with `RecursedTooDeep` after as many
/// reductions as the depth allows.
pub proof fn lemma_recursion_guard_of(v: Val, c: CallV, body: Val, k: nat, m: nat, env: Env)
    requires
        is_composition(c.function, body),
        substitute(body, c.args) is Ok,
        reduces_to_call_in(substitute(body, c.args)->Ok_0, c, k, m, env.store),
        reduces_to_call_in(v, c, k, m, env.store),
        env.steps >= (k + 1) * env.depth + m + k,
    ensures
        eval(v, env) is Err,
        eval(v, env)->Err_0.0.kind is RecursedTooDeep,
        eval(v, env)->Err_0.0.trace == reductions(c.function.identity, env.depth),
{
    let d = env.depth;
    assert((k + 1) * d >= 0) by (nonlinear_arith);
    assert(eval(v, env) == eval_call(c, after(env, k)));
    lemma_recursion_guard(c, body, k, m, after(env, k));
}

/// The body of a function that calls itself: the raw record of a call of
/// the function `Z<z>` on its own first argument.
pub open spec fn self_call_body(z: u32) -> Val {
    self_call_record(z, Val::ArgumentReference(key(0, 1)))
}

/// The raw record of a call of the function `Z<z>` on `a`.
pub open spec fn self_call_record(z: u32, a: Val) -> Val {
    Val::Untyped(seq![(key(1, 1), reference(7)), (key(7, 1), reference(z)), (key(z, 1), a)])
}

proof fn lemma_self_call_record_holds(z: u32, a: Val)
    requires
        z > 7,
    ensures
        self_call_record(z, a).get(key(1, 1)) == Some(reference(7)),
        self_call_record(z, a).get(key(7, 1)) == Some(reference(z)),
        self_call_record(z, a).get(key(z, 1)) == Some(a),
{
    let e = self_call_record(z, a)->Untyped_0;
    assert(e.len() == 3);
    assert(e[0] == (key(1, 1), reference(7)));
    assert(e[1] == (key(7, 1), reference(z)));
    assert(e[2] == (key(z, 1), a));
    lemma_position_is(e, key(1, 1), 0);
    lemma_position_is(e, key(7, 1), 1);
    lemma_position_is(e, key(z, 1), 2);
}

proof fn lemma_self_call_body_substituted(z: u32, c: CallV, a: Val)
    requires
        c.args == seq![a],
    ensures
        substitute(self_call_body(z), c.args) == Ok::<Val, ErrV>(self_call_record(z, a)),
{
    let body = self_call_body(z);
    let e = body->Untyped_0;
    let args = c.args;
    assert(e.len() == 3);
    assert(e[0] == (key(1, 1), reference(7)));
    assert(e[1] == (key(7, 1), reference(z)));
    assert(e[2] == (key(z, 1), Val::ArgumentReference(key(0, 1))));
    assert(args.len() == 1 && args[0] == a);
    let a0 = Seq::<(KeyIndex, Val)>::empty();
    let a1 = a0.push((key(1, 1), reference(7)));
    let a2 = a1.push((key(7, 1), reference(z)));
    let a3 = a2.push((key(z, 1), a));
    assert(substitute(e[2].1, args) == Ok::<Val, ErrV>(a));
    assert(substitute_entries(e, args, 3, a3) == Ok::<Seq<(KeyIndex, Val)>, ErrV>(a3));
    assert(substitute_entries(e, args, 2, a2) == substitute_entries(e, args, 3, a3));
    assert(substitute(e[1].1, args) == Ok::<Val, ErrV>(reference(z)));
    assert(substitute_entries(e, args, 1, a1) == substitute_entries(e, args, 2, a2));
    assert(substitute(e[0].1, args) == Ok::<Val, ErrV>(reference(7)));
    assert(substitute_entries(e, args, 0, a0) == substitute_entries(e, args, 1, a1));
    assert(a3 =~= self_call_record(z, a)->Untyped_0);
}

/// The recursion guard, of the function that calls itself.  In a store
/// that holds under `Z<z>` a function of one argument whose one
/// implementation is the composition "call `Z<z>` on my argument", a call
/// of that function fails with `RecursedTooDeep`, whatever the argument,
/// after as many reductions as the depth allows, provided the steps allow
/// the depth to run out first.
pub proof fn lemma_self_calling_function_fails(f: FnV, z: u32, a: Val, env: Env)
    requires
        z > 7,
        z != 881,
        f.identity == zid(z),
        f.arguments.len() == 1,
        is_composition(f, self_call_body(z)),
        env.store.contains_key(zid(z)),
        env.store[zid(z)] == Val::Function(Box::new(f)),
        env.steps >= 3 * env.depth + 6,
    ensures
        eval(self_call_record(z, a), env) is Err,
        eval(self_call_record(z, a), env)->Err_0.0.kind is RecursedTooDeep,
        eval(self_call_record(z, a), env)->Err_0.0.trace == reductions(zid(z), env.depth),
{
    let c = CallV { function: f, args: seq![a] };
    let v = self_call_record(z, a);
    let body = self_call_body(z);
    lemma_self_call_record_holds(z, a);
    lemma_self_call_body_substituted(z, c, a);
    assert(zid(z).key(1u32) == key(z, 1));
    let got = Seq::<Val>::empty().push(a);
    assert(collect_args(v, zid(z), 1, None, 1, got) == Ok::<Seq<Val>, ErrV>(got));
    assert(collect_args(v, zid(z), 1, None, 0, Seq::empty()) == Ok::<Seq<Val>, ErrV>(got));
    assert(got =~= c.args);
    lemma_record_reduces_to_call(v, zid(z), c, env.store);
    lemma_recursion_guard_of(v, c, body, 2, 4, env);
}

proof fn lemma_arguments_each(c: CallV, env: Env, i: int, acc: Seq<Val>)
    requires
        0 <= i <= c.args.len(),
        acc.len() == i,
        forall|j: int|
            0 <= j < i ==> eval(c.args[j], env) == Ok::<Val, (ErrV, Val)>(#[trigger] acc[j]),
    ensures
        match eval_args(c, env, i, acc) {
            Ok(r) => r.len() == c.args.len() && forall|j: int|
                0 <= j < c.args.len() ==> eval(c.args[j], env) == Ok::<Val, (ErrV, Val)>(
                    #[trigger] r[j],
                ),
            Err(e) => exists|j: int|
                i <= j < c.args.len() && (#[trigger] eval(c.args[j], env) is Err) && e == eval(
                    c.args[j],
                    env,
                )->Err_0.0.inside_key(c.arg_key(j)),
        },
    decreases c.args.len() - i,
{
    if i >= c.args.len() {
    } else {
        match eval(c.args[i], env) {
            Err(_) => {},
            Ok(r) => {
                lemma_arguments_each(c, env, i + 1, acc.push(r));
            },
        }
    }
}

/// The arguments of a builtin call are evaluated one by one: the outcome
/// holds what each argument evaluates to, and where an argument fails, the
/// error is the error of an argument with its key added.
pub proof fn lemma_arguments_evaluated_one_by_one(c: CallV, env: Env)
    ensures
        match eval_args(c, env, 0, Seq::empty()) {
            Ok(r) => r.len() == c.args.len() && forall|j: int|
                0 <= j < c.args.len() ==> eval(c.args[j], env) == Ok::<Val, (ErrV, Val)>(
                    #[trigger] r[j],
                ),
            Err(e) => exists|j: int|
                0 <= j < c.args.len() && (#[trigger] eval(c.args[j], env) is Err) && e == eval(
                    c.args[j],
                    env,
                )->Err_0.0.inside_key(c.arg_key(j)),
        },
{
    lemma_arguments_each(c, env, 0, Seq::empty());
}

} // verus!
