//! Replay arrives where the evaluation failed.
//!
//! An error that arose inside a value carries the steps that lead to the
//! place.  For the steps that the evaluator itself takes into a value,
//! through a pointer, into the body of a composition and into an argument
//! of a builtin, the laws here show that the replay of the trace takes the
//! same steps back: it arrives where the replay of the inner error
//! arrives, and an error without a trace arose at the value itself.  A step
//! that a check of a record added names a key of the record; what stands
//! under the key need not fail by itself, so no such law holds of it.
use vstd::prelude::*;
use crate::key_index::KeyIndex;
use crate::laws::evaluation::{after, is_composition, lemma_pick_composition};
use crate::model::{CallV, ErrV, key, TestV, TraceV, Val, zid};
use crate::replay::{Move, replay, replay_from, replay_step, ReplayV, StepV};
use crate::semantics::{
    CallOrTypeV, collect_args, dispatch, Env, eval, eval_args, eval_call, parse_call,
    parse_test_case, patched_validation_call, pick_implementation, refine, run_test, stated_type,
    substitute,
};
use crate::zid::Zid;

verus! {

/// Two walks arrive at the same value, both at the end of their trace or
/// both before it.
pub open spec fn arrives_as(a: ReplayV, b: ReplayV) -> bool {
    a.root == b.root && a.complete == b.complete
}

proof fn lemma_replay_prefix(
    current: Val,
    t1: Seq<TraceV>,
    t2: Seq<TraceV>,
    n: int,
    env: Env,
    acc1: Seq<StepV>,
    acc2: Seq<StepV>,
)
    requires
        0 <= n <= t1.len(),
        n <= t2.len(),
        forall|j: int| 0 <= j < n ==> t1[j] == t2[j],
    ensures
        replay_from(current, t1, n, env, acc1).root == replay_from(current, t2, n, env, acc2).root,
        replay_from(current, t1, n, env, acc1).complete == replay_from(
            current,
            t2,
            n,
            env,
            acc2,
        ).complete,
    decreases n,
{
    if n > 0 {
        match replay_step(current, t1[n - 1], env) {
            Move::Stuck => {},
            Move::Skipped => lemma_replay_prefix(current, t1, t2, n - 1, env, acc1, acc2),
            Move::Applied(step, next) => lemma_replay_prefix(
                next,
                t1,
                t2,
                n - 1,
                env,
                acc1.push(step),
                acc2.push(step),
            ),
        }
    }
}

/// An error without a trace arose at the value itself: its replay stays
/// there.
pub proof fn lemma_replay_of_untraced(v: Val, e: ErrV, at: Env)
    requires
        e.trace.len() == 0,
    ensures
        replay(v, e, at).root == v,
        replay(v, e, at).full_trace.len() == 0,
        replay(v, e, at).complete,
{
}

/// Replay is faithful through a pointer.  Where the object of a pointer
/// fails, the pointer fails with an error of the same kind whose trace
/// ends with the pointer, and its replay arrives where the replay of the
/// object's error arrives.
pub proof fn lemma_replay_through_pointer(z: Zid, env: Env, at: Env)
    requires
        env.store.contains_key(z),
        env.steps > 0,
        at.store == env.store,
        eval(env.store[z], env.step()) is Err,
    ensures
        eval(Val::Reference(z), env) is Err,
        eval(Val::Reference(z), env)->Err_0.0.kind == eval(
            env.store[z],
            env.step(),
        )->Err_0.0.kind,
        eval(Val::Reference(z), env)->Err_0.0.trace == eval(
            env.store[z],
            env.step(),
        )->Err_0.0.trace.push(TraceV::InsideReference(z)),
        arrives_as(replay(Val::Reference(z), eval(Val::Reference(z), env)->Err_0.0, at), replay(
            env.store[z],
            eval(env.store[z], env.step())->Err_0.0,
            at,
        )),
{
    let v = Val::Reference(z);
    let e0 = eval(env.store[z], env.step())->Err_0.0;
    let e = eval(v, env)->Err_0.0;
    let n = e0.trace.len() as int;
    let t = e.trace;
    assert(t[n] == TraceV::InsideReference(z));
    let step = StepV::FollowReference(z, at.store[z]);
    assert(replay_step(v, t[n], at) == Move::Applied(step, at.store[z]));
    let acc = Seq::<StepV>::empty().push(step);
    assert(replay_from(v, t, n + 1, at, Seq::empty()) == replay_from(at.store[z], t, n, at, acc));
    lemma_replay_prefix(at.store[z], t, e0.trace, n, at, acc, Seq::empty());
}

/// The value at the end of `n` pointers from `v` on, if `v` begins such a
/// chain in the store.
pub open spec fn follow(v: Val, n: nat, store: Map<Zid, Val>) -> Option<Val>
    decreases n,
{
    if n == 0 {
        Some(v)
    } else {
        match v {
            Val::Reference(z) => if store.contains_key(z) {
                follow(store[z], (n - 1) as nat, store)
            } else {
                None
            },
            _ => None,
        }
    }
}

/// The trace that an error gets on its way out of `n` pointers from `v` on:
/// the innermost pointer first.
pub open spec fn pointer_trace(v: Val, n: nat, store: Map<Zid, Val>) -> Seq<TraceV>
    decreases n,
{
    if n == 0 {
        Seq::empty()
    } else {
        match v {
            Val::Reference(z) => pointer_trace(store[z], (n - 1) as nat, store).push(
                TraceV::InsideReference(z),
            ),
            _ => Seq::empty(),
        }
    }
}

proof fn lemma_replay_pointer_trace(v: Val, n: nat, t: Seq<TraceV>, env: Env, acc: Seq<StepV>)
    requires
        follow(v, n, env.store) is Some,
        n <= t.len(),
        t.subrange(0, n as int) == pointer_trace(v, n, env.store),
    ensures
        replay_from(v, t, n as int, env, acc).root == follow(v, n, env.store)->0,
        replay_from(v, t, n as int, env, acc).complete,
        replay_from(v, t, n as int, env, acc).full_trace.len() == acc.len() + n,
    decreases n,
{
    if n == 0 {
    } else {
        let z = v->Reference_0;
        let rest = pointer_trace(env.store[z], (n - 1) as nat, env.store);
        let all = pointer_trace(v, n, env.store);
        assert(all == rest.push(TraceV::InsideReference(z)));
        lemma_pointer_trace_len(env.store[z], (n - 1) as nat, env.store);
        assert(t[n - 1] == t.subrange(0, n as int)[n - 1]);
        assert(t[n - 1] == TraceV::InsideReference(z));
        assert(t.subrange(0, n - 1) =~= t.subrange(0, n as int).subrange(0, n - 1));
        assert(all.subrange(0, n - 1) =~= rest);
        let step = StepV::FollowReference(z, env.store[z]);
        assert(replay_step(v, t[n - 1], env) == Move::Applied(step, env.store[z]));
        lemma_replay_pointer_trace(env.store[z], (n - 1) as nat, t, env, acc.push(step));
    }
}

proof fn lemma_pointer_trace_len(v: Val, n: nat, store: Map<Zid, Val>)
    requires
        follow(v, n, store) is Some,
    ensures
        pointer_trace(v, n, store).len() == n,
    decreases n,
{
    if n > 0 {
        lemma_pointer_trace_len(store[v->Reference_0], (n - 1) as nat, store);
    }
}

/// Replay is faithful along pointers.  Where an evaluation fails at the end
/// of a chain of pointers, the error keeps its kind on the way out and its
/// trace names the pointers; the replay of that trace arrives at the value
/// at the end of the chain, and that value, evaluated with the budget that
/// was left there, fails with an error of the same kind.
pub proof fn lemma_replay_along_pointers(v: Val, n: nat, env: Env)
    requires
        follow(v, n, env.store) is Some,
        env.steps >= n,
        eval(follow(v, n, env.store)->0, after(env, n)) is Err,
        eval(follow(v, n, env.store)->0, after(env, n))->Err_0.0.trace.len() == 0,
    ensures
        eval(v, env) is Err,
        eval(v, env)->Err_0.0.kind == eval(
            follow(v, n, env.store)->0,
            after(env, n),
        )->Err_0.0.kind,
        eval(v, env)->Err_0.0.trace == pointer_trace(v, n, env.store),
        replay(v, eval(v, env)->Err_0.0, env).root == follow(v, n, env.store)->0,
        replay(v, eval(v, env)->Err_0.0, env).complete,
        replay(v, eval(v, env)->Err_0.0, env).full_trace.len() == n,
    decreases n,
{
    if n == 0 {
        assert(after(env, 0) == env);
        let e = eval(v, env)->Err_0.0;
        assert(e.trace =~= Seq::<TraceV>::empty());
    } else {
        let z = v->Reference_0;
        let inner = env.step();
        assert(after(inner, (n - 1) as nat) == after(env, n));
        lemma_replay_along_pointers(env.store[z], (n - 1) as nat, inner);
        let e = eval(v, env)->Err_0.0;
        lemma_pointer_trace_len(v, n, env.store);
        assert(e.trace.subrange(0, n as int) =~= e.trace);
        lemma_replay_pointer_trace(v, n, e.trace, env, Seq::empty());
    }
}


proof fn lemma_collected(v: Val, function: Zid, n: nat, i: int, acc: Seq<Val>)
    requires
        0 <= i <= n,
        collect_args(v, function, n, None, i, acc) is Ok,
    ensures
        ({
            let r = collect_args(v, function, n, None, i, acc)->Ok_0;
            &&& r.len() == acc.len() + n - i
            &&& forall|m: int|
                acc.len() <= m < r.len() ==> v.get(
                    function.key(#[verifier::truncate] ((m - acc.len() + i + 1) as u32)),
                ) == Some(#[trigger] r[m])
            &&& forall|m: int| 0 <= m < acc.len() ==> #[trigger] r[m] == acc[m]
        }),
    decreases n - i,
{
    if i >= n {
    } else {
        let a = v.get(function.key(#[verifier::truncate] ((i + 1) as u32)))->0;
        let next = acc.push(a);
        lemma_collected(v, function, n, i + 1, next);
        let r = collect_args(v, function, n, None, i, acc)->Ok_0;
        assert(r == collect_args(v, function, n, None, i + 1, next)->Ok_0);
        assert forall|m: int| acc.len() <= m < r.len() implies v.get(
            function.key(#[verifier::truncate] ((m - acc.len() + i + 1) as u32)),
        ) == Some(#[trigger] r[m]) by {
            if m == acc.len() {
                assert(r[m] == next[m]);
            } else {
                assert(m - next.len() + (i + 1) + 1 == m - acc.len() + i + 1);
            }
        }
        assert forall|m: int| 0 <= m < acc.len() implies #[trigger] r[m] == acc[m] by {
            assert(r[m] == next[m]);
        }
    }
}

proof fn lemma_call_holds_arguments(v: Val, c: CallV, env: Env, i: int)
    requires
        v is Untyped,
        parse_call(v, env, None) == Ok::<CallOrTypeV, (ErrV, Val)>(CallOrTypeV::Call(c)),
        0 <= i < c.args.len(),
    ensures
        v.get(c.arg_key(i)) == Some(c.args[i]),
{
    let function = c.function.identity;
    let n = c.function.arguments.len();
    assert(collect_args(v, function, n, None, 0, Seq::empty()) is Ok);
    assert(c.args == collect_args(v, function, n, None, 0, Seq::empty())->Ok_0);
    lemma_collected(v, function, n, 0, Seq::empty());
    assert(v.get(function.key(#[verifier::truncate] ((i - 0 + 0 + 1) as u32))) == Some(c.args[i]));
}

proof fn lemma_arguments_fail(c: CallV, env: Env, i: int, e0: ErrV, j: int, acc: Seq<Val>)
    requires
        0 <= j <= i < c.args.len(),
        forall|m: int| 0 <= m < i ==> eval(#[trigger] c.args[m], env) is Ok,
        eval(c.args[i], env) is Err,
        eval(c.args[i], env)->Err_0.0 == e0,
    ensures
        eval_args(c, env, j, acc) == Err::<Seq<Val>, ErrV>(e0.inside_key(c.arg_key(i))),
    decreases i - j,
{
    if j < i {
        assert(eval(c.args[j], env) is Ok);
        lemma_arguments_fail(c, env, i, e0, j + 1, acc.push(eval(c.args[j], env)->Ok_0));
    }
}

proof fn lemma_builtin_call_fails(c: CallV, env: Env, e1: ErrV)
    requires
        env.depth > 0,
        env.steps > 1,
        pick_implementation(c.function, env.call()) is Ok,
        pick_implementation(c.function, env.call())->Ok_0.kind is Builtin,
        eval_args(c, env.call().step(), 0, Seq::empty()) == Err::<Seq<Val>, ErrV>(e1),
    ensures
        eval_call(c, env) == Err::<Val, (ErrV, Val)>(
            (
                e1.traced(TraceV::ProcessingNonCompositionFunction(c.function.identity)),
                Val::FunctionCall(Box::new(c)),
            ),
        ),
{
    assert(dispatch(c.function.identity, c, env.call()) == Err::<Val, ErrV>(e1));
}

proof fn lemma_record_fails_as_its_call(v: Val, c: CallV, env: Env)
    requires
        v is Untyped,
        v.get(key(1, 1)) is Some,
        env.steps > 1,
        stated_type(v.get(key(1, 1))->0, env.step().step()) == Ok::<Zid, ErrV>(zid(7)),
        parse_call(v, env.step().step(), None) == Ok::<CallOrTypeV, (ErrV, Val)>(
            CallOrTypeV::Call(c),
        ),
    ensures
        eval(v, env) == eval_call(c, env.step().step()),
{
    assert(refine(v, env.step(), true) == eval_call(c, env.step().step()));
}

proof fn lemma_walk_to_argument(
    v: Val,
    k: KeyIndex,
    function: Zid,
    a: Val,
    e0: ErrV,
    e: ErrV,
    at: Env,
)
    requires
        v.get(k) == Some(a),
        e.trace == e0.trace.push(TraceV::InsideKey(k)).push(
            TraceV::ProcessingNonCompositionFunction(function),
        ),
    ensures
        arrives_as(replay(v, e, at), replay(a, e0, at)),
{
    let t = e.trace;
    let n = e0.trace.len() as int;
    let marker = StepV::ProcessingNonCompositionFunction(function);
    assert(t[n + 1] == TraceV::ProcessingNonCompositionFunction(function));
    assert(t[n] == TraceV::InsideKey(k));
    assert(replay_step(v, t[n + 1], at) == Move::Applied(marker, v));
    let inside = StepV::InsideKey(k, a);
    assert(replay_step(v, t[n], at) == Move::Applied(inside, a));
    let acc1 = Seq::<StepV>::empty().push(marker);
    let acc2 = acc1.push(inside);
    assert(replay_from(v, t, n + 1, at, acc1) == replay_from(a, t, n, at, acc2));
    assert(replay_from(v, t, n + 2, at, Seq::empty()) == replay_from(v, t, n + 1, at, acc1));
    lemma_replay_prefix(a, t, e0.trace, n, at, acc2, Seq::empty());
}

/// Replay is faithful into an argument of a builtin.  Where a raw record
/// is a call of a builtin, and the evaluation of one of its arguments
/// fails, the evaluation of the record fails with an error of the same
/// kind whose trace ends with the key of the argument and the function;
/// its replay arrives where the replay of the argument's error arrives.
pub proof fn lemma_replay_locates_argument(v: Val, c: CallV, i: int, env: Env, at: Env)
    requires
        v is Untyped,
        v.get(key(1, 1)) is Some,
        env.steps >= 5,
        env.depth > 0,
        stated_type(v.get(key(1, 1))->0, env.step().step()) == Ok::<Zid, ErrV>(zid(7)),
        parse_call(v, env.step().step(), None) == Ok::<CallOrTypeV, (ErrV, Val)>(
            CallOrTypeV::Call(c),
        ),
        pick_implementation(c.function, env.step().step().call()) is Ok,
        pick_implementation(c.function, env.step().step().call())->Ok_0.kind is Builtin,
        0 <= i < c.args.len(),
        forall|m: int|
            0 <= m < i ==> eval(#[trigger] c.args[m], env.step().step().call().step()) is Ok,
        eval(c.args[i], env.step().step().call().step()) is Err,
    ensures
        eval(v, env) is Err,
        eval(v, env)->Err_0.0.kind == eval(
            c.args[i],
            env.step().step().call().step(),
        )->Err_0.0.kind,
        eval(v, env)->Err_0.0.trace == eval(
            c.args[i],
            env.step().step().call().step(),
        )->Err_0.0.trace.push(TraceV::InsideKey(c.arg_key(i))).push(
            TraceV::ProcessingNonCompositionFunction(c.function.identity),
        ),
        arrives_as(replay(v, eval(v, env)->Err_0.0, at), replay(
            c.args[i],
            eval(c.args[i], env.step().step().call().step())->Err_0.0,
            at,
        )),
{
    let env2 = env.step().step();
    let e0 = eval(c.args[i], env2.call().step())->Err_0.0;
    let function = c.function.identity;
    lemma_arguments_fail(c, env2.call().step(), i, e0, 0, Seq::empty());
    let e1 = e0.inside_key(c.arg_key(i));
    lemma_builtin_call_fails(c, env2, e1);
    lemma_record_fails_as_its_call(v, c, env);
    let e2 = e1.traced(TraceV::ProcessingNonCompositionFunction(function));
    lemma_call_holds_arguments(v, c, env2, i);
    lemma_walk_to_argument(v, c.arg_key(i), function, c.args[i], e0, e2, at);
}

/// Replay is faithful through a composition.  Where the body of a
/// composition, with the arguments in place, fails, the call fails with an
/// error of the same kind whose trace ends with the function; its replay
/// arrives where the replay of the body's error arrives.
pub proof fn lemma_replay_through_composition(c: CallV, body: Val, env: Env, at: Env)
    requires
        is_composition(c.function, body),
        env.depth > 0,
        env.steps > 1,
        at.steps > 0,
        substitute(body, c.args) is Ok,
        eval(substitute(body, c.args)->Ok_0, env.call()) is Err,
    ensures
        eval_call(c, env) is Err,
        eval_call(c, env)->Err_0.0.kind == eval(
            substitute(body, c.args)->Ok_0,
            env.call(),
        )->Err_0.0.kind,
        eval_call(c, env)->Err_0.0.trace == eval(
            substitute(body, c.args)->Ok_0,
            env.call(),
        )->Err_0.0.trace.push(TraceV::Substituted(c.function.identity)),
        arrives_as(replay(Val::FunctionCall(Box::new(c)), eval_call(c, env)->Err_0.0, at), replay(
            substitute(body, c.args)->Ok_0,
            eval(substitute(body, c.args)->Ok_0, env.call())->Err_0.0,
            at,
        )),
{
    let function = c.function.identity;
    let sub = substitute(body, c.args)->Ok_0;
    let e0 = eval(sub, env.call())->Err_0.0;
    lemma_pick_composition(c.function, body, env.call());
    let e = e0.traced(TraceV::Substituted(function));
    let v = Val::FunctionCall(Box::new(c));
    assert(eval_call(c, env) == Err::<Val, (ErrV, Val)>((e, v)));
    lemma_pick_composition(c.function, body, at);
    assert(parse_call(v, at, None) == Ok::<CallOrTypeV, (ErrV, Val)>(CallOrTypeV::Call(c)));
    let n = e0.trace.len() as int;
    let t = e.trace;
    assert(t[n] == TraceV::Substituted(function));
    let step = StepV::AfterCompositionSubstitution(function, sub);
    assert(replay_step(v, t[n], at) == Move::Applied(step, sub));
    let acc = Seq::<StepV>::empty().push(step);
    assert(replay_from(v, t, n + 1, at, Seq::empty()) == replay_from(sub, t, n, at, acc));
    lemma_replay_prefix(sub, t, e0.trace, n, at, acc, Seq::empty());
}

/// Replay is faithful into the call of a test case.  Where the call of a
/// test case fails, the test fails with an error of the same kind whose
/// trace ends with the key of the call; its replay arrives where the
/// replay of the call's error arrives.
pub proof fn lemma_replay_into_test_call(t: TestV, env: Env, at: Env)
    requires
        env.steps > 0,
        eval(t.call, env.step()) is Err,
    ensures
        run_test(t, env) is Err,
        run_test(t, env)->Err_0.kind == eval(t.call, env.step())->Err_0.0.kind,
        run_test(t, env)->Err_0.trace == eval(t.call, env.step())->Err_0.0.trace.push(
            TraceV::InsideKey(key(20, 2)),
        ),
        arrives_as(replay(Val::TestCase(Box::new(t)), run_test(t, env)->Err_0, at), replay(
            t.call,
            eval(t.call, env.step())->Err_0.0,
            at,
        )),
{
    let v = Val::TestCase(Box::new(t));
    let e0 = eval(t.call, env.step())->Err_0.0;
    let e = run_test(t, env)->Err_0;
    let n = e0.trace.len() as int;
    let trace = e.trace;
    assert(trace[n] == TraceV::InsideKey(key(20, 2)));
    let step = StepV::InsideKey(key(20, 2), t.call);
    assert(replay_step(v, trace[n], at) == Move::Applied(step, t.call));
    let acc = Seq::<StepV>::empty().push(step);
    assert(replay_from(v, trace, n + 1, at, Seq::empty()) == replay_from(
        t.call,
        trace,
        n,
        at,
        acc,
    ));
    lemma_replay_prefix(t.call, trace, e0.trace, n, at, acc, Seq::empty());
}

/// Replay is faithful into the validation of a test case.  Where the
/// validation, given the result of the call, fails, the test fails with an
/// error of the same kind whose trace ends with that result; its replay
/// arrives where the replay of the validation's error arrives.  The replay
/// reads the validation as the test did.
pub proof fn lemma_replay_into_validation(t: TestV, env: Env, at: Env)
    requires
        env.steps > 0,
        at.steps > 0,
        eval(t.call, env.step()) is Ok,
        patched_validation_call(t, eval(t.call, env.step())->Ok_0, env.step()) is Ok,
        patched_validation_call(t, eval(t.call, env.step())->Ok_0, at) == patched_validation_call(
            t,
            eval(t.call, env.step())->Ok_0,
            env.step(),
        ),
        eval_call(
            patched_validation_call(t, eval(t.call, env.step())->Ok_0, env.step())->Ok_0,
            env.step(),
        ) is Err,
    ensures
        run_test(t, env) is Err,
        ({
            let result = eval(t.call, env.step())->Ok_0;
            let c = patched_validation_call(t, result, env.step())->Ok_0;
            let e0 = eval_call(c, env.step())->Err_0.0;
            &&& run_test(t, env)->Err_0.kind == e0.kind
            &&& run_test(t, env)->Err_0.trace == e0.trace.push(
                TraceV::CheckingTestCaseResult(result),
            )
            &&& arrives_as(replay(Val::TestCase(Box::new(t)), run_test(t, env)->Err_0, at), replay(
                Val::FunctionCall(Box::new(c)),
                e0,
                at,
            ))
        }),
{
    let v = Val::TestCase(Box::new(t));
    let result = eval(t.call, env.step())->Ok_0;
    let c = patched_validation_call(t, result, env.step())->Ok_0;
    let call = Val::FunctionCall(Box::new(c));
    let e0 = eval_call(c, env.step())->Err_0.0;
    let e = run_test(t, env)->Err_0;
    let n = e0.trace.len() as int;
    let trace = e.trace;
    assert(trace[n] == TraceV::CheckingTestCaseResult(result));
    assert(parse_test_case(v, at) == Ok::<TestV, (ErrV, Val)>(t));
    let step = StepV::CheckingTestCaseResult(result, call);
    assert(replay_step(v, trace[n], at) == Move::Applied(step, call));
    let acc = Seq::<StepV>::empty().push(step);
    assert(replay_from(v, trace, n + 1, at, Seq::empty()) == replay_from(call, trace, n, at, acc));
    lemma_replay_prefix(call, trace, e0.trace, n, at, acc, Seq::empty());
}

} // verus!
