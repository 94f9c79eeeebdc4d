//! Equality is an equivalence.
use vstd::prelude::*;
use crate::key_index::KeyIndex;
use crate::laws::evaluation::{evaluated, lemma_eval_shape, lemma_keys_tell_final};
use crate::model::{CallV, ErrV, Val, zid};
use crate::semantics::{children_equal, dispatch, Env, equal, eval, eval_args, parse_boolean};

verus! {
/// Every value is equal to itself, whatever the budget.
pub proof fn lemma_equal_reflexive(a: Val, env: Env)
    ensures
        equal(a, a, env) == Ok::<bool, ErrV>(true),
{
}

proof fn lemma_children_symmetric(a: Val, b: Val, keys: Seq<KeyIndex>, env: Env, i: int)
    ensures
        children_equal(a, b, keys, env, i) is Ok ==> children_equal(b, a, keys, env, i)
            == children_equal(a, b, keys, env, i),
        children_equal(a, b, keys, env, i) is Err ==> children_equal(b, a, keys, env, i) is Err,
    decreases env.steps, keys.len() - i + 1,
{
    if i < 0 || i >= keys.len() {
    } else {
        match (a.get(keys[i]), b.get(keys[i])) {
            (Some(x), Some(y)) => {
                lemma_equal_symmetric(x, y, env);
                lemma_children_symmetric(a, b, keys, env, i + 1);
            },
            _ => {},
        }
    }
}

/// Equality does not depend on the order of its arguments: where one order
/// gives an answer the other gives the same, and where one fails so does
/// the other.
pub proof fn lemma_equal_symmetric(a: Val, b: Val, env: Env)
    ensures
        equal(a, b, env) is Ok ==> equal(b, a, env) == equal(a, b, env),
        equal(a, b, env) is Err ==> equal(b, a, env) is Err,
    decreases env.steps, 0nat,
{
    if a == b {
    } else if a.is_final() && b.is_final() {
    } else if env.steps == 0 {
    } else {
        match eval(a, env.step()) {
            Err(_) => {},
            Ok(fa) => match eval(b, env.step()) {
                Err(_) => {},
                Ok(fb) => {
                    if fa == fb {
                    } else if fa.is_final() && fb.is_final() {
                    } else if fa.keys() != fb.keys() {
                    } else {
                        lemma_children_symmetric(fa, fb, fa.keys(), env.step(), 0);
                    }
                },
            },
        }
    }
}

/// Equality of two truth values is what the builtin `Z844` computes of
/// them.
pub proof fn lemma_boolean_equality_agrees(x: bool, y: bool, c: CallV, env: Env, any: Env)
    requires
        c.args == seq![Val::Boolean(x), Val::Boolean(y)],
        env.steps > 0,
    ensures
        dispatch(zid(844), c, env) == Ok::<Val, ErrV>(Val::Boolean(x == y)),
        equal(Val::Boolean(x), Val::Boolean(y), any) == Ok::<bool, ErrV>(x == y),
{
    let inner = env.step();
    let a0 = Seq::<Val>::empty();
    let a1 = a0.push(Val::Boolean(x));
    let a2 = a1.push(Val::Boolean(y));
    assert(eval_args(c, inner, 2, a2) == Ok::<Seq<Val>, ErrV>(a2));
    assert(eval(c.args[1], inner) == Ok::<Val, (ErrV, Val)>(Val::Boolean(y)));
    assert(eval_args(c, inner, 1, a1) == eval_args(c, inner, 2, a2));
    assert(eval(c.args[0], inner) == Ok::<Val, (ErrV, Val)>(Val::Boolean(x)));
    assert(eval_args(c, inner, 0, a0) == eval_args(c, inner, 1, a1));
    assert(a2.len() == 2);
    assert(a2[0] == Val::Boolean(x) && a2[1] == Val::Boolean(y));
    assert(parse_boolean(a2[1], inner) == Ok::<bool, (ErrV, Val)>(y));
    assert(parse_boolean(a2[0], inner) == Ok::<bool, (ErrV, Val)>(x));
}


/// The children under each key from `i` on are equal.
pub open spec fn all_children_equal(a: Val, b: Val, keys: Seq<KeyIndex>, env: Env, i: int) -> bool {
    forall|j: int|
        i <= j < keys.len() ==> a.get(#[trigger] keys[j]) is Some && b.get(keys[j]) is Some
            && equal(a.get(keys[j])->0, b.get(keys[j])->0, env) == Ok::<bool, ErrV>(true)
}

proof fn lemma_children_equal_means(a: Val, b: Val, keys: Seq<KeyIndex>, env: Env, i: int)
    requires
        0 <= i,
    ensures
        children_equal(a, b, keys, env, i) == Ok::<bool, ErrV>(true) <==> all_children_equal(
            a,
            b,
            keys,
            env,
            i,
        ),
    decreases keys.len() - i,
{
    if i >= keys.len() {
    } else {
        lemma_children_equal_means(a, b, keys, env, i + 1);
        if all_children_equal(a, b, keys, env, i) {
            assert(a.get(keys[i]) is Some);
            assert forall|j: int| i + 1 <= j < keys.len() implies a.get(#[trigger] keys[j]) is Some
                && b.get(keys[j]) is Some && equal(a.get(keys[j])->0, b.get(keys[j])->0, env)
                == Ok::<bool, ErrV>(true) by {}
        }
        if children_equal(a, b, keys, env, i) == Ok::<bool, ErrV>(true) {
            assert forall|j: int| i <= j < keys.len() implies a.get(#[trigger] keys[j]) is Some
                && b.get(keys[j]) is Some && equal(a.get(keys[j])->0, b.get(keys[j])->0, env)
                == Ok::<bool, ErrV>(true) by {
                if j > i {
                    assert(all_children_equal(a, b, keys, env, i + 1));
                }
            }
        }
    }
}

/// Two evaluated values are judged equal: they are the same, or neither
/// judgement by finality applies and they agree key by key.
pub open spec fn judged_equal(fa: Val, fb: Val, env: Env) -> bool {
    fa == fb || (!(fa.is_final() && fb.is_final()) && fa.keys() == fb.keys() && all_children_equal(
        fa,
        fb,
        fa.keys(),
        env,
        0,
    ))
}

proof fn lemma_equal_unfolds(a: Val, b: Val, env: Env)
    requires
        equal(a, b, env) == Ok::<bool, ErrV>(true),
        a != b,
    ensures
        env.steps > 0,
        !(a.is_final() && b.is_final()),
        eval(a, env.step()) is Ok,
        eval(b, env.step()) is Ok,
        judged_equal(eval(a, env.step())->Ok_0, eval(b, env.step())->Ok_0, env.step()),
{
    let fa = eval(a, env.step())->Ok_0;
    let fb = eval(b, env.step())->Ok_0;
    if fa != fb {
        lemma_children_equal_means(fa, fb, fa.keys(), env.step(), 0);
    }
}

proof fn lemma_judged_transitive(fa: Val, fb: Val, fc: Val, env: Env)
    requires
        evaluated(fa),
        evaluated(fb),
        evaluated(fc),
        judged_equal(fa, fb, env),
        judged_equal(fb, fc, env),
    ensures
        judged_equal(fa, fc, env),
    decreases env.steps, 1nat,
{
    if fa == fb || fb == fc || fa == fc {
    } else {
        if fa.is_final() {
            lemma_keys_tell_final(fa, fb);
        }
        if fc.is_final() {
            lemma_keys_tell_final(fc, fb);
        }
        let keys = fa.keys();
        assert forall|j: int| 0 <= j < keys.len() implies fa.get(#[trigger] keys[j]) is Some
            && fc.get(keys[j]) is Some && equal(fa.get(keys[j])->0, fc.get(keys[j])->0, env)
            == Ok::<bool, ErrV>(true) by {
            let k = keys[j];
            assert(fb.keys()[j] == k);
            lemma_equal_transitive(fa.get(k)->0, fb.get(k)->0, fc.get(k)->0, env);
        }
    }
}

/// Equality is transitive: what is equal to a value that is equal to a
/// third is equal to the third.
pub proof fn lemma_equal_transitive(a: Val, b: Val, c: Val, env: Env)
    requires
        equal(a, b, env) == Ok::<bool, ErrV>(true),
        equal(b, c, env) == Ok::<bool, ErrV>(true),
    ensures
        equal(a, c, env) == Ok::<bool, ErrV>(true),
    decreases env.steps, 0nat,
{
    if a == b || b == c || a == c {
    } else {
        lemma_equal_unfolds(a, b, env);
        lemma_equal_unfolds(b, c, env);
        let inner = env.step();
        let fa = eval(a, inner)->Ok_0;
        let fb = eval(b, inner)->Ok_0;
        let fc = eval(c, inner)->Ok_0;
        lemma_eval_shape(a, inner);
        lemma_eval_shape(b, inner);
        lemma_eval_shape(c, inner);
        lemma_judged_transitive(fa, fb, fc, inner);
        if a.is_final() && c.is_final() {
            // final values evaluate to themselves, and the value between
            // them shares their keys without being final
            assert(fa == a && fc == c);
            if !fb.is_final() {
                lemma_keys_tell_final(fa, fb);
            }
        } else {
            if fa != fc {
                lemma_children_equal_means(fa, fc, fa.keys(), inner, 0);
            }
        }
    }
}

} // verus!
