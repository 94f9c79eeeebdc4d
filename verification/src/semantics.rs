//! What the evaluator computes, stated on the model.
//!
//! Every function here is total.  Recursion is bounded by the budget of the
//! environment: each operation that works on behalf of another runs with one
//! step less, and each reduction of a function call with one level of depth
//! less.  An operation that finds its budget used up fails with
//! `StepBudgetExceeded` or `RecursedTooDeep`.
use vstd::prelude::*;
use crate::key_index::KeyIndex;
use crate::model::{
    CallV, ElemTypeV, ErrV, fail, FnV, ImplKindV, ImplV, key, KindV, ListV, Outcome, StdTypeV,
    TestV, TraceV, TypeV, Val, zid,
};
use crate::zid::Zid;

verus! {

/// The object store and the budget that is left.
pub struct Env {
    pub store: Map<Zid, Val>,
    pub depth: nat,
    pub steps: nat,
}

impl Env {
    /// The environment of an operation that works on behalf of this one.
    pub open spec fn step(self) -> Env {
        Env { store: self.store, depth: self.depth, steps: (self.steps - 1) as nat }
    }

    /// The environment inside the reduction of a function call.
    pub open spec fn call(self) -> Env {
        Env { store: self.store, depth: (self.depth - 1) as nat, steps: (self.steps - 1) as nat }
    }
}

/// What a record of type `Z7` turns out to be.
pub enum CallOrTypeV {
    Call(CallV),
    Type(TypeV),
}

pub open spec fn exhausted<T>(v: Val) -> Outcome<T> {
    fail(KindV::StepBudgetExceeded, v)
}

/// The identifier of a well-known object: a reference to it states its own
/// type.
pub open spec fn is_well_known(z: Zid) -> bool {
    z.is_well_known()
}

// ---------------------------------------------------------------------
// Substitution of arguments: a rewrite of the tree, with no evaluation.
// ---------------------------------------------------------------------
/// The value with each argument reference replaced by the argument it
/// names.  Functions, implementations and references are left as they are.
pub open spec fn substitute(v: Val, args: Seq<Val>) -> Result<Val, ErrV>
    decreases v, 0nat,
{
    match v {
        Val::ArgumentReference(k) => if k.k == 0 {
            Err(ErrV::of(KindV::ArgumentReferenceNoKPart(k)))
        } else if k.k - 1 < args.len() {
            Ok(args[k.k - 1])
        } else {
            Err(ErrV::of(KindV::ArgumentReferenceTooLarge((k.k - 1) as u32)))
        },
        Val::FunctionCall(c) => match substitute_args(*c, c.args, args, 0, Seq::empty()) {
            Ok(a) => Ok(Val::FunctionCall(Box::new(CallV { function: c.function, args: a }))),
            Err(e) => Err(e),
        },
        Val::TypedList(l) => match substitute_list(*l, args) {
            Ok(r) => Ok(Val::TypedList(Box::new(r))),
            Err(e) => Err(e),
        },
        Val::Type(t) => match substitute_type(*t, args) {
            Ok(r) => Ok(Val::Type(Box::new(r))),
            Err(e) => Err(e),
        },
        Val::TestCase(t) => match substitute(t.call, args) {
            Err(e) => Err(e.inside_key(key(20, 2))),
            Ok(call) => match substitute(t.validation, args) {
                Err(e) => Err(e.inside_key(key(20, 3))),
                Ok(validation) => Ok(
                    Val::TestCase(Box::new(TestV { function: t.function, call, validation })),
                ),
            },
        },
        Val::Untyped(entries) => match substitute_entries(entries, args, 0, Seq::empty()) {
            Ok(r) => Ok(Val::Untyped(r)),
            Err(e) => Err(e),
        },
        _ => Ok(v),
    }
}

/// The arguments of `c` from position `i` on, substituted and added to `acc`.
pub open spec fn substitute_args(
    c: CallV,
    items: Seq<Val>,
    args: Seq<Val>,
    i: int,
    acc: Seq<Val>,
) -> Result<Seq<Val>, ErrV>
    decreases items, items.len() - i,
{
    if i < 0 || i >= items.len() {
        Ok(acc)
    } else {
        match substitute(items[i], args) {
            Err(e) => Err(e.inside_key(c.arg_key(i))),
            Ok(r) => substitute_args(c, items, args, i + 1, acc.push(r)),
        }
    }
}

pub open spec fn substitute_items(items: Seq<Val>, args: Seq<Val>, i: int, acc: Seq<Val>) -> Result<
    Seq<Val>,
    ErrV,
>
    decreases items, items.len() - i,
{
    if i < 0 || i >= items.len() {
        Ok(acc)
    } else {
        match substitute(items[i], args) {
            Err(e) => Err(e.inside_list(i as usize)),
            Ok(r) => substitute_items(items, args, i + 1, acc.push(r)),
        }
    }
}

pub open spec fn substitute_entries(
    entries: Seq<(KeyIndex, Val)>,
    args: Seq<Val>,
    i: int,
    acc: Seq<(KeyIndex, Val)>,
) -> Result<Seq<(KeyIndex, Val)>, ErrV>
    decreases entries, entries.len() - i,
{
    if i < 0 || i >= entries.len() {
        Ok(acc)
    } else {
        match substitute(entries[i].1, args) {
            Err(e) => Err(e.inside_key(entries[i].0)),
            Ok(r) => substitute_entries(entries, args, i + 1, acc.push((entries[i].0, r))),
        }
    }
}

pub open spec fn substitute_list(l: ListV, args: Seq<Val>) -> Result<ListV, ErrV>
    decreases l, 0nat,
{
    match substitute_items(l.entries, args, 0, Seq::empty()) {
        Err(e) => Err(e),
        Ok(entries) => match l.elem_type {
            ElemTypeV::Unchecked(t) => match substitute(t, args) {
                Err(e) => Err(e.inside_key(key(1, 1))),
                Ok(r) => Ok(ListV { elem_type: ElemTypeV::Unchecked(r), entries }),
            },
            ElemTypeV::Valid(t) => match substitute_type(t, args) {
                Err(e) => Err(e.inside_key(key(1, 1))),
                Ok(r) => Ok(ListV { elem_type: ElemTypeV::Valid(r), entries }),
            },
        },
    }
}

pub open spec fn substitute_slot(slot: Option<Val>, args: Seq<Val>, k: KeyIndex) -> Result<
    Option<Val>,
    ErrV,
>
    decreases slot, 1nat,
{
    match slot {
        None => Ok(None),
        Some(v) => match substitute(v, args) {
            Err(e) => Err(e.inside_key(k)),
            Ok(r) => Ok(Some(r)),
        },
    }
}

pub open spec fn substitute_type(t: TypeV, args: Seq<Val>) -> Result<TypeV, ErrV>
    decreases t, 0nat,
{
    match t {
        TypeV::TypedList(inner) => match substitute_type(*inner, args) {
            Err(e) => Err(e.inside_key(key(881, 1))),
            Ok(r) => Ok(TypeV::TypedList(Box::new(r))),
        },
        TypeV::Standard(s) => {
            let keys = substitute(s.keys, args);
            let validator = substitute(s.validator, args);
            let equality = substitute_slot(s.equality, args, key(4, 4));
            let display_function = substitute_slot(s.display_function, args, key(4, 5));
            let reading_function = substitute_slot(s.reading_function, args, key(4, 6));
            let to_code = substitute_slot(s.type_converters_to_code, args, key(4, 7));
            let from_code = substitute_slot(s.type_converters_from_code, args, key(4, 8));
            if keys is Err {
                Err(keys->Err_0.inside_key(key(4, 2)))
            } else if validator is Err {
                Err(validator->Err_0.inside_key(key(4, 3)))
            } else if equality is Err {
                Err(equality->Err_0)
            } else if display_function is Err {
                Err(display_function->Err_0)
            } else if reading_function is Err {
                Err(reading_function->Err_0)
            } else if to_code is Err {
                Err(to_code->Err_0)
            } else if from_code is Err {
                Err(from_code->Err_0)
            } else {
                Ok(
                    TypeV::Standard(
                        StdTypeV {
                            identity: s.identity,
                            keys: keys->Ok_0,
                            validator: validator->Ok_0,
                            equality: equality->Ok_0,
                            display_function: display_function->Ok_0,
                            reading_function: reading_function->Ok_0,
                            type_converters_to_code: to_code->Ok_0,
                            type_converters_from_code: from_code->Ok_0,
                        },
                    ),
                )
            }
        },
    }
}

// ---------------------------------------------------------------------
// Choice among parsed implementations, and the builtins on plain values.
// ---------------------------------------------------------------------
/// The last implementation of a kind among the first `n`.
pub open spec fn last_of_kind(impls: Seq<ImplV>, n: int, kind: int) -> Option<ImplV>
    decreases n,
{
    if n <= 0 || n > impls.len() {
        None
    } else if kind_rank(impls[n - 1].kind) == kind {
        Some(impls[n - 1])
    } else {
        last_of_kind(impls, n - 1, kind)
    }
}

/// Builtin before composition before code.
pub open spec fn kind_rank(k: ImplKindV) -> int {
    match k {
        ImplKindV::Builtin(_) => 0,
        ImplKindV::Composition(_) => 1,
        ImplKindV::Code(_) => 2,
    }
}

/// The implementation to run: a builtin if there is one, else a
/// composition, else code; among several of a kind, the last.
pub open spec fn preferred(impls: Seq<ImplV>, function: Zid) -> Result<ImplV, ErrV> {
    let n = impls.len() as int;
    if last_of_kind(impls, n, 0) is Some {
        Ok(last_of_kind(impls, n, 0)->0)
    } else if last_of_kind(impls, n, 1) is Some {
        Ok(last_of_kind(impls, n, 1)->0)
    } else if last_of_kind(impls, n, 2) is Some {
        Ok(last_of_kind(impls, n, 2)->0)
    } else {
        Err(ErrV::of(KindV::NoImplementationForFunction(function)))
    }
}

pub open spec fn arity_error(got: nat, expected: nat) -> ErrV {
    ErrV::of(KindV::TooManyArguments(got as usize, expected as usize))
}

// ---------------------------------------------------------------------
// The evaluator.
// ---------------------------------------------------------------------
/// The value reduced to its final form.
pub open spec fn eval(v: Val, env: Env) -> Outcome<Val>
    decreases env.steps, 0nat,
{
    match v {
        Val::Reference(z) => if env.steps == 0 {
            exhausted(v)
        } else if !env.store.contains_key(z) {
            fail(KindV::MissingPersistentObject(z), v)
        } else {
            match eval(env.store[z], env.step()) {
                Ok(r) => Ok(r),
                Err((e, _)) => Err((e.inside_reference_to(z), v)),
            }
        },
        Val::Untyped(_) => if env.steps == 0 {
            exhausted(v)
        } else {
            refine(v, env.step(), true)
        },
        Val::FunctionCall(c) => if env.steps == 0 {
            exhausted(v)
        } else {
            eval_call(*c, env.step())
        },
        Val::TypedList(l) => match l.elem_type {
            ElemTypeV::Valid(_) => Ok(v),
            ElemTypeV::Unchecked(t) => if env.steps == 0 {
                exhausted(v)
            } else {
                match eval(t, env.step()) {
                    Err((e, _)) => Err((e.inside_key(key(1, 1)), v)),
                    Ok(te) => match parse_type_generic(te, env.step()) {
                        Err((e, _)) => Err((e.inside_key(key(1, 1)), v)),
                        Ok(ty) => Ok(
                            Val::TypedList(
                                Box::new(ListV { elem_type: ElemTypeV::Valid(ty), entries: l.entries }),
                            ),
                        ),
                    },
                }
            },
        },
        Val::Invalid(kind) => fail(*kind, v),
        _ => Ok(v),
    }
}

/// The type that a record states under `Z1K1`, read the cheap way where the
/// record refers to a well-known object.
pub open spec fn stated_type(t: Val, env: Env) -> Result<Zid, ErrV>
    decreases env.steps, 0nat,
{
    match t {
        Val::Reference(z) if is_well_known(z) => Ok(z),
        _ => if env.steps == 0 {
            Err(ErrV::of(KindV::StepBudgetExceeded))
        } else {
            match parse_type(t, env.step()) {
                Err((e, _)) => Err(e.inside_key(key(1, 1))),
                Ok(TypeV::Standard(s)) => Ok(s.identity),
                Ok(TypeV::TypedList(_)) => Err(
                    ErrV::of(KindV::Unimplemented("parsing typed list from key"@)),
                ),
            }
        },
    }
}

/// A raw record promoted to the shape that its type names.  With `recurse`,
/// a record that is a function call is reduced as well.
pub open spec fn refine(v: Val, env: Env, recurse: bool) -> Outcome<Val>
    decreases env.steps, 0nat,
{
    if !(v is Untyped) {
        Ok(v)
    } else if v.get(key(1, 1)) is None {
        fail(KindV::MissingKey(key(1, 1)), v)
    } else if env.steps == 0 {
        exhausted(v)
    } else {
        match stated_type(v.get(key(1, 1))->0, env.step()) {
            Err(e) => Err((e, v)),
            Ok(tz) => if tz == zid(4) {
                match parse_standard_type(v, env.step()) {
                    Ok(t) => Ok(Val::Type(Box::new(TypeV::Standard(t)))),
                    Err(x) => Err(x),
                }
            } else if tz == zid(6) {
                match parse_string(v, env.step()) {
                    Ok(s) => Ok(Val::Text(s)),
                    Err(x) => Err(x),
                }
            } else if tz == zid(7) {
                match parse_call(v, env.step(), None) {
                    Err(x) => Err(x),
                    Ok(CallOrTypeV::Type(t)) => Ok(Val::Type(Box::new(t))),
                    Ok(CallOrTypeV::Call(c)) => if recurse {
                        eval_call(c, env.step())
                    } else {
                        Ok(Val::FunctionCall(Box::new(c)))
                    },
                }
            } else if tz == zid(8) {
                match parse_function(v, env.step()) {
                    Ok(f) => Ok(Val::Function(Box::new(f))),
                    Err(x) => Err(x),
                }
            } else if tz == zid(14) {
                match parse_implementation(v, env.step()) {
                    Ok(i) => Ok(Val::Implementation(Box::new(i))),
                    Err(x) => Err(x),
                }
            } else if tz == zid(18) {
                match parse_argument_reference(v, env.step()) {
                    Ok(k) => Ok(Val::ArgumentReference(k)),
                    Err(x) => Err(x),
                }
            } else if tz == zid(20) {
                match parse_test_case(v, env.step()) {
                    Ok(t) => Ok(Val::TestCase(Box::new(t))),
                    Err(x) => Err(x),
                }
            } else if tz == zid(40) {
                match parse_boolean(v, env.step()) {
                    Ok(b) => Ok(Val::Boolean(b)),
                    Err(x) => Err(x),
                }
            } else {
                fail(KindV::Unimplemented("parsing for "@ + tz.text()), v)
            },
        }
    }
}

/// The target of a pointer.  A raw record is refined first, and is then no
/// pointer.
pub open spec fn get_reference(v: Val, env: Env) -> Result<(Zid, Val), (ErrV, Val)>
    decreases env.steps, 0nat,
{
    match v {
        Val::Reference(z) => Ok((z, v)),
        Val::Untyped(_) => if env.steps == 0 {
            exhausted(v)
        } else {
            match refine(v, env.step(), false) {
                Err(x) => Err(x),
                Ok(r) => fail(KindV::NotAReference, r),
            }
        },
        _ => fail(KindV::NotAReference, v),
    }
}

/// The value as a type: evaluated, then read as one.
pub open spec fn parse_type(v: Val, env: Env) -> Outcome<TypeV>
    decreases env.steps, 0nat,
{
    match v {
        Val::Type(t) => Ok(*t),
        _ => if env.steps == 0 {
            exhausted(v)
        } else {
            match eval(v, env.step()) {
                Err((e, _)) => Err((e, v)),
                Ok(r) => match parse_type_generic(r, env.step()) {
                    Err((e, _)) => Err((e, v)),
                    Ok(t) => Ok(t),
                },
            }
        },
    }
}

/// The object that the type `v` is, with `v` as far as it was refined.
pub open spec fn type_zid(v: Val, env: Env) -> Result<(Zid, Val), (ErrV, Val)>
    decreases env.steps, 0nat,
{
    match v {
        Val::Reference(z) if is_well_known(z) => Ok((z, v)),
        _ => if env.steps == 0 {
            exhausted(v)
        } else {
            match parse_type(v, env.step()) {
                Err(x) => Err(x),
                Ok(t) => match t.type_zid() {
                    Ok(z) => Ok((z, Val::Type(Box::new(t)))),
                    Err(e) => Err((e, Val::Type(Box::new(t)))),
                },
            }
        },
    }
}

pub open spec fn check_type_by_zid(v: Val, expected: Zid, env: Env) -> Outcome<Val>
    decreases env.steps, 0nat,
{
    if env.steps == 0 {
        exhausted(v)
    } else {
        match type_zid(v, env.step()) {
            Err(x) => Err(x),
            Ok((got, value)) => if got != expected {
                fail(KindV::WrongType(got, expected), value)
            } else {
                Ok(value)
            },
        }
    }
}

/// The object that `v` says it is under `k`.
pub open spec fn identity_of(v: Val, k: KeyIndex, env: Env) -> Result<Zid, ErrV>
    decreases env.steps, 0nat,
{
    match v.get(k) {
        None => Err(ErrV::of(KindV::MissingKey(k))),
        Some(Val::Reference(z)) => Ok(z),
        Some(iv) => if env.steps == 0 {
            Err(ErrV::of(KindV::StepBudgetExceeded))
        } else {
            match get_reference(iv, env.step()) {
                Ok((z, _)) => Ok(z),
                Err((_, consumed)) => match identity_of(consumed, k, env.step()) {
                    Ok(z) => Ok(z),
                    Err(e) => Err(e.inside_key(k)),
                },
            }
        },
    }
}

/// `v` as far as the check reduced it, if `v` is the object `expected`.
pub open spec fn check_identity(v: Val, expected: Zid, env: Env) -> Outcome<Val>
    decreases env.steps, 0nat,
{
    if env.steps == 0 {
        exhausted(v)
    } else {
        let first = get_reference(v, env.step());
        if first is Ok && first->Ok_0.0 == expected {
            Ok(first->Ok_0.1)
        } else {
            let consumed = match first {
                Ok((_, c)) => c,
                Err((_, c)) => c,
            };
            match eval(consumed, env.step()) {
                Err(x) => Err(x),
                Ok(ev) => match ev.identity_key() {
                    None => fail(KindV::NoIdentity, ev),
                    Some(ik) => match identity_of(ev, ik, env.step()) {
                        Err(e) => Err((e, ev)),
                        Ok(got) => if got != expected {
                            fail(KindV::WrongType(got, expected), ev)
                        } else {
                            Ok(ev)
                        },
                    },
                },
            }
        }
    }
}

/// Whether the type under `Z1K1` is the object `expected`.
pub open spec fn check_z1k1(v: Val, expected: Zid, env: Env) -> Result<(), ErrV>
    decreases env.steps, 0nat,
{
    match v.get(key(1, 1)) {
        None => Err(ErrV::of(KindV::MissingKey(key(1, 1)))),
        Some(t) => if env.steps == 0 {
            Err(ErrV::of(KindV::StepBudgetExceeded))
        } else {
            match check_identity(t, expected, env.step()) {
                Ok(_) => Ok(()),
                Err((e, data)) => match parse_standard_type(data, env.step()) {
                    Ok(_) => Err(e.inside_key(key(1, 1))),
                    Err((e2, _)) => Err(e2.inside_key(key(1, 1))),
                },
            }
        },
    }
}

pub open spec fn parse_boolean(v: Val, env: Env) -> Outcome<bool>
    decreases env.steps, 0nat,
{
    match v {
        Val::Boolean(b) => Ok(b),
        _ => if v.get(key(1, 1)) is None {
            fail(KindV::MissingKey(key(1, 1)), v)
        } else if env.steps == 0 {
            exhausted(v)
        } else {
            match check_type_by_zid(v.get(key(1, 1))->0, zid(40), env.step()) {
                Err((e, _)) => Err((e.inside_key(key(1, 1)), v)),
                Ok(_) => match v.get(key(40, 1)) {
                    None => fail(KindV::MissingKey(key(40, 1)), v),
                    Some(identity) => match get_reference(identity, env.step()) {
                        Ok((r, _)) => if r == zid(41) {
                            Ok(true)
                        } else if r == zid(42) {
                            Ok(false)
                        } else {
                            fail(KindV::IncorrectIdentityForBoolean(r), v)
                        },
                        Err((_, consumed)) => match parse_boolean(consumed, env.step()) {
                            Ok(b) => Ok(b),
                            Err((e, _)) => Err((e.inside_key(key(40, 1)), v)),
                        },
                    },
                },
            }
        },
    }
}

pub open spec fn parse_string(v: Val, env: Env) -> Outcome<Seq<char>>
    decreases env.steps, 0nat,
{
    match v {
        Val::Text(s) => Ok(s),
        _ => if env.steps == 0 {
            exhausted(v)
        } else {
            match check_z1k1(v, zid(6), env.step()) {
                Err(e) => Err((e, v)),
                Ok(_) => match v.get(key(6, 1)) {
                    None => Err((ErrV::of(KindV::MissingKey(key(6, 1))).inside_key(key(6, 1)), v)),
                    Some(c) => match eval(c, env.step()) {
                        Err((e, _)) => Err((e.inside_key(key(6, 1)), v)),
                        Ok(ev) => match parse_string(ev, env.step()) {
                            Ok(s) => Ok(s),
                            Err((e, _)) => Err((e.inside_key(key(6, 1)), v)),
                        },
                    },
                },
            }
        },
    }
}

pub open spec fn parse_standard_type(v: Val, env: Env) -> Outcome<StdTypeV>
    decreases env.steps, 0nat,
{
    match v {
        Val::Type(t) if *t is Standard => Ok(t->Standard_0),
        _ => if env.steps == 0 {
            exhausted(v)
        } else {
            match check_z1k1(v, zid(4), env.step()) {
                Err(e) => Err((e, v)),
                Ok(_) => match identity_of(v, key(4, 1), env.step()) {
                    Err(e) => Err((e, v)),
                    Ok(identity) => if v.get(key(4, 2)) is None {
                        fail(KindV::MissingKey(key(4, 2)), v)
                    } else if v.get(key(4, 3)) is None {
                        fail(KindV::MissingKey(key(4, 3)), v)
                    } else {
                        Ok(
                            StdTypeV {
                                identity,
                                keys: v.get(key(4, 2))->0,
                                validator: v.get(key(4, 3))->0,
                                equality: v.get(key(4, 4)),
                                display_function: v.get(key(4, 5)),
                                reading_function: v.get(key(4, 6)),
                                type_converters_to_code: v.get(key(4, 7)),
                                type_converters_from_code: v.get(key(4, 8)),
                            },
                        )
                    },
                },
            }
        },
    }
}

pub open spec fn parse_type_generic(v: Val, env: Env) -> Outcome<TypeV>
    decreases env.steps, 0nat,
{
    match v {
        Val::Type(t) => Ok(*t),
        _ => if v.get(key(1, 1)) is None {
            fail(KindV::MissingKey(key(1, 1)), v)
        } else if env.steps == 0 {
            exhausted(v)
        } else {
            match type_zid(v.get(key(1, 1))->0, env.step()) {
                Err((e, _)) => Err((e.inside_key(key(1, 1)), v)),
                Ok((tz, _)) => if tz == zid(7) {
                    match parse_call(v, env.step(), None) {
                        Ok(CallOrTypeV::Type(t)) => Ok(t),
                        Ok(CallOrTypeV::Call(c)) => fail(
                            KindV::ExpectedTypeGotFunction,
                            Val::FunctionCall(Box::new(c)),
                        ),
                        Err(x) => Err(x),
                    }
                } else if tz == zid(4) {
                    match parse_standard_type(v, env.step()) {
                        Ok(t) => Ok(TypeV::Standard(t)),
                        Err(x) => Err(x),
                    }
                } else {
                    Err((ErrV::of(KindV::WrongTypeZidForType).inside_key(key(1, 1)), v))
                },
            }
        },
    }
}

/// The element type of a record that says "list of T".
pub open spec fn parse_typed_list_type(v: Val, env: Env) -> Outcome<TypeV>
    decreases env.steps, 0nat,
{
    match v {
        Val::Type(t) if *t is TypedList => Ok(*(t->TypedList_0)),
        _ => if v.get(key(1, 1)) is None {
            fail(KindV::MissingKey(key(1, 1)), v)
        } else if env.steps == 0 {
            exhausted(v)
        } else {
            let inner = env.step();
            let stated = check_identity(v.get(key(1, 1))->0, zid(7), inner);
            let applied = check_identity(v.get(key(7, 1))->0, zid(881), inner);
            let element = eval(v.get(key(881, 1))->0, inner);
            let element_type = parse_type_generic(element->Ok_0, inner);
            if stated is Err {
                Err((stated->Err_0.0.inside_key(key(1, 1)), v))
            } else if v.get(key(7, 1)) is None {
                fail(KindV::MissingKey(key(7, 1)), v)
            } else if applied is Err {
                Err((applied->Err_0.0.inside_key(key(7, 1)), v))
            } else if v.get(key(881, 1)) is None {
                fail(KindV::MissingKey(key(881, 1)), v)
            } else if element is Err {
                Err((element->Err_0.0.inside_key(key(881, 1)), v))
            } else if element_type is Err {
                Err((element_type->Err_0.0.inside_key(key(881, 1)), v))
            } else {
                Ok(element_type->Ok_0)
            }
        },
    }
}

pub open spec fn parse_typed_list(v: Val) -> Outcome<ListV> {
    match v {
        Val::TypedList(l) => Ok(*l),
        _ => fail(KindV::Unimplemented("parsing typed list from key"@), v),
    }
}

/// The list under `k`: evaluated, then read as a list.
pub open spec fn list_under(v: Val, k: KeyIndex, env: Env) -> Outcome<ListV>
    decreases env.steps, 0nat,
{
    match v.get(k) {
        None => fail(KindV::MissingKey(k), v),
        Some(c) => if env.steps == 0 {
            exhausted(v)
        } else {
            match eval(c, env.step()) {
                Err((e, _)) => Err((e.inside_key(k), v)),
                Ok(ev) => match parse_typed_list(ev) {
                    Err((e, _)) => Err((e.inside_key(k), v)),
                    Ok(l) => Ok(l),
                },
            }
        },
    }
}

pub open spec fn parse_function(v: Val, env: Env) -> Outcome<FnV>
    decreases env.steps, 0nat,
{
    match v {
        Val::Function(f) => Ok(*f),
        _ => if v.get(key(1, 1)) is None {
            fail(KindV::MissingKey(key(1, 1)), v)
        } else if env.steps == 0 {
            exhausted(v)
        } else {
            let inner = env.step();
            let stated = check_identity(v.get(key(1, 1))->0, zid(8), inner);
            let arguments = list_under(v, key(8, 1), inner);
            let returned = eval(v.get(key(8, 2))->0, inner);
            let return_type = parse_type_generic(returned->Ok_0, inner);
            let implementations = list_under(v, key(8, 4), inner);
            let identity = identity_of(v, key(8, 5), inner);
            if stated is Err {
                Err((stated->Err_0.0.inside_key(key(1, 1)), v))
            } else if arguments is Err {
                Err(arguments->Err_0)
            } else if v.get(key(8, 2)) is None {
                fail(KindV::MissingKey(key(8, 2)), v)
            } else if returned is Err {
                Err((returned->Err_0.0.inside_key(key(8, 2)), v))
            } else if return_type is Err {
                Err((return_type->Err_0.0.inside_key(key(8, 2)), v))
            } else if v.get(key(8, 3)) is None {
                fail(KindV::MissingKey(key(8, 3)), v)
            } else if implementations is Err {
                Err(implementations->Err_0)
            } else if identity is Err {
                Err((identity->Err_0, v))
            } else {
                Ok(
                    FnV {
                        arguments: arguments->Ok_0,
                        return_type: return_type->Ok_0,
                        testers: v.get(key(8, 3))->0,
                        implementations: implementations->Ok_0,
                        identity: identity->Ok_0,
                    },
                )
            }
        },
    }
}

/// The arguments of a call of `function` as the record `v` holds them, from
/// position `i` on, added to `acc`.  `first`, if given, stands in for the
/// first argument.
pub open spec fn collect_args(
    v: Val,
    function: Zid,
    n: nat,
    first: Option<Val>,
    i: int,
    acc: Seq<Val>,
) -> Result<Seq<Val>, ErrV>
    decreases n - i,
{
    if i < 0 || i >= n {
        Ok(acc)
    } else if i == 0 && first is Some {
        collect_args(v, function, n, first, i + 1, acc.push(first->0))
    } else {
        match v.get(function.key((i + 1) as u32)) {
            None => Err(ErrV::of(KindV::MissingKey(function.key((i + 1) as u32)))),
            Some(a) => collect_args(v, function, n, first, i + 1, acc.push(a)),
        }
    }
}

/// A call that was read before, with `first` in place of its first argument.
pub open spec fn patched(c: CallV, first: Option<Val>) -> CallV {
    if first is Some && c.args.len() > 0 {
        CallV { function: c.function, args: c.args.update(0, first->0) }
    } else {
        c
    }
}

/// A record of type `Z7` read as a call, or as the type "list of T" where
/// it applies `Z881`.
pub open spec fn parse_call(v: Val, env: Env, first: Option<Val>) -> Result<
    CallOrTypeV,
    (ErrV, Val),
>
    decreases env.steps, 0nat,
{
    match v {
        Val::FunctionCall(c) => Ok(CallOrTypeV::Call(patched(*c, first))),
        _ => if v.get(key(1, 1)) is None {
            fail(KindV::MissingKey(key(1, 1)), v)
        } else if env.steps == 0 {
            exhausted(v)
        } else {
            let inner = env.step();
            let stated = check_identity(v.get(key(1, 1))->0, zid(7), inner);
            let named = get_reference(v.get(key(7, 1))->0, inner);
            let as_type = parse_typed_list_type(v, inner);
            let fv = match named {
                Ok((_, f)) => f,
                Err((_, f)) => f,
            };
            let evaluated = eval(fv, inner);
            let parsed = parse_function(evaluated->Ok_0, inner);
            let function = parsed->Ok_0;
            let args = collect_args(
                v,
                function.identity,
                function.arguments.len(),
                first,
                0,
                Seq::empty(),
            );
            if stated is Err {
                Err((stated->Err_0.0.inside_key(key(1, 1)), v))
            } else if v.get(key(7, 1)) is None {
                fail(KindV::MissingKey(key(7, 1)), v)
            } else if named is Ok && named->Ok_0.0 == zid(881) && as_type is Ok {
                Ok(CallOrTypeV::Type(TypeV::TypedList(Box::new(as_type->Ok_0))))
            } else if evaluated is Err {
                Err((evaluated->Err_0.0.inside_key(key(7, 1)), v))
            } else if parsed is Err {
                Err((parsed->Err_0.0.inside_key(key(7, 1)), v))
            } else if function.arguments.len() >= u32::MAX {
                fail(KindV::TooManyArgsInFunction, v)
            } else if args is Err {
                Err((args->Err_0, v))
            } else {
                Ok(CallOrTypeV::Call(CallV { function, args: args->Ok_0 }))
            }
        },
    }
}

/// How many of the three implementation slots a record fills.
pub open spec fn filled_slots(v: Val) -> nat {
    (if v.get(key(14, 2)) is Some {
        1nat
    } else {
        0nat
    }) + (if v.get(key(14, 3)) is Some {
        1nat
    } else {
        0nat
    }) + (if v.get(key(14, 4)) is Some {
        1nat
    } else {
        0nat
    })
}

pub open spec fn parse_implementation(v: Val, env: Env) -> Outcome<ImplV>
    decreases env.steps, 0nat,
{
    match v {
        Val::Implementation(i) => Ok(*i),
        _ => if env.steps == 0 {
            exhausted(v)
        } else {
            match check_z1k1(v, zid(14), env.step()) {
                Err(e) => Err((e, v)),
                Ok(_) => match v.get(key(14, 1)) {
                    None => fail(KindV::MissingKey(key(14, 1)), v),
                    Some(function) => if filled_slots(v) >= 2 {
                        fail(KindV::ExpectOnlyOneImplementation, v)
                    } else if v.get(key(14, 2)) is Some {
                        Ok(ImplV { function, kind: ImplKindV::Composition(v.get(key(14, 2))->0) })
                    } else if v.get(key(14, 3)) is Some {
                        Ok(ImplV { function, kind: ImplKindV::Code(v.get(key(14, 3))->0) })
                    } else if v.get(key(14, 4)) is Some {
                        Ok(ImplV { function, kind: ImplKindV::Builtin(v.get(key(14, 4))->0) })
                    } else {
                        fail(KindV::ExpectOneImplementionFoundZero, v)
                    },
                },
            }
        },
    }
}

pub open spec fn parse_argument_reference(v: Val, env: Env) -> Outcome<KeyIndex>
    decreases env.steps, 0nat,
{
    match v {
        Val::ArgumentReference(k) => Ok(k),
        _ => if env.steps == 0 {
            exhausted(v)
        } else {
            match check_z1k1(v, zid(18), env.step()) {
                Err(e) => Err((e, v)),
                Ok(_) => match v.get(key(18, 1)) {
                    None => fail(KindV::MissingKey(key(18, 1)), v),
                    Some(c) => match eval(c, env.step()) {
                        Err((e, _)) => Err((e.inside_key(key(18, 1)), v)),
                        Ok(ev) => match parse_string(ev, env.step()) {
                            Err((e, _)) => Err((e.inside_key(key(18, 1)), v)),
                            Ok(s) => match KeyIndex::parse(s) {
                                Ok(k) => Ok(k),
                                Err(pe) => Err(
                                    (
                                        ErrV::of(KindV::ParseKeyIndex(pe)).inside_key(key(18, 1)),
                                        v,
                                    ),
                                ),
                            },
                        },
                    },
                },
            }
        },
    }
}

pub open spec fn parse_test_case(v: Val, env: Env) -> Outcome<TestV>
    decreases env.steps, 0nat,
{
    match v {
        Val::TestCase(t) => Ok(*t),
        _ => if env.steps == 0 {
            exhausted(v)
        } else {
            match check_z1k1(v, zid(20), env.step()) {
                Err(e) => Err((e, v)),
                Ok(_) => match v.get(key(20, 1)) {
                    None => fail(KindV::MissingKey(key(20, 1)), v),
                    Some(fu) => match eval(fu, env.step()) {
                        Err((e, _)) => Err((e.inside_key(key(20, 1)), v)),
                        Ok(fe) => match parse_function(fe, env.step()) {
                            Err((e, _)) => Err((e.inside_key(key(20, 1)), v)),
                            Ok(function) => if v.get(key(20, 2)) is None {
                                fail(KindV::MissingKey(key(20, 2)), v)
                            } else if v.get(key(20, 3)) is None {
                                fail(KindV::MissingKey(key(20, 3)), v)
                            } else {
                                Ok(
                                    TestV {
                                        function,
                                        call: v.get(key(20, 2))->0,
                                        validation: v.get(key(20, 3))->0,
                                    },
                                )
                            },
                        },
                    },
                },
            }
        },
    }
}

/// The entries of the implementation list from position `i` on, each
/// evaluated and read as an implementation, added to `acc`.
pub open spec fn parse_implementations(items: Seq<Val>, env: Env, i: int, acc: Seq<ImplV>) -> Result<
    Seq<ImplV>,
    ErrV,
>
    decreases env.steps, items.len() - i + 1,
{
    if i < 0 || i >= items.len() {
        Ok(acc)
    } else {
        match eval(items[i], env) {
            Err((e, _)) => Err(e.inside_list(i as usize).inside_key(key(8, 4))),
            Ok(ev) => match parse_implementation(ev, env) {
                Err((e, _)) => Err(e.inside_list(i as usize).inside_key(key(8, 4))),
                Ok(imp) => parse_implementations(items, env, i + 1, acc.push(imp)),
            },
        }
    }
}

/// The implementation by which a call of `f` is reduced.
pub open spec fn pick_implementation(f: FnV, env: Env) -> Result<ImplV, ErrV>
    decreases env.steps, 0nat,
{
    if env.steps == 0 {
        Err(ErrV::of(KindV::StepBudgetExceeded))
    } else {
        match parse_implementations(f.implementations.entries, env.step(), 0, Seq::empty()) {
            Err(e) => Err(e),
            Ok(impls) => preferred(impls, f.identity),
        }
    }
}

/// One reduction of a function call, driven to a final value.
pub open spec fn eval_call(c: CallV, env: Env) -> Outcome<Val>
    decreases env.steps, 0nat,
{
    let v = Val::FunctionCall(Box::new(c));
    let function = c.function.identity;
    if env.depth == 0 {
        fail(KindV::RecursedTooDeep, v)
    } else if env.steps == 0 {
        exhausted(v)
    } else {
        match pick_implementation(c.function, env.call()) {
            Err(e) => Err((e.inside_key(key(7, 1)), v)),
            Ok(imp) => match imp.kind {
                ImplKindV::Composition(body) => match substitute(body, c.args) {
                    Err(e) => Err((e.traced(TraceV::Substituted(function)), v)),
                    Ok(sub) => match eval(sub, env.call()) {
                        Ok(r) => Ok(r),
                        Err((e, _)) => Err((e.traced(TraceV::Substituted(function)), v)),
                    },
                },
                ImplKindV::Code(_) => fail(
                    KindV::Unimplemented("code impl for "@ + function.text()),
                    v,
                ),
                ImplKindV::Builtin(_) => match dispatch(function, c, env.call()) {
                    Ok(r) => Ok(r),
                    Err(e) => Err(
                        (e.traced(TraceV::ProcessingNonCompositionFunction(function)), v),
                    ),
                },
            },
        }
    }
}

/// The arguments of `c` from position `i` on, evaluated and added to `acc`.
pub open spec fn eval_args(c: CallV, env: Env, i: int, acc: Seq<Val>) -> Result<Seq<Val>, ErrV>
    decreases env.steps, c.args.len() - i + 1,
{
    if i < 0 || i >= c.args.len() {
        Ok(acc)
    } else {
        match eval(c.args[i], env) {
            Err((e, _)) => Err(e.inside_key(c.arg_key(i))),
            Ok(r) => eval_args(c, env, i + 1, acc.push(r)),
        }
    }
}

/// The builtin `function` applied to the arguments of `c`.
pub open spec fn dispatch(function: Zid, c: CallV, env: Env) -> Result<Val, ErrV>
    decreases env.steps, 0nat,
{
    if env.steps == 0 {
        Err(ErrV::of(KindV::StepBudgetExceeded))
    } else {
        match eval_args(c, env.step(), 0, Seq::empty()) {
            Err(e) => Err(e),
            Ok(a) => if function == zid(802) {
                if a.len() != 3 {
                    Err(arity_error(a.len(), 3))
                } else {
                    match parse_boolean(a[0], env.step()) {
                        Err((e, _)) => Err(e),
                        Ok(b) => Ok(if_function(b, a[1], a[2])),
                    }
                }
            } else if function == zid(811) {
                if a.len() != 1 {
                    Err(arity_error(a.len(), 1))
                } else {
                    match parse_typed_list(a[0]) {
                        Err((e, _)) => Err(e),
                        Ok(l) => first_element(l, env.step()),
                    }
                }
            } else if function == zid(844) {
                if a.len() != 2 {
                    Err(arity_error(a.len(), 2))
                } else {
                    match parse_boolean(a[1], env.step()) {
                        Err((e, _)) => Err(e),
                        Ok(b2) => match parse_boolean(a[0], env.step()) {
                            Err((e, _)) => Err(e),
                            Ok(b1) => Ok(Val::Boolean(b1 == b2)),
                        },
                    }
                }
            } else if function == zid(866) {
                if a.len() != 2 {
                    Err(arity_error(a.len(), 2))
                } else {
                    match parse_string(a[1], env.step()) {
                        Err((e, _)) => Err(e),
                        Ok(s2) => match parse_string(a[0], env.step()) {
                            Err((e, _)) => Err(e),
                            Ok(s1) => Ok(Val::Boolean(s1 == s2)),
                        },
                    }
                }
            } else if function == zid(889) {
                if a.len() != 3 {
                    Err(arity_error(a.len(), 3))
                } else {
                    match parse_function(a[2], env.step()) {
                        Err((e, _)) => Err(e),
                        Ok(f) => match parse_typed_list(a[1]) {
                            Err((e, _)) => Err(e),
                            Ok(l2) => match parse_typed_list(a[0]) {
                                Err((e, _)) => Err(e),
                                Ok(l1) => list_equality(l1, l2, f, env.step()),
                            },
                        },
                    }
                }
            } else {
                Err(ErrV::of(KindV::NoBuiltin(function)))
            },
        }
    }
}

/// The branch that the condition selects, as it is.  The builtin is given
/// evaluated arguments, so the branch needs no further evaluation.
pub open spec fn if_function(cond: bool, then: Val, otherwise: Val) -> Val {
    if cond {
        then
    } else {
        otherwise
    }
}

/// Whether the type that `v` states is the type `ty`.  The type `Z1`
/// admits every value.
pub open spec fn check_type_compatibility(v: Val, ty: TypeV, env: Env) -> Result<(), ErrV>
    decreases env.steps, 0nat,
{
    if ty is Standard && ty->Standard_0.identity == zid(1) {
        Ok(())
    } else {
        match v.get(key(1, 1)) {
            None => Err(ErrV::of(KindV::MissingKey(key(1, 1)))),
            Some(t) => if env.steps == 0 {
                Err(ErrV::of(KindV::StepBudgetExceeded))
            } else {
                match eval(t, env.step()) {
                    Err((e, _)) => Err(e),
                    Ok(te) => match parse_type_generic(te, env.step()) {
                        Err((e, _)) => Err(e),
                        Ok(this_type) => match equal(
                            Val::Type(Box::new(this_type)),
                            Val::Type(Box::new(ty)),
                            env.step(),
                        ) {
                            Ok(true) => Ok(()),
                            Ok(false) => Err(ErrV::of(KindV::TypeDoesNotMatch)),
                            Err(e) => Err(e),
                        },
                    },
                }
            },
        }
    }
}

/// The entry at position `i` of a list, evaluated and checked against the
/// element type.
pub open spec fn checked_entry(l: ListV, i: int, env: Env) -> Result<Val, ErrV>
    decreases env.steps, 0nat,
{
    if i < 0 || i >= l.entries.len() {
        Err(ErrV::of(KindV::CantGetHeadOfEmptyList))
    } else if env.steps == 0 {
        Err(ErrV::of(KindV::StepBudgetExceeded))
    } else {
        match eval(l.entries[i], env.step()) {
            Err((e, _)) => Err(e),
            Ok(head) => match l.elem_type {
                ElemTypeV::Unchecked(_) => Err(
                    ErrV::of(KindV::Unimplemented("checking against an unrefined type"@)),
                ),
                ElemTypeV::Valid(ty) => match check_type_compatibility(head, ty, env.step()) {
                    Err(e) => Err(e),
                    Ok(_) => Ok(head),
                },
            },
        }
    }
}

/// The head of a list, evaluated and checked against the element type.
pub open spec fn first_element(l: ListV, env: Env) -> Result<Val, ErrV>
    decreases env.steps, 1nat,
{
    checked_entry(l, 0, env)
}

/// The head of a list and its tail.  With an environment the head is
/// evaluated and checked against the element type.
pub open spec fn split_first(l: ListV, env: Option<Env>) -> Result<(Val, ListV), (ErrV, ListV)> {
    match env {
        None => if l.entries.len() == 0 {
            Err((ErrV::of(KindV::CantGetHeadOfEmptyList), l))
        } else {
            Ok((l.entries[0], l.tail()))
        },
        Some(env) => match first_element(l, env) {
            Err(e) => Err((e, l)),
            Ok(head) => Ok((head, l.tail())),
        },
    }
}

/// Whether `f` holds of each pair of entries from position `i` on.
pub open spec fn entries_equal(l1: ListV, l2: ListV, f: FnV, env: Env, i: int) -> Result<bool, ErrV>
    decreases env.steps, l1.entries.len() - i + 1,
{
    if i < 0 || i >= l1.entries.len() {
        Ok(true)
    } else {
        match checked_entry(l1, i, env) {
            Err(e) => Err(e),
            Ok(e1) => match checked_entry(l2, i, env) {
                Err(e) => Err(e),
                Ok(e2) => match eval_call(CallV { function: f, args: seq![e1, e2] }, env) {
                    Err((e, _)) => Err(e),
                    Ok(r) => match parse_boolean(r, env) {
                        Err((e, _)) => Err(e),
                        Ok(b) => if !b {
                            Ok(false)
                        } else {
                            entries_equal(l1, l2, f, env, i + 1)
                        },
                    },
                },
            },
        }
    }
}

/// Two lists are equal if they are equally long and `f` holds of each pair
/// of entries; `f` is not asked once the answer is known.
pub open spec fn list_equality(l1: ListV, l2: ListV, f: FnV, env: Env) -> Result<Val, ErrV>
    decreases env.steps, 0nat,
{
    if l1.entries.len() != l2.entries.len() {
        Ok(Val::Boolean(false))
    } else if env.steps == 0 {
        Err(ErrV::of(KindV::StepBudgetExceeded))
    } else {
        match entries_equal(l1, l2, f, env.step(), 0) {
            Err(e) => Err(e),
            Ok(b) => Ok(Val::Boolean(b)),
        }
    }
}

/// Whether two evaluated values agree under each key from position `i` on.
pub open spec fn children_equal(a: Val, b: Val, keys: Seq<KeyIndex>, env: Env, i: int) -> Result<
    bool,
    ErrV,
>
    decreases env.steps, keys.len() - i + 1,
{
    if i < 0 || i >= keys.len() {
        Ok(true)
    } else {
        match (a.get(keys[i]), b.get(keys[i])) {
            (Some(x), Some(y)) => match equal(x, y, env) {
                Err(e) => Err(e.inside_key(keys[i])),
                Ok(false) => Ok(false),
                Ok(true) => children_equal(a, b, keys, env, i + 1),
            },
            _ => Ok(false),
        }
    }
}

/// Whether two values denote the same thing.  Values that are the same are
/// equal; final values that differ are not.  Otherwise both are evaluated:
/// what they evaluate to is judged in the same way, and where that does
/// not settle it, key by key.
pub open spec fn equal(a: Val, b: Val, env: Env) -> Result<bool, ErrV>
    decreases env.steps, 0nat,
{
    if a == b {
        Ok(true)
    } else if a.is_final() && b.is_final() {
        Ok(false)
    } else if env.steps == 0 {
        Err(ErrV::of(KindV::StepBudgetExceeded))
    } else {
        match eval(a, env.step()) {
            Err((e, _)) => Err(e),
            Ok(fa) => match eval(b, env.step()) {
                Err((e, _)) => Err(e),
                Ok(fb) => if fa == fb {
                    Ok(true)
                } else if fa.is_final() && fb.is_final() {
                    Ok(false)
                } else if fa.keys() != fb.keys() {
                    Ok(false)
                } else {
                    children_equal(fa, fb, fa.keys(), env.step(), 0)
                },
            },
        }
    }
}

/// The validation of a test case as a call that takes `first` as its first
/// argument.
pub open spec fn patched_validation_call(t: TestV, first: Val, env: Env) -> Result<CallV, ErrV>
    decreases env.steps, 0nat,
{
    if env.steps == 0 {
        Err(ErrV::of(KindV::StepBudgetExceeded))
    } else {
        match parse_call(t.validation, env.step(), Some(first)) {
            Ok(CallOrTypeV::Call(c)) => Ok(c),
            Ok(CallOrTypeV::Type(_)) => Err(ErrV::of(KindV::ExpectedFunctionCallGotType)),
            Err((e, _)) => Err(e),
        }
    }
}

/// A test passes if the validation, given the result of the call, is true.
pub open spec fn run_test(t: TestV, env: Env) -> Result<(), ErrV>
    decreases env.steps, 0nat,
{
    if env.steps == 0 {
        Err(ErrV::of(KindV::StepBudgetExceeded))
    } else {
        match eval(t.call, env.step()) {
            Err((e, _)) => Err(e.inside_key(key(20, 2))),
            Ok(result) => match patched_validation_call(t, result, env.step()) {
                Err(e) => Err(e),
                Ok(c) => match eval_call(c, env.step()) {
                    Err((e, _)) => Err(e.traced(TraceV::CheckingTestCaseResult(result))),
                    Ok(r) => match parse_boolean(r, env.step()) {
                        Err((e, _)) => Err(e),
                        Ok(true) => Ok(()),
                        Ok(false) => Err(ErrV::of(KindV::TestCaseFailedWithFalse(result))),
                    },
                },
            },
        }
    }
}

} // verus!
