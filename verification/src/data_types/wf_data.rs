//! The union of all shapes.
use vstd::prelude::*;
use std::rc::Rc;
use crate::data_types::{
    MaybeEvaluated, WfArgumentReference, WfBoolean, WfFunction, WfFunctionCall, WfImplementation,
    WfInvalid, WfReference, WfString, WfTestCase, WfTypedList, WfUntyped,
};
use crate::data_types::same::same;
use crate::data_types::types_def::{WfStandardType, WfTypeGeneric};
use crate::data_types::view::{checked, entries, optional, parsed, share};
use crate::data_types::wf_data_type::WfDataType;
use crate::eval_error::{EvalError, EvalErrorKind};
use crate::execution_context::ExecutionContext;
use crate::key_index::{key_at, KeyIndex};
use crate::model::Val;
use crate::semantics::{
    check_identity, check_type_by_zid, check_type_compatibility, check_z1k1, children_equal, equal,
    eval, get_reference, identity_of, parse_type, type_zid,
};
use crate::zid::{object, Zid};

verus! {

/// A value of the object language.  Cloning shares the payload.
#[derive(Debug)]
pub enum WfData {
    WfBoolean(WfBoolean),
    WfReference(WfReference),
    WfString(WfString),
    WfUntyped(WfUntyped),
    WfType(WfTypeGeneric),
    WfInvalid(WfInvalid),
    WfFunction(WfFunction),
    WfFunctionCall(WfFunctionCall),
    WfImplementation(WfImplementation),
    WfArgumentReference(WfArgumentReference),
    WfTestCase(WfTestCase),
    WfTypedList(WfTypedList),
}

impl Clone for WfData {
    fn clone(&self) -> (r: Self)
        ensures
            r == *self,
        decreases self,
    {
        match self {
            WfData::WfBoolean(d) => WfData::WfBoolean(d.clone()),
            WfData::WfReference(d) => WfData::WfReference(d.clone()),
            WfData::WfString(d) => WfData::WfString(d.clone()),
            WfData::WfUntyped(d) => WfData::WfUntyped(d.clone()),
            WfData::WfType(d) => WfData::WfType(d.clone()),
            WfData::WfInvalid(d) => WfData::WfInvalid(d.clone()),
            WfData::WfFunction(d) => WfData::WfFunction(d.clone()),
            WfData::WfFunctionCall(d) => WfData::WfFunctionCall(d.clone()),
            WfData::WfImplementation(d) => WfData::WfImplementation(d.clone()),
            WfData::WfArgumentReference(d) => WfData::WfArgumentReference(d.clone()),
            WfData::WfTestCase(d) => WfData::WfTestCase(d.clone()),
            WfData::WfTypedList(d) => WfData::WfTypedList(d.clone()),
        }
    }
}


impl WfData {
    pub fn new_reference(zid: Zid) -> (r: Self)
        ensures
            r@ == Val::Reference(zid),
    {
        WfData::WfReference(WfReference::new(zid))
    }

    /// The raw record of the given entries: sorted by key, a later entry
    /// replacing an earlier one under the same key.
    pub fn from_map(map: Vec<(KeyIndex, WfData)>) -> (r: WfData)
        ensures
            r@ == Val::Untyped(crate::model::normalised(entries(map@), map@.len() as int)),
    {
        WfData::WfUntyped(WfUntyped::new(map))
    }

    /// The placeholder whose evaluation fails with `reason`.
    pub fn unvalid(reason: EvalErrorKind) -> (r: Self)
        ensures
            r@ == Val::Invalid(Box::new(reason@)),
    {
        WfData::WfInvalid(WfInvalid::new(reason))
    }
}

impl WfDataType for WfData {
    open spec fn model(&self) -> Val {
        self@
    }

    fn into_wf_data(self) -> (r: WfData) {
        self
    }

    fn is_fully_realised(&self) -> (r: bool) {
        match self {
            WfData::WfBoolean(d) => d.is_fully_realised(),
            WfData::WfReference(d) => d.is_fully_realised(),
            WfData::WfString(d) => d.is_fully_realised(),
            WfData::WfUntyped(d) => d.is_fully_realised(),
            WfData::WfType(d) => d.is_fully_realised(),
            WfData::WfInvalid(d) => d.is_fully_realised(),
            WfData::WfFunction(d) => d.is_fully_realised(),
            WfData::WfFunctionCall(d) => d.is_fully_realised(),
            WfData::WfImplementation(d) => d.is_fully_realised(),
            WfData::WfArgumentReference(d) => d.is_fully_realised(),
            WfData::WfTestCase(d) => d.is_fully_realised(),
            WfData::WfTypedList(d) => d.is_fully_realised(),
        }
    }

    fn get_identity_zid_key(&self) -> (r: Option<KeyIndex>) {
        match self {
            WfData::WfBoolean(d) => d.get_identity_zid_key(),
            WfData::WfReference(d) => d.get_identity_zid_key(),
            WfData::WfString(d) => d.get_identity_zid_key(),
            WfData::WfUntyped(d) => d.get_identity_zid_key(),
            WfData::WfType(d) => d.get_identity_zid_key(),
            WfData::WfInvalid(d) => d.get_identity_zid_key(),
            WfData::WfFunction(d) => d.get_identity_zid_key(),
            WfData::WfFunctionCall(d) => d.get_identity_zid_key(),
            WfData::WfImplementation(d) => d.get_identity_zid_key(),
            WfData::WfArgumentReference(d) => d.get_identity_zid_key(),
            WfData::WfTestCase(d) => d.get_identity_zid_key(),
            WfData::WfTypedList(d) => d.get_identity_zid_key(),
        }
    }

    fn get_key(&self, key: KeyIndex) -> (r: Option<WfData>) {
        match self {
            WfData::WfBoolean(d) => d.get_key(key),
            WfData::WfReference(d) => d.get_key(key),
            WfData::WfString(d) => d.get_key(key),
            WfData::WfUntyped(d) => d.get_key(key),
            WfData::WfType(d) => d.get_key(key),
            WfData::WfInvalid(d) => d.get_key(key),
            WfData::WfFunction(d) => d.get_key(key),
            WfData::WfFunctionCall(d) => d.get_key(key),
            WfData::WfImplementation(d) => d.get_key(key),
            WfData::WfArgumentReference(d) => d.get_key(key),
            WfData::WfTestCase(d) => d.get_key(key),
            WfData::WfTypedList(d) => d.get_key(key),
        }
    }

    fn list_keys(&self) -> (r: Vec<KeyIndex>) {
        match self {
            WfData::WfBoolean(d) => d.list_keys(),
            WfData::WfReference(d) => d.list_keys(),
            WfData::WfString(d) => d.list_keys(),
            WfData::WfUntyped(d) => d.list_keys(),
            WfData::WfType(d) => d.list_keys(),
            WfData::WfInvalid(d) => d.list_keys(),
            WfData::WfFunction(d) => d.list_keys(),
            WfData::WfFunctionCall(d) => d.list_keys(),
            WfData::WfImplementation(d) => d.list_keys(),
            WfData::WfArgumentReference(d) => d.list_keys(),
            WfData::WfTestCase(d) => d.list_keys(),
            WfData::WfTypedList(d) => d.list_keys(),
        }
    }
}


/// Whether two sequences of keys are the same.
fn same_keys(a: &Vec<KeyIndex>, b: &Vec<KeyIndex>) -> (r: bool)
    ensures
        r == (a@ == b@),
{
    if a.len() != b.len() {
        return false;
    }
    let mut i: usize = 0;
    while i < a.len()
        invariant
            i <= a.len(),
            a.len() == b.len(),
            forall|j: int| 0 <= j < i ==> a@[j] == b@[j],
        decreases a.len() - i,
    {
        if !(a[i] == b[i]) {
            return false;
        }
        i += 1;
    }
    assert(a@ =~= b@);
    true
}

impl WfData {
    /// The value under `key`, or the error that names the missing key.
    pub fn get_key_err(&self, key: KeyIndex) -> (r: Result<WfData, EvalError>)
        ensures
            checked(r) == self@.get_err(key),
    {
        match self.get_key(key) {
            Some(data) => Ok(data),
            None => Err(EvalError::missing_key(key)),
        }
    }

    /// Reduces the value to its final form: pointers are followed, raw
    /// records refined, function calls reduced.
    pub fn evaluate(self, context: &ExecutionContext) -> (r: Result<WfData, (EvalError, WfData)>)
        ensures
            parsed(r) == eval(self@, context@),
        decreases context@.steps, 0nat,
    {
        match &self {
            WfData::WfReference(reference) => {
                let to = reference.to;
                let inner = match context.step() {
                    Ok(c) => c,
                    Err(e) => {
                        return Err((e, self));
                    },
                };
                match context.get_global().get_object_value(&to) {
                    Err(e) => Err((e, self)),
                    Ok(object) => match object.evaluate(&inner) {
                        Ok(v) => Ok(v),
                        Err((e, _)) => Err((e.inside_reference_to(to), self)),
                    },
                }
            },
            WfData::WfUntyped(untyped) => {
                assert(self@ == Val::Untyped(untyped@));
                let inner = match context.step() {
                    Ok(c) => c,
                    Err(e) => {
                        return Err((e, self));
                    },
                };
                untyped.clone().evaluate_inner(&inner, true)
            },
            WfData::WfFunctionCall(call) => {
                assert(self@ == Val::FunctionCall(Box::new(call@)));
                let inner = match context.step() {
                    Ok(c) => c,
                    Err(e) => {
                        return Err((e, self));
                    },
                };
                call.clone().evaluate(&inner)
            },
            WfData::WfTypedList(list) => {
                let element: &MaybeEvaluated = &list.inner_type;
                match element {
                    MaybeEvaluated::Valid(_) => Ok(self),
                    MaybeEvaluated::Unchecked(t) => {
                        assert(list@.elem_type == crate::model::ElemTypeV::Unchecked(t@));
                        assert(self@ == Val::TypedList(Box::new(list@)));
                        let inner = match context.step() {
                            Ok(c) => c,
                            Err(e) => {
                                return Err((e, self));
                            },
                        };
                        let evaluated = match t.clone().evaluate(&inner) {
                            Ok(v) => v,
                            Err((e, _)) => {
                                return Err((e.inside_key(key_at(1, 1)), self));
                            },
                        };
                        let checked_type = match WfTypeGeneric::parse(evaluated, &inner) {
                            Ok(v) => v,
                            Err((e, _)) => {
                                return Err((e.inside_key(key_at(1, 1)), self));
                            },
                        };
                        let refined = WfTypedList {
                            entries: share(&list.entries),
                            inner_type: Rc::new(MaybeEvaluated::Valid(checked_type)),
                            start_position: list.start_position,
                        };
                        assert(refined@ == (crate::model::ListV {
                            elem_type: crate::model::ElemTypeV::Valid(checked_type@),
                            entries: list@.entries,
                        }));
                        Ok(WfData::WfTypedList(refined))
                    },
                }
            },
            WfData::WfInvalid(invalid) => {
                assert(self@ == Val::Invalid(Box::new(invalid.reason@)));
                let e = EvalError::from_kind(invalid.reason.clone());
                Err((e, self))
            },
            _ => Ok(self),
        }
    }

    /// The target of a pointer, with the value as far as it was refined.
    pub fn get_reference(self, context: &ExecutionContext) -> (r: Result<
        (Zid, WfData),
        (EvalError, WfData),
    >)
        ensures
            parsed(r) == get_reference(self@, context@),
        decreases context@.steps, 0nat,
    {
        match &self {
            WfData::WfReference(reference) => {
                let to = reference.to;
                Ok((to, self))
            },
            WfData::WfUntyped(untyped) => {
                let inner = match context.step() {
                    Ok(c) => c,
                    Err(e) => {
                        return Err((e, self));
                    },
                };
                match untyped.clone().evaluate_inner(&inner, false) {
                    Err(x) => Err(x),
                    Ok(this) => Err((EvalError::from_kind(EvalErrorKind::NotAReference), this)),
                }
            },
            _ => Err((EvalError::from_kind(EvalErrorKind::NotAReference), self)),
        }
    }

    /// The value as a type.
    pub fn parse_type(self, context: &ExecutionContext) -> (r: Result<
        WfTypeGeneric,
        (EvalError, WfData),
    >)
        ensures
            parsed(r) == parse_type(self@, context@),
        decreases context@.steps, 0nat,
    {
        match self {
            WfData::WfType(ready) => Ok(ready),
            other => {
                let inner = match context.step() {
                    Ok(c) => c,
                    Err(e) => {
                        return Err((e, other));
                    },
                };
                match other.clone().evaluate(&inner) {
                    Err((e, _)) => Err((e, other)),
                    Ok(evaluated) => match WfTypeGeneric::parse(evaluated, &inner) {
                        Err((e, _)) => Err((e, other)),
                        Ok(t) => Ok(t),
                    },
                }
            },
        }
    }

    /// The object that this type is.  A pointer to a well-known object is
    /// taken at its word.
    pub fn get_type_zid(self, context: &ExecutionContext) -> (r: Result<
        (Zid, WfData),
        (EvalError, WfData),
    >)
        ensures
            parsed(r) == type_zid(self@, context@),
        decreases context@.steps, 0nat,
    {
        if let WfData::WfReference(reference) = &self {
            let to = reference.to;
            if to.well_known() {
                return Ok((to, self));
            }
        }
        let inner = match context.step() {
            Ok(c) => c,
            Err(e) => {
                return Err((e, self));
            },
        };
        match self.parse_type(&inner) {
            Err(x) => Err(x),
            Ok(t) => match t.get_type_zid() {
                Ok(zid) => Ok((zid, WfData::WfType(t))),
                Err(e) => Err((e, WfData::WfType(t))),
            },
        }
    }

    /// The type, if it is the object `expected_zid`.
    pub fn check_type_by_zid(self, expected_zid: Zid, context: &ExecutionContext) -> (r: Result<
        WfData,
        (EvalError, WfData),
    >)
        ensures
            parsed(r) == check_type_by_zid(self@, expected_zid, context@),
        decreases context@.steps, 0nat,
    {
        let inner = match context.step() {
            Ok(c) => c,
            Err(e) => {
                return Err((e, self));
            },
        };
        match self.get_type_zid(&inner) {
            Err(x) => Err(x),
            Ok((got_zid, value)) => {
                if expected_zid != got_zid {
                    Err(
                        (
                            EvalError::from_kind(EvalErrorKind::WrongType(got_zid, expected_zid)),
                            value,
                        ),
                    )
                } else {
                    Ok(value)
                }
            },
        }
    }

    /// The object that the value says it is under `identity_key`.
    pub fn get_identity_zid(&self, context: &ExecutionContext, identity_key: KeyIndex) -> (r:
        Result<Zid, EvalError>)
        ensures
            checked(r) == identity_of(self@, identity_key, context@),
        decreases context@.steps, 0nat,
    {
        let identity_value = match self.get_key(identity_key) {
            Some(v) => v,
            None => {
                return Err(EvalError::missing_key(identity_key));
            },
        };
        if let WfData::WfReference(reference) = &identity_value {
            return Ok(reference.to);
        }
        let inner = match context.step() {
            Ok(c) => c,
            Err(e) => {
                return Err(e);
            },
        };
        match identity_value.get_reference(&inner) {
            Ok((zid, _)) => Ok(zid),
            Err((_, consumed)) => match consumed.get_identity_zid(&inner, identity_key) {
                Ok(zid) => Ok(zid),
                Err(e) => Err(e.inside_key(identity_key)),
            },
        }
    }

    /// The value as far as the check reduced it, if the value is the
    /// object `expected_value`.
    pub fn check_identity_zid(self, context: &ExecutionContext, expected_value: Zid) -> (r: Result<
        WfData,
        (EvalError, WfData),
    >)
        ensures
            parsed(r) == check_identity(self@, expected_value, context@),
        decreases context@.steps, 0nat,
    {
        let inner = match context.step() {
            Ok(c) => c,
            Err(e) => {
                return Err((e, self));
            },
        };
        let consumed = match self.get_reference(&inner) {
            Ok((reference, consumed)) => {
                if reference == expected_value {
                    return Ok(consumed);
                }
                consumed
            },
            Err((_, consumed)) => consumed,
        };
        let evaluated = match consumed.evaluate(&inner) {
            Ok(v) => v,
            Err(x) => {
                return Err(x);
            },
        };
        let identity_key = match evaluated.get_identity_zid_key() {
            Some(k) => k,
            None => {
                return Err((EvalError::from_kind(EvalErrorKind::NoIdentity), evaluated));
            },
        };
        let gotten = match evaluated.get_identity_zid(&inner, identity_key) {
            Ok(zid) => zid,
            Err(e) => {
                return Err((e, evaluated));
            },
        };
        if gotten != expected_value {
            Err((EvalError::from_kind(EvalErrorKind::WrongType(gotten, expected_value)), evaluated))
        } else {
            Ok(evaluated)
        }
    }

    /// Checks that the type under `Z1K1` is the object `expected_value`.
    pub fn check_z1k1(&self, expected_value: Zid, context: &ExecutionContext) -> (r: Result<
        (),
        EvalError,
    >)
        ensures
            checked(r) == check_z1k1(self@, expected_value, context@),
        decreases context@.steps, 0nat,
    {
        let stated = match self.get_key(key_at(1, 1)) {
            Some(t) => t,
            None => {
                return Err(EvalError::missing_key(key_at(1, 1)));
            },
        };
        let inner = match context.step() {
            Ok(c) => c,
            Err(e) => {
                return Err(e);
            },
        };
        match stated.check_identity_zid(&inner, expected_value) {
            Ok(_) => Ok(()),
            Err((e, data)) => match WfStandardType::parse(data, &inner) {
                Ok(_) => Err(e.inside_key(key_at(1, 1))),
                Err((e2, _)) => Err(e2.inside_key(key_at(1, 1))),
            },
        }
    }

    /// Checks that the type which the value states is `expected`.
    pub fn check_type_compatibility(&self, expected: WfTypeGeneric, context: &ExecutionContext) -> (r:
        Result<(), EvalError>)
        ensures
            checked(r) == check_type_compatibility(self@, expected@, context@),
        decreases context@.steps, 0nat,
    {
        if let WfTypeGeneric::WfStandardType(standard) = &expected {
            if standard.inner.identity_ref == object(1) {
                return Ok(());
            }
        }
        let stated = match self.get_key(key_at(1, 1)) {
            Some(t) => t,
            None => {
                return Err(EvalError::missing_key(key_at(1, 1)));
            },
        };
        let inner = match context.step() {
            Ok(c) => c,
            Err(e) => {
                return Err(e);
            },
        };
        let evaluated = match stated.evaluate(&inner) {
            Ok(v) => v,
            Err((e, _)) => {
                return Err(e);
            },
        };
        let this_type = match WfTypeGeneric::parse(evaluated, &inner) {
            Ok(v) => v,
            Err((e, _)) => {
                return Err(e);
            },
        };
        let ghost this_model = this_type@;
        let ghost expected_model = expected@;
        let mine = WfData::WfType(this_type);
        let theirs = WfData::WfType(expected);
        assert(mine@ == Val::Type(Box::new(this_model)));
        assert(theirs@ == Val::Type(Box::new(expected_model)));
        match mine.equality(theirs, &inner) {
            Ok(true) => Ok(()),
            Ok(false) => Err(EvalError::from_kind(EvalErrorKind::TypeDoesNotMatch)),
            Err(e) => Err(e),
        }
    }

    /// Whether two values denote the same thing.
    #[verifier::loop_isolation(false)]
    pub fn equality(self, other: WfData, context: &ExecutionContext) -> (r: Result<bool, EvalError>)
        ensures
            checked(r) == equal(self@, other@, context@),
        decreases context@.steps, 0nat,
    {
        if same(&self, &other) {
            return Ok(true);
        }
        if self.is_fully_realised() && other.is_fully_realised() {
            return Ok(false);
        }
        let inner = match context.step() {
            Ok(c) => c,
            Err(e) => {
                return Err(e);
            },
        };
        let first = match self.evaluate(&inner) {
            Ok(v) => v,
            Err((e, _)) => {
                return Err(e);
            },
        };
        let second = match other.evaluate(&inner) {
            Ok(v) => v,
            Err((e, _)) => {
                return Err(e);
            },
        };
        if same(&first, &second) {
            return Ok(true);
        }
        if first.is_fully_realised() && second.is_fully_realised() {
            return Ok(false);
        }
        let keys = first.list_keys();
        let keys_second = second.list_keys();
        if !same_keys(&keys, &keys_second) {
            return Ok(false);
        }
        let n = keys.len();
        let mut i: usize = 0;
        while i < n
            invariant
                i <= n,
                n == keys@.len(),
                inner@ == context@.step(),
                context@.steps > 0,
                children_equal(first@, second@, keys@, inner@, 0) == children_equal(
                    first@,
                    second@,
                    keys@,
                    inner@,
                    i as int,
                ),
            decreases n - i,
        {
            let k = keys[i];
            let under_first = first.get_key(k);
            let under_second = second.get_key(k);
            assert(optional(under_first) == first@.get(keys@[i as int]));
            assert(optional(under_second) == second@.get(keys@[i as int]));
            match (under_first, under_second) {
                (Some(x), Some(y)) => match x.equality(y, &inner) {
                    Err(e) => {
                        return Err(e.inside_key(k));
                    },
                    Ok(false) => {
                        return Ok(false);
                    },
                    Ok(true) => {},
                },
                _ => {
                    return Ok(false);
                },
            }
            i += 1;
        }
        Ok(true)
    }
}

} // verus!
