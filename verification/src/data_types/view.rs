//! The model of each executable shape.
use vstd::prelude::*;
use std::rc::Rc;
use crate::data_types::{
    FunctionCallOrType, ImplementationByKind, MaybeEvaluated, WfArgumentReference, WfBoolean,
    WfData, WfFunction, WfFunctionCall, WfImplementation, WfString, WfTestCase, WfTypedList,
    WfUntyped,
};
use crate::data_types::types_def::{WfStandardType, WfTypedListType, WfTypeGeneric};
use crate::eval_error::{EvalError, EvalErrorKind, TraceEntry};
use crate::key_index::KeyIndex;
use crate::model::{
    CallV, ElemTypeV, ErrV, FnV, ImplKindV, ImplV, KindV, ListV, Outcome, StdTypeV, TestV, TraceV,
    TypeV, Val,
};
use crate::semantics::CallOrTypeV;
use crate::zid::Zid;

verus! {

/// `Rc::clone`: another handle on the same allocation.
#[verifier::external_body]
pub(crate) fn share<T>(a: &Rc<T>) -> (res: Rc<T>)
    ensures
        res == *a,
{
    Rc::clone(a)
}

/// The model of the value at position `i`.
pub open spec fn value_at(v: Seq<WfData>, i: int) -> Val
    decreases v, 0nat,
{
    if 0 <= i < v.len() {
        v[i]@
    } else {
        Val::Boolean(false)
    }
}

/// The models of the values from position `from` on.
pub open spec fn values_from(v: Seq<WfData>, from: int) -> Seq<Val>
    decreases v, 1nat,
{
    Seq::new(
        if from <= v.len() {
            (v.len() - from) as nat
        } else {
            0nat
        },
        |i: int| value_at(v, from + i),
    )
}

pub open spec fn values(v: Seq<WfData>) -> Seq<Val>
    decreases v, 2nat,
{
    values_from(v, 0)
}

pub open spec fn entry_at(v: Seq<(KeyIndex, WfData)>, i: int) -> (KeyIndex, Val)
    decreases v, 0nat,
{
    if 0 <= i < v.len() {
        (v[i].0, v[i].1@)
    } else {
        (KeyIndex { z: 0, k: 0 }, Val::Boolean(false))
    }
}

pub open spec fn entries(v: Seq<(KeyIndex, WfData)>) -> Seq<(KeyIndex, Val)>
    decreases v, 1nat,
{
    Seq::new(v.len(), |i: int| entry_at(v, i))
}

pub open spec fn optional(v: Option<WfData>) -> Option<Val>
    decreases v,
{
    match v {
        Some(d) => Some(d@),
        None => None,
    }
}

impl View for WfData {
    type V = Val;

    open spec fn view(&self) -> Val
        decreases self,
    {
        match self {
            WfData::WfBoolean(d) => Val::Boolean(d.value),
            WfData::WfReference(d) => Val::Reference(d.to),
            WfData::WfString(d) => Val::Text(d.text@),
            WfData::WfUntyped(d) => Val::Untyped(d@),
            WfData::WfType(d) => Val::Type(Box::new(d@)),
            WfData::WfInvalid(d) => Val::Invalid(Box::new(d.reason@)),
            WfData::WfFunction(d) => Val::Function(Box::new(d@)),
            WfData::WfFunctionCall(d) => Val::FunctionCall(Box::new(d@)),
            WfData::WfImplementation(d) => Val::Implementation(Box::new(d@)),
            WfData::WfArgumentReference(d) => Val::ArgumentReference(d.key_id),
            WfData::WfTestCase(d) => Val::TestCase(Box::new(d@)),
            WfData::WfTypedList(d) => Val::TypedList(Box::new(d@)),
        }
    }
}

impl View for WfString {
    type V = Seq<char>;

    open spec fn view(&self) -> Seq<char> {
        self.text@
    }
}

impl View for WfUntyped {
    type V = Seq<(KeyIndex, Val)>;

    open spec fn view(&self) -> Seq<(KeyIndex, Val)>
        decreases self,
    {
        entries(self.entry@)
    }
}

impl View for WfTypeGeneric {
    type V = TypeV;

    open spec fn view(&self) -> TypeV
        decreases self,
    {
        match self {
            WfTypeGeneric::WfStandardType(t) => TypeV::Standard(t@),
            WfTypeGeneric::WfTypedListType(t) => TypeV::TypedList(Box::new(t@)),
        }
    }
}

impl View for WfStandardType {
    type V = StdTypeV;

    open spec fn view(&self) -> StdTypeV
        decreases self,
    {
        StdTypeV {
            identity: self.inner.identity_ref,
            keys: self.inner.keys@,
            validator: self.inner.validator@,
            equality: optional(self.inner.equality),
            display_function: optional(self.inner.display_function),
            reading_function: optional(self.inner.reading_function),
            type_converters_to_code: optional(self.inner.type_converters_to_code),
            type_converters_from_code: optional(self.inner.type_converters_from_code),
        }
    }
}

impl View for WfTypedListType {
    /// The model is the element type.
    type V = TypeV;

    open spec fn view(&self) -> TypeV
        decreases self,
    {
        (*self.element_type)@
    }
}

impl View for MaybeEvaluated {
    type V = ElemTypeV;

    open spec fn view(&self) -> ElemTypeV
        decreases self,
    {
        match self {
            MaybeEvaluated::Unchecked(d) => ElemTypeV::Unchecked(d@),
            MaybeEvaluated::Valid(t) => ElemTypeV::Valid(t@),
        }
    }
}

impl View for WfTypedList {
    type V = ListV;

    open spec fn view(&self) -> ListV
        decreases self,
    {
        ListV {
            elem_type: (*self.inner_type)@,
            entries: values_from(self.entries@, self.start_position as int),
        }
    }
}

impl View for WfFunction {
    type V = FnV;

    open spec fn view(&self) -> FnV
        decreases self,
    {
        FnV {
            arguments: self.0.arguments@,
            return_type: self.0.return_type@,
            testers: self.0.testers@,
            implementations: self.0.implementations@,
            identity: self.0.identity,
        }
    }
}

impl View for WfFunctionCall {
    type V = CallV;

    open spec fn view(&self) -> CallV
        decreases self,
    {
        CallV { function: self.0.function@, args: values(self.0.args@) }
    }
}

impl View for ImplementationByKind {
    type V = ImplKindV;

    open spec fn view(&self) -> ImplKindV
        decreases self,
    {
        match self {
            ImplementationByKind::Composition(d) => ImplKindV::Composition(d@),
            ImplementationByKind::Code(d) => ImplKindV::Code(d@),
            ImplementationByKind::Builtin(d) => ImplKindV::Builtin(d@),
        }
    }
}

impl View for WfImplementation {
    type V = ImplV;

    open spec fn view(&self) -> ImplV
        decreases self,
    {
        ImplV { function: self.0.function@, kind: self.0.kind@ }
    }
}

impl View for WfTestCase {
    type V = TestV;

    open spec fn view(&self) -> TestV
        decreases self,
    {
        TestV { function: self.0.function@, call: self.0.call@, validation: self.0.validation@ }
    }
}

impl View for EvalErrorKind {
    type V = KindV;

    open spec fn view(&self) -> KindV
        decreases self,
    {
        match self {
            EvalErrorKind::ParseKeyIndex(e) => KindV::ParseKeyIndex(*e),
            EvalErrorKind::MissingKey(k) => KindV::MissingKey(*k),
            EvalErrorKind::NotAReference => KindV::NotAReference,
            EvalErrorKind::WrongType(a, b) => KindV::WrongType(*a, *b),
            EvalErrorKind::IncorrectIdentityForBoolean(z) => KindV::IncorrectIdentityForBoolean(*z),
            EvalErrorKind::MissingPersistentObject(z) => KindV::MissingPersistentObject(*z),
            EvalErrorKind::NotStandardType => KindV::NotStandardType,
            EvalErrorKind::NoIdentity => KindV::NoIdentity,
            EvalErrorKind::TooManyArgsInFunction => KindV::TooManyArgsInFunction,
            EvalErrorKind::WrongTypeZidForType => KindV::WrongTypeZidForType,
            EvalErrorKind::ExpectedTypeGotFunction => KindV::ExpectedTypeGotFunction,
            EvalErrorKind::ExpectOnlyOneImplementation => KindV::ExpectOnlyOneImplementation,
            EvalErrorKind::ExpectOneImplementionFoundZero => KindV::ExpectOneImplementionFoundZero,
            EvalErrorKind::NoImplementationForFunction(z) => KindV::NoImplementationForFunction(*z),
            EvalErrorKind::TooManyArguments(a, b) => KindV::TooManyArguments(*a, *b),
            EvalErrorKind::ArgumentReferenceNoKPart(k) => KindV::ArgumentReferenceNoKPart(*k),
            EvalErrorKind::ArgumentReferenceTooLarge(i) => KindV::ArgumentReferenceTooLarge(*i),
            EvalErrorKind::NoBuiltin(z) => KindV::NoBuiltin(*z),
            EvalErrorKind::ExpectedFunctionCallGotType => KindV::ExpectedFunctionCallGotType,
            EvalErrorKind::TestCaseFailedWithFalse(d) => KindV::TestCaseFailedWithFalse((**d)@),
            EvalErrorKind::CantGetHeadOfEmptyList => KindV::CantGetHeadOfEmptyList,
            EvalErrorKind::TypeDoesNotMatch => KindV::TypeDoesNotMatch,
            EvalErrorKind::Unimplemented(s) => KindV::Unimplemented(s@),
            EvalErrorKind::RecursedTooDeep => KindV::RecursedTooDeep,
            EvalErrorKind::StepBudgetExceeded => KindV::StepBudgetExceeded,
            EvalErrorKind::TestData => KindV::TestData,
        }
    }
}

impl View for TraceEntry {
    type V = TraceV;

    open spec fn view(&self) -> TraceV {
        match self {
            TraceEntry::InsideKey(k) => TraceV::InsideKey(*k),
            TraceEntry::InsideList(p) => TraceV::InsideList(*p),
            TraceEntry::InsideReference(z) => TraceV::InsideReference(*z),
            TraceEntry::Substituted(z) => TraceV::Substituted(*z),
            TraceEntry::ProcessingNonCompositionFunction(z) => {
                TraceV::ProcessingNonCompositionFunction(*z)
            },
            TraceEntry::CheckingTestCaseResult(d) => TraceV::CheckingTestCaseResult(d@),
            TraceEntry::Text(s) => TraceV::Text(s@),
        }
    }
}

impl View for EvalError {
    type V = ErrV;

    open spec fn view(&self) -> ErrV {
        ErrV { kind: self.kind@, trace: trace_view(self.trace@) }
    }
}

impl View for Zid {
    type V = Zid;

    open spec fn view(&self) -> Zid {
        *self
    }
}

impl View for KeyIndex {
    type V = KeyIndex;

    open spec fn view(&self) -> KeyIndex {
        *self
    }
}

impl View for WfBoolean {
    type V = bool;

    open spec fn view(&self) -> bool {
        self.value
    }
}

impl View for WfArgumentReference {
    type V = KeyIndex;

    open spec fn view(&self) -> KeyIndex {
        self.key_id
    }
}

impl View for FunctionCallOrType {
    type V = CallOrTypeV;

    open spec fn view(&self) -> CallOrTypeV {
        match self {
            FunctionCallOrType::FunctionCall(c) => CallOrTypeV::Call(c@),
            FunctionCallOrType::Type(t) => CallOrTypeV::Type(t@),
        }
    }
}

/// The model of what a fallible operation returns that hands the value
/// back with the error.
pub open spec fn parsed<T: View>(r: Result<T, (EvalError, WfData)>) -> Outcome<T::V> {
    match r {
        Ok(v) => Ok(v@),
        Err((e, d)) => Err((e@, d@)),
    }
}

/// The model of what a fallible operation returns.
pub open spec fn checked<T: View>(r: Result<T, EvalError>) -> Result<T::V, ErrV> {
    match r {
        Ok(v) => Ok(v@),
        Err(e) => Err(e@),
    }
}

pub proof fn lemma_values(v: Seq<WfData>)
    ensures
        values(v).len() == v.len(),
        forall|i: int| 0 <= i < v.len() ==> #[trigger] values(v)[i] == v[i]@,
{
}

pub proof fn lemma_values_from(v: Seq<WfData>, from: int)
    requires
        0 <= from <= v.len(),
    ensures
        values_from(v, from).len() == v.len() - from,
        forall|i: int| 0 <= i < v.len() - from ==> #[trigger] values_from(v, from)[i] == v[from + i]@,
        values_from(v, from) == values(v).subrange(from, v.len() as int),
{
    assert(values_from(v, from) =~= values(v).subrange(from, v.len() as int));
}

pub proof fn lemma_entries(v: Seq<(KeyIndex, WfData)>)
    ensures
        entries(v).len() == v.len(),
        forall|i: int| 0 <= i < v.len() ==> #[trigger] entries(v)[i] == (v[i].0, v[i].1@),
{
}

pub open spec fn trace_view(t: Seq<TraceEntry>) -> Seq<TraceV> {
    Seq::new(t.len(), |i: int| t[i]@)
}

pub proof fn lemma_trace_push(t: Seq<TraceEntry>, e: TraceEntry)
    ensures
        trace_view(t.push(e)) == trace_view(t).push(e@),
{
    assert(trace_view(t.push(e)) =~= trace_view(t).push(e@));
}

} // verus!
