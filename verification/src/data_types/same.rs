//! Whether two values are the same value: the comparison behind `==`.
use vstd::prelude::*;
use crate::data_types::{
    ImplementationByKind, MaybeEvaluated, WfData, WfFunction, WfFunctionCall, WfImplementation,
    WfTestCase, WfTypedList,
};
use crate::data_types::types_def::{WfStandardType, WfTypeGeneric};
use crate::data_types::view::{
    entries, lemma_entries, lemma_values, lemma_values_from, optional, trace_view, values,
};
use crate::eval_error::{EvalError, EvalErrorKind, TraceEntry};
use crate::key_index::KeyIndex;

verus! {

pub fn same(a: &WfData, b: &WfData) -> (r: bool)
    ensures
        r == (a@ == b@),
    decreases a, 1nat,
{
    match (a, b) {
        (WfData::WfBoolean(x), WfData::WfBoolean(y)) => x.value == y.value,
        (WfData::WfReference(x), WfData::WfReference(y)) => x.to == y.to,
        (WfData::WfString(x), WfData::WfString(y)) => *x.text == *y.text,
        (WfData::WfUntyped(x), WfData::WfUntyped(y)) => same_entries(&x.entry, &y.entry),
        (WfData::WfType(x), WfData::WfType(y)) => same_type(x, y),
        (WfData::WfInvalid(x), WfData::WfInvalid(y)) => same_kind(&x.reason, &y.reason),
        (WfData::WfFunction(x), WfData::WfFunction(y)) => same_function(x, y),
        (WfData::WfFunctionCall(x), WfData::WfFunctionCall(y)) => same_call(x, y),
        (WfData::WfImplementation(x), WfData::WfImplementation(y)) => same_implementation(x, y),
        (WfData::WfArgumentReference(x), WfData::WfArgumentReference(y)) => x.key_id == y.key_id,
        (WfData::WfTestCase(x), WfData::WfTestCase(y)) => same_test_case(x, y),
        (WfData::WfTypedList(x), WfData::WfTypedList(y)) => same_list(x, y),
        _ => false,
    }
}

fn same_slot(a: &Option<WfData>, b: &Option<WfData>) -> (r: bool)
    ensures
        r == (optional(*a) == optional(*b)),
    decreases a, 2nat,
{
    match (a, b) {
        (Some(x), Some(y)) => same(x, y),
        (None, None) => true,
        _ => false,
    }
}

fn same_values(a: &Vec<WfData>, b: &Vec<WfData>) -> (r: bool)
    ensures
        r == (values(a@) == values(b@)),
    decreases a, 0nat,
{
    proof {
        lemma_values(a@);
        lemma_values(b@);
    }
    if a.len() != b.len() {
        return false;
    }
    let mut i: usize = 0;
    while i < a.len()
        invariant
            i <= a.len(),
            a.len() == b.len(),
            forall|j: int| 0 <= j < i ==> a@[j]@ == b@[j]@,
        decreases a.len() - i,
    {
        if !same(&a[i], &b[i]) {
            assert(values(a@)[i as int] != values(b@)[i as int]);
            return false;
        }
        i += 1;
    }
    assert(values(a@) =~= values(b@));
    true
}

fn same_entries(a: &Vec<(KeyIndex, WfData)>, b: &Vec<(KeyIndex, WfData)>) -> (r: bool)
    ensures
        r == (entries(a@) == entries(b@)),
    decreases a, 0nat,
{
    proof {
        lemma_entries(a@);
        lemma_entries(b@);
    }
    if a.len() != b.len() {
        return false;
    }
    let mut i: usize = 0;
    while i < a.len()
        invariant
            i <= a.len(),
            a.len() == b.len(),
            forall|j: int| 0 <= j < i ==> a@[j].0 == b@[j].0 && a@[j].1@ == b@[j].1@,
        decreases a.len() - i,
    {
        if !(a[i].0 == b[i].0) || !same(&a[i].1, &b[i].1) {
            assert(entries(a@)[i as int] != entries(b@)[i as int]);
            return false;
        }
        i += 1;
    }
    assert(entries(a@) =~= entries(b@));
    true
}

fn same_standard_type(a: &WfStandardType, b: &WfStandardType) -> (r: bool)
    ensures
        r == (a@ == b@),
    decreases a, 3nat,
{
    a.inner.identity_ref == b.inner.identity_ref && same(&a.inner.keys, &b.inner.keys) && same(
        &a.inner.validator,
        &b.inner.validator,
    ) && same_slot(&a.inner.equality, &b.inner.equality) && same_slot(
        &a.inner.display_function,
        &b.inner.display_function,
    ) && same_slot(&a.inner.reading_function, &b.inner.reading_function) && same_slot(
        &a.inner.type_converters_to_code,
        &b.inner.type_converters_to_code,
    ) && same_slot(&a.inner.type_converters_from_code, &b.inner.type_converters_from_code)
}

pub fn same_type(a: &WfTypeGeneric, b: &WfTypeGeneric) -> (r: bool)
    ensures
        r == (a@ == b@),
    decreases a, 4nat,
{
    match (a, b) {
        (WfTypeGeneric::WfStandardType(x), WfTypeGeneric::WfStandardType(y)) => same_standard_type(
            x,
            y,
        ),
        (WfTypeGeneric::WfTypedListType(x), WfTypeGeneric::WfTypedListType(y)) => same_type(
            &x.element_type,
            &y.element_type,
        ),
        _ => false,
    }
}

fn same_element_type(a: &MaybeEvaluated, b: &MaybeEvaluated) -> (r: bool)
    ensures
        r == (a@ == b@),
    decreases a, 5nat,
{
    match (a, b) {
        (MaybeEvaluated::Unchecked(x), MaybeEvaluated::Unchecked(y)) => same(x, y),
        (MaybeEvaluated::Valid(x), MaybeEvaluated::Valid(y)) => same_type(x, y),
        _ => false,
    }
}

pub fn same_list(a: &WfTypedList, b: &WfTypedList) -> (r: bool)
    ensures
        r == (a@ == b@),
    decreases a, 6nat,
{
    if !same_element_type(&a.inner_type, &b.inner_type) {
        return false;
    }
    let n = a.len();
    if n != b.len() {
        return false;
    }
    let mut i: usize = 0;
    while i < n
        invariant
            i <= n,
            n == a@.len(),
            n == b@.len(),
            n > 0 ==> a.start_position + n == a.entries@.len(),
            n > 0 ==> b.start_position + n == b.entries@.len(),
            forall|j: int| 0 <= j < i ==> a@.entries[j] == b@.entries[j],
        decreases n - i,
    {
        proof {
            lemma_values_from(a.entries@, a.start_position as int);
            lemma_values_from(b.entries@, b.start_position as int);
        }
        let la = a.entries.len();
        let lb = b.entries.len();
        if !same(&a.entries[a.start_position + i], &b.entries[b.start_position + i]) {
            assert(a@.entries[i as int] != b@.entries[i as int]);
            return false;
        }
        i += 1;
    }
    assert(a@.entries =~= b@.entries);
    true
}

pub fn same_function(a: &WfFunction, b: &WfFunction) -> (r: bool)
    ensures
        r == (a@ == b@),
    decreases a, 7nat,
{
    a.0.identity == b.0.identity && same_list(&a.0.arguments, &b.0.arguments) && same_type(
        &a.0.return_type,
        &b.0.return_type,
    ) && same(&a.0.testers, &b.0.testers) && same_list(&a.0.implementations, &b.0.implementations)
}

fn same_call(a: &WfFunctionCall, b: &WfFunctionCall) -> (r: bool)
    ensures
        r == (a@ == b@),
    decreases a, 8nat,
{
    same_function(&a.0.function, &b.0.function) && same_values(&a.0.args, &b.0.args)
}

fn same_implementation(a: &WfImplementation, b: &WfImplementation) -> (r: bool)
    ensures
        r == (a@ == b@),
    decreases a, 8nat,
{
    same(&a.0.function, &b.0.function) && match (&a.0.kind, &b.0.kind) {
        (ImplementationByKind::Composition(x), ImplementationByKind::Composition(y)) => same(x, y),
        (ImplementationByKind::Code(x), ImplementationByKind::Code(y)) => same(x, y),
        (ImplementationByKind::Builtin(x), ImplementationByKind::Builtin(y)) => same(x, y),
        _ => false,
    }
}

fn same_test_case(a: &WfTestCase, b: &WfTestCase) -> (r: bool)
    ensures
        r == (a@ == b@),
    decreases a, 8nat,
{
    same_function(&a.0.function, &b.0.function) && same(&a.0.call, &b.0.call) && same(
        &a.0.validation,
        &b.0.validation,
    )
}

pub fn same_kind(a: &EvalErrorKind, b: &EvalErrorKind) -> (r: bool)
    ensures
        r == (a@ == b@),
    decreases a, 0nat,
{
    match (a, b) {
        (EvalErrorKind::ParseKeyIndex(x), EvalErrorKind::ParseKeyIndex(y)) => *x == *y,
        (EvalErrorKind::MissingKey(x), EvalErrorKind::MissingKey(y)) => *x == *y,
        (EvalErrorKind::NotAReference, EvalErrorKind::NotAReference) => true,
        (EvalErrorKind::WrongType(x1, x2), EvalErrorKind::WrongType(y1, y2)) => *x1 == *y1 && *x2
            == *y2,
        (
            EvalErrorKind::IncorrectIdentityForBoolean(x),
            EvalErrorKind::IncorrectIdentityForBoolean(y),
        ) => *x == *y,
        (EvalErrorKind::MissingPersistentObject(x), EvalErrorKind::MissingPersistentObject(y)) => *x
            == *y,
        (EvalErrorKind::NotStandardType, EvalErrorKind::NotStandardType) => true,
        (EvalErrorKind::NoIdentity, EvalErrorKind::NoIdentity) => true,
        (EvalErrorKind::TooManyArgsInFunction, EvalErrorKind::TooManyArgsInFunction) => true,
        (EvalErrorKind::WrongTypeZidForType, EvalErrorKind::WrongTypeZidForType) => true,
        (EvalErrorKind::ExpectedTypeGotFunction, EvalErrorKind::ExpectedTypeGotFunction) => true,
        (
            EvalErrorKind::ExpectOnlyOneImplementation,
            EvalErrorKind::ExpectOnlyOneImplementation,
        ) => true,
        (
            EvalErrorKind::ExpectOneImplementionFoundZero,
            EvalErrorKind::ExpectOneImplementionFoundZero,
        ) => true,
        (
            EvalErrorKind::NoImplementationForFunction(x),
            EvalErrorKind::NoImplementationForFunction(y),
        ) => *x == *y,
        (EvalErrorKind::TooManyArguments(x1, x2), EvalErrorKind::TooManyArguments(y1, y2)) => *x1
            == *y1 && *x2 == *y2,
        (
            EvalErrorKind::ArgumentReferenceNoKPart(x),
            EvalErrorKind::ArgumentReferenceNoKPart(y),
        ) => *x == *y,
        (
            EvalErrorKind::ArgumentReferenceTooLarge(x),
            EvalErrorKind::ArgumentReferenceTooLarge(y),
        ) => *x == *y,
        (EvalErrorKind::NoBuiltin(x), EvalErrorKind::NoBuiltin(y)) => *x == *y,
        (
            EvalErrorKind::ExpectedFunctionCallGotType,
            EvalErrorKind::ExpectedFunctionCallGotType,
        ) => true,
        (EvalErrorKind::TestCaseFailedWithFalse(x), EvalErrorKind::TestCaseFailedWithFalse(y)) => {
            let p: &WfData = x;
            let q: &WfData = y;
            same(p, q)
        },
        (EvalErrorKind::CantGetHeadOfEmptyList, EvalErrorKind::CantGetHeadOfEmptyList) => true,
        (EvalErrorKind::TypeDoesNotMatch, EvalErrorKind::TypeDoesNotMatch) => true,
        (EvalErrorKind::Unimplemented(x), EvalErrorKind::Unimplemented(y)) => *x == *y,
        (EvalErrorKind::RecursedTooDeep, EvalErrorKind::RecursedTooDeep) => true,
        (EvalErrorKind::StepBudgetExceeded, EvalErrorKind::StepBudgetExceeded) => true,
        (EvalErrorKind::TestData, EvalErrorKind::TestData) => true,
        _ => false,
    }
}

pub fn same_trace_entry(a: &TraceEntry, b: &TraceEntry) -> (r: bool)
    ensures
        r == (a@ == b@),
{
    match (a, b) {
        (TraceEntry::InsideKey(x), TraceEntry::InsideKey(y)) => *x == *y,
        (TraceEntry::InsideList(x), TraceEntry::InsideList(y)) => *x == *y,
        (TraceEntry::InsideReference(x), TraceEntry::InsideReference(y)) => *x == *y,
        (TraceEntry::Substituted(x), TraceEntry::Substituted(y)) => *x == *y,
        (
            TraceEntry::ProcessingNonCompositionFunction(x),
            TraceEntry::ProcessingNonCompositionFunction(y),
        ) => *x == *y,
        (TraceEntry::CheckingTestCaseResult(x), TraceEntry::CheckingTestCaseResult(y)) => same(
            x,
            y,
        ),
        (TraceEntry::Text(x), TraceEntry::Text(y)) => *x == *y,
        _ => false,
    }
}

impl PartialEq for WfData {
    fn eq(&self, other: &Self) -> (r: bool) {
        same(self, other)
    }
}

impl vstd::std_specs::cmp::PartialEqSpecImpl for WfData {
    open spec fn obeys_eq_spec() -> bool {
        true
    }

    open spec fn eq_spec(&self, other: &Self) -> bool {
        self@ == other@
    }
}

impl PartialEq for EvalErrorKind {
    fn eq(&self, other: &Self) -> (r: bool) {
        same_kind(self, other)
    }
}

impl vstd::std_specs::cmp::PartialEqSpecImpl for EvalErrorKind {
    open spec fn obeys_eq_spec() -> bool {
        true
    }

    open spec fn eq_spec(&self, other: &Self) -> bool {
        self@ == other@
    }
}

impl PartialEq for TraceEntry {
    fn eq(&self, other: &Self) -> (r: bool) {
        same_trace_entry(self, other)
    }
}

impl vstd::std_specs::cmp::PartialEqSpecImpl for TraceEntry {
    open spec fn obeys_eq_spec() -> bool {
        true
    }

    open spec fn eq_spec(&self, other: &Self) -> bool {
        self@ == other@
    }
}

} // verus!
