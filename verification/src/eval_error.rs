//! Errors of the evaluator, with the path to where they arose.
use vstd::prelude::*;
use vstd::string::StringExecFns;
use crate::data_types::WfData;
use crate::data_types::view::lemma_trace_push;
use crate::key_index::{KeyIndex, KeyIndexParseError};
use crate::model::{ErrV, KindV, TraceV};
use crate::zid::Zid;

verus! {

#[derive(Debug)]
pub enum EvalErrorKind {
    ParseKeyIndex(KeyIndexParseError),
    MissingKey(KeyIndex),
    NotAReference,
    WrongType(Zid, Zid),
    IncorrectIdentityForBoolean(Zid),
    MissingPersistentObject(Zid),
    NotStandardType,
    NoIdentity,
    TooManyArgsInFunction,
    WrongTypeZidForType,
    ExpectedTypeGotFunction,
    ExpectOnlyOneImplementation,
    ExpectOneImplementionFoundZero,
    NoImplementationForFunction(Zid),
    TooManyArguments(usize, usize),
    ArgumentReferenceNoKPart(KeyIndex),
    ArgumentReferenceTooLarge(u32),
    NoBuiltin(Zid),
    ExpectedFunctionCallGotType,
    TestCaseFailedWithFalse(Box<WfData>),
    CantGetHeadOfEmptyList,
    TypeDoesNotMatch,
    Unimplemented(String),
    RecursedTooDeep,
    StepBudgetExceeded,
    TestData,
}

impl Clone for EvalErrorKind {
    fn clone(&self) -> (r: Self)
        ensures
            r == *self,
        decreases self,
    {
        match self {
            EvalErrorKind::ParseKeyIndex(e) => EvalErrorKind::ParseKeyIndex(*e),
            EvalErrorKind::MissingKey(k) => EvalErrorKind::MissingKey(*k),
            EvalErrorKind::NotAReference => EvalErrorKind::NotAReference,
            EvalErrorKind::WrongType(a, b) => EvalErrorKind::WrongType(*a, *b),
            EvalErrorKind::IncorrectIdentityForBoolean(z) => {
                EvalErrorKind::IncorrectIdentityForBoolean(*z)
            },
            EvalErrorKind::MissingPersistentObject(z) => EvalErrorKind::MissingPersistentObject(*z),
            EvalErrorKind::NotStandardType => EvalErrorKind::NotStandardType,
            EvalErrorKind::NoIdentity => EvalErrorKind::NoIdentity,
            EvalErrorKind::TooManyArgsInFunction => EvalErrorKind::TooManyArgsInFunction,
            EvalErrorKind::WrongTypeZidForType => EvalErrorKind::WrongTypeZidForType,
            EvalErrorKind::ExpectedTypeGotFunction => EvalErrorKind::ExpectedTypeGotFunction,
            EvalErrorKind::ExpectOnlyOneImplementation => {
                EvalErrorKind::ExpectOnlyOneImplementation
            },
            EvalErrorKind::ExpectOneImplementionFoundZero => {
                EvalErrorKind::ExpectOneImplementionFoundZero
            },
            EvalErrorKind::NoImplementationForFunction(z) => {
                EvalErrorKind::NoImplementationForFunction(*z)
            },
            EvalErrorKind::TooManyArguments(a, b) => EvalErrorKind::TooManyArguments(*a, *b),
            EvalErrorKind::ArgumentReferenceNoKPart(k) => {
                EvalErrorKind::ArgumentReferenceNoKPart(*k)
            },
            EvalErrorKind::ArgumentReferenceTooLarge(i) => {
                EvalErrorKind::ArgumentReferenceTooLarge(*i)
            },
            EvalErrorKind::NoBuiltin(z) => EvalErrorKind::NoBuiltin(*z),
            EvalErrorKind::ExpectedFunctionCallGotType => {
                EvalErrorKind::ExpectedFunctionCallGotType
            },
            EvalErrorKind::TestCaseFailedWithFalse(d) => {
                let inner: &WfData = d;
                EvalErrorKind::TestCaseFailedWithFalse(Box::new(inner.clone()))
            },
            EvalErrorKind::CantGetHeadOfEmptyList => EvalErrorKind::CantGetHeadOfEmptyList,
            EvalErrorKind::TypeDoesNotMatch => EvalErrorKind::TypeDoesNotMatch,
            EvalErrorKind::Unimplemented(s) => EvalErrorKind::Unimplemented(s.clone()),
            EvalErrorKind::RecursedTooDeep => EvalErrorKind::RecursedTooDeep,
            EvalErrorKind::StepBudgetExceeded => EvalErrorKind::StepBudgetExceeded,
            EvalErrorKind::TestData => EvalErrorKind::TestData,
        }
    }
}

/// One step on the path from where an error arose to the value that was
/// being evaluated.
#[derive(Debug)]
pub enum TraceEntry {
    InsideKey(KeyIndex),
    /// The position counts from 0.
    InsideList(usize),
    InsideReference(Zid),
    Substituted(Zid),
    ProcessingNonCompositionFunction(Zid),
    CheckingTestCaseResult(WfData),
    Text(String),
}

impl Clone for TraceEntry {
    fn clone(&self) -> (r: Self)
        ensures
            r == *self,
    {
        match self {
            TraceEntry::InsideKey(k) => TraceEntry::InsideKey(*k),
            TraceEntry::InsideList(p) => TraceEntry::InsideList(*p),
            TraceEntry::InsideReference(z) => TraceEntry::InsideReference(*z),
            TraceEntry::Substituted(z) => TraceEntry::Substituted(*z),
            TraceEntry::ProcessingNonCompositionFunction(z) => {
                TraceEntry::ProcessingNonCompositionFunction(*z)
            },
            TraceEntry::CheckingTestCaseResult(d) => TraceEntry::CheckingTestCaseResult(d.clone()),
            TraceEntry::Text(s) => TraceEntry::Text(s.clone()),
        }
    }
}

/// The trace grows at its end: the innermost step comes first.
#[derive(Debug)]
pub struct EvalError {
    pub kind: EvalErrorKind,
    pub trace: Vec<TraceEntry>,
}

impl EvalError {
    pub fn from_kind(kind: EvalErrorKind) -> (r: Self)
        ensures
            r@ == ErrV::of(kind@),
    {
        let r = Self { kind, trace: Vec::new() };
        assert(r@.trace =~= Seq::<TraceV>::empty());
        r
    }

    pub fn missing_key(key: KeyIndex) -> (r: Self)
        ensures
            r@ == ErrV::of(KindV::MissingKey(key)),
    {
        Self::from_kind(EvalErrorKind::MissingKey(key))
    }

    pub fn unimplemented(text: String) -> (r: Self)
        ensures
            r@ == ErrV::of(KindV::Unimplemented(text@)),
    {
        Self::from_kind(EvalErrorKind::Unimplemented(text))
    }

    pub fn get_kind(&self) -> (r: &EvalErrorKind)
        ensures
            *r == self.kind,
    {
        &self.kind
    }

    pub fn get_trace(&self) -> (r: &Vec<TraceEntry>)
        ensures
            *r == self.trace,
    {
        &self.trace
    }

    /// Adds the next step outwards.
    pub fn trace(self, of: TraceEntry) -> (r: Self)
        ensures
            r@ == self@.traced(of@),
    {
        let mut this = self;
        proof {
            lemma_trace_push(this.trace@, of);
        }
        this.trace.push(of);
        assert(this@.trace =~= self@.trace.push(of@));
        this
    }

    pub fn trace_str(self, text: &str) -> (r: Self)
        ensures
            r@ == self@.traced(TraceV::Text(text@)),
    {
        self.trace(TraceEntry::Text(String::from_str(text)))
    }

    pub fn inside_key(self, key: KeyIndex) -> (r: Self)
        ensures
            r@ == self@.inside_key(key),
    {
        self.trace(TraceEntry::InsideKey(key))
    }

    pub fn inside_list(self, pos: usize) -> (r: Self)
        ensures
            r@ == self@.inside_list(pos),
    {
        self.trace(TraceEntry::InsideList(pos))
    }

    pub fn inside_reference_to(self, zid: Zid) -> (r: Self)
        ensures
            r@ == self@.inside_reference_to(zid),
    {
        self.trace(TraceEntry::InsideReference(zid))
    }
}

} // verus!
