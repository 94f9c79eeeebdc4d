//! The mathematical model of values and errors.
//!
//! A value of the object language is a tree; `Val` is that tree with
//! sequences in place of buffers and shared handles.  The accessors that
//! every shape offers are defined here once, on the model, and the
//! executable types are specified against them.
use vstd::prelude::*;
use crate::key_index::{KeyIndex, KeyIndexParseError};
use crate::zid::Zid;

verus! {

pub enum Val {
    Boolean(bool),
    Reference(Zid),
    Text(Seq<char>),
    Untyped(Seq<(KeyIndex, Val)>),
    Type(Box<TypeV>),
    Invalid(Box<KindV>),
    Function(Box<FnV>),
    FunctionCall(Box<CallV>),
    Implementation(Box<ImplV>),
    ArgumentReference(KeyIndex),
    TestCase(Box<TestV>),
    TypedList(Box<ListV>),
}

pub enum TypeV {
    Standard(StdTypeV),
    TypedList(Box<TypeV>),
}

pub struct StdTypeV {
    pub identity: Zid,
    pub keys: Val,
    pub validator: Val,
    pub equality: Option<Val>,
    pub display_function: Option<Val>,
    pub reading_function: Option<Val>,
    pub type_converters_to_code: Option<Val>,
    pub type_converters_from_code: Option<Val>,
}

pub enum ElemTypeV {
    Unchecked(Val),
    Valid(TypeV),
}

/// A list: the type of its elements and the entries that are left.
pub struct ListV {
    pub elem_type: ElemTypeV,
    pub entries: Seq<Val>,
}

pub struct FnV {
    pub arguments: ListV,
    pub return_type: TypeV,
    pub testers: Val,
    pub implementations: ListV,
    pub identity: Zid,
}

pub struct CallV {
    pub function: FnV,
    pub args: Seq<Val>,
}

pub enum ImplKindV {
    Composition(Val),
    Code(Val),
    Builtin(Val),
}

pub struct ImplV {
    pub function: Val,
    pub kind: ImplKindV,
}

pub struct TestV {
    pub function: FnV,
    pub call: Val,
    pub validation: Val,
}

pub enum KindV {
    ParseKeyIndex(KeyIndexParseError),
    MissingKey(KeyIndex),
    NotAReference,
    WrongType(Zid, Zid),
    IncorrectIdentityForBoolean(Zid),
    MissingPersistentObject(Zid),
    NotStandardType,
    NoIdentity,
    TooManyArgsInFunction,
    WrongTypeZidForType,
    ExpectedTypeGotFunction,
    ExpectOnlyOneImplementation,
    ExpectOneImplementionFoundZero,
    NoImplementationForFunction(Zid),
    TooManyArguments(usize, usize),
    ArgumentReferenceNoKPart(KeyIndex),
    ArgumentReferenceTooLarge(u32),
    NoBuiltin(Zid),
    ExpectedFunctionCallGotType,
    TestCaseFailedWithFalse(Val),
    CantGetHeadOfEmptyList,
    TypeDoesNotMatch,
    Unimplemented(Seq<char>),
    RecursedTooDeep,
    StepBudgetExceeded,
    TestData,
}

pub enum TraceV {
    InsideKey(KeyIndex),
    InsideList(usize),
    InsideReference(Zid),
    Substituted(Zid),
    ProcessingNonCompositionFunction(Zid),
    CheckingTestCaseResult(Val),
    Text(Seq<char>),
}

/// An error: its kind and the path to where it arose, innermost step first.
pub struct ErrV {
    pub kind: KindV,
    pub trace: Seq<TraceV>,
}

/// A value, or an error with the value that was being worked on.
pub type Outcome<T> = Result<T, (ErrV, Val)>;

pub open spec fn key(z: u32, k: u32) -> KeyIndex {
    KeyIndex { z, k }
}

pub open spec fn zid(n: u32) -> Zid {
    Zid { z: n, k: 0 }
}

pub open spec fn reference(n: u32) -> Val {
    Val::Reference(zid(n))
}

pub open spec fn fail<T>(kind: KindV, v: Val) -> Outcome<T> {
    Err((ErrV::of(kind), v))
}

impl ErrV {
    pub open spec fn of(kind: KindV) -> ErrV {
        ErrV { kind, trace: Seq::empty() }
    }

    pub open spec fn traced(self, entry: TraceV) -> ErrV {
        ErrV { kind: self.kind, trace: self.trace.push(entry) }
    }

    pub open spec fn inside_key(self, k: KeyIndex) -> ErrV {
        self.traced(TraceV::InsideKey(k))
    }

    pub open spec fn inside_list(self, pos: usize) -> ErrV {
        self.traced(TraceV::InsideList(pos))
    }

    pub open spec fn inside_reference_to(self, z: Zid) -> ErrV {
        self.traced(TraceV::InsideReference(z))
    }

    /// The error came from a budget, not from the value.
    pub open spec fn is_budget(self) -> bool {
        self.kind is RecursedTooDeep || self.kind is StepBudgetExceeded
    }
}

impl TypeV {
    /// The object that a standard type is; other types have none.
    pub open spec fn type_zid(self) -> Result<Zid, ErrV> {
        match self {
            TypeV::Standard(t) => Ok(t.identity),
            TypeV::TypedList(_) => Err(ErrV::of(KindV::NotStandardType)),
        }
    }

    pub open spec fn keys(self) -> Seq<KeyIndex> {
        match self {
            TypeV::Standard(t) => t.keys(),
            TypeV::TypedList(_) => seq![key(1, 1), key(7, 1), key(881, 1)],
        }
    }

    pub open spec fn get(self, k: KeyIndex) -> Option<Val> {
        match self {
            TypeV::Standard(t) => t.get(k),
            TypeV::TypedList(t) => if k == key(1, 1) {
                Some(reference(7))
            } else if k == key(7, 1) {
                Some(reference(881))
            } else if k == key(881, 1) {
                Some(Val::Type(t))
            } else {
                None
            },
        }
    }

    pub open spec fn is_final(self) -> bool {
        self is Standard
    }

    pub open spec fn identity_key(self) -> Option<KeyIndex> {
        match self {
            TypeV::Standard(_) => Some(key(4, 1)),
            TypeV::TypedList(_) => None,
        }
    }
}

pub open spec fn optional_key(slot: Option<Val>, k: KeyIndex) -> Seq<KeyIndex> {
    if slot is Some {
        seq![k]
    } else {
        Seq::empty()
    }
}

impl StdTypeV {
    pub open spec fn keys(self) -> Seq<KeyIndex> {
        seq![key(1, 1), key(4, 1), key(4, 2), key(4, 3)] + optional_key(self.equality, key(4, 4))
            + optional_key(self.display_function, key(4, 5)) + optional_key(
            self.reading_function,
            key(4, 6),
        ) + optional_key(self.type_converters_to_code, key(4, 7)) + optional_key(
            self.type_converters_from_code,
            key(4, 8),
        )
    }

    pub open spec fn get(self, k: KeyIndex) -> Option<Val> {
        if k == key(1, 1) {
            Some(reference(4))
        } else if k == key(4, 1) {
            Some(Val::Reference(self.identity))
        } else if k == key(4, 2) {
            Some(self.keys)
        } else if k == key(4, 3) {
            Some(self.validator)
        } else if k == key(4, 4) {
            self.equality
        } else if k == key(4, 5) {
            self.display_function
        } else if k == key(4, 6) {
            self.reading_function
        } else if k == key(4, 7) {
            self.type_converters_to_code
        } else if k == key(4, 8) {
            self.type_converters_from_code
        } else {
            None
        }
    }
}

impl ListV {
    pub open spec fn len(self) -> nat {
        self.entries.len()
    }

    pub open spec fn tail(self) -> ListV {
        ListV { elem_type: self.elem_type, entries: self.entries.subrange(1, self.entries.len() as int) }
    }

    /// The value under `Z1K1`: the element type as it was given, or the
    /// list type of a checked element type.
    pub open spec fn type_value(self) -> Val {
        match self.elem_type {
            ElemTypeV::Unchecked(v) => v,
            ElemTypeV::Valid(t) => Val::Type(Box::new(TypeV::TypedList(Box::new(t)))),
        }
    }

    pub open spec fn keys(self) -> Seq<KeyIndex> {
        if self.entries.len() == 0 {
            seq![key(1, 1)]
        } else {
            seq![key(1, 1), key(0, 1), key(0, 2)]
        }
    }

    pub open spec fn get(self, k: KeyIndex) -> Option<Val> {
        if k == key(1, 1) {
            Some(self.type_value())
        } else if k == key(0, 1) && self.entries.len() > 0 {
            Some(self.entries[0])
        } else if k == key(0, 2) && self.entries.len() > 0 {
            Some(Val::TypedList(Box::new(self.tail())))
        } else {
            None
        }
    }
}

impl FnV {
    pub open spec fn keys(self) -> Seq<KeyIndex> {
        seq![key(1, 1), key(8, 1), key(8, 2), key(8, 3), key(8, 4), key(8, 5)]
    }

    pub open spec fn get(self, k: KeyIndex) -> Option<Val> {
        if k == key(1, 1) {
            Some(reference(8))
        } else if k == key(8, 1) {
            Some(Val::TypedList(Box::new(self.arguments)))
        } else if k == key(8, 2) {
            Some(Val::Type(Box::new(self.return_type)))
        } else if k == key(8, 3) {
            Some(self.testers)
        } else if k == key(8, 4) {
            Some(Val::TypedList(Box::new(self.implementations)))
        } else if k == key(8, 5) {
            Some(Val::Reference(self.identity))
        } else {
            None
        }
    }
}

/// How many arguments of a call have a key: the key part is a `u32`.
pub open spec fn keyed_args(n: nat) -> nat {
    if n < u32::MAX {
        n
    } else {
        u32::MAX as nat
    }
}

impl CallV {
    /// The key of the argument at position `i`, counted from 0.
    pub open spec fn arg_key(self, i: int) -> KeyIndex {
        KeyIndex { z: self.function.identity.z, k: (i + 1) as u32 }
    }

    pub open spec fn keys(self) -> Seq<KeyIndex> {
        seq![key(1, 1), key(7, 1)] + Seq::new(keyed_args(self.args.len()), |i: int| self.arg_key(i))
    }

    pub open spec fn get(self, k: KeyIndex) -> Option<Val> {
        if k == key(1, 1) {
            Some(reference(7))
        } else if k == key(7, 1) {
            Some(Val::Function(Box::new(self.function)))
        } else if k.z == self.function.identity.z && 1 <= k.k <= self.args.len() {
            Some(self.args[k.k - 1])
        } else {
            None
        }
    }
}

impl ImplKindV {
    pub open spec fn key_index(self) -> KeyIndex {
        match self {
            ImplKindV::Composition(_) => key(14, 2),
            ImplKindV::Code(_) => key(14, 3),
            ImplKindV::Builtin(_) => key(14, 4),
        }
    }

    pub open spec fn body(self) -> Val {
        match self {
            ImplKindV::Composition(v) => v,
            ImplKindV::Code(v) => v,
            ImplKindV::Builtin(v) => v,
        }
    }
}

impl ImplV {
    pub open spec fn keys(self) -> Seq<KeyIndex> {
        seq![key(1, 1), key(14, 1), self.kind.key_index()]
    }

    pub open spec fn get(self, k: KeyIndex) -> Option<Val> {
        if k == key(1, 1) {
            Some(reference(14))
        } else if k == key(14, 1) {
            Some(self.function)
        } else if k == self.kind.key_index() {
            Some(self.kind.body())
        } else {
            None
        }
    }
}

impl TestV {
    pub open spec fn keys(self) -> Seq<KeyIndex> {
        seq![key(1, 1), key(20, 1), key(20, 2), key(20, 3)]
    }

    pub open spec fn get(self, k: KeyIndex) -> Option<Val> {
        if k == key(1, 1) {
            Some(reference(20))
        } else if k == key(20, 1) {
            Some(Val::Function(Box::new(self.function)))
        } else if k == key(20, 2) {
            Some(self.call)
        } else if k == key(20, 3) {
            Some(self.validation)
        } else {
            None
        }
    }
}

/// The keys of a record, in the order of its entries.
pub open spec fn entry_keys(entries: Seq<(KeyIndex, Val)>) -> Seq<KeyIndex> {
    Seq::new(entries.len(), |i: int| entries[i].0)
}

/// The position of the first entry under `k`, or the number of entries.
pub open spec fn entry_position(entries: Seq<(KeyIndex, Val)>, k: KeyIndex) -> int
    decreases entries.len(),
{
    if entries.len() == 0 || entries[0].0 == k {
        0
    } else {
        1 + entry_position(entries.subrange(1, entries.len() as int), k)
    }
}

/// The value of the first entry under `k`.
pub open spec fn entry_get(entries: Seq<(KeyIndex, Val)>, k: KeyIndex) -> Option<Val> {
    let i = entry_position(entries, k);
    if i < entries.len() {
        Some(entries[i].1)
    } else {
        None
    }
}

/// The keys are in strictly ascending order, so none occurs twice.
pub open spec fn entries_sorted(entries: Seq<(KeyIndex, Val)>) -> bool {
    forall|i: int, j: int|
        0 <= i < j < entries.len() ==> key_less((#[trigger] entries[i]).0, (#[trigger] entries[j]).0)
}

/// The order of keys: by the object part, then by the key part.
pub open spec fn key_less(a: KeyIndex, b: KeyIndex) -> bool {
    a.z < b.z || (a.z == b.z && a.k < b.k)
}

impl Val {
    /// The keys under which the value holds something, in order.
    pub open spec fn keys(self) -> Seq<KeyIndex> {
        match self {
            Val::Boolean(_) => seq![key(1, 1), key(40, 1)],
            Val::Reference(_) => seq![key(1, 1), key(9, 1)],
            Val::Text(_) => seq![key(1, 1), key(6, 1)],
            Val::Untyped(entries) => entry_keys(entries),
            Val::Type(t) => t.keys(),
            Val::Invalid(_) => Seq::empty(),
            Val::Function(f) => f.keys(),
            Val::FunctionCall(c) => c.keys(),
            Val::Implementation(i) => i.keys(),
            Val::ArgumentReference(_) => seq![key(1, 1), key(18, 1)],
            Val::TestCase(t) => t.keys(),
            Val::TypedList(l) => l.keys(),
        }
    }

    /// What the value holds under `k`.
    pub open spec fn get(self, k: KeyIndex) -> Option<Val> {
        match self {
            Val::Boolean(b) => if k == key(1, 1) {
                Some(reference(40))
            } else if k == key(40, 1) {
                Some(
                    if b {
                        reference(41)
                    } else {
                        reference(42)
                    },
                )
            } else {
                None
            },
            Val::Reference(z) => if k == key(1, 1) {
                Some(reference(9))
            } else if k == key(9, 1) {
                Some(Val::Text(z.text()))
            } else {
                None
            },
            Val::Text(s) => if k == key(1, 1) {
                Some(reference(6))
            } else if k == key(6, 1) {
                Some(self)
            } else {
                None
            },
            Val::Untyped(entries) => entry_get(entries, k),
            Val::Type(t) => t.get(k),
            Val::Invalid(_) => None,
            Val::Function(f) => f.get(k),
            Val::FunctionCall(c) => c.get(k),
            Val::Implementation(i) => i.get(k),
            Val::ArgumentReference(a) => if k == key(1, 1) {
                Some(reference(18))
            } else if k == key(18, 1) {
                Some(Val::Text(a.text()))
            } else {
                None
            },
            Val::TestCase(t) => t.get(k),
            Val::TypedList(l) => l.get(k),
        }
    }

    /// The value cannot be reduced further: two final values are equal only
    /// if they are the same.
    pub open spec fn is_final(self) -> bool {
        match self {
            Val::Boolean(_) => true,
            Val::Text(_) => true,
            Val::Type(t) => t.is_final(),
            Val::ArgumentReference(_) => true,
            _ => false,
        }
    }

    /// The key under which the value refers to itself, if it has one.
    pub open spec fn identity_key(self) -> Option<KeyIndex> {
        match self {
            Val::Boolean(_) => Some(key(40, 1)),
            Val::Type(t) => t.identity_key(),
            Val::Function(_) => Some(key(8, 5)),
            _ => None,
        }
    }

    /// The object that the value is, for the shapes that know it.
    pub open spec fn self_identity(self) -> Option<Zid> {
        match self {
            Val::Boolean(b) => Some(
                if b {
                    zid(41)
                } else {
                    zid(42)
                },
            ),
            Val::Type(t) => match *t {
                TypeV::Standard(s) => Some(s.identity),
                TypeV::TypedList(_) => None,
            },
            Val::Function(f) => Some(f.identity),
            _ => None,
        }
    }

    /// The object that is the type of the shape, for the shapes that are
    /// records of one type.
    pub open spec fn type_object(self) -> Option<u32> {
        match self {
            Val::Boolean(_) => Some(40u32),
            Val::Reference(_) => Some(9u32),
            Val::Text(_) => Some(6u32),
            Val::Type(t) => match *t {
                TypeV::Standard(_) => Some(4u32),
                TypeV::TypedList(_) => Some(7u32),
            },
            Val::Function(_) => Some(8u32),
            Val::FunctionCall(_) => Some(7u32),
            Val::Implementation(_) => Some(14u32),
            Val::ArgumentReference(_) => Some(18u32),
            Val::TestCase(_) => Some(20u32),
            _ => None,
        }
    }

    /// The value under `k`, or the error that names the missing key.
    pub open spec fn get_err(self, k: KeyIndex) -> Result<Val, ErrV> {
        match self.get(k) {
            Some(v) => Ok(v),
            None => Err(ErrV::of(KindV::MissingKey(k))),
        }
    }
}


/// Where an entry under `k` belongs among sorted entries: the position of
/// the first entry whose key is not before `k`.
pub open spec fn lower_bound(entries: Seq<(KeyIndex, Val)>, k: KeyIndex) -> int
    decreases entries.len(),
{
    if entries.len() == 0 || !key_less(entries[0].0, k) {
        0
    } else {
        1 + lower_bound(entries.subrange(1, entries.len() as int), k)
    }
}

/// The entries with `v` under `k`: in place of the entry that was there, or
/// as a new entry where the order asks for it.
pub open spec fn put(entries: Seq<(KeyIndex, Val)>, k: KeyIndex, v: Val) -> Seq<(KeyIndex, Val)> {
    let p = lower_bound(entries, k);
    if p < entries.len() && entries[p].0 == k {
        entries.update(p, (k, v))
    } else {
        entries.insert(p, (k, v))
    }
}

/// The first `n` of the given entries, put one after the other into an
/// empty record: sorted by key, a later entry replacing an earlier one
/// under the same key.
pub open spec fn normalised(given: Seq<(KeyIndex, Val)>, n: int) -> Seq<(KeyIndex, Val)>
    decreases n,
{
    if n <= 0 || n > given.len() {
        Seq::empty()
    } else {
        put(normalised(given, n - 1), given[n - 1].0, given[n - 1].1)
    }
}

/// The keys of a value with what it holds under each.
pub open spec fn pairs(v: Val) -> Seq<(KeyIndex, Val)> {
    Seq::new(v.keys().len(), |i: int| (v.keys()[i], v.get(v.keys()[i])->0))
}

/// The value as a raw record.
pub open spec fn as_record(v: Val) -> Seq<(KeyIndex, Val)> {
    match v {
        Val::Untyped(entries) => entries,
        _ => normalised(pairs(v), pairs(v).len() as int),
    }
}

} // verus!
