//! Substitution is a rewrite that settles at once.
use vstd::prelude::*;
use crate::key_index::KeyIndex;
use crate::model::{entries_sorted, key_less};
use crate::model::{CallV, ElemTypeV, ErrV, key, ListV, TypeV, Val};
use crate::semantics::{
    substitute, substitute_args, substitute_entries, substitute_items, substitute_list,
    substitute_slot, substitute_type,
};

verus! {
/// No argument reference stands where substitution would reach it.
pub open spec fn closed(v: Val) -> bool
    decreases v, 0nat,
{
    match v {
        Val::ArgumentReference(_) => false,
        Val::FunctionCall(c) => forall|i: int|
            0 <= i < c.args.len() ==> closed(#[trigger] c.args[i]),
        Val::TypedList(l) => closed_list(*l),
        Val::Type(t) => closed_type(*t),
        Val::TestCase(t) => closed(t.call) && closed(t.validation),
        Val::Untyped(entries) => forall|i: int|
            0 <= i < entries.len() ==> closed((#[trigger] entries[i]).1),
        _ => true,
    }
}

pub open spec fn closed_list(l: ListV) -> bool
    decreases l, 0nat,
{
    (forall|i: int| 0 <= i < l.entries.len() ==> closed(#[trigger] l.entries[i])) && match l.elem_type {
        ElemTypeV::Unchecked(t) => closed(t),
        ElemTypeV::Valid(t) => closed_type(t),
    }
}

pub open spec fn closed_slot(slot: Option<Val>) -> bool
    decreases slot, 1nat,
{
    match slot {
        None => true,
        Some(v) => closed(v),
    }
}

pub open spec fn closed_type(t: TypeV) -> bool
    decreases t, 0nat,
{
    match t {
        TypeV::TypedList(inner) => closed_type(*inner),
        TypeV::Standard(s) => closed(s.keys) && closed(s.validator) && closed_slot(s.equality)
            && closed_slot(s.display_function) && closed_slot(s.reading_function) && closed_slot(
            s.type_converters_to_code,
        ) && closed_slot(s.type_converters_from_code),
    }
}

pub open spec fn all_closed(s: Seq<Val>) -> bool {
    forall|i: int| 0 <= i < s.len() ==> closed(#[trigger] s[i])
}

proof fn lemma_keep_args(c: CallV, items: Seq<Val>, args: Seq<Val>, i: int, acc: Seq<Val>)
    requires
        0 <= i <= items.len(),
        all_closed(items),
        acc =~= items.subrange(0, i),
    ensures
        substitute_args(c, items, args, i, acc) == Ok::<Seq<Val>, ErrV>(items),
    decreases items, items.len() - i,
{
    if i >= items.len() {
        assert(acc =~= items);
    } else {
        lemma_substitute_keeps(items[i], args);
        assert(acc.push(items[i]) =~= items.subrange(0, i + 1));
        lemma_keep_args(c, items, args, i + 1, acc.push(items[i]));
    }
}

proof fn lemma_keep_items(items: Seq<Val>, args: Seq<Val>, i: int, acc: Seq<Val>)
    requires
        0 <= i <= items.len(),
        all_closed(items),
        acc =~= items.subrange(0, i),
    ensures
        substitute_items(items, args, i, acc) == Ok::<Seq<Val>, ErrV>(items),
    decreases items, items.len() - i,
{
    if i >= items.len() {
        assert(acc =~= items);
    } else {
        lemma_substitute_keeps(items[i], args);
        assert(acc.push(items[i]) =~= items.subrange(0, i + 1));
        lemma_keep_items(items, args, i + 1, acc.push(items[i]));
    }
}

proof fn lemma_keep_entries(
    entries: Seq<(KeyIndex, Val)>,
    args: Seq<Val>,
    i: int,
    acc: Seq<(KeyIndex, Val)>,
)
    requires
        0 <= i <= entries.len(),
        forall|j: int| 0 <= j < entries.len() ==> closed((#[trigger] entries[j]).1),
        acc =~= entries.subrange(0, i),
    ensures
        substitute_entries(entries, args, i, acc) == Ok::<Seq<(KeyIndex, Val)>, ErrV>(entries),
    decreases entries, entries.len() - i,
{
    if i >= entries.len() {
        assert(acc =~= entries);
    } else {
        lemma_substitute_keeps(entries[i].1, args);
        assert(acc.push((entries[i].0, entries[i].1)) =~= entries.subrange(0, i + 1));
        lemma_keep_entries(entries, args, i + 1, acc.push((entries[i].0, entries[i].1)));
    }
}

proof fn lemma_keep_slot(slot: Option<Val>, args: Seq<Val>, k: KeyIndex)
    requires
        closed_slot(slot),
    ensures
        substitute_slot(slot, args, k) == Ok::<Option<Val>, ErrV>(slot),
    decreases slot, 1nat,
{
    match slot {
        None => {},
        Some(v) => lemma_substitute_keeps(v, args),
    }
}

proof fn lemma_keep_type(t: TypeV, args: Seq<Val>)
    requires
        closed_type(t),
    ensures
        substitute_type(t, args) == Ok::<TypeV, ErrV>(t),
    decreases t, 0nat,
{
    match t {
        TypeV::TypedList(inner) => lemma_keep_type(*inner, args),
        TypeV::Standard(s) => {
            lemma_substitute_keeps(s.keys, args);
            lemma_substitute_keeps(s.validator, args);
            lemma_keep_slot(s.equality, args, key(4, 4));
            lemma_keep_slot(s.display_function, args, key(4, 5));
            lemma_keep_slot(s.reading_function, args, key(4, 6));
            lemma_keep_slot(s.type_converters_to_code, args, key(4, 7));
            lemma_keep_slot(s.type_converters_from_code, args, key(4, 8));
        },
    }
}

proof fn lemma_keep_list(l: ListV, args: Seq<Val>)
    requires
        closed_list(l),
    ensures
        substitute_list(l, args) == Ok::<ListV, ErrV>(l),
    decreases l, 0nat,
{
    lemma_keep_items(l.entries, args, 0, Seq::empty());
    match l.elem_type {
        ElemTypeV::Unchecked(t) => lemma_substitute_keeps(t, args),
        ElemTypeV::Valid(t) => lemma_keep_type(t, args),
    }
}

/// Substitution leaves a value without argument references as it is.
pub proof fn lemma_substitute_keeps(v: Val, args: Seq<Val>)
    requires
        closed(v),
    ensures
        substitute(v, args) == Ok::<Val, ErrV>(v),
    decreases v, 0nat,
{
    match v {
        Val::FunctionCall(c) => {
            lemma_keep_args(*c, c.args, args, 0, Seq::empty());
        },
        Val::TypedList(l) => lemma_keep_list(*l, args),
        Val::Type(t) => lemma_keep_type(*t, args),
        Val::TestCase(t) => {
            lemma_substitute_keeps(t.call, args);
            lemma_substitute_keeps(t.validation, args);
        },
        Val::Untyped(entries) => {
            lemma_keep_entries(entries, args, 0, Seq::empty());
        },
        _ => {},
    }
}

/// Substituting twice into a body without argument references is
/// substituting once.
pub proof fn lemma_substitution_idempotent(body: Val, args: Seq<Val>)
    requires
        closed(body),
    ensures
        substitute(body, args) == Ok::<Val, ErrV>(body),
        substitute(substitute(body, args)->Ok_0, args) == substitute(body, args),
{
    lemma_substitute_keeps(body, args);
}

proof fn lemma_close_args(c: CallV, items: Seq<Val>, args: Seq<Val>, i: int, acc: Seq<Val>)
    requires
        all_closed(args),
        all_closed(acc),
    ensures
        substitute_args(c, items, args, i, acc) matches Ok(r) ==> all_closed(r),
    decreases items, items.len() - i,
{
    if i < 0 || i >= items.len() {
    } else {
        lemma_substitute_closes(items[i], args);
        match substitute(items[i], args) {
            Err(_) => {},
            Ok(r) => lemma_close_args(c, items, args, i + 1, acc.push(r)),
        }
    }
}

proof fn lemma_close_items(items: Seq<Val>, args: Seq<Val>, i: int, acc: Seq<Val>)
    requires
        all_closed(args),
        all_closed(acc),
    ensures
        substitute_items(items, args, i, acc) matches Ok(r) ==> all_closed(r),
    decreases items, items.len() - i,
{
    if i < 0 || i >= items.len() {
    } else {
        lemma_substitute_closes(items[i], args);
        match substitute(items[i], args) {
            Err(_) => {},
            Ok(r) => lemma_close_items(items, args, i + 1, acc.push(r)),
        }
    }
}

proof fn lemma_close_entries(
    entries: Seq<(KeyIndex, Val)>,
    args: Seq<Val>,
    i: int,
    acc: Seq<(KeyIndex, Val)>,
)
    requires
        all_closed(args),
        forall|j: int| 0 <= j < acc.len() ==> closed((#[trigger] acc[j]).1),
    ensures
        substitute_entries(entries, args, i, acc) matches Ok(r) ==> forall|j: int|
            0 <= j < r.len() ==> closed((#[trigger] r[j]).1),
    decreases entries, entries.len() - i,
{
    if i < 0 || i >= entries.len() {
    } else {
        lemma_substitute_closes(entries[i].1, args);
        match substitute(entries[i].1, args) {
            Err(_) => {},
            Ok(r) => lemma_close_entries(entries, args, i + 1, acc.push((entries[i].0, r))),
        }
    }
}

proof fn lemma_close_slot(slot: Option<Val>, args: Seq<Val>, k: KeyIndex)
    requires
        all_closed(args),
    ensures
        substitute_slot(slot, args, k) matches Ok(r) ==> closed_slot(r),
    decreases slot, 1nat,
{
    match slot {
        None => {},
        Some(v) => lemma_substitute_closes(v, args),
    }
}

proof fn lemma_close_type(t: TypeV, args: Seq<Val>)
    requires
        all_closed(args),
    ensures
        substitute_type(t, args) matches Ok(r) ==> closed_type(r),
    decreases t, 0nat,
{
    match t {
        TypeV::TypedList(inner) => lemma_close_type(*inner, args),
        TypeV::Standard(s) => {
            lemma_substitute_closes(s.keys, args);
            lemma_substitute_closes(s.validator, args);
            lemma_close_slot(s.equality, args, key(4, 4));
            lemma_close_slot(s.display_function, args, key(4, 5));
            lemma_close_slot(s.reading_function, args, key(4, 6));
            lemma_close_slot(s.type_converters_to_code, args, key(4, 7));
            lemma_close_slot(s.type_converters_from_code, args, key(4, 8));
        },
    }
}

proof fn lemma_close_list(l: ListV, args: Seq<Val>)
    requires
        all_closed(args),
    ensures
        substitute_list(l, args) matches Ok(r) ==> closed_list(r),
    decreases l, 0nat,
{
    lemma_close_items(l.entries, args, 0, Seq::empty());
    match l.elem_type {
        ElemTypeV::Unchecked(t) => lemma_substitute_closes(t, args),
        ElemTypeV::Valid(t) => lemma_close_type(t, args),
    }
}

/// Substituting arguments that hold no argument reference leaves none.
pub proof fn lemma_substitute_closes(v: Val, args: Seq<Val>)
    requires
        all_closed(args),
    ensures
        substitute(v, args) matches Ok(r) ==> closed(r),
    decreases v, 0nat,
{
    match v {
        Val::FunctionCall(c) => {
            lemma_close_args(*c, c.args, args, 0, Seq::empty());
        },
        Val::TypedList(l) => lemma_close_list(*l, args),
        Val::Type(t) => lemma_close_type(*t, args),
        Val::TestCase(t) => {
            lemma_substitute_closes(t.call, args);
            lemma_substitute_closes(t.validation, args);
        },
        Val::Untyped(entries) => {
            lemma_close_entries(entries, args, 0, Seq::empty());
        },
        _ => {},
    }
}

/// Substitution settles at once: with arguments that hold no argument
/// reference, substituting into what a substitution gave changes nothing.
pub proof fn lemma_substitution_settles(body: Val, args: Seq<Val>)
    requires
        all_closed(args),
        substitute(body, args) is Ok,
    ensures
        substitute(substitute(body, args)->Ok_0, args) == substitute(body, args),
{
    lemma_substitute_closes(body, args);
    lemma_substitute_keeps(substitute(body, args)->Ok_0, args);
}

proof fn lemma_items_each(items: Seq<Val>, args: Seq<Val>, i: int, acc: Seq<Val>)
    requires
        0 <= i <= items.len(),
        acc.len() == i,
        forall|j: int| 0 <= j < i ==> substitute(items[j], args) == Ok::<Val, ErrV>(#[trigger] acc[j]),
    ensures
        match substitute_items(items, args, i, acc) {
            Ok(r) => r.len() == items.len() && forall|j: int|
                0 <= j < items.len() ==> substitute(items[j], args) == Ok::<Val, ErrV>(
                    #[trigger] r[j],
                ),
            Err(e) => exists|j: int|
                i <= j < items.len() && (#[trigger] substitute(items[j], args) is Err) && e
                    == substitute(items[j], args)->Err_0.inside_list(j as usize),
        },
    decreases items.len() - i,
{
    if i >= items.len() {
    } else {
        match substitute(items[i], args) {
            Err(_) => {},
            Ok(r) => {
                lemma_items_each(items, args, i + 1, acc.push(r));
            },
        }
    }
}

/// The entries of a list are substituted one by one: the outcome holds
/// what each entry became, and where an entry fails, the error is the
/// error of an entry with its position added.
pub proof fn lemma_list_substituted_entrywise(items: Seq<Val>, args: Seq<Val>)
    ensures
        match substitute_items(items, args, 0, Seq::empty()) {
            Ok(r) => r.len() == items.len() && forall|j: int|
                0 <= j < items.len() ==> substitute(items[j], args) == Ok::<Val, ErrV>(
                    #[trigger] r[j],
                ),
            Err(e) => exists|j: int|
                0 <= j < items.len() && (#[trigger] substitute(items[j], args) is Err) && e
                    == substitute(items[j], args)->Err_0.inside_list(j as usize),
        },
{
    lemma_items_each(items, args, 0, Seq::empty());
}

proof fn lemma_entries_keep_keys(
    entries: Seq<(KeyIndex, Val)>,
    args: Seq<Val>,
    i: int,
    acc: Seq<(KeyIndex, Val)>,
)
    requires
        0 <= i <= entries.len(),
        acc.len() == i,
        forall|j: int| 0 <= j < i ==> (#[trigger] acc[j]).0 == entries[j].0,
    ensures
        substitute_entries(entries, args, i, acc) matches Ok(r) ==> r.len() == entries.len()
            && forall|j: int| 0 <= j < r.len() ==> (#[trigger] r[j]).0 == entries[j].0,
    decreases entries.len() - i,
{
    if i >= entries.len() {
    } else {
        match substitute(entries[i].1, args) {
            Err(_) => {},
            Ok(r) => lemma_entries_keep_keys(entries, args, i + 1, acc.push((entries[i].0, r))),
        }
    }
}

/// Substitution leaves the keys of a raw record as they are, so a sorted
/// record stays sorted.
pub proof fn lemma_substitution_keeps_keys(entries: Seq<(KeyIndex, Val)>, args: Seq<Val>)
    ensures
        substitute(Val::Untyped(entries), args) matches Ok(v) ==> v is Untyped
            && v->Untyped_0.len() == entries.len() && (forall|j: int|
            0 <= j < entries.len() ==> (#[trigger] v->Untyped_0[j]).0 == entries[j].0) && (
        entries_sorted(entries) ==> entries_sorted(v->Untyped_0)),
{
    lemma_entries_keep_keys(entries, args, 0, Seq::empty());
    match substitute(Val::Untyped(entries), args) {
        Ok(v) => {
            let r = v->Untyped_0;
            if entries_sorted(entries) {
                assert forall|i: int, j: int| 0 <= i < j < r.len() implies key_less(
                    (#[trigger] r[i]).0,
                    (#[trigger] r[j]).0,
                ) by {
                    assert(r[i].0 == entries[i].0 && r[j].0 == entries[j].0);
                    assert(key_less(entries[i].0, entries[j].0));
                }
            }
        },
        Err(_) => {},
    }
}

} // verus!
