//! Substitution of arguments into the body of a composition.
use vstd::prelude::*;
use std::rc::Rc;
use crate::data_types::{
    MaybeEvaluated, WfData, WfFunctionCall, WfFunctionCallInner, WfTestCase, WfTestCaseInner,
    WfTypedList, WfUntyped,
};
use crate::data_types::types_def::{
    WfStandardType, WfStandardTypeInner, WfTypedListType, WfTypeGeneric,
};
use crate::data_types::util::SubstitutionInfo;
use crate::data_types::view::{
    entries, lemma_entries, lemma_values, lemma_values_from, optional, values,
};
use crate::eval_error::{EvalError, EvalErrorKind};
use crate::execution_context::ExecutionContext;
use crate::key_index::KeyIndex;
use crate::model::{ErrV, ListV, TypeV, Val};
use crate::semantics::{
    substitute, substitute_args, substitute_entries, substitute_items, substitute_list,
    substitute_slot, substitute_type,
};

verus! {

pub open spec fn value_result(r: Result<WfData, EvalError>) -> Result<Val, ErrV> {
    match r {
        Ok(v) => Ok(v@),
        Err(e) => Err(e@),
    }
}

pub open spec fn type_result(r: Result<WfTypeGeneric, EvalError>) -> Result<TypeV, ErrV> {
    match r {
        Ok(v) => Ok(v@),
        Err(e) => Err(e@),
    }
}

pub open spec fn list_result(r: Result<WfTypedList, EvalError>) -> Result<ListV, ErrV> {
    match r {
        Ok(v) => Ok(v@),
        Err(e) => Err(e@),
    }
}

pub open spec fn slot_result(r: Result<Option<WfData>, EvalError>) -> Result<Option<Val>, ErrV> {
    match r {
        Ok(v) => Ok(optional(v)),
        Err(e) => Err(e@),
    }
}

/// The value with the arguments of `info` in place of its argument
/// references.
pub fn substitute_data<I: SubstitutionInfo>(v: &WfData, info: &I) -> (r: Result<WfData, EvalError>)
    ensures
        value_result(r) == substitute(v@, info.arguments()),
    decreases v, 0nat,
{
    match v {
        WfData::WfArgumentReference(a) => {
            if a.key_id.k == 0 {
                Err(EvalError::from_kind(EvalErrorKind::ArgumentReferenceNoKPart(a.key_id)))
            } else {
                info.get_for_pos(a.key_id.k - 1)
            }
        },
        WfData::WfFunctionCall(c) => {
            let ghost items = c@.args;
            let ghost args = info.arguments();
            let n = c.0.args.len();
            let mut new_args: Vec<WfData> = Vec::new();
            let mut i: usize = 0;
            proof {
                lemma_values(c.0.args@);
                assert(values(new_args@) =~= Seq::<Val>::empty());
            }
            while i < n
                invariant
                    i <= n,
                    n == c.0.args@.len(),
                    items == c@.args,
                    items == values(c.0.args@),
                    args == info.arguments(),
                    *v == WfData::WfFunctionCall(*c),
                    substitute_args(c@, items, args, 0, Seq::empty()) == substitute_args(
                        c@,
                        items,
                        args,
                        i as int,
                        values(new_args@),
                    ),
                decreases n - i,
            {
                proof {
                    lemma_values(c.0.args@);
                }
                match substitute_data(&c.0.args[i], info) {
                    Err(e) => {
                        return Err(
                            e.inside_key(
                                KeyIndex {
                                    z: c.0.function.0.identity.z,
                                    k: #[verifier::truncate]
                                    ((i + 1) as u32),
                                },
                            ),
                        );
                    },
                    Ok(r) => {
                        proof {
                            lemma_values(new_args@);
                            lemma_values(new_args@.push(r));
                            assert(values(new_args@.push(r)) =~= values(new_args@).push(r@));
                        }
                        new_args.push(r);
                    },
                }
                i += 1;
            }
            Ok(
                WfData::WfFunctionCall(
                    WfFunctionCall(
                        Rc::new(
                            WfFunctionCallInner { function: c.0.function.clone(), args: new_args },
                        ),
                    ),
                ),
            )
        },
        WfData::WfTypedList(l) => match substitute_typed_list(l, info) {
            Ok(r) => Ok(WfData::WfTypedList(r)),
            Err(e) => Err(e),
        },
        WfData::WfType(t) => match substitute_in_type(t, info) {
            Ok(r) => Ok(WfData::WfType(r)),
            Err(e) => Err(e),
        },
        WfData::WfTestCase(t) => {
            let call = match substitute_data(&t.0.call, info) {
                Ok(r) => r,
                Err(e) => {
                    return Err(e.inside_key(KeyIndex { z: 20, k: 2 }));
                },
            };
            let validation = match substitute_data(&t.0.validation, info) {
                Ok(r) => r,
                Err(e) => {
                    return Err(e.inside_key(KeyIndex { z: 20, k: 3 }));
                },
            };
            Ok(
                WfData::WfTestCase(
                    WfTestCase(
                        Rc::new(
                            WfTestCaseInner { function: t.0.function.clone(), call, validation },
                        ),
                    ),
                ),
            )
        },
        WfData::WfUntyped(u) => {
            let ghost items = u@;
            let ghost args = info.arguments();
            let n = u.entry.len();
            let mut new_entries: Vec<(KeyIndex, WfData)> = Vec::new();
            let mut i: usize = 0;
            proof {
                lemma_entries(u.entry@);
                assert(entries(new_entries@) =~= Seq::<(KeyIndex, Val)>::empty());
            }
            while i < n
                invariant
                    i <= n,
                    n == u.entry@.len(),
                    items == entries(u.entry@),
                    args == info.arguments(),
                    *v == WfData::WfUntyped(*u),
                    substitute_entries(items, args, 0, Seq::empty()) == substitute_entries(
                        items,
                        args,
                        i as int,
                        entries(new_entries@),
                    ),
                decreases n - i,
            {
                proof {
                    lemma_entries(u.entry@);
                }
                match substitute_data(&u.entry[i].1, info) {
                    Err(e) => {
                        return Err(e.inside_key(u.entry[i].0));
                    },
                    Ok(r) => {
                        proof {
                            let k = u.entry@[i as int].0;
                            lemma_entries(new_entries@);
                            lemma_entries(new_entries@.push((k, r)));
                            assert(entries(new_entries@.push((k, r))) =~= entries(
                                new_entries@,
                            ).push((k, r@)));
                        }
                        new_entries.push((u.entry[i].0, r));
                    },
                }
                i += 1;
            }
            Ok(WfData::WfUntyped(WfUntyped { entry: Rc::new(new_entries) }))
        },
        _ => Ok(v.clone()),
    }
}

fn substitute_in_slot<I: SubstitutionInfo>(slot: &Option<WfData>, info: &I, k: KeyIndex) -> (r:
    Result<Option<WfData>, EvalError>)
    ensures
        slot_result(r) == substitute_slot(optional(*slot), info.arguments(), k),
    decreases slot, 1nat,
{
    match slot {
        None => Ok(None),
        Some(v) => match substitute_data(v, info) {
            Err(e) => Err(e.inside_key(k)),
            Ok(r) => Ok(Some(r)),
        },
    }
}

/// The type with the arguments of `info` in place of its argument
/// references.
pub fn substitute_in_type<I: SubstitutionInfo>(t: &WfTypeGeneric, info: &I) -> (r: Result<
    WfTypeGeneric,
    EvalError,
>)
    ensures
        type_result(r) == substitute_type(t@, info.arguments()),
    decreases t, 0nat,
{
    match t {
        WfTypeGeneric::WfTypedListType(inner) => {
            let element: &WfTypeGeneric = &inner.element_type;
            match substitute_in_type(element, info) {
                Err(e) => Err(e.inside_key(KeyIndex { z: 881, k: 1 })),
                Ok(r) => Ok(WfTypeGeneric::WfTypedListType(WfTypedListType::new(r))),
            }
        },
        WfTypeGeneric::WfStandardType(s) => {
            let keys = match substitute_data(&s.inner.keys, info) {
                Ok(r) => r,
                Err(e) => {
                    return Err(e.inside_key(KeyIndex { z: 4, k: 2 }));
                },
            };
            let validator = match substitute_data(&s.inner.validator, info) {
                Ok(r) => r,
                Err(e) => {
                    return Err(e.inside_key(KeyIndex { z: 4, k: 3 }));
                },
            };
            let equality = match substitute_in_slot(
                &s.inner.equality,
                info,
                KeyIndex { z: 4, k: 4 },
            ) {
                Ok(r) => r,
                Err(e) => {
                    return Err(e);
                },
            };
            let display_function = match substitute_in_slot(
                &s.inner.display_function,
                info,
                KeyIndex { z: 4, k: 5 },
            ) {
                Ok(r) => r,
                Err(e) => {
                    return Err(e);
                },
            };
            let reading_function = match substitute_in_slot(
                &s.inner.reading_function,
                info,
                KeyIndex { z: 4, k: 6 },
            ) {
                Ok(r) => r,
                Err(e) => {
                    return Err(e);
                },
            };
            let type_converters_to_code = match substitute_in_slot(
                &s.inner.type_converters_to_code,
                info,
                KeyIndex { z: 4, k: 7 },
            ) {
                Ok(r) => r,
                Err(e) => {
                    return Err(e);
                },
            };
            let type_converters_from_code = match substitute_in_slot(
                &s.inner.type_converters_from_code,
                info,
                KeyIndex { z: 4, k: 8 },
            ) {
                Ok(r) => r,
                Err(e) => {
                    return Err(e);
                },
            };
            Ok(
                WfTypeGeneric::WfStandardType(
                    WfStandardType {
                        inner: Rc::new(
                            WfStandardTypeInner {
                                identity_ref: s.inner.identity_ref,
                                keys,
                                validator,
                                equality,
                                display_function,
                                reading_function,
                                type_converters_to_code,
                                type_converters_from_code,
                            },
                        ),
                    },
                ),
            )
        },
    }
}

/// The list with the arguments of `info` in place of the argument
/// references in its entries and in its element type.
pub fn substitute_typed_list<I: SubstitutionInfo>(l: &WfTypedList, info: &I) -> (r: Result<
    WfTypedList,
    EvalError,
>)
    ensures
        list_result(r) == substitute_list(l@, info.arguments()),
    decreases l, 0nat,
{
    let ghost items = l@.entries;
    let ghost args = info.arguments();
    let n = l.len();
    let mut new_entries: Vec<WfData> = Vec::new();
    let mut i: usize = 0;
    proof {
        assert(values(new_entries@) =~= Seq::<Val>::empty());
    }
    while i < n
        invariant
            i <= n,
            n == l@.len(),
            n > 0 ==> l.start_position + n == l.entries@.len(),
            items == l@.entries,
            args == info.arguments(),
            substitute_items(items, args, 0, Seq::empty()) == substitute_items(
                items,
                args,
                i as int,
                values(new_entries@),
            ),
        decreases n - i,
    {
        proof {
            lemma_values_from(l.entries@, l.start_position as int);
        }
        let total = l.entries.len();
        match substitute_data(&l.entries[l.start_position + i], info) {
            Err(e) => {
                return Err(e.inside_list(i));
            },
            Ok(r) => {
                proof {
                    lemma_values(new_entries@);
                    lemma_values(new_entries@.push(r));
                    assert(values(new_entries@.push(r)) =~= values(new_entries@).push(r@));
                }
                new_entries.push(r);
            },
        }
        i += 1;
    }
    let element: &MaybeEvaluated = &l.inner_type;
    let element_type = match element {
        MaybeEvaluated::Unchecked(t) => match substitute_data(t, info) {
            Err(e) => {
                return Err(e.inside_key(KeyIndex { z: 1, k: 1 }));
            },
            Ok(r) => MaybeEvaluated::Unchecked(r),
        },
        MaybeEvaluated::Valid(t) => match substitute_in_type(t, info) {
            Err(e) => {
                return Err(e.inside_key(KeyIndex { z: 1, k: 1 }));
            },
            Ok(r) => MaybeEvaluated::Valid(r),
        },
    };
    Ok(WfTypedList::new(element_type, new_entries))
}

impl WfData {
    /// The value with the arguments of `info` in place of its argument
    /// references.  Nothing is evaluated; functions, implementations and
    /// pointers are left as they are.
    pub fn substitute_function_arguments<I: SubstitutionInfo>(
        self,
        info: &I,
        _context: &ExecutionContext,
    ) -> (r: Result<WfData, EvalError>)
        ensures
            value_result(r) == substitute(self@, info.arguments()),
    {
        substitute_data(&self, info)
    }
}

} // verus!
