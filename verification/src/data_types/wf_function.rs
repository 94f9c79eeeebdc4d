//! A callable object.
use vstd::prelude::*;
use std::rc::Rc;
use crate::data_types::{ImplementationByKind, WfData, WfImplementation, WfTypedList};
use crate::data_types::types_def::WfTypeGeneric;
use crate::data_types::view::{checked, parsed, share};
use crate::data_types::wf_data_type::WfDataType;
use crate::eval_error::{EvalError, EvalErrorKind};
use crate::execution_context::ExecutionContext;
use crate::key_index::{key_at, KeyIndex};
use crate::model::{ErrV, ImplV, ListV, Val};
use crate::semantics::{
    kind_rank, last_of_kind, list_under, parse_function, parse_implementations,
    pick_implementation, preferred,
};
use crate::zid::{object, Zid};

verus! {

#[derive(Debug)]
pub struct WfFunctionInner {
    pub arguments: WfTypedList,
    pub return_type: WfTypeGeneric,
    pub testers: WfData,
    pub implementations: WfTypedList,
    pub identity: Zid,
}

#[derive(Debug)]
pub struct WfFunction(pub Rc<WfFunctionInner>);

impl Clone for WfFunction {
    fn clone(&self) -> (r: Self)
        ensures
            r == *self,
    {
        WfFunction(share(&self.0))
    }
}


impl WfDataType for WfFunction {
    open spec fn model(&self) -> Val {
        Val::Function(Box::new(self@))
    }

    fn into_wf_data(self) -> (r: WfData) {
        WfData::WfFunction(self)
    }

    fn is_fully_realised(&self) -> (r: bool) {
        false
    }

    fn get_identity_zid_key(&self) -> (r: Option<KeyIndex>) {
        Some(KeyIndex { z: 8, k: 5 })
    }

    fn get_key(&self, key: KeyIndex) -> (r: Option<WfData>) {
        if key == (KeyIndex { z: 1, k: 1 }) {
            Some(WfData::new_reference(Zid { z: 8, k: 0 }))
        } else if key == (KeyIndex { z: 8, k: 1 }) {
            Some(WfData::WfTypedList(self.0.arguments.clone()))
        } else if key == (KeyIndex { z: 8, k: 2 }) {
            Some(WfData::WfType(self.0.return_type.clone()))
        } else if key == (KeyIndex { z: 8, k: 3 }) {
            Some(self.0.testers.clone())
        } else if key == (KeyIndex { z: 8, k: 4 }) {
            Some(WfData::WfTypedList(self.0.implementations.clone()))
        } else if key == (KeyIndex { z: 8, k: 5 }) {
            Some(WfData::new_reference(self.0.identity))
        } else {
            None
        }
    }

    fn list_keys(&self) -> (r: Vec<KeyIndex>) {
        let r = vec![
            KeyIndex { z: 1, k: 1 },
            KeyIndex { z: 8, k: 1 },
            KeyIndex { z: 8, k: 2 },
            KeyIndex { z: 8, k: 3 },
            KeyIndex { z: 8, k: 4 },
            KeyIndex { z: 8, k: 5 },
        ];
        assert(r@ =~= self.model().keys());
        r
    }
}


/// The models of a sequence of implementations.
pub open spec fn implementations(v: Seq<WfImplementation>) -> Seq<ImplV> {
    Seq::new(v.len(), |i: int| v[i]@)
}

/// Whether `found` is the last implementation of the given rank among the
/// first `n`.
pub open spec fn is_last_of_kind(
    found: Option<WfImplementation>,
    v: Seq<WfImplementation>,
    n: int,
    rank: int,
) -> bool {
    match found {
        Some(i) => last_of_kind(implementations(v), n, rank) == Some(i@),
        None => last_of_kind(implementations(v), n, rank) is None,
    }
}

/// The list under `key`, evaluated.
fn get_list(data: &WfData, key: KeyIndex, context: &ExecutionContext) -> (r: Result<
    WfTypedList,
    EvalError,
>)
    ensures
        match r {
            Ok(l) => list_under(data@, key, context@) == Ok::<ListV, (ErrV, Val)>(l@),
            Err(e) => list_under(data@, key, context@) == Err::<ListV, (ErrV, Val)>((e@, data@)),
        },
    decreases context@.steps, 0nat,
{
    let below = match data.get_key(key) {
        Some(v) => v,
        None => {
            return Err(EvalError::missing_key(key));
        },
    };
    let inner = match context.step() {
        Ok(c) => c,
        Err(e) => {
            return Err(e);
        },
    };
    let evaluated = match below.evaluate(&inner) {
        Ok(v) => v,
        Err((e, _)) => {
            return Err(e.inside_key(key));
        },
    };
    match WfTypedList::parse(evaluated, &inner) {
        Ok(l) => Ok(l),
        Err((e, _)) => Err(e.inside_key(key)),
    }
}

impl WfFunction {
    /// Reads a value as a function.
    pub fn parse(data: WfData, context: &ExecutionContext) -> (r: Result<Self, (EvalError, WfData)>)
        ensures
            parsed(r) == parse_function(data@, context@),
        decreases context@.steps, 0nat,
    {
        if let WfData::WfFunction(v) = &data {
            return Ok(v.clone());
        }
        let stated = match data.get_key(key_at(1, 1)) {
            Some(t) => t,
            None => {
                return Err((EvalError::missing_key(key_at(1, 1)), data));
            },
        };
        let inner = match context.step() {
            Ok(c) => c,
            Err(e) => {
                return Err((e, data));
            },
        };
        if let Err((e, _)) = stated.check_identity_zid(&inner, object(8)) {
            return Err((e.inside_key(key_at(1, 1)), data));
        }
        let arguments = match get_list(&data, key_at(8, 1), &inner) {
            Ok(l) => l,
            Err(e) => {
                return Err((e, data));
            },
        };
        let return_type = match data.get_key(key_at(8, 2)) {
            None => {
                return Err((EvalError::missing_key(key_at(8, 2)), data));
            },
            Some(v) => match v.evaluate(&inner) {
                Err((e, _)) => {
                    return Err((e.inside_key(key_at(8, 2)), data));
                },
                Ok(v) => match WfTypeGeneric::parse(v, &inner) {
                    Err((e, _)) => {
                        return Err((e.inside_key(key_at(8, 2)), data));
                    },
                    Ok(v) => v,
                },
            },
        };
        let testers = match data.get_key(key_at(8, 3)) {
            Some(v) => v,
            None => {
                return Err((EvalError::missing_key(key_at(8, 3)), data));
            },
        };
        let implementations = match get_list(&data, key_at(8, 4), &inner) {
            Ok(l) => l,
            Err(e) => {
                return Err((e, data));
            },
        };
        let identity = match data.get_identity_zid(&inner, key_at(8, 5)) {
            Ok(k) => k,
            Err(e) => {
                return Err((e, data));
            },
        };
        Ok(
            WfFunction(
                Rc::new(
                    WfFunctionInner { arguments, return_type, testers, implementations, identity },
                ),
            ),
        )
    }

    /// The implementation by which a call of the function is reduced: a
    /// builtin if there is one, else a composition, else code.
    #[verifier::loop_isolation(false)]
    pub fn get_preffered_implementation(&self, context: &ExecutionContext) -> (r: Result<
        WfImplementation,
        EvalError,
    >)
        ensures
            checked(r) == pick_implementation(self@, context@),
        decreases context@.steps, 0nat,
    {
        let inner = match context.step() {
            Ok(c) => c,
            Err(e) => {
                return Err(e);
            },
        };
        let ghost items = self@.implementations.entries;
        let n = self.0.implementations.len();
        let mut parsed_entries: Vec<WfImplementation> = Vec::new();
        let mut pos: usize = 0;
        proof {
            assert(implementations(parsed_entries@) =~= Seq::<ImplV>::empty());
        }
        while pos < n
            invariant
                pos <= n,
                n == items.len(),
                items == self@.implementations.entries,
                inner@ == context@.step(),
                context@.steps > 0,
                parse_implementations(items, inner@, 0, Seq::empty()) == parse_implementations(
                    items,
                    inner@,
                    pos as int,
                    implementations(parsed_entries@),
                ),
            decreases n - pos,
        {
            let entry = match self.0.implementations.get(pos) {
                Some(e) => e,
                None => {
                    assert(false);
                    return Err(EvalError::from_kind(EvalErrorKind::CantGetHeadOfEmptyList));
                },
            };
            let evaluated = match entry.evaluate(&inner) {
                Ok(v) => v,
                Err((e, _)) => {
                    return Err(e.inside_list(pos).inside_key(key_at(8, 4)));
                },
            };
            let implementation = match WfImplementation::parse(evaluated, &inner) {
                Ok(i) => i,
                Err((e, _)) => {
                    return Err(e.inside_list(pos).inside_key(key_at(8, 4)));
                },
            };
            proof {
                assert(implementations(parsed_entries@.push(implementation)) =~= implementations(
                    parsed_entries@,
                ).push(implementation@));
            }
            parsed_entries.push(implementation);
            pos += 1;
        }
        let ghost all = parsed_entries@;
        let count = parsed_entries.len();
        let mut best_builtin: Option<WfImplementation> = None;
        let mut best_composition: Option<WfImplementation> = None;
        let mut best_code: Option<WfImplementation> = None;
        let mut i: usize = 0;
        while i < count
            invariant
                i <= count,
                count == all.len(),
                all == parsed_entries@,
                is_last_of_kind(best_builtin, all, i as int, 0),
                is_last_of_kind(best_composition, all, i as int, 1),
                is_last_of_kind(best_code, all, i as int, 2),
            decreases count - i,
        {
            let implementation = parsed_entries[i].clone();
            match &implementation.0.kind {
                ImplementationByKind::Composition(_) => {
                    best_composition = Some(implementation);
                },
                ImplementationByKind::Code(_) => {
                    best_code = Some(implementation);
                },
                ImplementationByKind::Builtin(_) => {
                    best_builtin = Some(implementation);
                },
            }
            i += 1;
        }
        if let Some(found) = best_builtin {
            Ok(found)
        } else if let Some(found) = best_composition {
            Ok(found)
        } else if let Some(found) = best_code {
            Ok(found)
        } else {
            Err(EvalError::from_kind(EvalErrorKind::NoImplementationForFunction(self.0.identity)))
        }
    }
}

} // verus!
