//! The two truth values, a shortcut for the records of type `Z40`.
use vstd::prelude::*;
use crate::data_types::WfData;
use crate::data_types::view::parsed;
use crate::data_types::wf_data_type::WfDataType;
use crate::eval_error::{EvalError, EvalErrorKind};
use crate::execution_context::ExecutionContext;
use crate::key_index::{key_at, KeyIndex};
use crate::model::Val;
use crate::semantics::parse_boolean;
use crate::zid::{object, Zid};

verus! {

#[derive(Debug, PartialEq, Eq, Structural)]
pub struct WfBoolean {
    pub value: bool,
}

impl Clone for WfBoolean {
    fn clone(&self) -> (r: Self)
        ensures
            r == *self,
    {
        WfBoolean { value: self.value }
    }
}

impl WfBoolean {
    pub fn new(value: bool) -> (r: Self)
        ensures
            r.value == value,
    {
        Self { value }
    }
}


impl WfDataType for WfBoolean {
    open spec fn model(&self) -> Val {
        Val::Boolean(self.value)
    }

    fn into_wf_data(self) -> (r: WfData) {
        WfData::WfBoolean(self)
    }

    fn is_fully_realised(&self) -> (r: bool) {
        true
    }

    fn get_identity_zid_key(&self) -> (r: Option<KeyIndex>) {
        Some(KeyIndex { z: 40, k: 1 })
    }

    fn get_key(&self, key: KeyIndex) -> (r: Option<WfData>) {
        if key == (KeyIndex { z: 1, k: 1 }) {
            Some(WfData::new_reference(Zid { z: 40, k: 0 }))
        } else if key == (KeyIndex { z: 40, k: 1 }) {
            if self.value {
                Some(WfData::new_reference(Zid { z: 41, k: 0 }))
            } else {
                Some(WfData::new_reference(Zid { z: 42, k: 0 }))
            }
        } else {
            None
        }
    }

    fn list_keys(&self) -> (r: Vec<KeyIndex>) {
        let r = vec![KeyIndex { z: 1, k: 1 }, KeyIndex { z: 40, k: 1 }];
        assert(r@ =~= self.model().keys());
        r
    }
}


impl WfBoolean {
    /// Reads a value as a truth value: `Z41` is true and `Z42` is false.
    pub fn parse(data: WfData, context: &ExecutionContext) -> (r: Result<Self, (EvalError, WfData)>)
        ensures
            parsed(r) == parse_boolean(data@, context@),
        decreases context@.steps, 0nat,
    {
        if let WfData::WfBoolean(v) = &data {
            return Ok(v.clone());
        }
        let stated = match data.get_key(key_at(1, 1)) {
            Some(t) => t,
            None => {
                return Err((EvalError::missing_key(key_at(1, 1)), data));
            },
        };
        let inner = match context.step() {
            Ok(c) => c,
            Err(e) => {
                return Err((e, data));
            },
        };
        match stated.check_type_by_zid(object(40), &inner) {
            Err((e, _)) => {
                return Err((e.inside_key(key_at(1, 1)), data));
            },
            Ok(_) => {},
        }
        let identity = match data.get_key(key_at(40, 1)) {
            Some(i) => i,
            None => {
                return Err((EvalError::missing_key(key_at(40, 1)), data));
            },
        };
        match identity.get_reference(&inner) {
            Ok((reference, _)) => {
                if reference == object(41) {
                    Ok(Self { value: true })
                } else if reference == object(42) {
                    Ok(Self { value: false })
                } else {
                    Err(
                        (
                            EvalError::from_kind(
                                EvalErrorKind::IncorrectIdentityForBoolean(reference),
                            ),
                            data,
                        ),
                    )
                }
            },
            Err((_, consumed)) => match Self::parse(consumed, &inner) {
                Ok(v) => Ok(v),
                Err((e, _)) => Err((e.inside_key(key_at(40, 1)), data)),
            },
        }
    }
}

} // verus!
