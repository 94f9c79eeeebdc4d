//! Any value that is a type.
use vstd::prelude::*;
use crate::data_types::{FunctionCallOrType, WfData, WfFunctionCall};
use crate::data_types::types_def::{WfStandardType, WfTypedListType};
use crate::data_types::view::parsed;
use crate::data_types::wf_data_type::WfDataType;
use crate::eval_error::{EvalError, EvalErrorKind};
use crate::execution_context::ExecutionContext;
use crate::key_index::{key_at, KeyIndex};
use crate::model::Val;
use crate::semantics::parse_type_generic;
use crate::zid::{object, Zid};

verus! {

#[derive(Debug)]
pub enum WfTypeGeneric {
    WfStandardType(WfStandardType),
    WfTypedListType(WfTypedListType),
}

impl Clone for WfTypeGeneric {
    fn clone(&self) -> (r: Self)
        ensures
            r == *self,
    {
        match self {
            WfTypeGeneric::WfStandardType(t) => WfTypeGeneric::WfStandardType(t.clone()),
            WfTypeGeneric::WfTypedListType(t) => WfTypeGeneric::WfTypedListType(t.clone()),
        }
    }
}


impl WfTypeGeneric {
    /// The object that a standard type is; other types have none.
    pub fn get_type_zid(&self) -> (r: Result<Zid, EvalError>)
        ensures
            match r {
                Ok(z) => Ok::<Zid, crate::model::ErrV>(z),
                Err(e) => Err(e@),
            } == self@.type_zid(),
    {
        match self {
            WfTypeGeneric::WfStandardType(standard) => Ok(standard.inner.identity_ref),
            _ => Err(EvalError::from_kind(EvalErrorKind::NotStandardType)),
        }
    }
}

impl WfDataType for WfTypeGeneric {
    open spec fn model(&self) -> Val {
        Val::Type(Box::new(self@))
    }

    fn into_wf_data(self) -> (r: WfData) {
        WfData::WfType(self)
    }

    fn is_fully_realised(&self) -> (r: bool) {
        match self {
            WfTypeGeneric::WfStandardType(d) => d.is_fully_realised(),
            WfTypeGeneric::WfTypedListType(d) => d.is_fully_realised(),
        }
    }

    fn get_identity_zid_key(&self) -> (r: Option<KeyIndex>) {
        match self {
            WfTypeGeneric::WfStandardType(d) => d.get_identity_zid_key(),
            WfTypeGeneric::WfTypedListType(d) => d.get_identity_zid_key(),
        }
    }

    fn get_key(&self, key: KeyIndex) -> (r: Option<WfData>) {
        match self {
            WfTypeGeneric::WfStandardType(d) => d.get_key(key),
            WfTypeGeneric::WfTypedListType(d) => d.get_key(key),
        }
    }

    fn list_keys(&self) -> (r: Vec<KeyIndex>) {
        match self {
            WfTypeGeneric::WfStandardType(d) => d.list_keys(),
            WfTypeGeneric::WfTypedListType(d) => d.list_keys(),
        }
    }
}


impl WfTypeGeneric {
    /// Reads an evaluated value as a type.
    pub fn parse(data: WfData, context: &ExecutionContext) -> (r: Result<Self, (EvalError, WfData)>)
        ensures
            parsed(r) == parse_type_generic(data@, context@),
        decreases context@.steps, 0nat,
    {
        if let WfData::WfType(t) = &data {
            return Ok(t.clone());
        }
        let stated = match data.get_key(key_at(1, 1)) {
            Some(t) => t,
            None => {
                return Err((EvalError::missing_key(key_at(1, 1)), data));
            },
        };
        let inner = match context.step() {
            Ok(c) => c,
            Err(e) => {
                return Err((e, data));
            },
        };
        let type_zid = match stated.get_type_zid(&inner) {
            Err((e, _)) => {
                return Err((e.inside_key(key_at(1, 1)), data));
            },
            Ok((z, _)) => z,
        };
        if type_zid == object(7) {
            match WfFunctionCall::parse(data, &inner) {
                Ok(FunctionCallOrType::Type(t)) => Ok(t),
                Ok(FunctionCallOrType::FunctionCall(f)) => Err(
                    (
                        EvalError::from_kind(EvalErrorKind::ExpectedTypeGotFunction),
                        WfData::WfFunctionCall(f),
                    ),
                ),
                Err(x) => Err(x),
            }
        } else if type_zid == object(4) {
            match WfStandardType::parse(data, &inner) {
                Ok(t) => Ok(WfTypeGeneric::WfStandardType(t)),
                Err(x) => Err(x),
            }
        } else {
            Err(
                (
                    EvalError::from_kind(EvalErrorKind::WrongTypeZidForType).inside_key(
                        key_at(1, 1),
                    ),
                    data,
                ),
            )
        }
    }
}

} // verus!
