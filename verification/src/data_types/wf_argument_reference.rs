//! The place of an argument in the body of a composition.
use vstd::prelude::*;
use crate::data_types::{WfData, WfString};
use crate::data_types::view::parsed;
use crate::data_types::wf_data_type::WfDataType;
use crate::eval_error::{EvalError, EvalErrorKind};
use crate::execution_context::ExecutionContext;
use crate::key_index::{key_at, KeyIndex};
use crate::model::Val;
use crate::semantics::parse_argument_reference;
use crate::zid::{object, Zid};

verus! {

#[derive(Debug, PartialEq, Eq, Structural)]
pub struct WfArgumentReference {
    pub key_id: KeyIndex,
}

impl Clone for WfArgumentReference {
    fn clone(&self) -> (r: Self)
        ensures
            r == *self,
    {
        WfArgumentReference { key_id: self.key_id }
    }
}


impl WfDataType for WfArgumentReference {
    open spec fn model(&self) -> Val {
        Val::ArgumentReference(self.key_id)
    }

    fn into_wf_data(self) -> (r: WfData) {
        WfData::WfArgumentReference(self)
    }

    fn is_fully_realised(&self) -> (r: bool) {
        true
    }

    fn get_identity_zid_key(&self) -> (r: Option<KeyIndex>) {
        None
    }

    fn get_key(&self, key: KeyIndex) -> (r: Option<WfData>) {
        if key == (KeyIndex { z: 1, k: 1 }) {
            Some(WfData::new_reference(Zid { z: 18, k: 0 }))
        } else if key == (KeyIndex { z: 18, k: 1 }) {
            Some(WfData::WfString(WfString::from_string(self.key_id.to_string())))
        } else {
            None
        }
    }

    fn list_keys(&self) -> (r: Vec<KeyIndex>) {
        let r = vec![KeyIndex { z: 1, k: 1 }, KeyIndex { z: 18, k: 1 }];
        assert(r@ =~= self.model().keys());
        r
    }
}


impl WfArgumentReference {
    /// Reads a value as an argument reference.
    pub fn parse(data: WfData, context: &ExecutionContext) -> (r: Result<Self, (EvalError, WfData)>)
        ensures
            parsed(r) == parse_argument_reference(data@, context@),
        decreases context@.steps, 0nat,
    {
        if let WfData::WfArgumentReference(ar) = &data {
            return Ok(ar.clone());
        }
        let inner = match context.step() {
            Ok(c) => c,
            Err(e) => {
                return Err((e, data));
            },
        };
        match data.check_z1k1(object(18), &inner) {
            Ok(_) => {},
            Err(e) => {
                return Err((e, data));
            },
        }
        let named = match data.get_key(key_at(18, 1)) {
            Some(v) => v,
            None => {
                return Err((EvalError::missing_key(key_at(18, 1)), data));
            },
        };
        let evaluated = match named.evaluate(&inner) {
            Ok(k) => k,
            Err((e, _)) => {
                return Err((e.inside_key(key_at(18, 1)), data));
            },
        };
        let as_string = match WfString::parse(evaluated, &inner) {
            Ok(k) => k,
            Err((e, _)) => {
                return Err((e.inside_key(key_at(18, 1)), data));
            },
        };
        match KeyIndex::from_str(as_string.text.as_str()) {
            Ok(k) => Ok(Self { key_id: k }),
            Err(e) => Err(
                (
                    EvalError::from_kind(EvalErrorKind::ParseKeyIndex(e)).inside_key(key_at(18, 1)),
                    data,
                ),
            ),
        }
    }
}

} // verus!
