//! The type "list of T".
use vstd::prelude::*;
use std::rc::Rc;
use crate::data_types::WfData;
use crate::data_types::types_def::WfTypeGeneric;
use crate::data_types::view::{parsed, share};
use crate::data_types::wf_data_type::WfDataType;
use crate::eval_error::EvalError;
use crate::execution_context::ExecutionContext;
use crate::key_index::{key_at, KeyIndex};
use crate::model::{TypeV, Val};
use crate::semantics::parse_typed_list_type;
use crate::zid::{object, Zid};

verus! {

#[derive(Debug)]
pub struct WfTypedListType {
    pub element_type: Rc<WfTypeGeneric>,
}

impl Clone for WfTypedListType {
    fn clone(&self) -> (r: Self)
        ensures
            r == *self,
    {
        WfTypedListType { element_type: share(&self.element_type) }
    }
}


impl WfTypedListType {
    /// The type of the lists whose elements have the type `inner_type`.
    pub fn new(inner_type: WfTypeGeneric) -> (r: Self)
        ensures
            r@ == inner_type@,
    {
        Self { element_type: Rc::new(inner_type) }
    }
}

impl WfDataType for WfTypedListType {
    open spec fn model(&self) -> Val {
        Val::Type(Box::new(TypeV::TypedList(Box::new(self@))))
    }

    fn into_wf_data(self) -> (r: WfData) {
        WfData::WfType(WfTypeGeneric::WfTypedListType(self))
    }

    fn is_fully_realised(&self) -> (r: bool) {
        false
    }

    fn get_identity_zid_key(&self) -> (r: Option<KeyIndex>) {
        None
    }

    fn get_key(&self, key: KeyIndex) -> (r: Option<WfData>) {
        if key == (KeyIndex { z: 1, k: 1 }) {
            Some(WfData::new_reference(Zid { z: 7, k: 0 }))
        } else if key == (KeyIndex { z: 7, k: 1 }) {
            Some(WfData::new_reference(Zid { z: 881, k: 0 }))
        } else if key == (KeyIndex { z: 881, k: 1 }) {
            let inner: &WfTypeGeneric = &self.element_type;
            Some(WfData::WfType(inner.clone()))
        } else {
            None
        }
    }

    fn list_keys(&self) -> (r: Vec<KeyIndex>) {
        let r = vec![KeyIndex { z: 1, k: 1 }, KeyIndex { z: 7, k: 1 }, KeyIndex { z: 881, k: 1 }];
        assert(r@ =~= self.model().keys());
        r
    }
}


impl WfTypedListType {
    /// Reads a record that applies `Z881` to a type as the type of the
    /// lists of that type.
    pub fn parse(data: WfData, context: &ExecutionContext) -> (r: Result<Self, (EvalError, WfData)>)
        ensures
            parsed(r) == parse_typed_list_type(data@, context@),
        decreases context@.steps, 0nat,
    {
        if let WfData::WfType(WfTypeGeneric::WfTypedListType(v)) = &data {
            return Ok(v.clone());
        }
        let stated = match data.get_key(key_at(1, 1)) {
            Some(t) => t,
            None => {
                return Err((EvalError::missing_key(key_at(1, 1)), data));
            },
        };
        let inner = match context.step() {
            Ok(c) => c,
            Err(e) => {
                return Err((e, data));
            },
        };
        if let Err((e, _)) = stated.check_identity_zid(&inner, object(7)) {
            return Err((e.inside_key(key_at(1, 1)), data));
        }
        let function = match data.get_key(key_at(7, 1)) {
            Some(f) => f,
            None => {
                return Err((EvalError::missing_key(key_at(7, 1)), data));
            },
        };
        if let Err((e, _)) = function.check_identity_zid(&inner, object(881)) {
            return Err((e.inside_key(key_at(7, 1)), data));
        }
        let unparsed = match data.get_key(key_at(881, 1)) {
            Some(t) => t,
            None => {
                return Err((EvalError::missing_key(key_at(881, 1)), data));
            },
        };
        let evaluated = match unparsed.evaluate(&inner) {
            Ok(v) => v,
            Err((e, _)) => {
                return Err((e.inside_key(key_at(881, 1)), data));
            },
        };
        match WfTypeGeneric::parse(evaluated, &inner) {
            Ok(v) => Ok(Self::new(v)),
            Err((e, _)) => Err((e.inside_key(key_at(881, 1)), data)),
        }
    }
}

} // verus!
