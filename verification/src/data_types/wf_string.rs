//! A character sequence.
use vstd::prelude::*;
use std::rc::Rc;
use vstd::string::StringExecFns;
use crate::data_types::WfData;
use crate::data_types::view::{parsed, share};
use crate::data_types::wf_data_type::WfDataType;
use crate::eval_error::EvalError;
use crate::execution_context::ExecutionContext;
use crate::key_index::{key_at, KeyIndex};
use crate::model::Val;
use crate::semantics::parse_string;
use crate::zid::{object, Zid};

verus! {

#[derive(Debug)]
pub struct WfString {
    pub text: Rc<String>,
}

impl Clone for WfString {
    fn clone(&self) -> (r: Self)
        ensures
            r == *self,
    {
        WfString { text: share(&self.text) }
    }
}

impl WfString {
    pub fn new(text: &str) -> (r: Self)
        ensures
            r.text@ == text@,
    {
        Self { text: Rc::new(String::from_str(text)) }
    }

    /// The string that owns `text`.
    pub fn from_string(text: String) -> (r: Self)
        ensures
            r.text@ == text@,
    {
        Self { text: Rc::new(text) }
    }
}


impl WfDataType for WfString {
    open spec fn model(&self) -> Val {
        Val::Text(self.text@)
    }

    fn into_wf_data(self) -> (r: WfData) {
        WfData::WfString(self)
    }

    fn is_fully_realised(&self) -> (r: bool) {
        true
    }

    /// None: `Z6K1` holds the text itself, not a pointer to an object.
    fn get_identity_zid_key(&self) -> (r: Option<KeyIndex>) {
        None
    }

    fn get_key(&self, key: KeyIndex) -> (r: Option<WfData>) {
        if key == (KeyIndex { z: 1, k: 1 }) {
            Some(WfData::new_reference(Zid { z: 6, k: 0 }))
        } else if key == (KeyIndex { z: 6, k: 1 }) {
            Some(WfData::WfString(self.clone()))
        } else {
            None
        }
    }

    fn list_keys(&self) -> (r: Vec<KeyIndex>) {
        let r = vec![KeyIndex { z: 1, k: 1 }, KeyIndex { z: 6, k: 1 }];
        assert(r@ =~= self.model().keys());
        r
    }
}


impl WfString {
    /// Reads a value as a string.
    pub fn parse(data: WfData, context: &ExecutionContext) -> (r: Result<Self, (EvalError, WfData)>)
        ensures
            parsed(r) == parse_string(data@, context@),
        decreases context@.steps, 0nat,
    {
        if let WfData::WfString(s) = &data {
            return Ok(s.clone());
        }
        let inner = match context.step() {
            Ok(c) => c,
            Err(e) => {
                return Err((e, data));
            },
        };
        match data.check_z1k1(object(6), &inner) {
            Ok(()) => {},
            Err(e) => {
                return Err((e, data));
            },
        }
        let below = match data.get_key(key_at(6, 1)) {
            Some(v) => v,
            None => {
                return Err(
                    (EvalError::missing_key(key_at(6, 1)).inside_key(key_at(6, 1)), data),
                );
            },
        };
        let evaluated = match below.evaluate(&inner) {
            Ok(v) => v,
            Err((e, _)) => {
                return Err((e.inside_key(key_at(6, 1)), data));
            },
        };
        match WfString::parse(evaluated, &inner) {
            Ok(v) => Ok(v),
            Err((e, _)) => Err((e.inside_key(key_at(6, 1)), data)),
        }
    }
}

} // verus!
