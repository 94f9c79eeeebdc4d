//! An explicit error placeholder: evaluating it fails with its reason.
use vstd::prelude::*;
use crate::data_types::WfData;
use crate::data_types::wf_data_type::WfDataType;
use crate::eval_error::EvalErrorKind;
use crate::key_index::KeyIndex;
use crate::model::Val;

verus! {

#[derive(Debug)]
pub struct WfInvalid {
    pub reason: EvalErrorKind,
}

impl Clone for WfInvalid {
    fn clone(&self) -> (r: Self)
        ensures
            r == *self,
        decreases self,
    {
        WfInvalid { reason: self.reason.clone() }
    }
}

impl WfInvalid {
    pub fn new(reason: EvalErrorKind) -> (r: Self)
        ensures
            r.reason == reason,
    {
        Self { reason }
    }
}


impl WfDataType for WfInvalid {
    open spec fn model(&self) -> Val {
        Val::Invalid(Box::new(self.reason@))
    }

    fn into_wf_data(self) -> (r: WfData) {
        WfData::WfInvalid(self)
    }

    fn is_fully_realised(&self) -> (r: bool) {
        false
    }

    fn get_identity_zid_key(&self) -> (r: Option<KeyIndex>) {
        None
    }

    fn get_key(&self, _key: KeyIndex) -> (r: Option<WfData>) {
        None
    }

    fn list_keys(&self) -> (r: Vec<KeyIndex>) {
        let r = Vec::new();
        assert(r@ =~= self.model().keys());
        r
    }
}

} // verus!
