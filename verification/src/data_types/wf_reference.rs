//! A pointer to a persistent object.
use vstd::prelude::*;
use crate::data_types::{WfData, WfString};
use crate::data_types::wf_data_type::WfDataType;
use crate::key_index::KeyIndex;
use crate::model::Val;
use crate::zid::Zid;

verus! {

#[derive(Debug, PartialEq, Eq, Structural)]
pub struct WfReference {
    pub to: Zid,
}

impl Clone for WfReference {
    fn clone(&self) -> (r: Self)
        ensures
            r == *self,
    {
        WfReference { to: self.to }
    }
}

impl WfReference {
    pub fn new(to: Zid) -> (r: Self)
        ensures
            r.to == to,
    {
        Self { to }
    }
}


impl WfDataType for WfReference {
    open spec fn model(&self) -> Val {
        Val::Reference(self.to)
    }

    fn into_wf_data(self) -> (r: WfData) {
        WfData::WfReference(self)
    }

    fn is_fully_realised(&self) -> (r: bool) {
        false
    }

    fn get_identity_zid_key(&self) -> (r: Option<KeyIndex>) {
        None
    }

    fn get_key(&self, key: KeyIndex) -> (r: Option<WfData>) {
        if key == (KeyIndex { z: 1, k: 1 }) {
            Some(WfData::new_reference(Zid { z: 9, k: 0 }))
        } else if key == (KeyIndex { z: 9, k: 1 }) {
            Some(WfData::WfString(WfString::from_string(self.to.to_zid())))
        } else {
            None
        }
    }

    fn list_keys(&self) -> (r: Vec<KeyIndex>) {
        let r = vec![KeyIndex { z: 1, k: 1 }, KeyIndex { z: 9, k: 1 }];
        assert(r@ =~= self.model().keys());
        r
    }
}

} // verus!
