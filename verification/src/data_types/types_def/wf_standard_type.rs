//! A type descriptor: a record of type `Z4`.
use vstd::prelude::*;
use std::rc::Rc;
use crate::data_types::WfData;
use crate::data_types::types_def::WfTypeGeneric;
use crate::data_types::view::{optional, parsed, share};
use crate::data_types::wf_data_type::WfDataType;
use crate::eval_error::EvalError;
use crate::execution_context::ExecutionContext;
use crate::key_index::{key_at, KeyIndex};
use crate::model::{key, optional_key, TypeV, Val};
use crate::semantics::parse_standard_type;
use crate::zid::{object, Zid};

verus! {

#[derive(Debug)]
pub struct WfStandardTypeInner {
    pub identity_ref: Zid,
    pub keys: WfData,
    pub validator: WfData,
    pub equality: Option<WfData>,
    pub display_function: Option<WfData>,
    pub reading_function: Option<WfData>,
    pub type_converters_to_code: Option<WfData>,
    pub type_converters_from_code: Option<WfData>,
}

#[derive(Debug)]
pub struct WfStandardType {
    pub inner: Rc<WfStandardTypeInner>,
}

impl Clone for WfStandardType {
    fn clone(&self) -> (r: Self)
        ensures
            r == *self,
    {
        WfStandardType { inner: share(&self.inner) }
    }
}


fn clone_slot(slot: &Option<WfData>) -> (r: Option<WfData>)
    ensures
        r == *slot,
{
    match slot {
        Some(d) => Some(d.clone()),
        None => None,
    }
}

impl WfDataType for WfStandardType {
    open spec fn model(&self) -> Val {
        Val::Type(Box::new(TypeV::Standard(self@)))
    }

    fn into_wf_data(self) -> (r: WfData) {
        WfData::WfType(WfTypeGeneric::WfStandardType(self))
    }

    fn is_fully_realised(&self) -> (r: bool) {
        true
    }

    fn get_identity_zid_key(&self) -> (r: Option<KeyIndex>) {
        Some(KeyIndex { z: 4, k: 1 })
    }

    fn get_key(&self, key: KeyIndex) -> (r: Option<WfData>) {
        if key == (KeyIndex { z: 1, k: 1 }) {
            Some(WfData::new_reference(Zid { z: 4, k: 0 }))
        } else if key == (KeyIndex { z: 4, k: 1 }) {
            Some(WfData::new_reference(self.inner.identity_ref))
        } else if key == (KeyIndex { z: 4, k: 2 }) {
            Some(self.inner.keys.clone())
        } else if key == (KeyIndex { z: 4, k: 3 }) {
            Some(self.inner.validator.clone())
        } else if key == (KeyIndex { z: 4, k: 4 }) {
            clone_slot(&self.inner.equality)
        } else if key == (KeyIndex { z: 4, k: 5 }) {
            clone_slot(&self.inner.display_function)
        } else if key == (KeyIndex { z: 4, k: 6 }) {
            clone_slot(&self.inner.reading_function)
        } else if key == (KeyIndex { z: 4, k: 7 }) {
            clone_slot(&self.inner.type_converters_to_code)
        } else if key == (KeyIndex { z: 4, k: 8 }) {
            clone_slot(&self.inner.type_converters_from_code)
        } else {
            None
        }
    }

    fn list_keys(&self) -> (r: Vec<KeyIndex>) {
        let mut r = vec![
            KeyIndex { z: 1, k: 1 },
            KeyIndex { z: 4, k: 1 },
            KeyIndex { z: 4, k: 2 },
            KeyIndex { z: 4, k: 3 },
        ];
        let ghost s0 = r@;
        if self.inner.equality.is_some() {
            r.push(KeyIndex { z: 4, k: 4 });
        }
        let ghost s1 = r@;
        if self.inner.display_function.is_some() {
            r.push(KeyIndex { z: 4, k: 5 });
        }
        let ghost s2 = r@;
        if self.inner.reading_function.is_some() {
            r.push(KeyIndex { z: 4, k: 6 });
        }
        let ghost s3 = r@;
        if self.inner.type_converters_to_code.is_some() {
            r.push(KeyIndex { z: 4, k: 7 });
        }
        let ghost s4 = r@;
        if self.inner.type_converters_from_code.is_some() {
            r.push(KeyIndex { z: 4, k: 8 });
        }
        proof {
            let m = self@;
            assert(s0 =~= seq![key(1, 1), key(4, 1), key(4, 2), key(4, 3)]);
            assert(s1 =~= s0 + optional_key(m.equality, key(4, 4)));
            assert(s2 =~= s1 + optional_key(m.display_function, key(4, 5)));
            assert(s3 =~= s2 + optional_key(m.reading_function, key(4, 6)));
            assert(s4 =~= s3 + optional_key(m.type_converters_to_code, key(4, 7)));
            assert(r@ =~= s4 + optional_key(m.type_converters_from_code, key(4, 8)));
        }
        r
    }
}


impl WfStandardType {
    /// The type that owns `value`.
    pub fn from(value: WfStandardTypeInner) -> (r: Self)
        ensures
            *r.inner == value,
    {
        Self { inner: Rc::new(value) }
    }

    /// Reads a value as a type descriptor.
    pub fn parse(data: WfData, context: &ExecutionContext) -> (r: Result<Self, (EvalError, WfData)>)
        ensures
            parsed(r) == parse_standard_type(data@, context@),
        decreases context@.steps, 0nat,
    {
        if let WfData::WfType(WfTypeGeneric::WfStandardType(t)) = &data {
            return Ok(t.clone());
        }
        let inner = match context.step() {
            Ok(c) => c,
            Err(e) => {
                return Err((e, data));
            },
        };
        match data.check_z1k1(object(4), &inner) {
            Ok(_) => {},
            Err(e) => {
                return Err((e, data));
            },
        }
        let identity_ref = match data.get_identity_zid(&inner, key_at(4, 1)) {
            Ok(k) => k,
            Err(e) => {
                return Err((e, data));
            },
        };
        let keys = match data.get_key(key_at(4, 2)) {
            Some(v) => v,
            None => {
                return Err((EvalError::missing_key(key_at(4, 2)), data));
            },
        };
        let validator = match data.get_key(key_at(4, 3)) {
            Some(v) => v,
            None => {
                return Err((EvalError::missing_key(key_at(4, 3)), data));
            },
        };
        let equality = data.get_key(key_at(4, 4));
        let display_function = data.get_key(key_at(4, 5));
        let reading_function = data.get_key(key_at(4, 6));
        let type_converters_to_code = data.get_key(key_at(4, 7));
        let type_converters_from_code = data.get_key(key_at(4, 8));
        Ok(
            Self {
                inner: Rc::new(
                    WfStandardTypeInner {
                        identity_ref,
                        keys,
                        validator,
                        equality,
                        display_function,
                        reading_function,
                        type_converters_to_code,
                        type_converters_from_code,
                    },
                ),
            },
        )
    }
}

} // verus!
