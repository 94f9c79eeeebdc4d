//! One way to compute a function.
use vstd::prelude::*;
use std::rc::Rc;
use crate::data_types::WfData;
use crate::data_types::view::{parsed, share};
use crate::data_types::wf_data_type::WfDataType;
use crate::eval_error::{EvalError, EvalErrorKind};
use crate::execution_context::ExecutionContext;
use crate::key_index::{key_at, KeyIndex};
use crate::model::Val;
use crate::semantics::parse_implementation;
use crate::zid::{object, Zid};

verus! {

#[derive(Debug)]
pub enum ImplementationByKind {
    Composition(WfData),
    Code(WfData),
    Builtin(WfData),
}

#[derive(Debug)]
pub struct WfImplementationInner {
    pub function: WfData,
    pub kind: ImplementationByKind,
}

#[derive(Debug)]
pub struct WfImplementation(pub Rc<WfImplementationInner>);

impl Clone for WfImplementation {
    fn clone(&self) -> (r: Self)
        ensures
            r == *self,
    {
        WfImplementation(share(&self.0))
    }
}


impl ImplementationByKind {
    /// The key under which an implementation of this kind stands.
    pub fn get_key_index(&self) -> (r: KeyIndex)
        ensures
            r == self@.key_index(),
    {
        match self {
            ImplementationByKind::Composition(_) => KeyIndex { z: 14, k: 2 },
            ImplementationByKind::Code(_) => KeyIndex { z: 14, k: 3 },
            ImplementationByKind::Builtin(_) => KeyIndex { z: 14, k: 4 },
        }
    }

    /// What stands under that key.
    pub fn get_body(&self) -> (r: &WfData)
        ensures
            r@ == self@.body(),
    {
        match self {
            ImplementationByKind::Composition(d) => d,
            ImplementationByKind::Code(d) => d,
            ImplementationByKind::Builtin(d) => d,
        }
    }
}

impl WfDataType for WfImplementation {
    open spec fn model(&self) -> Val {
        Val::Implementation(Box::new(self@))
    }

    fn into_wf_data(self) -> (r: WfData) {
        WfData::WfImplementation(self)
    }

    fn is_fully_realised(&self) -> (r: bool) {
        false
    }

    fn get_identity_zid_key(&self) -> (r: Option<KeyIndex>) {
        None
    }

    fn get_key(&self, key: KeyIndex) -> (r: Option<WfData>) {
        if key == (KeyIndex { z: 1, k: 1 }) {
            Some(WfData::new_reference(Zid { z: 14, k: 0 }))
        } else if key == (KeyIndex { z: 14, k: 1 }) {
            Some(self.0.function.clone())
        } else if key == self.0.kind.get_key_index() {
            Some(self.0.kind.get_body().clone())
        } else {
            None
        }
    }

    fn list_keys(&self) -> (r: Vec<KeyIndex>) {
        let r = vec![KeyIndex { z: 1, k: 1 }, KeyIndex { z: 14, k: 1 }, self.0.kind.get_key_index()];
        assert(r@ =~= self.model().keys());
        r
    }
}


impl WfImplementation {
    /// Reads a value as an implementation: exactly one of the three kinds
    /// is given.
    pub fn parse(data: WfData, context: &ExecutionContext) -> (r: Result<Self, (EvalError, WfData)>)
        ensures
            parsed(r) == parse_implementation(data@, context@),
        decreases context@.steps, 0nat,
    {
        if let WfData::WfImplementation(i) = &data {
            return Ok(i.clone());
        }
        let inner = match context.step() {
            Ok(c) => c,
            Err(e) => {
                return Err((e, data));
            },
        };
        match data.check_z1k1(object(14), &inner) {
            Ok(_) => {},
            Err(e) => {
                return Err((e, data));
            },
        }
        let function = match data.get_key(key_at(14, 1)) {
            Some(f) => f,
            None => {
                return Err((EvalError::missing_key(key_at(14, 1)), data));
            },
        };
        let composition = data.get_key(key_at(14, 2));
        let code = data.get_key(key_at(14, 3));
        let builtin = data.get_key(key_at(14, 4));
        let mut filled: u8 = 0;
        if composition.is_some() {
            filled = filled + 1;
        }
        if code.is_some() {
            filled = filled + 1;
        }
        if builtin.is_some() {
            filled = filled + 1;
        }
        if filled >= 2 {
            return Err((EvalError::from_kind(EvalErrorKind::ExpectOnlyOneImplementation), data));
        }
        let kind = if let Some(composition) = composition {
            ImplementationByKind::Composition(composition)
        } else if let Some(code) = code {
            ImplementationByKind::Code(code)
        } else if let Some(builtin) = builtin {
            ImplementationByKind::Builtin(builtin)
        } else {
            return Err(
                (EvalError::from_kind(EvalErrorKind::ExpectOneImplementionFoundZero), data),
            );
        };
        Ok(Self(Rc::new(WfImplementationInner { function, kind })))
    }
}

} // verus!
