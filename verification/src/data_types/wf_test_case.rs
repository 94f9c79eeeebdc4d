//! A call with the function that judges its result.
use vstd::prelude::*;
use std::rc::Rc;
use crate::data_types::{FunctionCallOrType, WfBoolean, WfData, WfFunction, WfFunctionCall};
use crate::data_types::view::{checked, parsed, share};
use crate::data_types::wf_data_type::WfDataType;
use crate::eval_error::{EvalError, EvalErrorKind, TraceEntry};
use crate::execution_context::ExecutionContext;
use crate::key_index::{key_at, KeyIndex};
use crate::model::Val;
use crate::semantics::{parse_test_case, patched_validation_call, run_test};
use crate::zid::{object, Zid};

verus! {

#[derive(Debug)]
pub struct WfTestCaseInner {
    pub function: WfFunction,
    pub call: WfData,
    pub validation: WfData,
}

#[derive(Debug)]
pub struct WfTestCase(pub Rc<WfTestCaseInner>);

impl Clone for WfTestCase {
    fn clone(&self) -> (r: Self)
        ensures
            r == *self,
    {
        WfTestCase(share(&self.0))
    }
}


impl WfDataType for WfTestCase {
    open spec fn model(&self) -> Val {
        Val::TestCase(Box::new(self@))
    }

    fn into_wf_data(self) -> (r: WfData) {
        WfData::WfTestCase(self)
    }

    fn is_fully_realised(&self) -> (r: bool) {
        false
    }

    fn get_identity_zid_key(&self) -> (r: Option<KeyIndex>) {
        None
    }

    fn get_key(&self, key: KeyIndex) -> (r: Option<WfData>) {
        if key == (KeyIndex { z: 1, k: 1 }) {
            Some(WfData::new_reference(Zid { z: 20, k: 0 }))
        } else if key == (KeyIndex { z: 20, k: 1 }) {
            Some(WfData::WfFunction(self.0.function.clone()))
        } else if key == (KeyIndex { z: 20, k: 2 }) {
            Some(self.0.call.clone())
        } else if key == (KeyIndex { z: 20, k: 3 }) {
            Some(self.0.validation.clone())
        } else {
            None
        }
    }

    fn list_keys(&self) -> (r: Vec<KeyIndex>) {
        let r = vec![
            KeyIndex { z: 1, k: 1 },
            KeyIndex { z: 20, k: 1 },
            KeyIndex { z: 20, k: 2 },
            KeyIndex { z: 20, k: 3 },
        ];
        assert(r@ =~= self.model().keys());
        r
    }
}


impl WfTestCase {
    /// Reads a value as a test case.
    pub fn parse(data: WfData, context: &ExecutionContext) -> (r: Result<Self, (EvalError, WfData)>)
        ensures
            parsed(r) == parse_test_case(data@, context@),
        decreases context@.steps, 0nat,
    {
        if let WfData::WfTestCase(test_case) = &data {
            return Ok(test_case.clone());
        }
        let inner = match context.step() {
            Ok(c) => c,
            Err(e) => {
                return Err((e, data));
            },
        };
        match data.check_z1k1(object(20), &inner) {
            Ok(_) => {},
            Err(e) => {
                return Err((e, data));
            },
        }
        let function_unparsed = match data.get_key(key_at(20, 1)) {
            Some(f) => f,
            None => {
                return Err((EvalError::missing_key(key_at(20, 1)), data));
            },
        };
        let function_evaluated = match function_unparsed.evaluate(&inner) {
            Ok(v) => v,
            Err((e, _)) => {
                return Err((e.inside_key(key_at(20, 1)), data));
            },
        };
        let function = match WfFunction::parse(function_evaluated, &inner) {
            Ok(f) => f,
            Err((e, _)) => {
                return Err((e.inside_key(key_at(20, 1)), data));
            },
        };
        let call = match data.get_key(key_at(20, 2)) {
            Some(v) => v,
            None => {
                return Err((EvalError::missing_key(key_at(20, 2)), data));
            },
        };
        let validation = match data.get_key(key_at(20, 3)) {
            Some(v) => v,
            None => {
                return Err((EvalError::missing_key(key_at(20, 3)), data));
            },
        };
        Ok(Self(Rc::new(WfTestCaseInner { function, call, validation })))
    }

    /// The validation as a call that takes `first_input` as its first
    /// argument.
    pub fn get_validation_function_call_with_patched_first_input(
        self,
        first_input: WfData,
        context: &ExecutionContext,
    ) -> (r: Result<WfFunctionCall, EvalError>)
        ensures
            checked(r) == patched_validation_call(self@, first_input@, context@),
        decreases context@.steps, 0nat,
    {
        let inner = match context.step() {
            Ok(c) => c,
            Err(e) => {
                return Err(e);
            },
        };
        match WfFunctionCall::parse_for_test(self.0.validation.clone(), &inner, first_input) {
            Ok(FunctionCallOrType::FunctionCall(c)) => Ok(c),
            Ok(FunctionCallOrType::Type(_)) => Err(
                EvalError::from_kind(EvalErrorKind::ExpectedFunctionCallGotType),
            ),
            Err((e, _)) => Err(e),
        }
    }

    /// Runs the test: evaluates the call, hands the result to the
    /// validation, and passes if that is true.
    pub fn run_test(self, context: &ExecutionContext) -> (r: Result<(), EvalError>)
        ensures
            checked(r) == run_test(self@, context@),
        decreases context@.steps, 0nat,
    {
        let inner = match context.step() {
            Ok(c) => c,
            Err(e) => {
                return Err(e);
            },
        };
        let test_result = match self.0.call.clone().evaluate(&inner) {
            Ok(v) => v,
            Err((e, _)) => {
                return Err(e.inside_key(key_at(20, 2)));
            },
        };
        let patched_function_call =
            match self.get_validation_function_call_with_patched_first_input(
            test_result.clone(),
            &inner,
        ) {
            Ok(c) => c,
            Err(e) => {
                return Err(e);
            },
        };
        let boolean_result_unparsed = match patched_function_call.evaluate(&inner) {
            Ok(result) => result,
            Err((e, _)) => {
                return Err(e.trace(TraceEntry::CheckingTestCaseResult(test_result)));
            },
        };
        let boolean_result = match WfBoolean::parse(boolean_result_unparsed, &inner) {
            Ok(result) => result,
            Err((e, _)) => {
                return Err(e);
            },
        };
        if boolean_result.value {
            Ok(())
        } else {
            Err(EvalError::from_kind(EvalErrorKind::TestCaseFailedWithFalse(Box::new(test_result))))
        }
    }
}

} // verus!
