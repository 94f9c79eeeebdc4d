//! The head of a list, and equality of lists.
use vstd::prelude::*;
use std::rc::Rc;
use crate::data_types::{
    WfBoolean, WfData, WfFunction, WfFunctionCall, WfFunctionCallInner, WfTypedList,
};
use crate::data_types::view::{checked, lemma_values, values};
use crate::data_types::wf_data_type::WfDataType;
use crate::eval_error::EvalError;
use crate::execution_context::ExecutionContext;
use crate::model::Val;
use crate::semantics::{self, entries_equal};

verus! {

/// The head of `list`, evaluated and checked against the type of the
/// elements.
pub fn first_element(list: WfTypedList, context: &ExecutionContext) -> (r: Result<
    WfData,
    EvalError,
>)
    ensures
        checked(r) == semantics::first_element(list@, context@),
    decreases context@.steps, 2nat,
{
    match list.split_first_element(Some(context)) {
        Ok((head, _)) => Ok(head),
        Err((e, _)) => Err(e),
    }
}

/// Whether two lists are equally long and `equality_function` holds of
/// each pair of entries.  The function is not called once the answer is
/// known.
#[verifier::loop_isolation(false)]
pub fn list_equality(
    list1: WfTypedList,
    list2: WfTypedList,
    equality_function: WfFunction,
    context: &ExecutionContext,
) -> (r: Result<WfData, EvalError>)
    ensures
        checked(r) == semantics::list_equality(list1@, list2@, equality_function@, context@),
    decreases context@.steps, 0nat,
{
    let n = list1.len();
    if n != list2.len() {
        return Ok(WfBoolean::new(false).into_wf_data());
    }
    let inner = match context.step() {
        Ok(c) => c,
        Err(e) => {
            return Err(e);
        },
    };
    let mut i: usize = 0;
    while i < n
        invariant
            i <= n,
            n == list1@.len(),
            n == list2@.len(),
            inner@ == context@.step(),
            context@.steps > 0,
            entries_equal(list1@, list2@, equality_function@, inner@, 0) == entries_equal(
                list1@,
                list2@,
                equality_function@,
                inner@,
                i as int,
            ),
        decreases n - i,
    {
        let ele1 = match list1.checked_entry(i, &inner) {
            Ok(v) => v,
            Err(e) => {
                return Err(e);
            },
        };
        let ele2 = match list2.checked_entry(i, &inner) {
            Ok(v) => v,
            Err(e) => {
                return Err(e);
            },
        };
        let mut args: Vec<WfData> = Vec::new();
        args.push(ele1);
        args.push(ele2);
        proof {
            lemma_values(args@);
            assert(values(args@) =~= seq![ele1@, ele2@]);
        }
        let function_call = WfFunctionCall(
            Rc::new(WfFunctionCallInner { function: equality_function.clone(), args }),
        );
        let evaluated = match function_call.evaluate(&inner) {
            Ok(v) => v,
            Err((e, _)) => {
                return Err(e);
            },
        };
        let as_boolean = match WfBoolean::parse(evaluated, &inner) {
            Ok(v) => v,
            Err((e, _)) => {
                return Err(e);
            },
        };
        if !as_boolean.value {
            return Ok(WfBoolean::new(false).into_wf_data());
        }
        i += 1;
    }
    Ok(WfBoolean::new(true).into_wf_data())
}

} // verus!
