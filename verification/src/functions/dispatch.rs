//! The table of builtins.
use vstd::prelude::*;
use crate::data_types::{WfBoolean, WfData, WfFunction, WfFunctionCall, WfString, WfTypedList};
use crate::data_types::view::{checked, lemma_values, values};
use crate::data_types::wf_data_type::WfDataType;
use crate::eval_error::{EvalError, EvalErrorKind};
use crate::execution_context::ExecutionContext;
use crate::functions::boolean::boolean_equality;
use crate::functions::list::{first_element, list_equality};
use crate::functions::logic::if_function;
use crate::functions::string::string_equality;
use crate::model::{ErrV, KindV, Val};
use crate::semantics::{arity_error, dispatch, eval_args};
use crate::zid::{object, Zid};

verus! {

/// Checks that a builtin got as many arguments as it takes.
pub fn assert_args_count(expected_size: usize, list: &Vec<WfData>) -> (r: Result<(), EvalError>)
    ensures
        match r {
            Ok(_) => list@.len() == expected_size,
            Err(e) => list@.len() != expected_size && e@ == arity_error(
                list@.len(),
                expected_size as nat,
            ),
        },
{
    if expected_size == list.len() {
        Ok(())
    } else {
        Err(EvalError::from_kind(EvalErrorKind::TooManyArguments(list.len(), expected_size)))
    }
}

/// Evaluates the arguments of `call` and applies the builtin
/// `function_zid` to them.
#[verifier::loop_isolation(false)]
pub fn dispatch_builtins(function_zid: Zid, call: &WfFunctionCall, context: &ExecutionContext) -> (r:
    Result<WfData, EvalError>)
    ensures
        checked(r) == dispatch(function_zid, call@, context@),
    decreases context@.steps, 0nat,
{
    let inner = match context.step() {
        Ok(c) => c,
        Err(e) => {
            return Err(e);
        },
    };
    let n = call.0.args.len();
    let mut args_evaluated: Vec<WfData> = Vec::new();
    let mut i: usize = 0;
    proof {
        lemma_values(call.0.args@);
        assert(values(args_evaluated@) =~= Seq::<Val>::empty());
    }
    while i < n
        invariant
            i <= n,
            n == call.0.args@.len(),
            call@.args == values(call.0.args@),
            inner@ == context@.step(),
            context@.steps > 0,
            eval_args(call@, inner@, 0, Seq::empty()) == eval_args(
                call@,
                inner@,
                i as int,
                values(args_evaluated@),
            ),
        decreases n - i,
    {
        proof {
            lemma_values(call.0.args@);
        }
        match call.0.args[i].clone().evaluate(&inner) {
            Ok(v) => {
                proof {
                    lemma_values(args_evaluated@);
                    lemma_values(args_evaluated@.push(v));
                    assert(values(args_evaluated@.push(v)) =~= values(args_evaluated@).push(v@));
                }
                args_evaluated.push(v);
            },
            Err((e, _)) => {
                return Err(
                    e.inside_key(
                        call.0.function.0.identity.key_of(#[verifier::truncate] ((i + 1) as u32)),
                    ),
                );
            },
        }
        i += 1;
    }
    proof {
        lemma_values(args_evaluated@);
    }
    if function_zid == object(802) {
        match assert_args_count(3, &args_evaluated) {
            Ok(_) => {},
            Err(e) => {
                return Err(e);
            },
        }
        let boolean = match WfBoolean::parse(args_evaluated[0].clone(), &inner) {
            Ok(b) => b,
            Err((e, _)) => {
                return Err(e);
            },
        };
        Ok(if_function(boolean, args_evaluated[1].clone(), args_evaluated[2].clone()))
    } else if function_zid == object(811) {
        match assert_args_count(1, &args_evaluated) {
            Ok(_) => {},
            Err(e) => {
                return Err(e);
            },
        }
        let list = match WfTypedList::parse(args_evaluated[0].clone(), &inner) {
            Ok(l) => l,
            Err((e, _)) => {
                return Err(e);
            },
        };
        first_element(list, &inner)
    } else if function_zid == object(844) {
        match assert_args_count(2, &args_evaluated) {
            Ok(_) => {},
            Err(e) => {
                return Err(e);
            },
        }
        let bool2 = match WfBoolean::parse(args_evaluated[1].clone(), &inner) {
            Ok(b) => b,
            Err((e, _)) => {
                return Err(e);
            },
        };
        let bool1 = match WfBoolean::parse(args_evaluated[0].clone(), &inner) {
            Ok(b) => b,
            Err((e, _)) => {
                return Err(e);
            },
        };
        Ok(boolean_equality(bool1, bool2).into_wf_data())
    } else if function_zid == object(866) {
        match assert_args_count(2, &args_evaluated) {
            Ok(_) => {},
            Err(e) => {
                return Err(e);
            },
        }
        let string2 = match WfString::parse(args_evaluated[1].clone(), &inner) {
            Ok(s) => s,
            Err((e, _)) => {
                return Err(e);
            },
        };
        let string1 = match WfString::parse(args_evaluated[0].clone(), &inner) {
            Ok(s) => s,
            Err((e, _)) => {
                return Err(e);
            },
        };
        Ok(string_equality(string1, string2).into_wf_data())
    } else if function_zid == object(889) {
        match assert_args_count(3, &args_evaluated) {
            Ok(_) => {},
            Err(e) => {
                return Err(e);
            },
        }
        let function = match WfFunction::parse(args_evaluated[2].clone(), &inner) {
            Ok(f) => f,
            Err((e, _)) => {
                return Err(e);
            },
        };
        let list2 = match WfTypedList::parse(args_evaluated[1].clone(), &inner) {
            Ok(l) => l,
            Err((e, _)) => {
                return Err(e);
            },
        };
        let list1 = match WfTypedList::parse(args_evaluated[0].clone(), &inner) {
            Ok(l) => l,
            Err((e, _)) => {
                return Err(e);
            },
        };
        list_equality(list1, list2, function, &inner)
    } else {
        Err(EvalError::from_kind(EvalErrorKind::NoBuiltin(function_zid)))
    }
}

} // verus!
