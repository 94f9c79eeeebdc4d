//! The store together with the budget that an evaluation has left.
use vstd::prelude::*;
use std::rc::Rc;
use crate::data_types::view::share;
use crate::eval_error::{EvalError, EvalErrorKind};
use crate::global_context::GlobalContext;
use crate::model::{ErrV, KindV};
use crate::semantics::Env;

verus! {

/// How deep function calls may nest.
pub const DEPTH_CAP: usize = 100;

/// How deep the steps of one evaluation may nest.  The budget is given
/// back when a step returns, so it bounds the nesting, not the number of
/// steps that an evaluation takes in all.  Each nested step takes
/// room on the stack, so the cap is what keeps an evaluation that does not
/// end within the stack of an ordinary thread.  A caller that runs on a
/// larger stack may give more with `with_budgets`.
pub const STEP_CAP: usize = 1_000;

/// A context is never changed: an operation that works on behalf of
/// another gets a context of its own, with less budget, and the budget is
/// back when that context goes out of scope.
pub struct ExecutionContext {
    pub global_context: Rc<GlobalContext>,
    pub depth_left: usize,
    pub steps_left: usize,
}

impl View for ExecutionContext {
    type V = Env;

    open spec fn view(&self) -> Env {
        Env {
            store: (*self.global_context)@,
            depth: self.depth_left as nat,
            steps: self.steps_left as nat,
        }
    }
}

/// The context in which one function call is reduced.
pub struct FunctionCallDepthGuard {
    pub context: ExecutionContext,
}

impl FunctionCallDepthGuard {
    pub fn get_context(&self) -> (r: &ExecutionContext)
        ensures
            *r == self.context,
    {
        &self.context
    }
}

impl ExecutionContext {
    pub fn default_for_global(global_context: Rc<GlobalContext>) -> (r: Self)
        ensures
            r@ == (Env { store: (*global_context)@, depth: DEPTH_CAP as nat, steps: STEP_CAP as nat }),
    {
        Self { global_context, depth_left: DEPTH_CAP, steps_left: STEP_CAP }
    }

    /// A context with budgets of the caller's choice.
    pub fn with_budgets(global_context: Rc<GlobalContext>, depth: usize, steps: usize) -> (r: Self)
        ensures
            r@ == (Env { store: (*global_context)@, depth: depth as nat, steps: steps as nat }),
    {
        Self { global_context, depth_left: depth, steps_left: steps }
    }

    pub fn get_global(&self) -> (r: &GlobalContext)
        ensures
            r@ == self@.store,
    {
        &self.global_context
    }

    /// The context for an operation that works on behalf of this one.
    pub fn step(&self) -> (r: Result<ExecutionContext, EvalError>)
        ensures
            match r {
                Ok(c) => self@.steps > 0 && c@ == self@.step(),
                Err(e) => self@.steps == 0 && e@ == ErrV::of(KindV::StepBudgetExceeded),
            },
    {
        if self.steps_left == 0 {
            Err(EvalError::from_kind(EvalErrorKind::StepBudgetExceeded))
        } else {
            Ok(
                ExecutionContext {
                    global_context: share(&self.global_context),
                    depth_left: self.depth_left,
                    steps_left: self.steps_left - 1,
                },
            )
        }
    }

    /// The context for the reduction of a function call, if the budget
    /// allows one more.
    pub fn check_can_run_function_and_acquire_guard(&self) -> (r: Result<
        FunctionCallDepthGuard,
        EvalError,
    >)
        ensures
            match r {
                Ok(g) => self@.depth > 0 && self@.steps > 0 && g.context@ == self@.call(),
                Err(e) => if self@.depth == 0 {
                    e@ == ErrV::of(KindV::RecursedTooDeep)
                } else {
                    self@.steps == 0 && e@ == ErrV::of(KindV::StepBudgetExceeded)
                },
            },
    {
        if self.depth_left == 0 {
            Err(EvalError::from_kind(EvalErrorKind::RecursedTooDeep))
        } else if self.steps_left == 0 {
            Err(EvalError::from_kind(EvalErrorKind::StepBudgetExceeded))
        } else {
            Ok(
                FunctionCallDepthGuard {
                    context: ExecutionContext {
                        global_context: share(&self.global_context),
                        depth_left: self.depth_left - 1,
                        steps_left: self.steps_left - 1,
                    },
                },
            )
        }
    }
}

} // verus!
