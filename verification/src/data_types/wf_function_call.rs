//! A function with the arguments it is applied to.
use vstd::prelude::*;
use std::rc::Rc;
use crate::data_types::{
    ImplementationByKind, WfData, WfFunction, WfFunctionInner, WfImplementation,
};
use crate::data_types::substitution::substitute_data;
use crate::data_types::types_def::{WfTypedListType, WfTypeGeneric};
use crate::data_types::view::{lemma_values, parsed, share, values};
use crate::data_types::wf_data_type::WfDataType;
use crate::eval_error::{EvalError, EvalErrorKind, TraceEntry};
use crate::execution_context::ExecutionContext;
use crate::functions::dispatch::dispatch_builtins;
use crate::key_index::{key_at, KeyIndex};
use crate::model::{keyed_args, Val};
use crate::semantics::{collect_args, eval_call, parse_call, patched};
use crate::zid::{object, text_about, Zid};

verus! {

/// What a record of type `Z7` turns out to be.
#[derive(Debug)]
pub enum FunctionCallOrType {
    FunctionCall(WfFunctionCall),
    Type(WfTypeGeneric),
}

#[derive(Debug)]
pub struct WfFunctionCallInner {
    pub function: WfFunction,
    pub args: Vec<WfData>,
}

#[derive(Debug)]
pub struct WfFunctionCall(pub Rc<WfFunctionCallInner>);

impl Clone for WfFunctionCall {
    fn clone(&self) -> (r: Self)
        ensures
            r == *self,
    {
        WfFunctionCall(share(&self.0))
    }
}


impl WfDataType for WfFunctionCall {
    open spec fn model(&self) -> Val {
        Val::FunctionCall(Box::new(self@))
    }

    fn into_wf_data(self) -> (r: WfData) {
        WfData::WfFunctionCall(self)
    }

    fn is_fully_realised(&self) -> (r: bool) {
        false
    }

    fn get_identity_zid_key(&self) -> (r: Option<KeyIndex>) {
        None
    }

    fn get_key(&self, key: KeyIndex) -> (r: Option<WfData>) {
        proof {
            lemma_values(self.0.args@);
        }
        if key == (KeyIndex { z: 1, k: 1 }) {
            Some(WfData::new_reference(Zid { z: 7, k: 0 }))
        } else if key == (KeyIndex { z: 7, k: 1 }) {
            Some(WfData::WfFunction(self.0.function.clone()))
        } else if key.z == self.0.function.0.identity.z && key.k >= 1 && key.k as usize
            <= self.0.args.len() {
            Some(self.0.args[(key.k - 1) as usize].clone())
        } else {
            None
        }
    }

    fn list_keys(&self) -> (r: Vec<KeyIndex>) {
        let function = self.0.function.0.identity;
        let n = self.0.args.len();
        let mut r = vec![KeyIndex { z: 1, k: 1 }, KeyIndex { z: 7, k: 1 }];
        let mut i: usize = 0;
        proof {
            lemma_values(self.0.args@);
        }
        while i < n && i < 0xffff_ffff
            invariant
                i <= n,
                i <= 0xffff_ffff,
                n == self.0.args@.len(),
                function == self.0.function.0.identity,
                r@.len() == i + 2,
                r@[0] == (KeyIndex { z: 1, k: 1 }),
                r@[1] == (KeyIndex { z: 7, k: 1 }),
                forall|j: int| 0 <= j < i ==> r@[j + 2] == self@.arg_key(j),
            decreases n - i,
        {
            r.push(KeyIndex { z: function.z, k: (i + 1) as u32 });
            i += 1;
        }
        assert(i == keyed_args(n as nat));
        assert(r@ =~= self.model().keys());
        r
    }
}


pub open spec fn first_model(first: Option<WfData>) -> Option<Val> {
    match first {
        Some(d) => Some(d@),
        None => None,
    }
}

impl WfFunctionCall {
    /// Reads a record of type `Z7` as a call, or as the type "list of T"
    /// where it applies `Z881`.
    pub fn parse(data: WfData, context: &ExecutionContext) -> (r: Result<
        FunctionCallOrType,
        (EvalError, WfData),
    >)
        ensures
            parsed(r) == parse_call(data@, context@, None),
        decreases context@.steps, 1nat,
    {
        Self::parse_inner(data, context, None)
    }

    /// As `parse`, with `substitute_first_arg` in place of the first
    /// argument.
    pub fn parse_for_test(
        data: WfData,
        context: &ExecutionContext,
        substitute_first_arg: WfData,
    ) -> (r: Result<FunctionCallOrType, (EvalError, WfData)>)
        ensures
            parsed(r) == parse_call(data@, context@, Some(substitute_first_arg@)),
        decreases context@.steps, 1nat,
    {
        Self::parse_inner(data, context, Some(substitute_first_arg))
    }

    /// The call with `first`, if given, in place of its first argument.
    fn with_first(self, first: Option<WfData>) -> (r: Self)
        ensures
            r@ == patched(self@, first_model(first)),
    {
        proof {
            lemma_values(self.0.args@);
        }
        match first {
            Some(value) => {
                let n = self.0.args.len();
                if n == 0 {
                    return self;
                }
                let mut args: Vec<WfData> = Vec::new();
                args.push(value);
                let mut i: usize = 1;
                while i < n
                    invariant
                        1 <= i <= n,
                        n == self.0.args@.len(),
                        args@.len() == i,
                        args@[0]@ == value@,
                        forall|j: int| 1 <= j < i ==> args@[j]@ == self.0.args@[j]@,
                    decreases n - i,
                {
                    args.push(self.0.args[i].clone());
                    i += 1;
                }
                proof {
                    lemma_values(args@);
                    assert(values(args@) =~= self@.args.update(0, value@));
                }
                WfFunctionCall(
                    Rc::new(WfFunctionCallInner { function: self.0.function.clone(), args }),
                )
            },
            None => self,
        }
    }

    /// May return a type: a call of `Z881` is the type of a list.
    #[verifier::loop_isolation(false)]
    pub fn parse_inner(
        data: WfData,
        context: &ExecutionContext,
        substitute_first_arg: Option<WfData>,
    ) -> (r: Result<FunctionCallOrType, (EvalError, WfData)>)
        ensures
            parsed(r) == parse_call(data@, context@, first_model(substitute_first_arg)),
        decreases context@.steps, 0nat,
    {
        if let WfData::WfFunctionCall(v) = &data {
            return Ok(FunctionCallOrType::FunctionCall(v.clone().with_first(substitute_first_arg)));
        }
        let stated = match data.get_key(key_at(1, 1)) {
            Some(t) => t,
            None => {
                return Err((EvalError::missing_key(key_at(1, 1)), data));
            },
        };
        let inner = match context.step() {
            Ok(c) => c,
            Err(e) => {
                return Err((e, data));
            },
        };
        if let Err((e, _)) = stated.check_identity_zid(&inner, object(7)) {
            return Err((e.inside_key(key_at(1, 1)), data));
        }
        let function_unevaluated = match data.get_key(key_at(7, 1)) {
            Some(f) => f,
            None => {
                return Err((EvalError::missing_key(key_at(7, 1)), data));
            },
        };
        let (function_identity, function_unevaluated) = match function_unevaluated.get_reference(
            &inner,
        ) {
            Err((_, d)) => (None, d),
            Ok((reference, f)) => (Some(reference), f),
        };
        if let Some(function_reference) = function_identity {
            if function_reference == object(881) {
                match WfTypedListType::parse(data.clone(), &inner) {
                    Ok(typed_list_type) => {
                        return Ok(
                            FunctionCallOrType::Type(
                                WfTypeGeneric::WfTypedListType(typed_list_type),
                            ),
                        );
                    },
                    Err(_) => {},
                }
            }
        }
        let function_evaluated = match function_unevaluated.evaluate(&inner) {
            Ok(v) => v,
            Err((e, _)) => {
                return Err((e.inside_key(key_at(7, 1)), data));
            },
        };
        let function = match WfFunction::parse(function_evaluated, &inner) {
            Ok(v) => v,
            Err((e, _)) => {
                return Err((e.inside_key(key_at(7, 1)), data));
            },
        };
        let function_identity = function.0.identity;
        let num_argument = function.0.arguments.len();
        if num_argument >= 0xffff_ffff {
            return Err((EvalError::from_kind(EvalErrorKind::TooManyArgsInFunction), data));
        }
        let ghost first = first_model(substitute_first_arg);
        let mut substitute = substitute_first_arg;
        let mut args: Vec<WfData> = Vec::new();
        let mut i: usize = 0;
        proof {
            assert(values(args@) =~= Seq::<Val>::empty());
        }
        while i < num_argument
            invariant
                i <= num_argument,
                num_argument < 0xffff_ffff,
                function_identity == function.0.identity,
                i == 0 ==> first_model(substitute) == first,
                collect_args(
                    data@,
                    function_identity,
                    num_argument as nat,
                    first,
                    0,
                    Seq::empty(),
                ) == collect_args(
                    data@,
                    function_identity,
                    num_argument as nat,
                    first,
                    i as int,
                    values(args@),
                ),
            decreases num_argument - i,
        {
            let taken = if i == 0 {
                substitute.take()
            } else {
                None
            };
            let parameter = match taken {
                Some(value) => value,
                None => {
                    let key = function_identity.key_of((i + 1) as u32);
                    match data.get_key(key) {
                        Some(k) => k,
                        None => {
                            return Err((EvalError::missing_key(key), data));
                        },
                    }
                },
            };
            proof {
                lemma_values(args@);
                lemma_values(args@.push(parameter));
                assert(values(args@.push(parameter)) =~= values(args@).push(parameter@));
            }
            args.push(parameter);
            i += 1;
        }
        Ok(FunctionCallOrType::FunctionCall(Self(Rc::new(WfFunctionCallInner { function, args }))))
    }

    /// The implementation by which this call is reduced.
    pub fn pick_implementation(&self, context: &ExecutionContext) -> (r: Result<
        WfImplementation,
        EvalError,
    >)
        ensures
            crate::data_types::view::checked(r) == crate::semantics::pick_implementation(
                self@.function,
                context@,
            ),
    {
        self.0.function.get_preffered_implementation(context)
    }

    /// Reduces the call once and drives the result to a final value.
    pub fn evaluate(self, context: &ExecutionContext) -> (r: Result<WfData, (EvalError, WfData)>)
        ensures
            parsed(r) == eval_call(self@, context@),
        decreases context@.steps, 0nat,
    {
        let guard = match context.check_can_run_function_and_acquire_guard() {
            Ok(g) => g,
            Err(e) => {
                return Err((e, WfData::WfFunctionCall(self)));
            },
        };
        let inner = guard.get_context();
        let function = self.0.function.0.identity;
        let implementation = match self.0.function.get_preffered_implementation(inner) {
            Ok(i) => i,
            Err(e) => {
                return Err((e.inside_key(key_at(7, 1)), WfData::WfFunctionCall(self)));
            },
        };
        match &implementation.0.kind {
            ImplementationByKind::Composition(body) => {
                let substituted = match substitute_data(body, &self) {
                    Ok(v) => v,
                    Err(e) => {
                        return Err(
                            (e.trace(TraceEntry::Substituted(function)), WfData::WfFunctionCall(self)),
                        );
                    },
                };
                match substituted.evaluate(inner) {
                    Ok(v) => Ok(v),
                    Err((e, _)) => Err(
                        (e.trace(TraceEntry::Substituted(function)), WfData::WfFunctionCall(self)),
                    ),
                }
            },
            ImplementationByKind::Code(_) => Err(
                (
                    EvalError::unimplemented(text_about("code impl for ", &function)),
                    WfData::WfFunctionCall(self),
                ),
            ),
            ImplementationByKind::Builtin(_) => match dispatch_builtins(function, &self, inner) {
                Ok(v) => Ok(v),
                Err(e) => Err(
                    (
                        e.trace(TraceEntry::ProcessingNonCompositionFunction(function)),
                        WfData::WfFunctionCall(self),
                    ),
                ),
            },
        }
    }
}

} // verus!
