//! Where the arguments of a substitution come from.
use vstd::prelude::*;
use crate::data_types::{WfData, WfFunctionCall};
use crate::data_types::view::{lemma_values, values};
use crate::eval_error::{EvalError, EvalErrorKind};
use crate::model::{ErrV, KindV, Val};

verus! {

/// A source of arguments by position.
pub trait SubstitutionInfo {
    /// The arguments, in order.
    spec fn arguments(&self) -> Seq<Val>;

    /// The argument at position `pos`, counted from 0.
    fn get_for_pos(&self, pos: u32) -> (r: Result<WfData, EvalError>)
        ensures
            match r {
                Ok(v) => pos < self.arguments().len() && v@ == self.arguments()[pos as int],
                Err(e) => pos >= self.arguments().len() && e@ == ErrV::of(
                    KindV::ArgumentReferenceTooLarge(pos),
                ),
            },
    ;
}

impl SubstitutionInfo for WfFunctionCall {
    open spec fn arguments(&self) -> Seq<Val> {
        self@.args
    }

    fn get_for_pos(&self, pos: u32) -> (r: Result<WfData, EvalError>) {
        proof {
            lemma_values(self.0.args@);
        }
        if (pos as usize) < self.0.args.len() {
            Ok(self.0.args[pos as usize].clone())
        } else {
            Err(EvalError::from_kind(EvalErrorKind::ArgumentReferenceTooLarge(pos)))
        }
    }
}

} // verus!
