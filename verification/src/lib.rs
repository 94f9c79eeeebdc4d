//! Evaluator core for the Wikifunctions object language.
//!
//! Every value of the language is a tagged record addressed by keys such as
//! `Z1K1`.  The crate holds the value representation, the uniform accessors,
//! refinement of raw records into typed shapes, the evaluator with its
//! builtins, structural equality, the test-case runner and the replay of an
//! error's trace.
//!
//! Each executable function is specified against a mathematical model of
//! the values (`model`) and of the evaluator (`semantics`); what holds of
//! all values and all evaluations is proved in `laws`.
use vstd::prelude::*;

pub mod text;
pub mod key_index;
pub mod zid;
pub mod util;
pub mod model;
pub mod eval_error;
pub mod data_types;
pub mod semantics;
pub mod global_context;
pub mod execution_context;
pub mod functions;
pub mod laws;
pub mod parsing;
pub mod replay;

pub use eval_error::{EvalError, EvalErrorKind, TraceEntry};
pub use execution_context::{ExecutionContext, FunctionCallDepthGuard};
pub use global_context::GlobalContext;
pub use key_index::{KeyIndex, KeyIndexParseError};
pub use zid::{Zid, ZidParseError};

verus! {

/// The handle by which values share their payload.
pub type RcI<T> = std::rc::Rc<T>;

} // verus!
