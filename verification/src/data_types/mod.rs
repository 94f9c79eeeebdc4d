//! The shapes of a value, each with the uniform accessors.
pub mod wf_data;
pub mod wf_boolean;
pub mod wf_reference;
pub mod wf_string;
pub mod wf_untyped;
pub mod wf_invalid;
pub mod wf_typed_list;
pub mod wf_function;
pub mod wf_function_call;
pub mod wf_implementation;
pub mod wf_argument_reference;
pub mod wf_test_case;
pub mod types_def;
pub mod view;
pub mod same;
pub mod describe;
pub mod util;
pub mod substitution;
pub mod wf_data_type;

pub use wf_argument_reference::WfArgumentReference;
pub use wf_boolean::WfBoolean;
pub use wf_data::WfData;
pub use wf_data_type::WfDataType;
pub use wf_function::{WfFunction, WfFunctionInner};
pub use wf_function_call::{FunctionCallOrType, WfFunctionCall, WfFunctionCallInner};
pub use wf_implementation::{ImplementationByKind, WfImplementation, WfImplementationInner};
pub use wf_invalid::WfInvalid;
pub use wf_reference::WfReference;
pub use wf_string::WfString;
pub use wf_test_case::{WfTestCase, WfTestCaseInner};
pub use wf_typed_list::{
    MaybeEvaluated, WfTypedList, WfTypedListCheckedIterator, WfTypedListIterator,
};
pub use wf_untyped::WfUntyped;
