//! The values that are types.
pub mod wf_standard_type;
pub mod wf_type_generic;
pub mod wf_typed_list_type;

pub use wf_standard_type::{WfStandardType, WfStandardTypeInner};
pub use wf_type_generic::WfTypeGeneric;
pub use wf_typed_list_type::WfTypedListType;
