//! Equality of truth values.
use vstd::prelude::*;
use crate::data_types::WfBoolean;

verus! {

pub fn boolean_equality(arg1: WfBoolean, arg2: WfBoolean) -> (r: WfBoolean)
    ensures
        r.value == (arg1.value == arg2.value),
{
    WfBoolean::new(arg1.value == arg2.value)
}

} // verus!
