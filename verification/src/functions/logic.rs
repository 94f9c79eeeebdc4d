//! The conditional.
use vstd::prelude::*;
use crate::data_types::{WfBoolean, WfData};
use crate::semantics;

verus! {

/// The branch that `boolean` selects, as it is: nothing is evaluated here.
pub fn if_function(boolean: WfBoolean, then: WfData, otherwise: WfData) -> (r: WfData)
    ensures
        r@ == semantics::if_function(boolean.value, then@, otherwise@),
{
    if boolean.value {
        then
    } else {
        otherwise
    }
}

} // verus!
