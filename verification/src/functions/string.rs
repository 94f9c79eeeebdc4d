//! Equality of strings.
use vstd::prelude::*;
use crate::data_types::{WfBoolean, WfString};

verus! {

/// Two strings are equal if they hold the same characters.
pub fn string_equality(arg1: WfString, arg2: WfString) -> (r: WfBoolean)
    ensures
        r.value == (arg1@ == arg2@),
{
    WfBoolean::new(*arg1.text == *arg2.text)
}

} // verus!
