//! The accessors that every shape offers.
use vstd::prelude::*;
use crate::data_types::WfData;
use crate::data_types::view::optional;
use crate::key_index::KeyIndex;
use crate::model::Val;

verus! {

/// A shape of a value.  None of the accessors evaluates anything: they
/// read the value as the record it stands for.
pub trait WfDataType: Sized {
    /// The value that this shape is.
    spec fn model(&self) -> Val;

    /// The shape as a member of the union.
    fn into_wf_data(self) -> (r: WfData)
        ensures
            r@ == self.model(),
    ;

    /// The value is in its final form: it differs from every other final
    /// value.
    fn is_fully_realised(&self) -> (r: bool)
        ensures
            r == self.model().is_final(),
    ;

    /// The key under which the value refers to itself.
    fn get_identity_zid_key(&self) -> (r: Option<KeyIndex>)
        ensures
            r == self.model().identity_key(),
    ;

    /// What the value holds under `key`.
    fn get_key(&self, key: KeyIndex) -> (r: Option<WfData>)
        ensures
            optional(r) == self.model().get(key),
    ;

    /// The keys under which the value holds something, in order.
    fn list_keys(&self) -> (r: Vec<KeyIndex>)
        ensures
            r@ == self.model().keys(),
    ;
}

} // verus!
