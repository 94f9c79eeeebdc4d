//! A raw record: a mapping from keys to values, not yet refined.
use vstd::prelude::*;
use std::rc::Rc;
use vstd::string::StringExecFns;
use crate::data_types::{
    FunctionCallOrType, WfArgumentReference, WfBoolean, WfData, WfFunction, WfFunctionCall,
    WfImplementation, WfString, WfTestCase,
};
use crate::data_types::types_def::{WfStandardType, WfTypeGeneric};
use crate::data_types::view::{checked, entries, lemma_entries, optional, parsed, share};
use crate::data_types::wf_data_type::WfDataType;
use crate::eval_error::EvalError;
use crate::execution_context::ExecutionContext;
use crate::key_index::{key_at, KeyIndex};
use crate::laws::accessors::lemma_accessor_totality;
use crate::laws::records::{lemma_normalised_sorted, lemma_position_is};
use crate::model::entries_sorted;
use crate::model::{
    as_record, entry_get, entry_keys, entry_position, key_less, lower_bound, normalised, pairs,
    put, Val,
};
use crate::semantics::{refine, stated_type};
use crate::zid::{object, text_about, Zid};

verus! {

/// The entries are kept sorted by key, one entry to a key, which is the
/// order in which `list_keys` reports them.  Every function of the library
/// that makes a record keeps them so: `new` sorts what it is given,
/// loading puts entry by entry in its place, and substitution leaves the
/// keys as they are.
#[derive(Debug)]
pub struct WfUntyped {
    pub entry: Rc<Vec<(KeyIndex, WfData)>>,
}

impl Clone for WfUntyped {
    fn clone(&self) -> (r: Self)
        ensures
            r == *self,
    {
        WfUntyped { entry: share(&self.entry) }
    }
}


impl WfDataType for WfUntyped {
    open spec fn model(&self) -> Val {
        Val::Untyped(self@)
    }

    fn into_wf_data(self) -> (r: WfData) {
        WfData::WfUntyped(self)
    }

    fn is_fully_realised(&self) -> (r: bool) {
        false
    }

    fn get_identity_zid_key(&self) -> (r: Option<KeyIndex>) {
        None
    }

    fn get_key(&self, key: KeyIndex) -> (r: Option<WfData>) {
        proof {
            lemma_entries(self.entry@);
        }
        let n = self.entry.len();
        let mut i: usize = 0;
        while i < n
            invariant
                i <= n,
                n == self.entry@.len(),
                forall|j: int| 0 <= j < i ==> self.entry@[j].0 != key,
            decreases n - i,
        {
            if self.entry[i].0 == key {
                proof {
                    lemma_position_is(self@, key, i as int);
                }
                return Some(self.entry[i].1.clone());
            }
            i += 1;
        }
        proof {
            lemma_position_is(self@, key, n as int);
        }
        None
    }

    fn list_keys(&self) -> (r: Vec<KeyIndex>) {
        proof {
            lemma_entries(self.entry@);
        }
        let n = self.entry.len();
        let mut r: Vec<KeyIndex> = Vec::new();
        let mut i: usize = 0;
        while i < n
            invariant
                i <= n,
                n == self.entry@.len(),
                r@.len() == i,
                forall|j: int| 0 <= j < i ==> r@[j] == self.entry@[j].0,
            decreases n - i,
        {
            r.push(self.entry[i].0);
            i += 1;
        }
        assert(r@ =~= entry_keys(self@));
        r
    }
}


/// The type that a record states under `Z1K1`.
fn get_stated_type(stated: WfData, context: &ExecutionContext) -> (r: Result<Zid, EvalError>)
    ensures
        checked(r) == stated_type(stated@, context@),
    decreases context@.steps, 0nat,
{
    if let WfData::WfReference(reference) = &stated {
        let to = reference.to;
        if to.well_known() {
            return Ok(to);
        }
    }
    let inner = match context.step() {
        Ok(c) => c,
        Err(e) => {
            return Err(e);
        },
    };
    match stated.parse_type(&inner) {
        Err((e, _)) => Err(e.inside_key(key_at(1, 1))),
        Ok(WfTypeGeneric::WfStandardType(s)) => Ok(s.inner.identity_ref),
        Ok(WfTypeGeneric::WfTypedListType(_)) => Err(
            EvalError::unimplemented(String::from_str("parsing typed list from key")),
        ),
    }
}

impl WfUntyped {
    /// Promotes the record to the shape that its type names.  With
    /// `recurse`, a record that is a function call is reduced as well.
    pub fn evaluate_inner(self, context: &ExecutionContext, recurse: bool) -> (r: Result<
        WfData,
        (EvalError, WfData),
    >)
        ensures
            parsed(r) == refine(Val::Untyped(self@), context@, recurse),
        decreases context@.steps, 0nat,
    {
        let data = WfData::WfUntyped(self);
        let stated = match data.get_key(key_at(1, 1)) {
            Some(t) => t,
            None => {
                return Err((EvalError::missing_key(key_at(1, 1)), data));
            },
        };
        let inner = match context.step() {
            Ok(c) => c,
            Err(e) => {
                return Err((e, data));
            },
        };
        let type_zid = match get_stated_type(stated, &inner) {
            Ok(z) => z,
            Err(e) => {
                return Err((e, data));
            },
        };
        if type_zid == object(4) {
            match WfStandardType::parse(data, &inner) {
                Ok(v) => Ok(v.into_wf_data()),
                Err(x) => Err(x),
            }
        } else if type_zid == object(6) {
            match WfString::parse(data, &inner) {
                Ok(v) => Ok(v.into_wf_data()),
                Err(x) => Err(x),
            }
        } else if type_zid == object(7) {
            match WfFunctionCall::parse(data, &inner) {
                Err(x) => Err(x),
                Ok(FunctionCallOrType::Type(t)) => Ok(t.into_wf_data()),
                Ok(FunctionCallOrType::FunctionCall(f)) => {
                    if recurse {
                        f.evaluate(&inner)
                    } else {
                        Ok(f.into_wf_data())
                    }
                },
            }
        } else if type_zid == object(8) {
            match WfFunction::parse(data, &inner) {
                Ok(v) => Ok(v.into_wf_data()),
                Err(x) => Err(x),
            }
        } else if type_zid == object(14) {
            match WfImplementation::parse(data, &inner) {
                Ok(v) => Ok(v.into_wf_data()),
                Err(x) => Err(x),
            }
        } else if type_zid == object(18) {
            match WfArgumentReference::parse(data, &inner) {
                Ok(v) => Ok(v.into_wf_data()),
                Err(x) => Err(x),
            }
        } else if type_zid == object(20) {
            match WfTestCase::parse(data, &inner) {
                Ok(v) => Ok(v.into_wf_data()),
                Err(x) => Err(x),
            }
        } else if type_zid == object(40) {
            match WfBoolean::parse(data, &inner) {
                Ok(v) => Ok(v.into_wf_data()),
                Err(x) => Err(x),
            }
        } else {
            Err((EvalError::unimplemented(text_about("parsing for ", &type_zid)), data))
        }
    }
}


/// Whether `a` comes before `b`: by the object part, then by the key part.
pub fn key_before(a: KeyIndex, b: KeyIndex) -> (r: bool)
    ensures
        r == key_less(a, b),
{
    a.z < b.z || (a.z == b.z && a.k < b.k)
}

proof fn lemma_lower_bound(e: Seq<(KeyIndex, Val)>, k: KeyIndex, p: int)
    requires
        0 <= p <= e.len(),
        forall|j: int| 0 <= j < p ==> key_less(e[j].0, k),
        p < e.len() ==> !key_less(e[p].0, k),
    ensures
        lower_bound(e, k) == p,
    decreases e.len(),
{
    if e.len() == 0 || !key_less(e[0].0, k) {
        if p > 0 {
            assert(key_less(e[0].0, k));
        }
    } else {
        let t = e.subrange(1, e.len() as int);
        assert forall|j: int| 0 <= j < p - 1 implies key_less(t[j].0, k) by {
            assert(t[j] == e[j + 1]);
        }
        lemma_lower_bound(t, k, p - 1);
    }
}

/// Puts `value` under `key` among sorted entries.
pub fn insert_entry(list: &mut Vec<(KeyIndex, WfData)>, key: KeyIndex, value: WfData)
    ensures
        entries(final(list)@) == put(entries(old(list)@), key, value@),
{
    proof {
        lemma_entries(list@);
    }
    let n = list.len();
    let mut p: usize = 0;
    while p < n && key_before(list[p].0, key)
        invariant
            p <= n,
            n == list@.len(),
            list@ == old(list)@,
            forall|j: int| 0 <= j < p ==> key_less(list@[j].0, key),
        decreases n - p,
    {
        p += 1;
    }
    proof {
        lemma_lower_bound(entries(list@), key, p as int);
    }
    if p < n && list[p].0 == key {
        list.remove(p);
    }
    list.insert(p, (key, value));
    proof {
        lemma_entries(final(list)@);
        lemma_entries(old(list)@);
        assert(entries(final(list)@) =~= put(entries(old(list)@), key, value@));
    }
}

impl WfUntyped {
    /// The record of the given entries: sorted by key, a later entry
    /// replacing an earlier one under the same key.
    pub fn new(given: Vec<(KeyIndex, WfData)>) -> (r: Self)
        ensures
            r@ == normalised(entries(given@), given@.len() as int),
            entries_sorted(r@),
    {
        proof {
            lemma_entries(given@);
            lemma_normalised_sorted(entries(given@), given@.len() as int);
        }
        let n = given.len();
        let mut list: Vec<(KeyIndex, WfData)> = Vec::new();
        let mut i: usize = 0;
        assert(entries(list@) =~= normalised(entries(given@), 0));
        while i < n
            invariant
                i <= n,
                n == given@.len(),
                entries(list@) == normalised(entries(given@), i as int),
            decreases n - i,
        {
            proof {
                lemma_entries(given@);
            }
            insert_entry(&mut list, given[i].0, given[i].1.clone());
            i += 1;
        }
        Self { entry: Rc::new(list) }
    }

    /// Any value as a raw record: its keys with what it holds under each.
    pub fn parse(data: WfData) -> (r: Self)
        ensures
            r@ == as_record(data@),
    {
        if let WfData::WfUntyped(this) = &data {
            return this.clone();
        }
        let keys = data.list_keys();
        let n = keys.len();
        let mut list: Vec<(KeyIndex, WfData)> = Vec::new();
        let mut i: usize = 0;
        let ghost given = pairs(data@);
        assert(entries(list@) =~= normalised(given, 0));
        while i < n
            invariant
                i <= n,
                n == keys@.len(),
                keys@ == data@.keys(),
                given == pairs(data@),
                entries(list@) == normalised(given, i as int),
            decreases n - i,
        {
            let k = keys[i];
            proof {
                lemma_accessor_totality(data@, k);
                assert(data@.keys()[i as int] == k);
            }
            match data.get_key(k) {
                Some(value) => {
                    insert_entry(&mut list, k, value);
                },
                None => {
                    assert(false);
                },
            }
            i += 1;
        }
        Self { entry: Rc::new(list) }
    }
}

} // verus!
