//! The object store: the persistent objects by their identifier.
use vstd::prelude::*;
use std::collections::BTreeMap;
use std::rc::Rc;
use vstd::string::StringExecFns;
use crate::data_types::{WfBoolean, WfData, WfInvalid};
use crate::data_types::types_def::{WfStandardType, WfStandardTypeInner, WfTypeGeneric};
use crate::eval_error::{EvalError, EvalErrorKind};
use crate::model::{ErrV, KindV, StdTypeV, TypeV, Val};
use crate::parsing::json::{json_of, JsonV, JsonValue, lemma_members, members, read_json};
use crate::parsing::load_error::{LoadError, LoadErrV};
use crate::parsing::parse_json::{load, parse_value};
use crate::zid::{lemma_code_injective, Zid};

verus! {

broadcast use vstd::std_specs::btree::group_btree_axioms;

/// The objects are kept under the code of their identifier.
pub struct GlobalContext {
    pub objects: BTreeMap<u64, WfData>,
}

impl View for GlobalContext {
    type V = Map<Zid, Val>;

    open spec fn view(&self) -> Map<Zid, Val> {
        Map::new(
            |z: Zid| self.objects@.contains_key(z.code()),
            |z: Zid| self.objects@[z.code()]@,
        )
    }
}

/// The type of the truth values as the smallest store holds it: its keys
/// and its validator are placeholders.
pub open spec fn boolean_type() -> Val {
    Val::Type(
        Box::new(
            TypeV::Standard(
                StdTypeV {
                    identity: Zid::of(40),
                    keys: Val::Invalid(Box::new(KindV::TestData)),
                    validator: Val::Invalid(Box::new(KindV::TestData)),
                    equality: None,
                    display_function: None,
                    reading_function: None,
                    type_converters_to_code: None,
                    type_converters_from_code: None,
                },
            ),
        ),
    )
}

impl GlobalContext {
    /// The store without objects.
    pub fn new() -> (r: Self)
        ensures
            r@ == Map::<Zid, Val>::empty(),
    {
        let r = GlobalContext { objects: BTreeMap::new() };
        assert(r@ =~= Map::<Zid, Val>::empty());
        r
    }

    /// The object `zid`, shared with the store.
    pub fn get_object_value(&self, zid: &Zid) -> (r: Result<WfData, EvalError>)
        ensures
            match r {
                Ok(v) => self@.contains_key(*zid) && v@ == self@[*zid],
                Err(e) => !self@.contains_key(*zid) && e@ == ErrV::of(
                    KindV::MissingPersistentObject(*zid),
                ),
            },
    {
        let code = zid.to_code();
        match self.objects.get(&code) {
            Some(v) => Ok(v.clone()),
            None => Err(EvalError::from_kind(EvalErrorKind::MissingPersistentObject(*zid))),
        }
    }

    /// Puts `data` under `zid`, in place of what was there.
    pub fn insert(&mut self, zid: Zid, data: WfData)
        ensures
            final(self)@ == old(self)@.insert(zid, data@),
    {
        let code = zid.to_code();
        self.objects.insert(code, data);
        proof {
            assert forall|z: Zid| z.code() == zid.code() <==> z == zid by {
                lemma_code_injective(z, zid);
            }
            assert(final(self)@ =~= old(self)@.insert(zid, data@));
        }
    }

    /// Puts `data` under `zid` as it is, with no record around it.
    pub fn add_direct_no_persistent_data(&mut self, zid: Zid, data: WfData)
        ensures
            final(self)@ == old(self)@.insert(zid, data@),
    {
        self.insert(zid, data)
    }

    /// The smallest store in which the truth values evaluate: the type
    /// `Z40` and its two values, `Z41` for true and `Z42` for false.
    pub fn default_for_test() -> (r: Self)
        ensures
            r@ == Map::<Zid, Val>::empty().insert(Zid::of(40), boolean_type()).insert(
                Zid::of(41),
                Val::Boolean(true),
            ).insert(Zid::of(42), Val::Boolean(false)),
    {
        let mut r = Self::new();
        let keys = WfData::WfInvalid(WfInvalid::new(EvalErrorKind::TestData));
        let validator = WfData::WfInvalid(WfInvalid::new(EvalErrorKind::TestData));
        assert(keys@ == Val::Invalid(Box::new(KindV::TestData)));
        assert(validator@ == Val::Invalid(Box::new(KindV::TestData)));
        let boolean_type = WfStandardType {
            inner: Rc::new(
                WfStandardTypeInner {
                    identity_ref: Zid { z: 40, k: 0 },
                    keys,
                    validator,
                    equality: None,
                    display_function: None,
                    reading_function: None,
                    type_converters_to_code: None,
                    type_converters_from_code: None,
                },
            ),
        };
        assert(boolean_type@ == self::boolean_type()->Type_0->Standard_0);
        let data = WfData::WfType(WfTypeGeneric::WfStandardType(boolean_type));
        assert(data@ == self::boolean_type());
        r.insert(Zid { z: 40, k: 0 }, data);
        r.insert(Zid { z: 41, k: 0 }, WfData::WfBoolean(WfBoolean::new(true)));
        r.insert(Zid { z: 42, k: 0 }, WfData::WfBoolean(WfBoolean::new(false)));
        r
    }
}


/// The position of the first member from `i` on under `Z2K2`, or the
/// number of members.
pub open spec fn payload_member(m: Seq<(Seq<char>, JsonV)>, i: int) -> int
    decreases m.len() - i,
{
    if i < 0 || i >= m.len() {
        m.len() as int
    } else if m[i].0 == "Z2K2"@ {
        i
    } else {
        payload_member(m, i + 1)
    }
}

/// The object that a page of the dump holds: the title names it, and the
/// body holds its value under `Z2K2`.
pub open spec fn page_object(title: Seq<char>, body: JsonV) -> Result<(Zid, Val), LoadErrV> {
    match Zid::parse(title) {
        Err(e) => Err(LoadErrV::CantParseZID(title, e)),
        Ok(zid) => match body {
            JsonV::Object(m) => if payload_member(m, 0) < m.len() {
                match load(m[payload_member(m, 0)].1) {
                    Ok(v) => Ok((zid, v)),
                    Err(e) => Err(e),
                }
            } else {
                Err(LoadErrV::NoPersistentValue)
            },
            _ => Err(LoadErrV::InvalidJson),
        },
    }
}

/// The object that a page of the dump holds, the body given as text.
pub open spec fn page_object_of_text(title: Seq<char>, body: Seq<char>) -> Result<
    (Zid, Val),
    LoadErrV,
> {
    match Zid::parse(title) {
        Err(e) => Err(LoadErrV::CantParseZID(title, e)),
        Ok(zid) => match json_of(body) {
            None => Err(LoadErrV::InvalidJson),
            Some(j) => page_object(title, j),
        },
    }
}

impl GlobalContext {
    /// Adds the object of a page whose body was read as JSON.  On an error
    /// the store is as it was.
    #[verifier::loop_isolation(false)]
    pub fn add_from_value(&mut self, page_title: &str, body: &JsonValue) -> (r: Result<
        (),
        LoadError,
    >)
        ensures
            match page_object(page_title@, body@) {
                Ok((zid, v)) => r is Ok && final(self)@ == old(self)@.insert(zid, v),
                Err(e) => r is Err && r->Err_0@ == e && final(self)@ == old(self)@,
            },
    {
        let zid = match Zid::from_str(page_title) {
            Ok(z) => z,
            Err(e) => {
                return Err(LoadError::CantParseZID(String::from_str(page_title), e));
            },
        };
        let object = match body {
            JsonValue::Object(o) => o,
            _ => {
                return Err(LoadError::InvalidJson);
            },
        };
        let ghost m = members(object@);
        proof {
            lemma_members(object@);
        }
        let n = object.len();
        let mut at: usize = n;
        let mut i: usize = n;
        while i > 0
            invariant
                i <= n,
                at == payload_member(m, i as int),
            decreases i,
        {
            i -= 1;
            if *(&object[i].0) == String::from_str("Z2K2") {
                at = i;
            }
        }
        if at >= n {
            return Err(LoadError::NoPersistentValue);
        }
        match parse_value(&object[at].1) {
            Ok(data) => {
                self.insert(zid, data);
                Ok(())
            },
            Err(e) => Err(e),
        }
    }

    /// Adds the object of a page of the dump.  On an error the store is as
    /// it was.
    pub fn add_from_json(&mut self, page_title: &str, body: &str) -> (r: Result<(), LoadError>)
        ensures
            match page_object_of_text(page_title@, body@) {
                Ok((zid, v)) => r is Ok && final(self)@ == old(self)@.insert(zid, v),
                Err(e) => r is Err && r->Err_0@ == e && final(self)@ == old(self)@,
            },
    {
        match Zid::from_str(page_title) {
            Ok(_) => {},
            Err(e) => {
                return Err(LoadError::CantParseZID(String::from_str(page_title), e));
            },
        }
        match read_json(body) {
            None => Err(LoadError::InvalidJson),
            Some(value) => self.add_from_value(page_title, &value),
        }
    }
}

} // verus!
