//! The rules by which a JSON document becomes a value.
use vstd::prelude::*;
use std::rc::Rc;
use vstd::string::StringExecFns;
use crate::data_types::{MaybeEvaluated, WfData, WfString, WfTypedList, WfUntyped};
use crate::data_types::view::{entries, lemma_entries, lemma_values, values};
use crate::data_types::wf_untyped::insert_entry;
use crate::key_index::KeyIndex;
use crate::laws::records::lemma_put_sorted;
use crate::model::entries_sorted;
use crate::model::{ElemTypeV, ListV, put, Val};
use crate::parsing::json::{json_of, JsonV, JsonValue, lemma_items, lemma_members, read_json};
use crate::parsing::load_error::{LoadError, LoadErrV};
use crate::zid::Zid;

verus! {

/// A string that names an object is a pointer to it; any other string is
/// itself.
pub open spec fn load_text(s: Seq<char>) -> Val {
    match Zid::parse(s) {
        Ok(z) => if z.is_object() {
            Val::Reference(z)
        } else {
            Val::Text(s)
        },
        Err(_) => Val::Text(s),
    }
}

/// Whether some member from position `i` on states the type `Z6`.
pub open spec fn states_string(m: Seq<(Seq<char>, JsonV)>, i: int) -> bool
    decreases m.len() - i,
{
    if i < 0 || i >= m.len() {
        false
    } else {
        (m[i].0 == "Z1K1"@ && m[i].1 == JsonV::String("Z6"@)) || states_string(m, i + 1)
    }
}

/// The position of the first member from `i` on that holds a string under
/// `Z6K1`, or the number of members.
pub open spec fn text_member(m: Seq<(Seq<char>, JsonV)>, i: int) -> int
    decreases m.len() - i,
{
    if i < 0 || i >= m.len() {
        m.len() as int
    } else if m[i].0 == "Z6K1"@ && m[i].1 is String {
        i
    } else {
        text_member(m, i + 1)
    }
}

/// The position of the first member from `i` on whose key is neither
/// `Z1K1` nor `Z6K1`, or the number of members.
pub open spec fn extra_member(m: Seq<(Seq<char>, JsonV)>, i: int) -> int
    decreases m.len() - i,
{
    if i < 0 || i >= m.len() {
        m.len() as int
    } else if m[i].0 != "Z1K1"@ && m[i].0 != "Z6K1"@ {
        i
    } else {
        extra_member(m, i + 1)
    }
}

/// What a JSON document is as a value.
///
/// An object that states the type `Z6` and holds a string under `Z6K1` is
/// that string, and may hold nothing else.  Any other object is a raw
/// record.  A string that names an object is a pointer.  An array is a list
/// whose first item is the type of the others.  Nothing else is a value.
pub open spec fn load(j: JsonV) -> Result<Val, LoadErrV>
    decreases j, 0nat,
{
    match j {
        JsonV::Object(m) => if states_string(m, 0) && text_member(m, 0) < m.len() {
            if extra_member(m, 0) < m.len() {
                Err(LoadErrV::ExtraFieldInString(m[extra_member(m, 0)].0))
            } else {
                Ok(Val::Text(m[text_member(m, 0)].1->String_0))
            }
        } else {
            load_members(m, 0, Seq::empty())
        },
        JsonV::String(s) => Ok(load_text(s)),
        JsonV::Array(a) => if a.len() == 0 {
            Err(LoadErrV::EmptyArray)
        } else {
            match load(a[0]) {
                Err(e) => Err(LoadErrV::InsideArray(0, Box::new(e))),
                Ok(t) => match load_items(a, 1, Seq::empty()) {
                    Err(e) => Err(e),
                    Ok(items) => Ok(
                        Val::TypedList(
                            Box::new(ListV { elem_type: ElemTypeV::Unchecked(t), entries: items }),
                        ),
                    ),
                },
            }
        },
        _ => Err(LoadErrV::InvalidDataType(j)),
    }
}

pub open spec fn load_items(a: Seq<JsonV>, i: int, acc: Seq<Val>) -> Result<Seq<Val>, LoadErrV>
    decreases a, a.len() - i,
{
    if i < 0 || i >= a.len() {
        Ok(acc)
    } else {
        match load(a[i]) {
            Err(e) => Err(LoadErrV::InsideArray(i as usize, Box::new(e))),
            Ok(v) => load_items(a, i + 1, acc.push(v)),
        }
    }
}

pub open spec fn load_members(m: Seq<(Seq<char>, JsonV)>, i: int, acc: Seq<(KeyIndex, Val)>) -> Result<
    Val,
    LoadErrV,
>
    decreases m, m.len() - i,
{
    if i < 0 || i >= m.len() {
        Ok(Val::Untyped(acc))
    } else {
        match KeyIndex::parse(m[i].0) {
            Err(e) => Err(LoadErrV::CantParseKeyIndex(m[i].0, e)),
            Ok(k) => match load(m[i].1) {
                Err(e) => Err(LoadErrV::InsideMap(k, Box::new(e))),
                Ok(v) => load_members(m, i + 1, put(acc, k, v)),
            },
        }
    }
}

pub open spec fn loaded(r: Result<WfData, LoadError>) -> Result<Val, LoadErrV> {
    match r {
        Ok(v) => Ok(v@),
        Err(e) => Err(e@),
    }
}

fn is_text(s: &String, literal: &str) -> (r: bool)
    ensures
        r == (s@ == literal@),
{
    *s == String::from_str(literal)
}

/// Reads a JSON document as a value.
pub fn parse_value(source: &JsonValue) -> (r: Result<WfData, LoadError>)
    ensures
        loaded(r) == load(source@),
    decreases source, 1nat,
{
    match source {
        JsonValue::Object(object) => parse_object(object),
        JsonValue::String(text) => parse_str(text.as_str()),
        JsonValue::Array(array) => parse_array(array),
        _ => Err(LoadError::InvalidDataType(source.clone())),
    }
}

/// Reads the members of a JSON object as a string or as a raw record.
#[verifier::loop_isolation(false)]
pub fn parse_object(source: &Vec<(String, JsonValue)>) -> (r: Result<WfData, LoadError>)
    ensures
        loaded(r) == load(JsonV::Object(crate::parsing::json::members(source@))),
    decreases source, 0nat,
{
    let ghost m = crate::parsing::json::members(source@);
    proof {
        lemma_members(source@);
    }
    let n = source.len();
    let mut have_string_type = false;
    let mut text_at: usize = n;
    let mut extra_at: usize = n;
    let mut i: usize = n;
    while i > 0
        invariant
            i <= n,
            n == source@.len(),
            m == crate::parsing::json::members(source@),
            have_string_type == states_string(m, i as int),
            text_at == text_member(m, i as int),
            extra_at == extra_member(m, i as int),
            text_at < n ==> m[text_at as int].1 is String,
        decreases i,
    {
        i -= 1;
        proof {
            lemma_members(source@);
        }
        let is_type = is_text(&source[i].0, "Z1K1");
        let is_value = is_text(&source[i].0, "Z6K1");
        match &source[i].1 {
            JsonValue::String(s) => {
                if is_type && is_text(s, "Z6") {
                    have_string_type = true;
                }
                if is_value {
                    text_at = i;
                }
            },
            _ => {},
        }
        if !is_type && !is_value {
            extra_at = i;
        }
    }
    if have_string_type && text_at < n {
        if extra_at < n {
            return Err(LoadError::ExtraFieldInString(source[extra_at].0.clone()));
        }
        proof {
            lemma_members(source@);
        }
        match &source[text_at].1 {
            JsonValue::String(s) => {
                return Ok(WfData::WfString(WfString::new(s.as_str())));
            },
            _ => {
                assert(false);
            },
        }
    }
    let mut list: Vec<(KeyIndex, WfData)> = Vec::new();
    let mut j: usize = 0;
    proof {
        assert(entries(list@) =~= Seq::<(KeyIndex, Val)>::empty());
    }
    while j < n
        invariant
            j <= n,
            n == source@.len(),
            m == crate::parsing::json::members(source@),
            load_members(m, 0, Seq::empty()) == load_members(m, j as int, entries(list@)),
        decreases n - j,
    {
        proof {
            lemma_members(source@);
        }
        let key = match KeyIndex::from_str(source[j].0.as_str()) {
            Ok(k) => k,
            Err(e) => {
                return Err(LoadError::CantParseKeyIndex(source[j].0.clone(), e));
            },
        };
        let value = match parse_value(&source[j].1) {
            Ok(v) => v,
            Err(e) => {
                return Err(LoadError::InsideMap(key, Box::new(e)));
            },
        };
        insert_entry(&mut list, key, value);
        j += 1;
    }
    Ok(WfData::WfUntyped(WfUntyped { entry: Rc::new(list) }))
}

/// Reads a JSON string: a pointer where it names an object, else a string.
pub fn parse_str(source: &str) -> (r: Result<WfData, LoadError>)
    ensures
        r is Ok,
        loaded(r) == Ok::<Val, LoadErrV>(load_text(source@)),
{
    match Zid::from_str(source) {
        Ok(zid) => {
            if zid.z != 0 && zid.k == 0 {
                Ok(WfData::new_reference(zid))
            } else {
                Ok(WfData::WfString(WfString::new(source)))
            }
        },
        Err(_) => Ok(WfData::WfString(WfString::new(source))),
    }
}

/// Reads a JSON array as a list: the first item is the type of the others.
#[verifier::loop_isolation(false)]
pub fn parse_array(array: &Vec<JsonValue>) -> (r: Result<WfData, LoadError>)
    ensures
        loaded(r) == load(JsonV::Array(crate::parsing::json::items(array@))),
    decreases array, 0nat,
{
    let ghost a = crate::parsing::json::items(array@);
    proof {
        lemma_items(array@);
    }
    let n = array.len();
    if n == 0 {
        return Err(LoadError::EmptyArray);
    }
    let element_type = match parse_value(&array[0]) {
        Ok(t) => t,
        Err(e) => {
            return Err(LoadError::InsideArray(0, Box::new(e)));
        },
    };
    let mut list: Vec<WfData> = Vec::new();
    let mut i: usize = 1;
    proof {
        assert(values(list@) =~= Seq::<Val>::empty());
    }
    while i < n
        invariant
            1 <= i <= n,
            n == array@.len(),
            a == crate::parsing::json::items(array@),
            load_items(a, 1, Seq::empty()) == load_items(a, i as int, values(list@)),
        decreases n - i,
    {
        proof {
            lemma_items(array@);
        }
        match parse_value(&array[i]) {
            Ok(v) => {
                proof {
                    lemma_values(list@);
                    lemma_values(list@.push(v));
                    assert(values(list@.push(v)) =~= values(list@).push(v@));
                }
                list.push(v);
            },
            Err(e) => {
                return Err(LoadError::InsideArray(i, Box::new(e)));
            },
        }
        i += 1;
    }
    Ok(WfData::WfTypedList(WfTypedList::new(MaybeEvaluated::Unchecked(element_type), list)))
}

/// What a JSON text is as a value.
pub open spec fn load_json_text(text: Seq<char>) -> Result<Val, LoadErrV> {
    match json_of(text) {
        None => Err(LoadErrV::InvalidJson),
        Some(j) => load(j),
    }
}

/// Reads a JSON text as a value.
pub fn parse_text(text: &str) -> (r: Result<WfData, LoadError>)
    ensures
        loaded(r) == load_json_text(text@),
{
    match read_json(text) {
        None => Err(LoadError::InvalidJson),
        Some(value) => parse_value(&value),
    }
}

proof fn lemma_members_sorted(m: Seq<(Seq<char>, JsonV)>, i: int, acc: Seq<(KeyIndex, Val)>)
    requires
        entries_sorted(acc),
    ensures
        load_members(m, i, acc) matches Ok(Val::Untyped(e)) ==> entries_sorted(e),
        load_members(m, i, acc) is Ok ==> load_members(m, i, acc)->Ok_0 is Untyped,
    decreases m.len() - i,
{
    if i < 0 || i >= m.len() {
    } else {
        match KeyIndex::parse(m[i].0) {
            Err(_) => {},
            Ok(k) => match load(m[i].1) {
                Err(_) => {},
                Ok(v) => {
                    lemma_put_sorted(acc, k, v);
                    lemma_members_sorted(m, i + 1, put(acc, k, v));
                },
            },
        }
    }
}

/// A raw record that was loaded is sorted by key, so it holds one entry
/// under a key.
pub proof fn lemma_loaded_record_sorted(j: JsonV)
    ensures
        load(j) matches Ok(Val::Untyped(e)) ==> entries_sorted(e),
{
    match j {
        JsonV::Object(m) => lemma_members_sorted(m, 0, Seq::empty()),
        _ => {},
    }
}

} // verus!
