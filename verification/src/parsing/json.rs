//! A JSON document as the loader reads it.
use vstd::prelude::*;

verus! {

/// A JSON value.  A number is held as the text that the parser prints for
/// it, which need not be the text of the document; the members of an
/// object keep their order.
#[derive(Debug)]
pub enum JsonValue {
    Null,
    Bool(bool),
    Number(String),
    String(String),
    Array(Vec<JsonValue>),
    Object(Vec<(String, JsonValue)>),
}

/// The model of a JSON value.
pub enum JsonV {
    Null,
    Bool(bool),
    Number(Seq<char>),
    String(Seq<char>),
    Array(Seq<JsonV>),
    Object(Seq<(Seq<char>, JsonV)>),
}

pub open spec fn item_at(v: Seq<JsonValue>, i: int) -> JsonV
    decreases v, 0nat,
{
    if 0 <= i < v.len() {
        v[i]@
    } else {
        JsonV::Null
    }
}

pub open spec fn items(v: Seq<JsonValue>) -> Seq<JsonV>
    decreases v, 1nat,
{
    Seq::new(v.len(), |i: int| item_at(v, i))
}

pub open spec fn member_at(v: Seq<(String, JsonValue)>, i: int) -> (Seq<char>, JsonV)
    decreases v, 0nat,
{
    if 0 <= i < v.len() {
        (v[i].0@, v[i].1@)
    } else {
        (Seq::empty(), JsonV::Null)
    }
}

pub open spec fn members(v: Seq<(String, JsonValue)>) -> Seq<(Seq<char>, JsonV)>
    decreases v, 1nat,
{
    Seq::new(v.len(), |i: int| member_at(v, i))
}

impl View for JsonValue {
    type V = JsonV;

    open spec fn view(&self) -> JsonV
        decreases self,
    {
        match self {
            JsonValue::Null => JsonV::Null,
            JsonValue::Bool(b) => JsonV::Bool(*b),
            JsonValue::Number(n) => JsonV::Number(n@),
            JsonValue::String(s) => JsonV::String(s@),
            JsonValue::Array(a) => JsonV::Array(items(a@)),
            JsonValue::Object(o) => JsonV::Object(members(o@)),
        }
    }
}

pub proof fn lemma_items(v: Seq<JsonValue>)
    ensures
        items(v).len() == v.len(),
        forall|i: int| 0 <= i < v.len() ==> #[trigger] items(v)[i] == v[i]@,
{
}

pub proof fn lemma_members(v: Seq<(String, JsonValue)>)
    ensures
        members(v).len() == v.len(),
        forall|i: int| 0 <= i < v.len() ==> #[trigger] members(v)[i] == (v[i].0@, v[i].1@),
{
}

impl Clone for JsonValue {
    #[verifier::loop_isolation(false)]
    fn clone(&self) -> (r: Self)
        ensures
            r@ == self@,
        decreases self,
    {
        match self {
            JsonValue::Null => JsonValue::Null,
            JsonValue::Bool(b) => JsonValue::Bool(*b),
            JsonValue::Number(n) => JsonValue::Number(n.clone()),
            JsonValue::String(s) => JsonValue::String(s.clone()),
            JsonValue::Array(a) => {
                let mut r: Vec<JsonValue> = Vec::new();
                let mut i: usize = 0;
                while i < a.len()
                    invariant
                        i <= a.len(),
                        r@.len() == i,
                        forall|j: int| 0 <= j < i ==> r@[j]@ == a@[j]@,
                    decreases a.len() - i,
                {
                    r.push(a[i].clone());
                    i += 1;
                }
                proof {
                    lemma_items(r@);
                    lemma_items(a@);
                    assert(items(r@) =~= items(a@));
                }
                JsonValue::Array(r)
            },
            JsonValue::Object(o) => {
                let mut r: Vec<(String, JsonValue)> = Vec::new();
                let mut i: usize = 0;
                while i < o.len()
                    invariant
                        i <= o.len(),
                        r@.len() == i,
                        forall|j: int| 0 <= j < i ==> r@[j].0@ == o@[j].0@ && r@[j].1@ == o@[j].1@,
                    decreases o.len() - i,
                {
                    r.push((o[i].0.clone(), o[i].1.clone()));
                    i += 1;
                }
                proof {
                    lemma_members(r@);
                    lemma_members(o@);
                    assert(members(r@) =~= members(o@));
                }
                JsonValue::Object(r)
            },
        }
    }
}

/// What a text is as JSON, or `None` where it is not JSON.
pub uninterp spec fn json_of(text: Seq<char>) -> Option<JsonV>;

pub open spec fn optional_json(r: Option<JsonValue>) -> Option<JsonV> {
    match r {
        Some(v) => Some(v@),
        None => None,
    }
}

/// `sonic_rs::Value`: a JSON document as the outside parser holds it.  The
/// library looks into none; it hands each to the conversion below.
#[verifier::external_type_specification]
#[verifier::external_body]
pub struct ExSonicValue(sonic_rs::Value);

/// `sonic_rs::Value::as_ref`, and the iterators of `sonic_rs::Array` and
/// `sonic_rs::Object`: the document as a value of this library, variant by
/// variant, with the members of an object in the order of the document.
/// Nothing is claimed of the result.
#[verifier::external_body]
fn convert_json(v: &sonic_rs::Value) -> JsonValue {
    match v.as_ref() {
        sonic_rs::ValueRef::Null => JsonValue::Null,
        sonic_rs::ValueRef::Bool(b) => JsonValue::Bool(b),
        sonic_rs::ValueRef::Number(n) => JsonValue::Number(n.to_string()),
        sonic_rs::ValueRef::String(s) => JsonValue::String(s.to_string()),
        sonic_rs::ValueRef::Array(a) => JsonValue::Array(a.iter().map(convert_json).collect()),
        sonic_rs::ValueRef::Object(o) => JsonValue::Object(
            o.iter().map(|(k, v)| (k.to_string(), convert_json(v))).collect(),
        ),
    }
}

/// `sonic_rs::from_str`: the document that a text holds.  The result is a
/// function of the text alone and is known by the name `json_of`.
#[verifier::external_body]
pub(crate) fn read_json(text: &str) -> (r: Option<JsonValue>)
    ensures
        optional_json(r) == json_of(text@),
{
    match sonic_rs::from_str::<sonic_rs::Value>(text) {
        Ok(v) => Some(convert_json(&v)),
        Err(_) => None,
    }
}

} // verus!
