//! A value in a few words, for traces that people read.
use vstd::prelude::*;
use vstd::string::StringExecFns;
use crate::data_types::{ImplementationByKind, WfData};
use crate::data_types::types_def::WfTypeGeneric;
use crate::data_types::view::{lemma_entries, lemma_values};
use crate::model::{ImplKindV, TypeV, Val};
use crate::text::{decimal_text, push_decimal_usize};
use crate::zid::text_about;

verus! {

/// What a value is, in a few words: its shape, and the object, the text or
/// the size that tells it from others of that shape.
pub open spec fn description(v: Val) -> Seq<char> {
    match v {
        Val::Boolean(b) => if b {
            "true"@
        } else {
            "false"@
        },
        Val::Reference(z) => "reference to "@ + z.text(),
        Val::Text(s) => "string \""@ + s + "\""@,
        Val::Untyped(e) => "record of "@ + decimal_text(e.len()) + " entries"@,
        Val::Type(t) => match *t {
            TypeV::Standard(s) => "type "@ + s.identity.text(),
            TypeV::TypedList(_) => "type of lists"@,
        },
        Val::Invalid(_) => "placeholder"@,
        Val::Function(f) => "function "@ + f.identity.text(),
        Val::FunctionCall(c) => "call of "@ + c.function.identity.text() + " with "@ + decimal_text(
            c.args.len(),
        ) + " arguments"@,
        Val::Implementation(i) => match i.kind {
            ImplKindV::Composition(_) => "implementation by composition"@,
            ImplKindV::Code(_) => "implementation by code"@,
            ImplKindV::Builtin(_) => "builtin implementation"@,
        },
        Val::ArgumentReference(k) => "argument "@ + k.text(),
        Val::TestCase(t) => "test case of "@ + t.function.identity.text(),
        Val::TypedList(l) => "list of "@ + decimal_text(l.entries.len()) + " entries"@,
    }
}

impl WfData {
    /// The value in a few words.
    pub fn describe(&self) -> (r: String)
        ensures
            r@ == description(self@),
    {
        match self {
            WfData::WfBoolean(b) => {
                if b.value {
                    String::from_str("true")
                } else {
                    String::from_str("false")
                }
            },
            WfData::WfReference(reference) => text_about("reference to ", &reference.to),
            WfData::WfString(s) => {
                let mut r = String::from_str("string \"");
                r.append(s.text.as_str());
                r.append("\"");
                r
            },
            WfData::WfUntyped(u) => {
                proof {
                    lemma_entries(u.entry@);
                }
                let mut r = String::from_str("record of ");
                push_decimal_usize(&mut r, u.entry.len());
                r.append(" entries");
                r
            },
            WfData::WfType(t) => match t {
                WfTypeGeneric::WfStandardType(s) => {
                    assert(t@ == TypeV::Standard(s@));
                    assert(s@.identity == s.inner.identity_ref);
                    text_about("type ", &s.inner.identity_ref)
                },
                WfTypeGeneric::WfTypedListType(_) => String::from_str("type of lists"),
            },
            WfData::WfInvalid(_) => String::from_str("placeholder"),
            WfData::WfFunction(f) => {
                assert(f@.identity == f.0.identity);
                text_about("function ", &f.0.identity)
            },
            WfData::WfFunctionCall(c) => {
                proof {
                    lemma_values(c.0.args@);
                    assert(c@.function == c.0.function@);
                    assert(c@.function.identity == c.0.function.0.identity);
                }
                let mut r = text_about("call of ", &c.0.function.0.identity);
                r.append(" with ");
                push_decimal_usize(&mut r, c.0.args.len());
                r.append(" arguments");
                r
            },
            WfData::WfImplementation(i) => match &i.0.kind {
                ImplementationByKind::Composition(_) => {
                    assert(i@.kind is Composition);
                    String::from_str("implementation by composition")
                },
                ImplementationByKind::Code(_) => {
                    assert(i@.kind is Code);
                    String::from_str("implementation by code")
                },
                ImplementationByKind::Builtin(_) => {
                    assert(i@.kind is Builtin);
                    String::from_str("builtin implementation")
                },
            },
            WfData::WfArgumentReference(a) => String::from_str("argument ").concat(
                a.key_id.to_string().as_str(),
            ),
            WfData::WfTestCase(t) => {
                assert(t@.function == t.0.function@);
                assert(t@.function.identity == t.0.function.0.identity);
                text_about("test case of ", &t.0.function.0.identity)
            },
            WfData::WfTypedList(l) => {
                let mut r = String::from_str("list of ");
                push_decimal_usize(&mut r, l.len());
                r.append(" entries");
                r
            },
        }
    }
}

} // verus!
