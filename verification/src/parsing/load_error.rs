//! Why a JSON document is no value.
use vstd::prelude::*;
use crate::key_index::{KeyIndex, KeyIndexParseError};
use crate::parsing::json::{JsonV, JsonValue};
use crate::zid::ZidParseError;

verus! {

#[derive(Debug)]
pub enum LoadError {
    CantParseKeyIndex(String, KeyIndexParseError),
    CantParseZID(String, ZidParseError),
    InsideMap(KeyIndex, Box<LoadError>),
    InsideArray(usize, Box<LoadError>),
    InvalidDataType(JsonValue),
    ExtraFieldInString(String),
    UpperCaseFirstCharOutsideZ6(String),
    EmptyArray,
    /// The text of a page is no JSON object.
    InvalidJson,
    /// The page holds no value under `Z2K2`.
    NoPersistentValue,
}

/// The model of a load error.
pub enum LoadErrV {
    CantParseKeyIndex(Seq<char>, KeyIndexParseError),
    CantParseZID(Seq<char>, ZidParseError),
    InsideMap(KeyIndex, Box<LoadErrV>),
    InsideArray(usize, Box<LoadErrV>),
    InvalidDataType(JsonV),
    ExtraFieldInString(Seq<char>),
    UpperCaseFirstCharOutsideZ6(Seq<char>),
    EmptyArray,
    InvalidJson,
    NoPersistentValue,
}

impl View for LoadError {
    type V = LoadErrV;

    open spec fn view(&self) -> LoadErrV
        decreases self,
    {
        match self {
            LoadError::CantParseKeyIndex(s, e) => LoadErrV::CantParseKeyIndex(s@, *e),
            LoadError::CantParseZID(s, e) => LoadErrV::CantParseZID(s@, *e),
            LoadError::InsideMap(k, e) => LoadErrV::InsideMap(*k, Box::new((**e)@)),
            LoadError::InsideArray(i, e) => LoadErrV::InsideArray(*i, Box::new((**e)@)),
            LoadError::InvalidDataType(j) => LoadErrV::InvalidDataType(j@),
            LoadError::ExtraFieldInString(s) => LoadErrV::ExtraFieldInString(s@),
            LoadError::UpperCaseFirstCharOutsideZ6(s) => LoadErrV::UpperCaseFirstCharOutsideZ6(s@),
            LoadError::EmptyArray => LoadErrV::EmptyArray,
            LoadError::InvalidJson => LoadErrV::InvalidJson,
            LoadError::NoPersistentValue => LoadErrV::NoPersistentValue,
        }
    }
}

} // verus!
