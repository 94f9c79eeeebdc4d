//! The identifier of a persistent object, written like a key.
use vstd::prelude::*;
use vstd::string::StringExecFns;
use crate::key_index::{
    KeyIndex, KeyIndexParseError, parse_parts, parts_from_options, parts_text, read_parts,
    write_parts,
};

verus! {

#[derive(Debug, PartialEq, Eq, Clone, Copy, Structural)]
pub enum ZidParseError {
    InputEmpty,
    FirstNotZOrK,
    TooMuchText,
    NoTextBeforeK,
    ZAndKUndefined,
    CantParseZ,
    CantParseK,
    PartZZero,
    PartKZero,
}

/// Object ids below this one are well known: a pointer to such an object is
/// taken as the object's own word about what it is.
pub const WELL_KNOWN_HORIZON: u32 = 100;

/// An object identifier.  A part that is 0 is absent; a valid identifier has
/// at least one part, and the identifier of an object has only the first.
#[derive(Copy, Clone, Hash, PartialEq, Eq, PartialOrd, Ord, Structural, Debug)]
pub struct Zid {
    pub z: u32,
    pub k: u32,
}

pub open spec fn zid_error(e: KeyIndexParseError) -> ZidParseError {
    match e {
        KeyIndexParseError::InputEmpty => ZidParseError::InputEmpty,
        KeyIndexParseError::FirstNotZOrK => ZidParseError::FirstNotZOrK,
        KeyIndexParseError::TooMuchText => ZidParseError::TooMuchText,
        KeyIndexParseError::NoTextBeforeK => ZidParseError::NoTextBeforeK,
        KeyIndexParseError::ZAndKUndefined => ZidParseError::ZAndKUndefined,
        KeyIndexParseError::CantParseZ => ZidParseError::CantParseZ,
        KeyIndexParseError::CantParseK => ZidParseError::CantParseK,
        KeyIndexParseError::PartZZero => ZidParseError::PartZZero,
        KeyIndexParseError::PartKZero => ZidParseError::PartKZero,
    }
}

fn convert_error(e: KeyIndexParseError) -> (r: ZidParseError)
    ensures
        r == zid_error(e),
{
    match e {
        KeyIndexParseError::InputEmpty => ZidParseError::InputEmpty,
        KeyIndexParseError::FirstNotZOrK => ZidParseError::FirstNotZOrK,
        KeyIndexParseError::TooMuchText => ZidParseError::TooMuchText,
        KeyIndexParseError::NoTextBeforeK => ZidParseError::NoTextBeforeK,
        KeyIndexParseError::ZAndKUndefined => ZidParseError::ZAndKUndefined,
        KeyIndexParseError::CantParseZ => ZidParseError::CantParseZ,
        KeyIndexParseError::CantParseK => ZidParseError::CantParseK,
        KeyIndexParseError::PartZZero => ZidParseError::PartZZero,
        KeyIndexParseError::PartKZero => ZidParseError::PartKZero,
    }
}

pub proof fn lemma_code_injective(a: Zid, b: Zid)
    ensures
        a.code() == b.code() <==> a == b,
{
}

impl Zid {
    /// At least one part is present.
    pub open spec fn wf(self) -> bool {
        self.z != 0 || self.k != 0
    }

    /// The identifier of a well-known object.
    pub open spec fn is_well_known(self) -> bool {
        0 < self.z < WELL_KNOWN_HORIZON
    }

    /// The identifier names an object: it is `Z<n>` with no key part.
    pub open spec fn is_object(self) -> bool {
        self.z != 0 && self.k == 0
    }

    pub open spec fn z_part(self) -> Option<u32> {
        if self.z == 0 {
            None
        } else {
            Some(self.z)
        }
    }

    pub open spec fn k_part(self) -> Option<u32> {
        if self.k == 0 {
            None
        } else {
            Some(self.k)
        }
    }

    /// The identifier of object `n`.
    pub open spec fn of(n: u32) -> Zid {
        Zid { z: n, k: 0 }
    }

    /// The surface form.
    pub open spec fn text(self) -> Seq<char> {
        parts_text(self.z, self.k)
    }

    /// What a text denotes, or why it denotes no identifier.
    pub open spec fn parse(s: Seq<char>) -> Result<Zid, ZidParseError> {
        match parse_parts(s) {
            Ok((z, k)) => Ok(Zid { z, k }),
            Err(e) => Err(zid_error(e)),
        }
    }

    /// The identifier as one number; distinct identifiers have distinct
    /// codes.
    pub open spec fn code(self) -> u64 {
        (self.z as int * 0x1_0000_0000 + self.k as int) as u64
    }

    /// The key `k` of this object.
    pub open spec fn key(self, k: u32) -> KeyIndex {
        KeyIndex { z: self.z, k }
    }

    pub fn get_z(&self) -> (r: Option<u32>)
        ensures
            r == self.z_part(),
    {
        if self.z == 0 {
            None
        } else {
            Some(self.z)
        }
    }

    pub fn get_k(&self) -> (r: Option<u32>)
        ensures
            r == self.k_part(),
    {
        if self.k == 0 {
            None
        } else {
            Some(self.k)
        }
    }

    pub fn from_str(text: &str) -> (r: Result<Self, ZidParseError>)
        ensures
            r == Self::parse(text@),
            r matches Ok(zid) ==> zid.wf(),
    {
        match read_parts(text) {
            Ok((z, k)) => Ok(Zid { z, k }),
            Err(e) => Err(convert_error(e)),
        }
    }

    pub fn from_u32s(z: Option<u32>, k: Option<u32>) -> (r: Result<Self, ZidParseError>)
        ensures
            r == match parts_from_options(z, k) {
                Ok((a, b)) => Ok::<Zid, ZidParseError>(Zid { z: a, k: b }),
                Err(e) => Err(zid_error(e)),
            },
            r matches Ok(zid) ==> zid.wf() && zid.z_part() == z && zid.k_part() == k,
    {
        if z.is_none() && k.is_none() {
            return Err(ZidParseError::ZAndKUndefined);
        }
        let a: u32 = match z {
            Some(n) => {
                if n == 0 {
                    return Err(ZidParseError::PartZZero);
                }
                n
            },
            None => 0,
        };
        let b: u32 = match k {
            Some(n) => {
                if n == 0 {
                    return Err(ZidParseError::PartKZero);
                }
                n
            },
            None => 0,
        };
        Ok(Zid { z: a, k: b })
    }

    /// The identifier of parts that are known to be valid.
    pub fn from_u32s_panic(z: Option<u32>, k: Option<u32>) -> (r: Self)
        requires
            z is Some || k is Some,
            z != Some(0u32),
            k != Some(0u32),
        ensures
            r.wf(),
            r.z_part() == z,
            r.k_part() == k,
    {
        Zid {
            z: match z {
                Some(n) => n,
                None => 0,
            },
            k: match k {
                Some(n) => n,
                None => 0,
            },
        }
    }

    /// Whether the identifier is that of a well-known object.
    pub fn well_known(&self) -> (r: bool)
        ensures
            r == self.is_well_known(),
    {
        0 < self.z && self.z < WELL_KNOWN_HORIZON
    }

    pub fn to_code(&self) -> (r: u64)
        ensures
            r == self.code(),
    {
        (self.z as u64) * 0x1_0000_0000u64 + (self.k as u64)
    }

    /// The identifier that has the given code.
    pub fn from_code(code: u64) -> (r: Self)
        ensures
            r.code() == code,
            r.z == code / 0x1_0000_0000,
            r.k == code % 0x1_0000_0000,
    {
        Zid { z: (code / 0x1_0000_0000u64) as u32, k: (code % 0x1_0000_0000u64) as u32 }
    }

    /// The key `k` of this object.
    pub fn key_of(&self, k: u32) -> (r: KeyIndex)
        ensures
            r == self.key(k),
    {
        KeyIndex { z: self.z, k }
    }

    pub fn to_zid(&self) -> (r: String)
        ensures
            r@ == self.text(),
    {
        write_parts(self.z, self.k)
    }
}


/// The identifier of object `n`.
pub fn object(n: u32) -> (r: Zid)
    ensures
        r == Zid::of(n),
{
    Zid { z: n, k: 0 }
}

/// `prefix` followed by the surface form of `zid`.
pub fn text_about(prefix: &str, zid: &Zid) -> (r: String)
    ensures
        r@ == prefix@ + zid.text(),
{
    String::from_str(prefix).concat(zid.to_zid().as_str())
}

} // verus!
