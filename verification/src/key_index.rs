//! The symbol `Z<n>`, `Z<n>K<m>` or `K<m>` that names an object or a key.
use vstd::prelude::*;
use crate::text::{
    all_digits, decimal_text, decimal_value, is_digit, lemma_decimal_text_digits, parse_number,
    push_char, push_decimal, read_number,
};

verus! {

#[derive(Debug, PartialEq, Eq, Clone, Copy, Structural)]
pub enum KeyIndexParseError {
    InputEmpty,
    FirstNotZOrK,
    TooMuchText,
    NoTextBeforeK,
    ZAndKUndefined,
    CantParseZ,
    CantParseK,
    PartZZero,
    PartKZero,
}

/// A key identifier.  A part that is 0 is absent; a valid identifier has at
/// least one part.
#[derive(Copy, Clone, Hash, PartialEq, Eq, PartialOrd, Ord, Structural, Debug)]
pub struct KeyIndex {
    pub z: u32,
    pub k: u32,
}

/// The position of the first `K` in `s`, or the length of `s` if it has none.
pub open spec fn first_k(s: Seq<char>) -> int
    decreases s.len(),
{
    if s.len() == 0 || s[0] == 'K' {
        0
    } else {
        1 + first_k(s.subrange(1, s.len() as int))
    }
}

pub proof fn lemma_first_k(s: Seq<char>)
    ensures
        0 <= first_k(s) <= s.len(),
        forall|j: int| 0 <= j < first_k(s) ==> s[j] != 'K',
        first_k(s) < s.len() ==> s[first_k(s)] == 'K',
    decreases s.len(),
{
    if s.len() == 0 || s[0] == 'K' {
    } else {
        let t = s.subrange(1, s.len() as int);
        lemma_first_k(t);
        assert forall|j: int| 0 <= j < first_k(s) implies s[j] != 'K' by {
            if j > 0 {
                assert(s[j] == t[j - 1]);
            }
        }
    }
}

pub proof fn lemma_first_k_is(s: Seq<char>, i: int)
    requires
        0 <= i <= s.len(),
        forall|j: int| 0 <= j < i ==> s[j] != 'K',
        i < s.len() ==> s[i] == 'K',
    ensures
        first_k(s) == i,
{
    lemma_first_k(s);
    let f = first_k(s);
    if f < i {
        assert(s[f] == 'K');
    } else if i < f {
        assert(s[i] == 'K');
    }
}

/// What a text denotes as a pair of parts.  The text before the first `K`
/// is empty or `Z` and a number; after a `K` stands a number and nothing
/// else.  A part that is written is not 0.
pub open spec fn parse_parts(s: Seq<char>) -> Result<(u32, u32), KeyIndexParseError> {
    let i = first_k(s);
    let z = if i == 0 {
        Some(0u32)
    } else {
        parse_number(s.subrange(1, i))
    };
    if s.len() == 0 {
        Err(KeyIndexParseError::ZAndKUndefined)
    } else if i > 0 && s[0] != 'Z' {
        Err(KeyIndexParseError::FirstNotZOrK)
    } else if z is None {
        Err(KeyIndexParseError::CantParseZ)
    } else if i == s.len() {
        if z->0 == 0 {
            Err(KeyIndexParseError::PartZZero)
        } else {
            Ok((z->0, 0u32))
        }
    } else {
        let rest = s.subrange(i + 1, s.len() as int);
        let j = first_k(rest);
        match parse_number(rest.subrange(0, j)) {
            None => Err(KeyIndexParseError::CantParseK),
            Some(k) => if j < rest.len() {
                Err(KeyIndexParseError::FirstNotZOrK)
            } else if i > 0 && z->0 == 0 {
                Err(KeyIndexParseError::PartZZero)
            } else if k == 0 {
                Err(KeyIndexParseError::PartKZero)
            } else {
                Ok((z->0, k))
            },
        }
    }
}

/// The surface form of a pair of parts.
pub open spec fn parts_text(z: u32, k: u32) -> Seq<char> {
    let zs = if z != 0 {
        seq!['Z'] + decimal_text(z as nat)
    } else {
        Seq::empty()
    };
    let ks = if k != 0 {
        seq!['K'] + decimal_text(k as nat)
    } else {
        Seq::empty()
    };
    zs + ks
}

/// What `from_u32s` makes of two optional parts.
pub open spec fn parts_from_options(z: Option<u32>, k: Option<u32>) -> Result<
    (u32, u32),
    KeyIndexParseError,
> {
    if z is None && k is None {
        Err(KeyIndexParseError::ZAndKUndefined)
    } else if z == Some(0u32) {
        Err(KeyIndexParseError::PartZZero)
    } else if k == Some(0u32) {
        Err(KeyIndexParseError::PartKZero)
    } else {
        Ok(
            (
                match z {
                    Some(n) => n,
                    None => 0u32,
                },
                match k {
                    Some(n) => n,
                    None => 0u32,
                },
            ),
        )
    }
}

/// The first position at or after `from` that holds no digit.
fn scan_digits(text: &str, from: usize, n: usize) -> (end: usize)
    requires
        from <= n,
        n == text@.len(),
    ensures
        from <= end <= n,
        forall|j: int| from <= j < end ==> is_digit(#[trigger] text@[j]),
        end < n ==> !is_digit(text@[end as int]),
{
    let mut i: usize = from;
    while i < n
        invariant
            from <= i <= n,
            n == text@.len(),
            forall|j: int| from <= j < i ==> is_digit(#[trigger] text@[j]),
        decreases n - i,
    {
        let c = text.get_char(i);
        if !('0' <= c && c <= '9') {
            return i;
        }
        i += 1;
    }
    i
}

/// Reads a text as a pair of parts.
pub fn read_parts(text: &str) -> (r: Result<(u32, u32), KeyIndexParseError>)
    ensures
        r == parse_parts(text@),
{
    let ghost s = text@;
    let n = text.unicode_len();
    if n == 0 {
        return Err(KeyIndexParseError::ZAndKUndefined);
    }
    proof {
        lemma_first_k(s);
    }
    let c0 = text.get_char(0);
    let mut z: u32 = 0;
    let mut i: usize = 0;
    if c0 != 'K' {
        assert(first_k(s) > 0);
        if c0 != 'Z' {
            return Err(KeyIndexParseError::FirstNotZOrK);
        }
        i = scan_digits(text, 1, n);
        if i < n && text.get_char(i) != 'K' {
            proof {
                let f = first_k(s);
                assert(f > i) by {
                    if f <= i {
                        if f >= 1 {
                            assert(is_digit(s[f]));
                        }
                    }
                }
                assert(s.subrange(1, f)[i - 1] == s[i as int]);
                assert(!all_digits(s.subrange(1, f)));
            }
            return Err(KeyIndexParseError::CantParseZ);
        }
        proof {
            assert forall|j: int| 0 <= j < i implies s[j] != 'K' by {
                if j >= 1 {
                    assert(is_digit(s[j]));
                }
            }
            lemma_first_k_is(s, i as int);
        }
        match read_number(text, 1, i) {
            None => {
                return Err(KeyIndexParseError::CantParseZ);
            },
            Some(v) => {
                z = v;
            },
        }
    } else {
        assert(first_k(s) == 0);
    }
    assert(first_k(s) == i);
    if i == n {
        if z == 0 {
            return Err(KeyIndexParseError::PartZZero);
        }
        return Ok((z, 0));
    }
    let start = i + 1;
    let ghost rest = s.subrange(i + 1, s.len() as int);
    let j = scan_digits(text, start, n);
    proof {
        lemma_first_k(rest);
        assert forall|m: int| 0 <= m < j - start implies is_digit(#[trigger] rest[m]) by {
            assert(rest[m] == s[start + m]);
        }
    }
    if j < n && text.get_char(j) != 'K' {
        proof {
            let f = first_k(rest);
            assert(rest[j - start] == s[j as int]);
            assert(f > j - start) by {
                if f <= j - start {
                    assert(is_digit(rest[f]));
                }
            }
            assert(rest.subrange(0, f)[j - start] == s[j as int]);
            assert(!all_digits(rest.subrange(0, f)));
        }
        return Err(KeyIndexParseError::CantParseK);
    }
    proof {
        if j < n {
            assert(rest[j - start] == s[j as int]);
        }
        lemma_first_k_is(rest, j - start);
        assert(rest.subrange(0, j - start) =~= s.subrange(start as int, j as int));
    }
    match read_number(text, start, j) {
        None => Err(KeyIndexParseError::CantParseK),
        Some(k) => {
            if j < n {
                Err(KeyIndexParseError::FirstNotZOrK)
            } else if i > 0 && z == 0 {
                Err(KeyIndexParseError::PartZZero)
            } else if k == 0 {
                Err(KeyIndexParseError::PartKZero)
            } else {
                Ok((z, k))
            }
        },
    }
}

/// Writes a pair of parts in its surface form.
pub fn write_parts(z: u32, k: u32) -> (r: String)
    ensures
        r@ == parts_text(z, k),
{
    let mut s = String::new();
    if z != 0 {
        push_char(&mut s, 'Z');
        push_decimal(&mut s, z);
    }
    if k != 0 {
        push_char(&mut s, 'K');
        push_decimal(&mut s, k);
    }
    assert(s@ =~= parts_text(z, k));
    s
}

impl KeyIndex {
    /// At least one part is present.
    pub open spec fn wf(self) -> bool {
        self.z != 0 || self.k != 0
    }

    pub open spec fn z_part(self) -> Option<u32> {
        if self.z == 0 {
            None
        } else {
            Some(self.z)
        }
    }

    pub open spec fn k_part(self) -> Option<u32> {
        if self.k == 0 {
            None
        } else {
            Some(self.k)
        }
    }

    /// The surface form: `Z<n>`, `Z<n>K<m>` or `K<m>`.
    pub open spec fn text(self) -> Seq<char> {
        parts_text(self.z, self.k)
    }

    /// What a text denotes, or why it denotes no key.
    pub open spec fn parse(s: Seq<char>) -> Result<KeyIndex, KeyIndexParseError> {
        match parse_parts(s) {
            Ok((z, k)) => Ok(KeyIndex { z, k }),
            Err(e) => Err(e),
        }
    }

    pub fn get_z(&self) -> (r: Option<u32>)
        ensures
            r == self.z_part(),
    {
        if self.z == 0 {
            None
        } else {
            Some(self.z)
        }
    }

    pub fn get_k(&self) -> (r: Option<u32>)
        ensures
            r == self.k_part(),
    {
        if self.k == 0 {
            None
        } else {
            Some(self.k)
        }
    }

    pub fn from_str(text: &str) -> (r: Result<Self, KeyIndexParseError>)
        ensures
            r == Self::parse(text@),
            r matches Ok(key) ==> key.wf(),
    {
        match read_parts(text) {
            Ok((z, k)) => Ok(KeyIndex { z, k }),
            Err(e) => Err(e),
        }
    }

    pub fn from_u32s(z: Option<u32>, k: Option<u32>) -> (r: Result<Self, KeyIndexParseError>)
        ensures
            r == match parts_from_options(z, k) {
                Ok((a, b)) => Ok::<KeyIndex, KeyIndexParseError>(KeyIndex { z: a, k: b }),
                Err(e) => Err(e),
            },
            r matches Ok(key) ==> key.wf() && key.z_part() == z && key.k_part() == k,
    {
        if z.is_none() && k.is_none() {
            return Err(KeyIndexParseError::ZAndKUndefined);
        }
        let a: u32 = match z {
            Some(n) => {
                if n == 0 {
                    return Err(KeyIndexParseError::PartZZero);
                }
                n
            },
            None => 0,
        };
        let b: u32 = match k {
            Some(n) => {
                if n == 0 {
                    return Err(KeyIndexParseError::PartKZero);
                }
                n
            },
            None => 0,
        };
        Ok(KeyIndex { z: a, k: b })
    }

    /// The key of parts that are known to be valid.
    pub fn from_u32s_panic(z: Option<u32>, k: Option<u32>) -> (r: Self)
        requires
            z is Some || k is Some,
            z != Some(0u32),
            k != Some(0u32),
        ensures
            r.wf(),
            r.z_part() == z,
            r.k_part() == k,
    {
        KeyIndex {
            z: match z {
                Some(n) => n,
                None => 0,
            },
            k: match k {
                Some(n) => n,
                None => 0,
            },
        }
    }

    pub fn to_string(&self) -> (r: String)
        ensures
            r@ == self.text(),
    {
        write_parts(self.z, self.k)
    }
}


/// The key `Z<z>K<k>`; a part that is 0 is absent.
pub fn key_at(z: u32, k: u32) -> (r: KeyIndex)
    ensures
        r == (KeyIndex { z, k }),
{
    KeyIndex { z, k }
}

proof fn lemma_digits_hold_no_k(s: Seq<char>)
    requires
        all_digits(s),
    ensures
        first_k(s) == s.len(),
{
    assert forall|j: int| 0 <= j < s.len() implies s[j] != 'K' by {
        assert(is_digit(s[j]));
    }
    lemma_first_k_is(s, s.len() as int);
}

/// The surface form of a pair of parts reads back as that pair.
pub proof fn lemma_text_round_trip(z: u32, k: u32)
    requires
        z != 0 || k != 0,
    ensures
        parse_parts(parts_text(z, k)) == Ok::<(u32, u32), KeyIndexParseError>((z, k)),
{
    let zd = decimal_text(z as nat);
    let kd = decimal_text(k as nat);
    lemma_decimal_text_digits(z as nat);
    lemma_decimal_text_digits(k as nat);
    let text = parts_text(z, k);
    let zs = if z != 0 {
        seq!['Z'] + zd
    } else {
        Seq::empty()
    };
    let ks = if k != 0 {
        seq!['K'] + kd
    } else {
        Seq::empty()
    };
    assert(text == zs + ks);
    let i = zs.len() as int;
    assert forall|j: int| 0 <= j < i implies text[j] != 'K' by {
        if j >= 1 {
            assert(text[j] == zd[j - 1]);
            assert(is_digit(zd[j - 1]));
        }
    }
    if k != 0 {
        assert(text[i] == 'K');
    }
    lemma_first_k_is(text, i);
    if z != 0 {
        assert(text.subrange(1, i) =~= zd);
        assert(decimal_value(zd) == z);
    }
    if k != 0 {
        let rest = text.subrange(i + 1, text.len() as int);
        assert(rest =~= kd);
        lemma_digits_hold_no_k(rest);
        assert(rest.subrange(0, rest.len() as int) =~= rest);
        assert(decimal_value(kd) == k);
    }
}

} // verus!
