//! Every shape answers the accessors consistently.
use vstd::prelude::*;
use crate::key_index::KeyIndex;
use crate::model::{
    CallV, entry_keys, entry_position, key, keyed_args, optional_key, reference, StdTypeV, TypeV,
    Val,
};

verus! {
pub proof fn lemma_entry_position_bounds(e: Seq<(KeyIndex, Val)>, k: KeyIndex)
    ensures
        0 <= entry_position(e, k) <= e.len(),
        entry_position(e, k) < e.len() ==> e[entry_position(e, k)].0 == k,
        forall|j: int| 0 <= j < entry_position(e, k) ==> e[j].0 != k,
    decreases e.len(),
{
    if e.len() == 0 || e[0].0 == k {
    } else {
        let t = e.subrange(1, e.len() as int);
        lemma_entry_position_bounds(t, k);
        assert forall|j: int| 0 <= j < entry_position(e, k) implies e[j].0 != k by {
            if j > 0 {
                assert(e[j] == t[j - 1]);
            }
        }
    }
}

proof fn lemma_standard_type_keys(t: StdTypeV, k: KeyIndex)
    ensures
        t.get(k) is Some <==> t.keys().contains(k),
{
    let base = seq![key(1, 1), key(4, 1), key(4, 2), key(4, 3)];
    let s4 = optional_key(t.equality, key(4, 4));
    let s5 = optional_key(t.display_function, key(4, 5));
    let s6 = optional_key(t.reading_function, key(4, 6));
    let s7 = optional_key(t.type_converters_to_code, key(4, 7));
    let s8 = optional_key(t.type_converters_from_code, key(4, 8));
    let all = t.keys();
    assert(all == base + s4 + s5 + s6 + s7 + s8);
    assert forall|x: KeyIndex| all.contains(x) <==> (base.contains(x) || s4.contains(x)
        || s5.contains(x) || s6.contains(x) || s7.contains(x) || s8.contains(x)) by {
        lemma_concat_contains(base, s4, x);
        lemma_concat_contains(base + s4, s5, x);
        lemma_concat_contains(base + s4 + s5, s6, x);
        lemma_concat_contains(base + s4 + s5 + s6, s7, x);
        lemma_concat_contains(base + s4 + s5 + s6 + s7, s8, x);
    }
    assert(base.contains(k) <==> (k == key(1, 1) || k == key(4, 1) || k == key(4, 2) || k == key(
        4,
        3,
    ))) by {
        assert(base[0] == key(1, 1) && base[1] == key(4, 1) && base[2] == key(4, 2) && base[3]
            == key(4, 3));
    }
    lemma_optional_key(t.equality, key(4, 4), k);
    lemma_optional_key(t.display_function, key(4, 5), k);
    lemma_optional_key(t.reading_function, key(4, 6), k);
    lemma_optional_key(t.type_converters_to_code, key(4, 7), k);
    lemma_optional_key(t.type_converters_from_code, key(4, 8), k);
}

proof fn lemma_optional_key(slot: Option<Val>, at: KeyIndex, k: KeyIndex)
    ensures
        optional_key(slot, at).contains(k) <==> (slot is Some && k == at),
{
    if slot is Some {
        assert(optional_key(slot, at)[0] == at);
    }
}

proof fn lemma_concat_contains(a: Seq<KeyIndex>, b: Seq<KeyIndex>, x: KeyIndex)
    ensures
        (a + b).contains(x) <==> (a.contains(x) || b.contains(x)),
{
    if a.contains(x) {
        let i = choose|i: int| 0 <= i < a.len() && a[i] == x;
        assert((a + b)[i] == x);
    }
    if b.contains(x) {
        let i = choose|i: int| 0 <= i < b.len() && b[i] == x;
        assert((a + b)[a.len() + i] == x);
    }
    if (a + b).contains(x) {
        let i = choose|i: int| 0 <= i < (a + b).len() && (a + b)[i] == x;
        if i < a.len() {
            assert(a[i] == x);
        } else {
            assert(b[i - a.len()] == x);
        }
    }
}

proof fn lemma_call_keys(c: CallV, k: KeyIndex)
    ensures
        c.get(k) is Some <==> c.keys().contains(k),
{
    let head = seq![key(1, 1), key(7, 1)];
    let n = keyed_args(c.args.len());
    let tail = Seq::new(n, |i: int| c.arg_key(i));
    lemma_concat_contains(head, tail, k);
    assert(head.contains(k) <==> (k == key(1, 1) || k == key(7, 1))) by {
        assert(head[0] == key(1, 1) && head[1] == key(7, 1));
    }
    if k.z == c.function.identity.z && 1 <= k.k <= c.args.len() {
        assert(tail[k.k - 1] == k);
    }
    if tail.contains(k) {
        let i = choose|i: int| 0 <= i < tail.len() && tail[i] == k;
        assert(k == c.arg_key(i));
    }
}

proof fn lemma_three_keys(a: KeyIndex, b: KeyIndex, c: KeyIndex, k: KeyIndex)
    ensures
        seq![a, b, c].contains(k) <==> (k == a || k == b || k == c),
{
    let s = seq![a, b, c];
    assert(s[0] == a && s[1] == b && s[2] == c);
}

proof fn lemma_two_keys(a: KeyIndex, b: KeyIndex, k: KeyIndex)
    ensures
        seq![a, b].contains(k) <==> (k == a || k == b),
{
    let s = seq![a, b];
    assert(s[0] == a && s[1] == b);
}

/// A value holds something under a key exactly if it lists that key.
pub proof fn lemma_accessor_totality(v: Val, k: KeyIndex)
    ensures
        v.get(k) is Some <==> v.keys().contains(k),
{
    match v {
        Val::Boolean(_) => lemma_two_keys(key(1, 1), key(40, 1), k),
        Val::Reference(_) => lemma_two_keys(key(1, 1), key(9, 1), k),
        Val::Text(_) => lemma_two_keys(key(1, 1), key(6, 1), k),
        Val::ArgumentReference(_) => lemma_two_keys(key(1, 1), key(18, 1), k),
        Val::Untyped(entries) => {
            lemma_entry_position_bounds(entries, k);
            let keys = entry_keys(entries);
            let p = entry_position(entries, k);
            if p < entries.len() {
                assert(keys[p] == k);
            }
            if keys.contains(k) {
                let i = choose|i: int| 0 <= i < keys.len() && keys[i] == k;
                assert(entries[i].0 == k);
            }
        },
        Val::Type(t) => match *t {
            TypeV::Standard(s) => lemma_standard_type_keys(s, k),
            TypeV::TypedList(_) => lemma_three_keys(key(1, 1), key(7, 1), key(881, 1), k),
        },
        Val::Invalid(_) => {},
        Val::Function(f) => {
            let s = f.keys();
            assert(s[0] == key(1, 1) && s[1] == key(8, 1) && s[2] == key(8, 2) && s[3] == key(8, 3)
                && s[4] == key(8, 4) && s[5] == key(8, 5));
        },
        Val::FunctionCall(c) => lemma_call_keys(*c, k),
        Val::Implementation(i) => lemma_three_keys(key(1, 1), key(14, 1), i.kind.key_index(), k),
        Val::TestCase(t) => {
            let s = t.keys();
            assert(s[0] == key(1, 1) && s[1] == key(20, 1) && s[2] == key(20, 2) && s[3] == key(
                20,
                3,
            ));
        },
        Val::TypedList(l) => {
            if l.entries.len() == 0 {
                let s = l.keys();
                assert(s[0] == key(1, 1));
            } else {
                lemma_three_keys(key(1, 1), key(0, 1), key(0, 2), k);
            }
        },
    }
}

/// Under `Z1K1` a refined value holds a pointer to the object that is its
/// type, and it lists that key first.
pub proof fn lemma_type_slot(v: Val)
    requires
        v.type_object() is Some,
    ensures
        v.get(key(1, 1)) == Some(reference(v.type_object()->0)),
        v.keys().len() > 0,
        v.keys()[0] == key(1, 1),
{
}

/// Under its identity key a value holds a pointer to the object that it
/// is.
pub proof fn lemma_identity_reflexivity(v: Val)
    requires
        v.identity_key() is Some,
    ensures
        v.self_identity() is Some,
        v.get(v.identity_key()->0) == Some(Val::Reference(v.self_identity()->0)),
{
}

} // verus!
