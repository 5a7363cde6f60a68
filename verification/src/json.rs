//! A structured value type for operation parameters and payloads, with a
//! mathematical view used by every contract in the crate.

use vstd::prelude::*;

verus! {

/// Mathematical model of a structured value: strings are character
/// sequences, integers are unbounded, and containers are sequences.
pub enum JVal {
    Null,
    Bool(bool),
    Int(int),
    Str(Seq<char>),
    Arr(Seq<JVal>),
    Obj(Seq<(Seq<char>, JVal)>),
}

/// A structured parameter or payload value. Object members keep their
/// order; a lookup takes the first member with a matching key.
#[derive(Debug, PartialEq)]
pub enum JsonVal {
    Null,
    Bool(bool),
    Int(i64),
    Str(String),
    Arr(Vec<JsonVal>),
    Obj(Vec<(String, JsonVal)>),
}

/// The model of an array's elements.
pub open spec fn arr_view(s: Seq<JsonVal>) -> Seq<JVal>
    decreases s,
{
    Seq::new(
        s.len(),
        |i: int|
            if 0 <= i < s.len() {
                jval(s[i])
            } else {
                JVal::Null
            },
    )
}

/// The model of an object's members.
pub open spec fn entries_view(s: Seq<(String, JsonVal)>) -> Seq<(Seq<char>, JVal)>
    decreases s,
{
    Seq::new(
        s.len(),
        |i: int|
            if 0 <= i < s.len() {
                (s[i].0@, jval(s[i].1))
            } else {
                (Seq::empty(), JVal::Null)
            },
    )
}

/// The model of a value: everything it holds, down to the leaves.
pub open spec fn jval(v: JsonVal) -> JVal
    decreases v,
{
    match v {
        JsonVal::Null => JVal::Null,
        JsonVal::Bool(b) => JVal::Bool(b),
        JsonVal::Int(i) => JVal::Int(i as int),
        JsonVal::Str(s) => JVal::Str(s@),
        JsonVal::Arr(vs) => JVal::Arr(arr_view(vs@)),
        JsonVal::Obj(es) => JVal::Obj(entries_view(es@)),
    }
}

impl View for JsonVal {
    type V = JVal;

    open spec fn view(&self) -> JVal {
        jval(*self)
    }
}

/// The first member of `es` whose key is `k`, if any.
pub open spec fn lookup_seq(es: Seq<(Seq<char>, JVal)>, k: Seq<char>) -> Option<JVal>
    decreases es.len(),
{
    if es.len() == 0 {
        None
    } else if es[0].0 == k {
        Some(es[0].1)
    } else {
        lookup_seq(es.drop_first(), k)
    }
}

/// The member named `k` of `p`, if `p` is an object that has one.
pub open spec fn jval_get(p: JVal, k: Seq<char>) -> Option<JVal> {
    match p {
        JVal::Obj(es) => lookup_seq(es, k),
        _ => None,
    }
}

/// The string member named `k` of `p`, if it is one.
pub open spec fn get_str(p: JVal, k: Seq<char>) -> Option<Seq<char>> {
    match jval_get(p, k) {
        Some(JVal::Str(s)) => Some(s),
        _ => None,
    }
}

/// The integer member named `k` of `p`, if it is one.
pub open spec fn get_int(p: JVal, k: Seq<char>) -> Option<int> {
    match jval_get(p, k) {
        Some(JVal::Int(i)) => Some(i),
        _ => None,
    }
}

/// The array member named `k` of `p`, or an empty one if absent or not an
/// array.
pub open spec fn get_arr_or_empty(p: JVal, k: Seq<char>) -> Seq<JVal> {
    match jval_get(p, k) {
        Some(JVal::Arr(vs)) => vs,
        _ => Seq::empty(),
    }
}

/// The object member named `k` of `p`, or an empty one if absent or not an
/// object.
pub open spec fn get_obj_or_empty(p: JVal, k: Seq<char>) -> Seq<(Seq<char>, JVal)> {
    match jval_get(p, k) {
        Some(JVal::Obj(es)) => es,
        _ => Seq::empty(),
    }
}

/// Character-wise string comparison.
pub fn str_eq(a: &str, b: &str) -> (r: bool)
    ensures
        r == (a@ == b@),
{
    let alen = a.unicode_len();
    let blen = b.unicode_len();
    if alen != blen {
        return false;
    }
    let mut i: usize = 0;
    while i < alen
        invariant
            alen == a@.len(),
            alen == b@.len(),
            i <= alen,
            forall|j: int| 0 <= j < i ==> a@[j] == b@[j],
        decreases alen - i,
    {
        if a.get_char(i) != b.get_char(i) {
            return false;
        }
        i += 1;
    }
    proof {
        assert(a@ =~= b@);
    }
    true
}

/// The first member of `es` whose key is `key`, if any.
pub fn obj_lookup<'a>(es: &'a Vec<(String, JsonVal)>, key: &str) -> (r: Option<&'a JsonVal>)
    ensures
        match r {
            Some(v) => lookup_seq(entries_view(es@), key@) == Some(jval(*v)),
            None => lookup_seq(entries_view(es@), key@) is None,
        },
{
    let ghost full = entries_view(es@);
    proof {
        assert(full.skip(0) =~= full);
    }
    let mut i: usize = 0;
    while i < es.len()
        invariant
            i <= es@.len(),
            full == entries_view(es@),
            lookup_seq(full.skip(i as int), key@) == lookup_seq(full, key@),
        decreases es@.len() - i,
    {
        proof {
            assert(full.skip(i as int)[0] == full[i as int]);
        }
        if str_eq(es[i].0.as_str(), key) {
            return Some(&es[i].1);
        }
        proof {
            assert(full.skip(i as int).drop_first() =~= full.skip(i + 1));
        }
        i += 1;
    }
    proof {
        assert(full.skip(es@.len() as int) =~= Seq::empty());
    }
    None
}

/// The member named `key` of `p`, if `p` is an object that has one.
pub fn jval_lookup<'a>(p: &'a JsonVal, key: &str) -> (r: Option<&'a JsonVal>)
    ensures
        match r {
            Some(v) => jval_get(p@, key@) == Some(jval(*v)),
            None => jval_get(p@, key@) is None,
        },
{
    match p {
        JsonVal::Obj(es) => obj_lookup(es, key),
        _ => None,
    }
}

/// The string member named `key` of `p`, if it is one.
pub fn lookup_str<'a>(p: &'a JsonVal, key: &str) -> (r: Option<&'a String>)
    ensures
        match r {
            Some(s) => get_str(p@, key@) == Some(s@),
            None => get_str(p@, key@) is None,
        },
{
    match jval_lookup(p, key) {
        Some(JsonVal::Str(s)) => Some(s),
        _ => None,
    }
}

/// The integer member named `key` of `p`, if it is one.
pub fn lookup_int(p: &JsonVal, key: &str) -> (r: Option<i64>)
    ensures
        match r {
            Some(i) => get_int(p@, key@) == Some(i as int),
            None => get_int(p@, key@) is None,
        },
{
    match jval_lookup(p, key) {
        Some(JsonVal::Int(i)) => Some(*i),
        _ => None,
    }
}

/// An exact structural copy.
#[verifier::loop_isolation(false)]
pub fn deep_clone(v: &JsonVal) -> (r: JsonVal)
    ensures
        r@ == v@,
    decreases v,
{
    match v {
        JsonVal::Null => JsonVal::Null,
        JsonVal::Bool(b) => JsonVal::Bool(*b),
        JsonVal::Int(i) => JsonVal::Int(*i),
        JsonVal::Str(s) => JsonVal::Str(s.clone()),
        JsonVal::Arr(vs) => {
            let mut out: Vec<JsonVal> = Vec::new();
            let mut i: usize = 0;
            while i < vs.len()
                invariant
                    i <= vs@.len(),
                    out@.len() == i,
                    forall|j: int| 0 <= j < i ==> jval(out@[j]) == jval(vs@[j]),
                decreases vs@.len() - i,
            {
                out.push(deep_clone(&vs[i]));
                i += 1;
            }
            proof {
                assert(arr_view(out@) =~= arr_view(vs@));
            }
            JsonVal::Arr(out)
        },
        JsonVal::Obj(es) => {
            let mut out: Vec<(String, JsonVal)> = Vec::new();
            let mut i: usize = 0;
            while i < es.len()
                invariant
                    i <= es@.len(),
                    out@.len() == i,
                    forall|j: int|
                        0 <= j < i ==> out@[j].0@ == es@[j].0@ && jval(out@[j].1) == jval(es@[j].1),
                decreases es@.len() - i,
            {
                let k = es[i].0.clone();
                let val = deep_clone(&es[i].1);
                out.push((k, val));
                i += 1;
            }
            proof {
                assert(entries_view(out@) =~= entries_view(es@));
            }
            JsonVal::Obj(out)
        },
    }
}

impl Clone for JsonVal {
    /// An exact structural copy.
    fn clone(&self) -> (r: Self)
        ensures
            r@ == self@,
    {
        deep_clone(self)
    }
}

} // verus!
