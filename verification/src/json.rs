//! A JSON document model.
//!
//! The envelopes that the page and data routes produce are JSON objects with
//! a fixed shape. `JsonVal` is the executable document; object members keep
//! the order in which they were inserted. `JsonV` is its mathematical value,
//! with every string a sequence of characters, and is what contracts speak
//! of.

use vstd::prelude::*;

verus! {

broadcast use vstd::std_specs::vec::group_vec_axioms, vstd::seq::group_seq_axioms;

/// Mathematical value of a JSON document.
#[verifier::ext_equal]
pub enum JsonV {
    Null,
    Bool(bool),
    Int(i64),
    Str(Seq<char>),
    Arr(Seq<JsonV>),
    Obj(Seq<(Seq<char>, JsonV)>),
}

/// Executable JSON document; object members keep their insertion order.
#[derive(Debug, PartialEq, Eq)]
pub enum JsonVal {
    Null,
    Bool(bool),
    Int(i64),
    Str(String),
    Arr(Vec<JsonVal>),
    Obj(Vec<(String, JsonVal)>),
}

impl View for JsonVal {
    type V = JsonV;

    open spec fn view(&self) -> JsonV
        decreases self,
    {
        match self {
            JsonVal::Null => JsonV::Null,
            JsonVal::Bool(b) => JsonV::Bool(*b),
            JsonVal::Int(i) => JsonV::Int(*i),
            JsonVal::Str(s) => JsonV::Str(s@),
            JsonVal::Arr(items) => JsonV::Arr(
                Seq::new(
                    items@.len(),
                    |i: int| if 0 <= i < items@.len() { items@[i]@ } else { JsonV::Null },
                ),
            ),
            JsonVal::Obj(members) => JsonV::Obj(
                Seq::new(
                    members@.len(),
                    |i: int|
                        if 0 <= i < members@.len() {
                            (members@[i].0@, members@[i].1@)
                        } else {
                            (Seq::empty(), JsonV::Null)
                        },
                ),
            ),
        }
    }
}

/// First value bound to `key` in an object member list, if any.
pub open spec fn obj_get(members: Seq<(Seq<char>, JsonV)>, key: Seq<char>) -> Option<JsonV>
    decreases members.len(),
{
    if members.len() == 0 {
        None
    } else if members[0].0 == key {
        Some(members[0].1)
    } else {
        obj_get(members.skip(1), key)
    }
}

/// Value bound to `key` when the document is an object, if any.
pub open spec fn get_field(j: JsonV, key: Seq<char>) -> Option<JsonV> {
    match j {
        JsonV::Obj(members) => obj_get(members, key),
        _ => None,
    }
}

/// The empty JSON object.
pub fn empty_obj() -> (r: JsonVal)
    ensures
        r@ == JsonV::Obj(Seq::<(Seq<char>, JsonV)>::empty()),
{
    let r = JsonVal::Obj(Vec::new());
    proof {
        assert(r@ is Obj);
        assert(r@->Obj_0 =~= Seq::<(Seq<char>, JsonV)>::empty());
    }
    r
}

/// The empty JSON array.
pub fn empty_arr() -> (r: JsonVal)
    ensures
        r@ == JsonV::Arr(Seq::<JsonV>::empty()),
{
    let r = JsonVal::Arr(Vec::new());
    proof {
        assert(r@ is Arr);
        assert(r@->Arr_0 =~= Seq::<JsonV>::empty());
    }
    r
}

/// A JSON string copied from `s`.
pub fn jstr(s: &str) -> (r: JsonVal)
    ensures
        r@ == JsonV::Str(s@),
{
    JsonVal::Str(s.to_owned())
}

/// An object of one member.
pub fn obj1(k1: &str, v1: JsonVal) -> (r: JsonVal)
    ensures
        r@ == JsonV::Obj(seq![(k1@, v1@)]),
{
    let ghost gv1 = v1@;
    let mut m: Vec<(String, JsonVal)> = Vec::new();
    m.push((k1.to_owned(), v1));
    let r = JsonVal::Obj(m);
    proof {
        assert(r@ is Obj);
        assert(r@->Obj_0 =~~= seq![(k1@, gv1)]);
    }
    r
}

/// An object of two members, in order.
pub fn obj2(k1: &str, v1: JsonVal, k2: &str, v2: JsonVal) -> (r: JsonVal)
    ensures
        r@ == JsonV::Obj(seq![(k1@, v1@), (k2@, v2@)]),
{
    let ghost g = seq![(k1@, v1@), (k2@, v2@)];
    let mut m: Vec<(String, JsonVal)> = Vec::new();
    m.push((k1.to_owned(), v1));
    m.push((k2.to_owned(), v2));
    let r = JsonVal::Obj(m);
    proof {
        assert(r@ is Obj);
        assert(r@->Obj_0 =~~= g);
    }
    r
}

/// An object of three members, in order.
pub fn obj3(k1: &str, v1: JsonVal, k2: &str, v2: JsonVal, k3: &str, v3: JsonVal) -> (r: JsonVal)
    ensures
        r@ == JsonV::Obj(seq![(k1@, v1@), (k2@, v2@), (k3@, v3@)]),
{
    let ghost g = seq![(k1@, v1@), (k2@, v2@), (k3@, v3@)];
    let mut m: Vec<(String, JsonVal)> = Vec::new();
    m.push((k1.to_owned(), v1));
    m.push((k2.to_owned(), v2));
    m.push((k3.to_owned(), v3));
    let r = JsonVal::Obj(m);
    proof {
        assert(r@ is Obj);
        assert(r@->Obj_0 =~~= g);
    }
    r
}

/// An object of four members, in order.
pub fn obj4(
    k1: &str,
    v1: JsonVal,
    k2: &str,
    v2: JsonVal,
    k3: &str,
    v3: JsonVal,
    k4: &str,
    v4: JsonVal,
) -> (r: JsonVal)
    ensures
        r@ == JsonV::Obj(seq![(k1@, v1@), (k2@, v2@), (k3@, v3@), (k4@, v4@)]),
{
    let ghost g = seq![(k1@, v1@), (k2@, v2@), (k3@, v3@), (k4@, v4@)];
    let mut m: Vec<(String, JsonVal)> = Vec::new();
    m.push((k1.to_owned(), v1));
    m.push((k2.to_owned(), v2));
    m.push((k3.to_owned(), v3));
    m.push((k4.to_owned(), v4));
    let r = JsonVal::Obj(m);
    proof {
        assert(r@ is Obj);
        assert(r@->Obj_0 =~~= g);
    }
    r
}

/// An object of six members, in order.
pub fn obj6(
    k1: &str,
    v1: JsonVal,
    k2: &str,
    v2: JsonVal,
    k3: &str,
    v3: JsonVal,
    k4: &str,
    v4: JsonVal,
    k5: &str,
    v5: JsonVal,
    k6: &str,
    v6: JsonVal,
) -> (r: JsonVal)
    ensures
        r@ == JsonV::Obj(
            seq![(k1@, v1@), (k2@, v2@), (k3@, v3@), (k4@, v4@), (k5@, v5@), (k6@, v6@)],
        ),
{
    let ghost g = seq![(k1@, v1@), (k2@, v2@), (k3@, v3@), (k4@, v4@), (k5@, v5@), (k6@, v6@)];
    let mut m: Vec<(String, JsonVal)> = Vec::new();
    m.push((k1.to_owned(), v1));
    m.push((k2.to_owned(), v2));
    m.push((k3.to_owned(), v3));
    m.push((k4.to_owned(), v4));
    m.push((k5.to_owned(), v5));
    m.push((k6.to_owned(), v6));
    let r = JsonVal::Obj(m);
    proof {
        assert(r@ is Obj);
        assert(r@->Obj_0 =~~= g);
    }
    r
}

/// An object of seven members, in order.
pub fn obj7(
    k1: &str,
    v1: JsonVal,
    k2: &str,
    v2: JsonVal,
    k3: &str,
    v3: JsonVal,
    k4: &str,
    v4: JsonVal,
    k5: &str,
    v5: JsonVal,
    k6: &str,
    v6: JsonVal,
    k7: &str,
    v7: JsonVal,
) -> (r: JsonVal)
    ensures
        r@ == JsonV::Obj(
            seq![
                (k1@, v1@),
                (k2@, v2@),
                (k3@, v3@),
                (k4@, v4@),
                (k5@, v5@),
                (k6@, v6@),
                (k7@, v7@),
            ],
        ),
{
    let ghost g = seq![
        (k1@, v1@),
        (k2@, v2@),
        (k3@, v3@),
        (k4@, v4@),
        (k5@, v5@),
        (k6@, v6@),
        (k7@, v7@),
    ];
    let mut m: Vec<(String, JsonVal)> = Vec::new();
    m.push((k1.to_owned(), v1));
    m.push((k2.to_owned(), v2));
    m.push((k3.to_owned(), v3));
    m.push((k4.to_owned(), v4));
    m.push((k5.to_owned(), v5));
    m.push((k6.to_owned(), v6));
    m.push((k7.to_owned(), v7));
    let r = JsonVal::Obj(m);
    proof {
        assert(r@ is Obj);
        assert(r@->Obj_0 =~~= g);
    }
    r
}

/// An object of eight members, in order.
pub fn obj8(
    k1: &str,
    v1: JsonVal,
    k2: &str,
    v2: JsonVal,
    k3: &str,
    v3: JsonVal,
    k4: &str,
    v4: JsonVal,
    k5: &str,
    v5: JsonVal,
    k6: &str,
    v6: JsonVal,
    k7: &str,
    v7: JsonVal,
    k8: &str,
    v8: JsonVal,
) -> (r: JsonVal)
    ensures
        r@ == JsonV::Obj(
            seq![
                (k1@, v1@),
                (k2@, v2@),
                (k3@, v3@),
                (k4@, v4@),
                (k5@, v5@),
                (k6@, v6@),
                (k7@, v7@),
                (k8@, v8@),
            ],
        ),
{
    let ghost g = seq![
        (k1@, v1@),
        (k2@, v2@),
        (k3@, v3@),
        (k4@, v4@),
        (k5@, v5@),
        (k6@, v6@),
        (k7@, v7@),
        (k8@, v8@),
    ];
    let mut m: Vec<(String, JsonVal)> = Vec::new();
    m.push((k1.to_owned(), v1));
    m.push((k2.to_owned(), v2));
    m.push((k3.to_owned(), v3));
    m.push((k4.to_owned(), v4));
    m.push((k5.to_owned(), v5));
    m.push((k6.to_owned(), v6));
    m.push((k7.to_owned(), v7));
    m.push((k8.to_owned(), v8));
    let r = JsonVal::Obj(m);
    proof {
        assert(r@ is Obj);
        assert(r@->Obj_0 =~~= g);
    }
    r
}

/// The object whose members are `pairs`, each value a JSON string.
pub fn obj_of_strings(pairs: &Vec<(String, String)>) -> (r: JsonVal)
    ensures
        r@ == JsonV::Obj(string_pairs_view(pairs@)),
{
    let mut m: Vec<(String, JsonVal)> = Vec::new();
    let mut i: usize = 0;
    while i < pairs.len()
        invariant
            i <= pairs.len(),
            m.len() == i,
            forall|j: int|
                0 <= j < i ==> m[j].0 == pairs[j].0 && m[j].1 == JsonVal::Str(pairs[j].1),
        decreases pairs.len() - i,
    {
        m.push((pairs[i].0.clone(), JsonVal::Str(pairs[i].1.clone())));
        i = i + 1;
    }
    let ghost gm = m@;
    let r = JsonVal::Obj(m);
    proof {
        assert(r@ is Obj);
        reveal_with_fuel(<JsonVal as View>::view, 3);
        assert forall|k: int| 0 <= k < pairs@.len() implies r@->Obj_0[k]
            == string_pairs_view(pairs@)[k] by {
            assert(gm[k].1 == JsonVal::Str(pairs@[k].1));
            assert(gm[k].1@ == JsonV::Str(pairs@[k].1@));
        }
        assert(r@->Obj_0 =~= string_pairs_view(pairs@));
    }
    r
}

/// Members of an object whose values are the given strings, in order.
pub open spec fn string_pairs_view(pairs: Seq<(String, String)>) -> Seq<(Seq<char>, JsonV)> {
    Seq::new(pairs.len(), |i: int| (pairs[i].0@, JsonV::Str(pairs[i].1@)))
}

} // verus!
