//! A generic JSON-compatible value tree and its mathematical model.
//!
//! Both the JSON and the YAML wire formats decode into this one tree shape,
//! so everything downstream of the byte-level parser works on a single type.

use vstd::prelude::*;

verus! {

/// A JSON-compatible value tree.
///
/// Numbers carry their decimal literal text, so no precision is lost and
/// values round-trip exactly. Objects are ordered association lists: entry
/// order is the order the keys appeared in the encoded document.
#[derive(Debug)]
pub enum Any {
    Null,
    Bool(bool),
    Number(String),
    Text(String),
    Array(Vec<Any>),
    Object(Vec<(String, Any)>),
}

/// The mathematical model of a [`Any`]: the same tree over `Seq<char>`
/// and `Seq`, so that specifications can build and compare trees freely.
#[verifier::ext_equal]
pub enum ValS {
    Null,
    Bool(bool),
    Num(Seq<char>),
    Str(Seq<char>),
    Arr(Seq<ValS>),
    Obj(Seq<(Seq<char>, ValS)>),
}

/// The model of a value: strings become their character sequences.
pub open spec fn view_val(v: Any) -> ValS
    decreases v,
{
    match v {
        Any::Null => ValS::Null,
        Any::Bool(b) => ValS::Bool(b),
        Any::Number(n) => ValS::Num(n@),
        Any::Text(s) => ValS::Str(s@),
        Any::Array(a) => ValS::Arr(view_vals(a@)),
        Any::Object(o) => ValS::Obj(view_entries(o@)),
    }
}

/// The models of the elements of a list of values, in order.
pub open spec fn view_vals(s: Seq<Any>) -> Seq<ValS>
    decreases s,
{
    if s.len() == 0 {
        Seq::empty()
    } else {
        seq![view_val(s[0])] + view_vals(s.skip(1))
    }
}

/// The models of the entries of an object, in order.
pub open spec fn view_entries(s: Seq<(String, Any)>) -> Seq<(Seq<char>, ValS)>
    decreases s,
{
    if s.len() == 0 {
        Seq::empty()
    } else {
        seq![(s[0].0@, view_val(s[0].1))] + view_entries(s.skip(1))
    }
}

impl View for Any {
    type V = ValS;

    open spec fn view(&self) -> ValS {
        view_val(*self)
    }
}

impl DeepView for Any {
    type V = ValS;

    open spec fn deep_view(&self) -> ValS {
        view_val(*self)
    }
}

/// `view_vals` maps the list elementwise.
pub proof fn lemma_view_vals(s: Seq<Any>)
    ensures
        view_vals(s).len() == s.len(),
        forall|i: int| 0 <= i < s.len() ==> view_vals(s)[i] == view_val(s[i]),
    decreases s,
{
    if s.len() > 0 {
        lemma_view_vals(s.skip(1));
    }
}

/// `view_entries` maps the entry list elementwise.
pub proof fn lemma_view_entries(s: Seq<(String, Any)>)
    ensures
        view_entries(s).len() == s.len(),
        forall|i: int| 0 <= i < s.len() ==> view_entries(s)[i] == (s[i].0@, view_val(
            s[i].1,
        )),
    decreases s,
{
    if s.len() > 0 {
        lemma_view_entries(s.skip(1));
    }
}

/// The value under the first entry of `es` whose key is `k`, if any.
pub open spec fn lookup(es: Seq<(Seq<char>, ValS)>, k: Seq<char>) -> Option<ValS>
    decreases es.len(),
{
    if es.len() == 0 {
        None
    } else if es[0].0 == k {
        Some(es[0].1)
    } else {
        lookup(es.skip(1), k)
    }
}

impl Clone for Any {
    /// An exact structural copy of the tree.
    fn clone(&self) -> (res: Self)
        ensures
            res@ == self@,
        decreases self,
    {
        match self {
            Any::Null => Any::Null,
            Any::Bool(b) => Any::Bool(*b),
            Any::Number(n) => Any::Number(n.clone()),
            Any::Text(s) => Any::Text(s.clone()),
            Any::Array(a) => {
                let c = clone_values(a);
                proof {
                    lemma_view_vals(a@);
                    lemma_view_vals(c@);
                    assert(view_vals(c@) =~= view_vals(a@));
                }
                Any::Array(c)
            },
            Any::Object(o) => {
                let c = clone_entries(o);
                proof {
                    lemma_view_entries(o@);
                    lemma_view_entries(c@);
                    assert(view_entries(c@) =~= view_entries(o@));
                }
                Any::Object(c)
            },
        }
    }
}

/// An elementwise copy of a list of values; the models agree index by index.
fn clone_values(a: &Vec<Any>) -> (res: Vec<Any>)
    ensures
        res@.len() == a@.len(),
        forall|i: int| 0 <= i < a@.len() ==> view_val(res@[i]) == view_val(a@[i]),
    decreases a,
{
    let mut out: Vec<Any> = Vec::new();
    let mut i: usize = 0;
    while i < a.len()
        invariant
            i <= a.len(),
            out@.len() == i,
            forall|j: int| 0 <= j < i ==> view_val(out@[j]) == view_val(a@[j]),
        decreases a.len() - i,
    {
        out.push(a[i].clone());
        i += 1;
    }
    out
}

/// An elementwise copy of object entries; keys and models agree index by index.
fn clone_entries(o: &Vec<(String, Any)>) -> (res: Vec<(String, Any)>)
    ensures
        res@.len() == o@.len(),
        forall|i: int| 0 <= i < o@.len() ==> res@[i].0@ == o@[i].0@ && view_val(
            res@[i].1,
        ) == view_val(o@[i].1),
    decreases o,
{
    let mut out: Vec<(String, Any)> = Vec::new();
    let mut i: usize = 0;
    while i < o.len()
        invariant
            i <= o.len(),
            out@.len() == i,
            forall|j: int| 0 <= j < i ==> out@[j].0@ == o@[j].0@ && view_val(out@[j].1)
                == view_val(o@[j].1),
        decreases o.len() - i,
    {
        let (k, v) = &o[i];
        out.push((k.clone(), v.clone()));
        i += 1;
    }
    out
}

/// A borrow of the value under the first entry of `es` whose key is `key`.
pub fn get_entry<'a>(es: &'a Vec<(String, Any)>, key: &str) -> (r: Option<&'a Any>)
    ensures
        match r {
            Some(v) => lookup(view_entries(es@), key@) == Some(v@),
            None => lookup(view_entries(es@), key@) is None,
        },
{
    proof {
        lemma_view_entries(es@);
    }
    let ghost evs = view_entries(es@);
    let needle: String = key.to_owned();
    let mut i: usize = 0;
    proof {
        assert(evs.skip(0) =~= evs);
    }
    while i < es.len()
        invariant
            i <= es.len(),
            needle@ == key@,
            evs == view_entries(es@),
            evs.len() == es@.len(),
            forall|j: int| 0 <= j < es@.len() ==> evs[j] == (es@[j].0@, view_val(
                es@[j].1,
            )),
            lookup(evs, key@) == lookup(evs.skip(i as int), key@),
        decreases es.len() - i,
    {
        proof {
            assert(evs.skip(i as int)[0] == evs[i as int]);
        }
        if es[i].0 == needle {
            return Some(&es[i].1);
        }
        proof {
            assert(evs.skip(i as int).skip(1) =~= evs.skip(i as int + 1));
        }
        i += 1;
    }
    proof {
        assert(evs.skip(es@.len() as int) =~= Seq::<(Seq<char>, ValS)>::empty());
    }
    None
}

} // verus!
