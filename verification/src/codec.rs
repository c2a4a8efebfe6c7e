//! Shared machinery for encoding model entities into object values and
//! decoding them back: field emission, keyed lookup, and the primitive
//! field shapes (optional strings, numbers, booleans, string lists).
//!
//! An entity encodes as an object built from a fixed, ordered list of
//! keyword entries, each present or absent, followed by any open extension
//! entries. Decoding reads each keyword by key lookup, so the generic
//! lemmas here connect a lookup into an emitted object with the field that
//! produced the entry.

use vstd::prelude::*;

use crate::num::{dec_rep, parse_u64_spec, format_u64, parse_u64};
use crate::value::{Any, ValS, view_val, view_entries, view_vals, lookup,
    lemma_view_entries, lemma_view_vals, get_entry};

verus! {

/// Why a value failed to decode into the model.
#[derive(Clone, Copy, Debug, PartialEq, Eq, Structural)]
pub enum DecodeError {
    /// An object was required.
    ExpectedObject,
    /// An array was required.
    ExpectedArray,
    /// A string was required.
    ExpectedString,
    /// A boolean was required.
    ExpectedBool,
    /// A number was required.
    ExpectedNumber,
    /// A required field is absent.
    MissingField,
    /// A string did not name a known variant.
    UnknownVariant,
    /// A size bound was not an unsigned integer in range.
    SizeOutOfRange,
    /// The bytes are not a well-formed document in the chosen format.
    Syntax,
}

/// The `Ok` payload of `r`, deeply viewed; errors pass through.
pub open spec fn res_view<T: DeepView>(r: Result<T, DecodeError>) -> Result<
    T::V,
    DecodeError,
> {
    match r {
        Ok(t) => Ok(t.deep_view()),
        Err(e) => Err(e),
    }
}

/// Prefix a decoded tail with already-decoded elements.
pub open spec fn res_prepend<T>(pre: Seq<T>, r: Result<Seq<T>, DecodeError>) -> Result<
    Seq<T>,
    DecodeError,
> {
    match r {
        Ok(rest) => Ok(pre + rest),
        Err(e) => Err(e),
    }
}

/// Zero entries for an absent field, one entry for a present one.
pub open spec fn opt_entry(k: Seq<char>, ov: Option<ValS>) -> Seq<(Seq<char>, ValS)> {
    match ov {
        Some(v) => seq![(k, v)],
        None => Seq::empty(),
    }
}

/// The object entries for an ordered list of optional keyword fields.
pub open spec fn compact(entries: Seq<(Seq<char>, Option<ValS>)>) -> Seq<
    (Seq<char>, ValS),
>
    decreases entries.len(),
{
    if entries.len() == 0 {
        Seq::empty()
    } else {
        opt_entry(entries[0].0, entries[0].1) + compact(entries.skip(1))
    }
}

/// A lookup in `a + b` finds the entry in `a` first, then in `b`.
pub proof fn lemma_lookup_append(
    a: Seq<(Seq<char>, ValS)>,
    b: Seq<(Seq<char>, ValS)>,
    k: Seq<char>,
)
    ensures
        lookup(a + b, k) == if lookup(a, k) is Some {
            lookup(a, k)
        } else {
            lookup(b, k)
        },
    decreases a.len(),
{
    if a.len() == 0 {
        assert(a + b =~= b);
    } else {
        assert((a + b).skip(1) =~= a.skip(1) + b);
        lemma_lookup_append(a.skip(1), b, k);
    }
}

/// A lookup for a key no entry has finds nothing.
pub proof fn lemma_lookup_none(es: Seq<(Seq<char>, ValS)>, k: Seq<char>)
    requires
        forall|j: int| 0 <= j < es.len() ==> es[j].0 != k,
    ensures
        lookup(es, k) is None,
    decreases es.len(),
{
    if es.len() > 0 {
        lemma_lookup_none(es.skip(1), k);
    }
}

/// In an emitted object, the lookup for keyword `i` yields exactly what
/// field `i` emitted, provided no other keyword and no extension entry
/// shares its key.
pub proof fn lemma_lookup_compact(
    entries: Seq<(Seq<char>, Option<ValS>)>,
    ext: Seq<(Seq<char>, ValS)>,
    i: int,
)
    requires
        0 <= i < entries.len(),
        forall|j: int| 0 <= j < entries.len() && j != i ==> entries[j].0 != entries[i].0,
        forall|j: int| 0 <= j < ext.len() ==> ext[j].0 != entries[i].0,
    ensures
        lookup(compact(entries) + ext, entries[i].0) == entries[i].1,
    decreases i,
{
    let k = entries[i].0;
    if i == 0 {
        match entries[0].1 {
            Some(v) => {
                assert((compact(entries) + ext)[0] == (k, v));
            },
            None => {
                assert(compact(entries) + ext =~= compact(entries.skip(1)) + ext);
                lemma_compact_keeps_keys(entries.skip(1));
                lemma_lookup_append(compact(entries.skip(1)), ext, k);
                lemma_lookup_none(compact(entries.skip(1)), k);
                lemma_lookup_none(ext, k);
            },
        }
    } else {
        assert(entries.skip(1)[i - 1] == entries[i]);
        lemma_lookup_compact(entries.skip(1), ext, i - 1);
        match entries[0].1 {
            Some(v) => {
                let whole = seq![(entries[0].0, v)] + (compact(entries.skip(1)) + ext);
                assert(compact(entries) + ext =~= whole);
                assert(whole[0].0 == entries[0].0);
                assert(entries[0].0 != k);
                assert(whole.skip(1) =~= compact(entries.skip(1)) + ext);
                assert(lookup(whole, k) == lookup(compact(entries.skip(1)) + ext, k));
            },
            None => {
                assert(compact(entries) + ext =~= compact(entries.skip(1)) + ext);
            },
        }
    }
}

/// Every emitted entry takes its key from the field that produced it.
pub proof fn lemma_compact_keeps_keys(entries: Seq<(Seq<char>, Option<ValS>)>)
    ensures
        forall|j: int| 0 <= j < compact(entries).len() ==> exists|i: int|
            0 <= i < entries.len() && #[trigger] compact(entries)[j].0 == entries[i].0,
    decreases entries.len(),
{
    if entries.len() > 0 {
        lemma_compact_keeps_keys(entries.skip(1));
        match entries[0].1 {
            Some(v) => {
                assert(compact(entries) =~= seq![(entries[0].0, v)] + compact(
                    entries.skip(1),
                ));
                assert forall|j: int| 0 <= j < compact(entries).len() implies exists|i: int|
                    0 <= i < entries.len() && #[trigger] compact(entries)[j].0
                        == entries[i].0 by {
                    if j == 0 {
                        assert(compact(entries)[0].0 == entries[0].0);
                    } else {
                        let tail = compact(entries.skip(1));
                        assert(compact(entries)[j] == tail[j - 1]);
                        let i0 = choose|i: int|
                            0 <= i < entries.skip(1).len() && tail[j - 1].0 == entries.skip(
                                1,
                            )[i].0;
                        assert(entries.skip(1)[i0] == entries[i0 + 1]);
                        assert(compact(entries)[j].0 == entries[i0 + 1].0);
                    }
                }
            },
            None => {
                assert(compact(entries) =~= compact(entries.skip(1)));
                assert forall|j: int| 0 <= j < compact(entries).len() implies exists|i: int|
                    0 <= i < entries.len() && #[trigger] compact(entries)[j].0
                        == entries[i].0 by {
                    let tail = compact(entries.skip(1));
                    let i0 = choose|i: int|
                        0 <= i < entries.skip(1).len() && tail[j].0 == entries.skip(1)[i].0;
                    assert(entries.skip(1)[i0] == entries[i0 + 1]);
                    assert(compact(entries)[j].0 == entries[i0 + 1].0);
                }
            },
        }
    }
}

/// Extending the field list by one field appends that field's entries.
pub proof fn lemma_compact_snoc(entries: Seq<(Seq<char>, Option<ValS>)>, m: int)
    requires
        0 <= m < entries.len(),
    ensures
        compact(entries.take(m + 1)) =~= compact(entries.take(m)) + opt_entry(
            entries[m].0,
            entries[m].1,
        ),
    decreases m,
{
    if m == 0 {
        let s1 = seq![entries[0]];
        assert(entries.take(0) =~= Seq::<(Seq<char>, Option<ValS>)>::empty());
        assert(entries.take(1) =~= s1);
        assert(s1[0] == entries[0]);
        assert(s1.skip(1) =~= Seq::<(Seq<char>, Option<ValS>)>::empty());
        assert(compact(s1) == opt_entry(s1[0].0, s1[0].1) + compact(s1.skip(1)));
        assert(compact(s1.skip(1)) =~= Seq::<(Seq<char>, ValS)>::empty());
        assert(compact(s1) =~= opt_entry(entries[0].0, entries[0].1));
    } else {
        lemma_compact_snoc(entries.skip(1), m - 1);
        assert(entries.take(m + 1).skip(1) =~= entries.skip(1).take(m));
        assert(entries.take(m).skip(1) =~= entries.skip(1).take(m - 1));
        assert(entries.skip(1)[m - 1] == entries[m]);
        assert(compact(entries.take(m + 1)) =~= opt_entry(entries[0].0, entries[0].1)
            + compact(entries.skip(1).take(m)));
        assert(compact(entries.take(m)) =~= opt_entry(entries[0].0, entries[0].1)
            + compact(entries.skip(1).take(m - 1)));
    }
}

// ---------------------------------------------------------------------------
// Primitive field shapes, specification side
// ---------------------------------------------------------------------------
/// An optional string keyword: absent or null means none.
pub open spec fn enc_opt_str(o: Option<Seq<char>>) -> Option<ValS> {
    match o {
        Some(s) => Some(ValS::Str(s)),
        None => None,
    }
}

/// Read an optional string keyword.
pub open spec fn dec_opt_str_field(es: Seq<(Seq<char>, ValS)>, k: Seq<char>) -> Result<
    Option<Seq<char>>,
    DecodeError,
> {
    match lookup(es, k) {
        None => Ok(None),
        Some(ValS::Null) => Ok(None),
        Some(ValS::Str(s)) => Ok(Some(s)),
        Some(_) => Err(DecodeError::ExpectedString),
    }
}

/// A required string keyword.
pub open spec fn dec_req_str_field(es: Seq<(Seq<char>, ValS)>, k: Seq<char>) -> Result<
    Seq<char>,
    DecodeError,
> {
    match lookup(es, k) {
        None => Err(DecodeError::MissingField),
        Some(ValS::Str(s)) => Ok(s),
        Some(_) => Err(DecodeError::ExpectedString),
    }
}

/// An optional numeric keyword, kept as its literal text.
pub open spec fn enc_opt_num(o: Option<Seq<char>>) -> Option<ValS> {
    match o {
        Some(s) => Some(ValS::Num(s)),
        None => None,
    }
}

/// Read an optional numeric keyword as its literal text.
pub open spec fn dec_opt_num_field(es: Seq<(Seq<char>, ValS)>, k: Seq<char>) -> Result<
    Option<Seq<char>>,
    DecodeError,
> {
    match lookup(es, k) {
        None => Ok(None),
        Some(ValS::Null) => Ok(None),
        Some(ValS::Num(s)) => Ok(Some(s)),
        Some(_) => Err(DecodeError::ExpectedNumber),
    }
}

/// An optional size bound, written as its canonical decimal literal.
pub open spec fn enc_opt_size(o: Option<usize>) -> Option<ValS> {
    match o {
        Some(n) => Some(ValS::Num(dec_rep(n as nat))),
        None => None,
    }
}

/// Read an optional size bound: an unsigned decimal integer that fits.
pub open spec fn dec_opt_size_field(es: Seq<(Seq<char>, ValS)>, k: Seq<char>) -> Result<
    Option<usize>,
    DecodeError,
> {
    match lookup(es, k) {
        None => Ok(None),
        Some(ValS::Null) => Ok(None),
        Some(ValS::Num(t)) => match parse_u64_spec(t) {
            Some(v) => if v <= usize::MAX as u64 {
                Ok(Some(v as usize))
            } else {
                Err(DecodeError::SizeOutOfRange)
            },
            None => Err(DecodeError::SizeOutOfRange),
        },
        Some(_) => Err(DecodeError::ExpectedNumber),
    }
}

/// A boolean keyword whose default is false: emitted only when true.
pub open spec fn enc_bool(b: bool) -> Option<ValS> {
    if b {
        Some(ValS::Bool(true))
    } else {
        None
    }
}

/// Read a boolean keyword that defaults to false.
pub open spec fn dec_bool_field(es: Seq<(Seq<char>, ValS)>, k: Seq<char>) -> Result<
    bool,
    DecodeError,
> {
    match lookup(es, k) {
        None => Ok(false),
        Some(ValS::Bool(b)) => Ok(b),
        Some(_) => Err(DecodeError::ExpectedBool),
    }
}

/// True when every element is a string.
pub open spec fn all_strs(vs: Seq<ValS>) -> bool {
    forall|i: int| 0 <= i < vs.len() ==> vs[i] is Str
}

/// The strings of a list of string values.
pub open spec fn strs_of(vs: Seq<ValS>) -> Seq<Seq<char>> {
    Seq::new(vs.len(), |i: int| vs[i]->Str_0)
}

/// A list of strings as string values.
pub open spec fn strs_to_vals(l: Seq<Seq<char>>) -> Seq<ValS> {
    Seq::new(l.len(), |i: int| ValS::Str(l[i]))
}

/// A string-list keyword: omitted when empty.
pub open spec fn enc_str_list(l: Seq<Seq<char>>) -> Option<ValS> {
    if l.len() == 0 {
        None
    } else {
        Some(ValS::Arr(strs_to_vals(l)))
    }
}

/// Read a string-list keyword that defaults to the empty list.
pub open spec fn dec_str_list_field(es: Seq<(Seq<char>, ValS)>, k: Seq<char>) -> Result<
    Seq<Seq<char>>,
    DecodeError,
> {
    match lookup(es, k) {
        None => Ok(Seq::empty()),
        Some(ValS::Arr(vs)) => if all_strs(vs) {
            Ok(strs_of(vs))
        } else {
            Err(DecodeError::ExpectedString)
        },
        Some(_) => Err(DecodeError::ExpectedArray),
    }
}

/// Reading back an emitted string list yields the same list.
pub proof fn lemma_str_list_round_trip(l: Seq<Seq<char>>)
    ensures
        l.len() > 0 ==> all_strs(strs_to_vals(l)) && strs_of(strs_to_vals(l)) =~= l,
{
}

/// An optional free-form value keyword, emitted verbatim.
pub open spec fn enc_opt_val(o: Option<ValS>) -> Option<ValS> {
    o
}

/// Read an optional free-form value keyword; null means none.
pub open spec fn dec_opt_val_field(es: Seq<(Seq<char>, ValS)>, k: Seq<char>) -> Result<
    Option<ValS>,
    DecodeError,
> {
    match lookup(es, k) {
        None => Ok(None),
        Some(ValS::Null) => Ok(None),
        Some(v) => Ok(Some(v)),
    }
}

/// A list of free-form values: omitted when empty.
pub open spec fn enc_val_list(l: Seq<ValS>) -> Option<ValS> {
    if l.len() == 0 {
        None
    } else {
        Some(ValS::Arr(l))
    }
}

/// Read a list of free-form values that defaults to the empty list.
pub open spec fn dec_val_list_field(es: Seq<(Seq<char>, ValS)>, k: Seq<char>) -> Result<
    Seq<ValS>,
    DecodeError,
> {
    match lookup(es, k) {
        None => Ok(Seq::empty()),
        Some(ValS::Arr(vs)) => Ok(vs),
        Some(_) => Err(DecodeError::ExpectedArray),
    }
}

// ---------------------------------------------------------------------------
// Primitive field shapes, executable side
// ---------------------------------------------------------------------------
/// Append one entry to an object under construction.
pub fn push_entry(out: &mut Vec<(String, Any)>, key: &str, v: Any)
    ensures
        view_entries(final(out)@) =~= view_entries(old(out)@) + seq![(key@, v@)],
{
    let ghost before = out@;
    out.push((key.to_owned(), v));
    proof {
        lemma_view_entries(before);
        lemma_view_entries(out@);
        assert(view_entries(out@) =~= view_entries(before) + seq![(key@, view_val(
            out@[out@.len() - 1].1,
        ))]);
    }
}

/// Emit an optional string keyword.
pub fn emit_opt_str(out: &mut Vec<(String, Any)>, key: &str, f: &Option<String>)
    ensures
        view_entries(final(out)@) =~= view_entries(old(out)@) + opt_entry(
            key@,
            enc_opt_str(f.deep_view()),
        ),
{
    match f {
        Some(s) => push_entry(out, key, Any::Text(s.clone())),
        None => {},
    }
}

/// Emit an optional numeric keyword from its literal text.
pub fn emit_opt_num(out: &mut Vec<(String, Any)>, key: &str, f: &Option<String>)
    ensures
        view_entries(final(out)@) =~= view_entries(old(out)@) + opt_entry(
            key@,
            enc_opt_num(f.deep_view()),
        ),
{
    match f {
        Some(s) => push_entry(out, key, Any::Number(s.clone())),
        None => {},
    }
}

/// Emit an optional size bound as its canonical decimal literal.
pub fn emit_opt_size(out: &mut Vec<(String, Any)>, key: &str, f: &Option<usize>)
    ensures
        view_entries(final(out)@) =~= view_entries(old(out)@) + opt_entry(
            key@,
            enc_opt_size(*f),
        ),
{
    match f {
        Some(n) => push_entry(out, key, Any::Number(format_u64(*n as u64))),
        None => {},
    }
}

/// Emit a boolean keyword, only when true.
pub fn emit_bool(out: &mut Vec<(String, Any)>, key: &str, f: bool)
    ensures
        view_entries(final(out)@) =~= view_entries(old(out)@) + opt_entry(
            key@,
            enc_bool(f),
        ),
{
    if f {
        push_entry(out, key, Any::Bool(true));
    }
}

/// Emit a string-list keyword, only when non-empty.
pub fn emit_str_list(out: &mut Vec<(String, Any)>, key: &str, f: &Vec<String>)
    ensures
        view_entries(final(out)@) =~= view_entries(old(out)@) + opt_entry(
            key@,
            enc_str_list(f.deep_view()),
        ),
{
    if f.len() > 0 {
        let mut items: Vec<Any> = Vec::new();
        let mut i: usize = 0;
        while i < f.len()
            invariant
                i <= f@.len(),
                items@.len() == i,
                forall|j: int| 0 <= j < i ==> view_val(items@[j]) == ValS::Str(f@[j]@),
            decreases f@.len() - i,
        {
            items.push(Any::Text(f[i].clone()));
            i += 1;
        }
        proof {
            lemma_view_vals(items@);
            assert(view_vals(items@) =~= strs_to_vals(f.deep_view()));
        }
        push_entry(out, key, Any::Array(items));
    }
}

/// Emit an optional free-form value keyword.
pub fn emit_opt_val(out: &mut Vec<(String, Any)>, key: &str, f: &Option<Any>)
    ensures
        view_entries(final(out)@) =~= view_entries(old(out)@) + opt_entry(
            key@,
            enc_opt_val(f.deep_view()),
        ),
{
    match f {
        Some(v) => push_entry(out, key, v.clone()),
        None => {},
    }
}

/// Emit a list of free-form values, only when non-empty.
pub fn emit_val_list(out: &mut Vec<(String, Any)>, key: &str, f: &Vec<Any>)
    ensures
        view_entries(final(out)@) =~= view_entries(old(out)@) + opt_entry(
            key@,
            enc_val_list(f.deep_view()),
        ),
{
    if f.len() > 0 {
        let mut items: Vec<Any> = Vec::new();
        let mut i: usize = 0;
        while i < f.len()
            invariant
                i <= f@.len(),
                items@.len() == i,
                forall|j: int| 0 <= j < i ==> view_val(items@[j]) == view_val(f@[j]),
            decreases f@.len() - i,
        {
            items.push(f[i].clone());
            i += 1;
        }
        proof {
            lemma_view_vals(items@);
            lemma_view_vals(f@);
            assert(view_vals(items@) =~= f.deep_view());
            assert(f.deep_view().len() > 0);
        }
        push_entry(out, key, Any::Array(items));
    }
}

/// Read an optional string keyword.
pub fn get_opt_str_field(es: &Vec<(String, Any)>, key: &str) -> (r: Result<
    Option<String>,
    DecodeError,
>)
    ensures
        res_view(r) == dec_opt_str_field(view_entries(es@), key@),
{
    match get_entry(es, key) {
        None => Ok(None),
        Some(Any::Null) => Ok(None),
        Some(Any::Text(s)) => Ok(Some(s.clone())),
        Some(_) => Err(DecodeError::ExpectedString),
    }
}

/// Read a required string keyword.
pub fn get_req_str_field(es: &Vec<(String, Any)>, key: &str) -> (r: Result<
    String,
    DecodeError,
>)
    ensures
        res_view(r) == dec_req_str_field(view_entries(es@), key@),
{
    match get_entry(es, key) {
        None => Err(DecodeError::MissingField),
        Some(Any::Text(s)) => Ok(s.clone()),
        Some(_) => Err(DecodeError::ExpectedString),
    }
}

/// Read an optional numeric keyword as its literal text.
pub fn get_opt_num_field(es: &Vec<(String, Any)>, key: &str) -> (r: Result<
    Option<String>,
    DecodeError,
>)
    ensures
        res_view(r) == dec_opt_num_field(view_entries(es@), key@),
{
    match get_entry(es, key) {
        None => Ok(None),
        Some(Any::Null) => Ok(None),
        Some(Any::Number(s)) => Ok(Some(s.clone())),
        Some(_) => Err(DecodeError::ExpectedNumber),
    }
}

/// Read an optional size bound.
pub fn get_opt_size_field(es: &Vec<(String, Any)>, key: &str) -> (r: Result<
    Option<usize>,
    DecodeError,
>)
    ensures
        res_view(r) == dec_opt_size_field(view_entries(es@), key@),
{
    match get_entry(es, key) {
        None => Ok(None),
        Some(Any::Null) => Ok(None),
        Some(Any::Number(t)) => match parse_u64(t.as_str()) {
            Some(v) => if v <= usize::MAX as u64 {
                Ok(Some(v as usize))
            } else {
                Err(DecodeError::SizeOutOfRange)
            },
            None => Err(DecodeError::SizeOutOfRange),
        },
        Some(_) => Err(DecodeError::ExpectedNumber),
    }
}

/// Read a boolean keyword that defaults to false.
pub fn get_bool_field(es: &Vec<(String, Any)>, key: &str) -> (r: Result<
    bool,
    DecodeError,
>)
    ensures
        res_view(r) == dec_bool_field(view_entries(es@), key@),
{
    match get_entry(es, key) {
        None => Ok(false),
        Some(Any::Bool(b)) => Ok(*b),
        Some(_) => Err(DecodeError::ExpectedBool),
    }
}

/// Read a string-list keyword that defaults to the empty list.
pub fn get_str_list_field(es: &Vec<(String, Any)>, key: &str) -> (r: Result<
    Vec<String>,
    DecodeError,
>)
    ensures
        res_view(r) == dec_str_list_field(view_entries(es@), key@),
{
    match get_entry(es, key) {
        None => {
            let empty: Vec<String> = Vec::new();
            proof {
                assert(empty.deep_view() =~= Seq::<Seq<char>>::empty());
            }
            Ok(empty)
        },
        Some(v) => match v {
            Any::Array(a) => {
            let ghost vs = view_vals(a@);
            proof {
                lemma_view_vals(a@);
                assert(lookup(view_entries(es@), key@) == Some(ValS::Arr(vs)));
            }
            let mut outv: Vec<String> = Vec::new();
            let mut i: usize = 0;
            while i < a.len()
                invariant
                    i <= a@.len(),
                    vs == view_vals(a@),
                    vs.len() == a@.len(),
                    lookup(view_entries(es@), key@) == Some(ValS::Arr(vs)),
                    forall|j: int| 0 <= j < a@.len() ==> vs[j] == view_val(a@[j]),
                    outv@.len() == i,
                    forall|j: int| 0 <= j < i ==> vs[j] is Str && outv@[j]@
                        == vs[j]->Str_0,
                decreases a@.len() - i,
            {
                match &a[i] {
                    Any::Text(s) => {
                        outv.push(s.clone());
                    },
                    _ => {
                        proof {
                            assert(!(vs[i as int] is Str));
                        }
                        return Err(DecodeError::ExpectedString);
                    },
                }
                i += 1;
            }
            proof {
                assert(all_strs(vs));
                assert(outv.deep_view() =~= strs_of(vs));
            }
            Ok(outv)
            },
            _ => Err(DecodeError::ExpectedArray),
        },
    }
}

/// Read an optional free-form value keyword.
pub fn get_opt_val_field(es: &Vec<(String, Any)>, key: &str) -> (r: Result<
    Option<Any>,
    DecodeError,
>)
    ensures
        res_view(r) == dec_opt_val_field(view_entries(es@), key@),
{
    match get_entry(es, key) {
        None => Ok(None),
        Some(Any::Null) => Ok(None),
        Some(v) => Ok(Some(v.clone())),
    }
}

/// Read a list of free-form values that defaults to the empty list.
pub fn get_val_list_field(es: &Vec<(String, Any)>, key: &str) -> (r: Result<
    Vec<Any>,
    DecodeError,
>)
    ensures
        res_view(r) == dec_val_list_field(view_entries(es@), key@),
{
    match get_entry(es, key) {
        None => {
            let empty: Vec<Any> = Vec::new();
            proof {
                lemma_view_vals(empty@);
                assert(empty.deep_view() =~= Seq::<ValS>::empty());
            }
            Ok(empty)
        },
        Some(v) => match v {
            Any::Array(a) => {
            let ghost vs = view_vals(a@);
            proof {
                lemma_view_vals(a@);
                assert(lookup(view_entries(es@), key@) == Some(ValS::Arr(vs)));
            }
            let mut outv: Vec<Any> = Vec::new();
            let mut i: usize = 0;
            while i < a.len()
                invariant
                    i <= a@.len(),
                    vs == view_vals(a@),
                    vs.len() == a@.len(),
                    lookup(view_entries(es@), key@) == Some(ValS::Arr(vs)),
                    forall|j: int| 0 <= j < a@.len() ==> vs[j] == view_val(a@[j]),
                    outv@.len() == i,
                    forall|j: int| 0 <= j < i ==> view_val(outv@[j]) == vs[j],
                decreases a@.len() - i,
            {
                outv.push(a[i].clone());
                i += 1;
            }
            proof {
                lemma_view_vals(outv@);
                assert(outv.deep_view() =~= vs);
            }
            Ok(outv)
            },
            _ => Err(DecodeError::ExpectedArray),
        },
    }
}

// ---------------------------------------------------------------------------
// A size measure on value trees, for the termination of recursive decoders
// ---------------------------------------------------------------------------
/// The number of nodes in a value tree.
pub open spec fn vsize(v: ValS) -> nat
    decreases v,
{
    match v {
        ValS::Arr(vs) => 1 + vsize_list(vs),
        ValS::Obj(es) => 1 + vsize_entries(es),
        _ => 1,
    }
}

/// The combined size of a list of values, counting each element.
pub open spec fn vsize_list(vs: Seq<ValS>) -> nat
    decreases vs,
{
    if vs.len() == 0 {
        0
    } else {
        1 + vsize(vs[0]) + vsize_list(vs.skip(1))
    }
}

/// The combined size of object entries, counting each entry.
pub open spec fn vsize_entries(es: Seq<(Seq<char>, ValS)>) -> nat
    decreases es,
{
    if es.len() == 0 {
        0
    } else {
        1 + vsize(es[0].1) + vsize_entries(es.skip(1))
    }
}

/// A value found by lookup is strictly smaller than the entries it came from.
pub proof fn lemma_lookup_vsize(es: Seq<(Seq<char>, ValS)>, k: Seq<char>)
    ensures
        match lookup(es, k) {
            Some(v) => vsize(v) < vsize_entries(es),
            None => true,
        },
    decreases es.len(),
{
    if es.len() > 0 && es[0].0 != k {
        lemma_lookup_vsize(es.skip(1), k);
    }
}

/// An element is strictly smaller than the list that holds it.
pub proof fn lemma_vsize_list_elem(vs: Seq<ValS>, i: int)
    requires
        0 <= i < vs.len(),
    ensures
        vsize(vs[i]) < vsize_list(vs),
    decreases i,
{
    if i > 0 {
        lemma_vsize_list_elem(vs.skip(1), i - 1);
    }
}

/// An entry's value is strictly smaller than the entry list that holds it.
pub proof fn lemma_vsize_entries_elem(es: Seq<(Seq<char>, ValS)>, i: int)
    requires
        0 <= i < es.len(),
    ensures
        vsize(es[i].1) < vsize_entries(es),
    decreases i,
{
    if i > 0 {
        lemma_vsize_entries_elem(es.skip(1), i - 1);
    }
}

// ---------------------------------------------------------------------------
// String maps: objects whose values are all strings
// ---------------------------------------------------------------------------
/// True when every entry's value is a string.
pub open spec fn entries_all_strs(es: Seq<(Seq<char>, ValS)>) -> bool {
    forall|i: int| 0 <= i < es.len() ==> es[i].1 is Str
}

/// The key-string pairs of entries whose values are strings.
pub open spec fn str_entries_of(es: Seq<(Seq<char>, ValS)>) -> Seq<
    (Seq<char>, Seq<char>),
> {
    Seq::new(es.len(), |i: int| (es[i].0, es[i].1->Str_0))
}

/// Key-string pairs as object entries.
pub open spec fn strs_to_entries(m: Seq<(Seq<char>, Seq<char>)>) -> Seq<
    (Seq<char>, ValS),
> {
    Seq::new(m.len(), |i: int| (m[i].0, ValS::Str(m[i].1)))
}

/// A string-map keyword: omitted when empty.
pub open spec fn enc_str_map(m: Seq<(Seq<char>, Seq<char>)>) -> Option<ValS> {
    if m.len() == 0 {
        None
    } else {
        Some(ValS::Obj(strs_to_entries(m)))
    }
}

/// Read a string-map keyword that defaults to the empty map.
pub open spec fn dec_str_map_field(es: Seq<(Seq<char>, ValS)>, k: Seq<char>) -> Result<
    Seq<(Seq<char>, Seq<char>)>,
    DecodeError,
> {
    match lookup(es, k) {
        None => Ok(Seq::empty()),
        Some(ValS::Obj(m)) => if entries_all_strs(m) {
            Ok(str_entries_of(m))
        } else {
            Err(DecodeError::ExpectedString)
        },
        Some(_) => Err(DecodeError::ExpectedObject),
    }
}

/// Reading back an emitted string map yields the same map.
pub proof fn lemma_str_map_round_trip(m: Seq<(Seq<char>, Seq<char>)>)
    ensures
        m.len() > 0 ==> entries_all_strs(strs_to_entries(m)) && str_entries_of(
            strs_to_entries(m),
        ) =~= m,
{
    if m.len() > 0 {
        assert forall|i: int| 0 <= i < m.len() implies str_entries_of(strs_to_entries(m))[i]
            == m[i] by {
            assert(strs_to_entries(m)[i] == (m[i].0, ValS::Str(m[i].1)));
        }
    }
}

/// Emit a string-map keyword, only when non-empty.
pub fn emit_str_map(out: &mut Vec<(String, Any)>, key: &str, f: &Vec<(String, String)>)
    ensures
        view_entries(final(out)@) =~= view_entries(old(out)@) + opt_entry(
            key@,
            enc_str_map(f.deep_view()),
        ),
{
    if f.len() > 0 {
        let mut items: Vec<(String, Any)> = Vec::new();
        let mut i: usize = 0;
        while i < f.len()
            invariant
                i <= f@.len(),
                items@.len() == i,
                forall|j: int| 0 <= j < i ==> items@[j].0@ == f@[j].0@ && view_val(
                    items@[j].1,
                ) == ValS::Str(f@[j].1@),
            decreases f@.len() - i,
        {
            let (k, v) = &f[i];
            items.push((k.clone(), Any::Text(v.clone())));
            i += 1;
        }
        proof {
            lemma_view_entries(items@);
            assert(view_entries(items@) =~= strs_to_entries(f.deep_view()));
            assert(f.deep_view().len() > 0);
        }
        push_entry(out, key, Any::Object(items));
    }
}

/// Read a string-map keyword that defaults to the empty map.
pub fn get_str_map_field(es: &Vec<(String, Any)>, key: &str) -> (r: Result<
    Vec<(String, String)>,
    DecodeError,
>)
    ensures
        res_view(r) == dec_str_map_field(view_entries(es@), key@),
{
    match get_entry(es, key) {
        None => {
            let empty: Vec<(String, String)> = Vec::new();
            proof {
                assert(empty.deep_view() =~= Seq::<(Seq<char>, Seq<char>)>::empty());
            }
            Ok(empty)
        },
        Some(v) => match v {
            Any::Object(o) => {
                let ghost m = view_entries(o@);
                proof {
                    lemma_view_entries(o@);
                    assert(lookup(view_entries(es@), key@) == Some(ValS::Obj(m)));
                }
                let mut outv: Vec<(String, String)> = Vec::new();
                let mut i: usize = 0;
                while i < o.len()
                    invariant
                        i <= o@.len(),
                        m == view_entries(o@),
                        m.len() == o@.len(),
                        lookup(view_entries(es@), key@) == Some(ValS::Obj(m)),
                        forall|j: int| 0 <= j < o@.len() ==> m[j] == (o@[j].0@, view_val(
                            o@[j].1,
                        )),
                        outv@.len() == i,
                        forall|j: int| 0 <= j < i ==> m[j].1 is Str && outv@[j].0@
                            == m[j].0 && outv@[j].1@ == m[j].1->Str_0,
                    decreases o@.len() - i,
                {
                    let (k, v2) = &o[i];
                    match v2 {
                        Any::Text(t) => {
                            outv.push((k.clone(), t.clone()));
                        },
                        _ => {
                            proof {
                                assert(!(m[i as int].1 is Str));
                            }
                            return Err(DecodeError::ExpectedString);
                        },
                    }
                    i += 1;
                }
                proof {
                    assert(entries_all_strs(m));
                    assert(outv.deep_view() =~= str_entries_of(m));
                }
                Ok(outv)
            },
            _ => Err(DecodeError::ExpectedObject),
        },
    }
}

} // verus!
