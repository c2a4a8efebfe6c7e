//! A value that is either a named pointer to a component or an inlined
//! value: the polymorphic `Reference` container.
//!
//! Both variants flatten into one object namespace on the wire, so a
//! decoder must probe for the `$ref` marker key first: its presence selects
//! the pointer variant, its absence the inlined one. Trying the inlined
//! type first could misclassify a value that happens to carry a same-named
//! field, so that order is never used here.

use vstd::prelude::*;

use crate::codec::{DecodeError, compact, enc_opt_str, dec_opt_str_field,
    lemma_lookup_compact, res_view, push_entry, emit_opt_str, get_opt_str_field};
use crate::schema::{ExternalDocument, ExternalDocumentV};
use crate::schema_codec::{enc_extdoc, dec_extdoc, lemma_extdoc_rt};
use crate::value::{Any, ValS, lookup, view_entries, lemma_view_entries, get_entry};

verus! {

/// Either a pointer to a named component or an inlined value of type `T`.
#[derive(Debug)]
pub enum Reference<T> {
    /// An indirect handle to a component elsewhere.
    Pointer {
        /// The `$ref` URI naming the referenced component.
        uri: String,
        /// A summary overriding that of the referenced component.
        summary: Option<String>,
        /// A description overriding that of the referenced component.
        description: Option<String>,
    },
    /// A fully realized value embedded at this position.
    Inline(T),
}

/// The model of a [`Reference`].
#[verifier::ext_equal]
pub enum RefV<TV> {
    Pointer { uri: Seq<char>, summary: Option<Seq<char>>, description: Option<Seq<char>> },
    Inline(TV),
}

impl<T: DeepView> DeepView for Reference<T> {
    type V = RefV<T::V>;

    open spec fn deep_view(&self) -> RefV<T::V> {
        match self {
            Reference::Pointer { uri, summary, description } => RefV::Pointer {
                uri: uri@,
                summary: summary.deep_view(),
                description: description.deep_view(),
            },
            Reference::Inline(t) => RefV::Inline(t.deep_view()),
        }
    }
}

/// The keyword entries of a pointer: the marker first, then the overrides.
pub open spec fn pointer_entries(
    uri: Seq<char>,
    summary: Option<Seq<char>>,
    description: Option<Seq<char>>,
) -> Seq<(Seq<char>, Option<ValS>)> {
    seq![
        ("$ref"@, Some(ValS::Str(uri))),
        ("summary"@, enc_opt_str(summary)),
        ("description"@, enc_opt_str(description)),
    ]
}

/// A reference as a value: a pointer flattens its three fields at the top
/// level, an inlined value encodes as the value itself.
pub open spec fn enc_ref<TV>(r: RefV<TV>, enc_t: spec_fn(TV) -> ValS) -> ValS {
    match r {
        RefV::Pointer { uri, summary, description } => ValS::Obj(
            compact(pointer_entries(uri, summary, description)),
        ),
        RefV::Inline(t) => enc_t(t),
    }
}

/// Read a reference from a value: probe for the marker key first; only in
/// its absence is the embedded value read as a `T`.
pub open spec fn dec_ref<TV>(
    v: ValS,
    dec_t: spec_fn(ValS) -> Result<TV, DecodeError>,
) -> Result<RefV<TV>, DecodeError> {
    match v {
        ValS::Obj(es) => match lookup(es, "$ref"@) {
            Some(ValS::Str(u)) => match (
                dec_opt_str_field(es, "summary"@),
                dec_opt_str_field(es, "description"@),
            ) {
                (Ok(s), Ok(d)) => Ok(RefV::Pointer { uri: u, summary: s, description: d }),
                (Err(e), _) => Err(e),
                (_, Err(e)) => Err(e),
            },
            Some(_) => Err(DecodeError::ExpectedString),
            None => match dec_t(v) {
                Ok(t) => Ok(RefV::Inline(t)),
                Err(e) => Err(e),
            },
        },
        _ => Err(DecodeError::ExpectedObject),
    }
}

/// Reading back an emitted reference yields the same variant with the same
/// fields, for every inlined type whose own codec round-trips and whose
/// encoding is an object without the marker key.
pub proof fn lemma_reference_round_trip<TV>(
    r: RefV<TV>,
    enc_t: spec_fn(TV) -> ValS,
    dec_t: spec_fn(ValS) -> Result<TV, DecodeError>,
)
    requires
        r matches RefV::Inline(t) ==> dec_t(enc_t(t)) == Ok::<TV, DecodeError>(t)
            && enc_t(t) is Obj && lookup(enc_t(t)->Obj_0, "$ref"@) is None,
    ensures
        dec_ref(enc_ref(r, enc_t), dec_t) == Ok::<RefV<TV>, DecodeError>(r),
{
    match r {
        RefV::Pointer { uri, summary, description } => {
            reveal_strlit("$ref");
            reveal_strlit("summary");
            reveal_strlit("description");
            assert("$ref"@.len() == 4);
            assert("summary"@.len() == 7);
            assert("description"@.len() == 11);
            let entries = pointer_entries(uri, summary, description);
            let ext = Seq::<(Seq<char>, ValS)>::empty();
            assert(entries[0] == ("$ref"@, Some(ValS::Str(uri))));
            assert(entries[1] == ("summary"@, enc_opt_str(summary)));
            assert(entries[2] == ("description"@, enc_opt_str(description)));
            assert(compact(entries) + ext =~= compact(entries));
            lemma_lookup_compact(entries, ext, 0);
            lemma_lookup_compact(entries, ext, 1);
            lemma_lookup_compact(entries, ext, 2);
            assert(dec_ref(enc_ref(r, enc_t), dec_t)->Ok_0 =~= r);
        },
        RefV::Inline(t) => {},
    }
}

/// An external-documentation reference as a value.
pub open spec fn enc_ref_extdoc(r: RefV<ExternalDocumentV>) -> ValS {
    match r {
        RefV::Pointer { uri, summary, description } => ValS::Obj(
            compact(pointer_entries(uri, summary, description)),
        ),
        RefV::Inline(t) => enc_extdoc(t),
    }
}

/// Read an external-documentation reference from a value.
pub open spec fn dec_ref_extdoc(v: ValS) -> Result<RefV<ExternalDocumentV>, DecodeError> {
    match v {
        ValS::Obj(es) => match lookup(es, "$ref"@) {
            Some(ValS::Str(u)) => match (
                dec_opt_str_field(es, "summary"@),
                dec_opt_str_field(es, "description"@),
            ) {
                (Ok(s), Ok(d)) => Ok(RefV::Pointer { uri: u, summary: s, description: d }),
                (Err(e), _) => Err(e),
                (_, Err(e)) => Err(e),
            },
            Some(_) => Err(DecodeError::ExpectedString),
            None => match dec_extdoc(v) {
                Ok(t) => Ok(RefV::Inline(t)),
                Err(e) => Err(e),
            },
        },
        _ => Err(DecodeError::ExpectedObject),
    }
}

/// Reading back an emitted external-documentation reference yields the
/// same variant with the same fields.
pub proof fn lemma_reference_extdoc_round_trip(r: RefV<ExternalDocumentV>)
    ensures
        dec_ref_extdoc(enc_ref_extdoc(r)) == Ok::<RefV<ExternalDocumentV>, DecodeError>(
            r,
        ),
{
    match r {
        RefV::Pointer { uri, summary, description } => {
            reveal_strlit("$ref");
            reveal_strlit("summary");
            reveal_strlit("description");
            assert("$ref"@.len() == 4);
            assert("summary"@.len() == 7);
            assert("description"@.len() == 11);
            let entries = pointer_entries(uri, summary, description);
            let ext = Seq::<(Seq<char>, ValS)>::empty();
            assert(entries[0] == ("$ref"@, Some(ValS::Str(uri))));
            assert(entries[1] == ("summary"@, enc_opt_str(summary)));
            assert(entries[2] == ("description"@, enc_opt_str(description)));
            assert(compact(entries) + ext =~= compact(entries));
            lemma_lookup_compact(entries, ext, 0);
            lemma_lookup_compact(entries, ext, 1);
            lemma_lookup_compact(entries, ext, 2);
            assert(dec_ref_extdoc(enc_ref_extdoc(r))->Ok_0 =~= r);
        },
        RefV::Inline(t) => {
            lemma_extdoc_rt(t);
            reveal_strlit("$ref");
            reveal_strlit("description");
            reveal_strlit("url");
            assert("$ref"@.len() == 4);
            assert("description"@.len() == 11);
            assert("url"@.len() == 3);
            let entries = seq![
                ("description"@, enc_opt_str(t.description)),
                ("url"@, Some(ValS::Str(t.url))),
            ];
            let ext = Seq::<(Seq<char>, ValS)>::empty();
            assert(enc_extdoc(t) == ValS::Obj(compact(entries)));
            assert(compact(entries) + ext =~= compact(entries));
            crate::codec::lemma_compact_keeps_keys(entries);
            assert forall|j: int| 0 <= j < compact(entries).len() implies compact(
                entries,
            )[j].0 != "$ref"@ by {
                let i0 = choose|i: int|
                    0 <= i < entries.len() && compact(entries)[j].0 == entries[i].0;
                assert(entries[i0].0 == "description"@ || entries[i0].0 == "url"@);
            }
            crate::codec::lemma_lookup_none(compact(entries), "$ref"@);
        },
    }
}

impl Reference<ExternalDocument> {
    /// Encode as a value: a pointer flattens its fields, an inlined
    /// document encodes as itself.
    pub fn encode(&self) -> (v: Any)
        ensures
            v@ == enc_ref_extdoc(self.deep_view()),
    {
        match self {
            Reference::Pointer { uri, summary, description } => {
                let ghost entries = pointer_entries(
                    uri@,
                    summary.deep_view(),
                    description.deep_view(),
                );
                let mut out: Vec<(String, Any)> = Vec::new();
                proof {
                    lemma_view_entries(out@);
                    assert(view_entries(out@) =~= Seq::<(Seq<char>, ValS)>::empty());
                }
                push_entry(&mut out, "$ref", Any::Text(uri.clone()));
                emit_opt_str(&mut out, "summary", summary);
                emit_opt_str(&mut out, "description", description);
                proof {
                    assert(entries[0] == ("$ref"@, Some(ValS::Str(uri@))));
                    assert(entries[1] == ("summary"@, enc_opt_str(summary.deep_view())));
                    assert(entries[2] == ("description"@, enc_opt_str(
                        description.deep_view(),
                    )));
                    crate::codec::lemma_compact_snoc(entries, 0);
                    crate::codec::lemma_compact_snoc(entries, 1);
                    crate::codec::lemma_compact_snoc(entries, 2);
                    assert(entries.take(0) =~= Seq::<(Seq<char>, Option<ValS>)>::empty());
                    assert(compact(entries.take(0)) =~= Seq::<(Seq<char>, ValS)>::empty());
                    assert(entries.take(3) =~= entries);
                    assert(view_entries(out@) =~= compact(entries));
                }
                Any::Object(out)
            },
            Reference::Inline(t) => t.encode(),
        }
    }

    /// Decode from a value: probe for the marker key first; only in its
    /// absence is the value read as an external-documentation object.
    pub fn decode(v: &Any) -> (r: Result<Reference<ExternalDocument>, DecodeError>)
        ensures
            res_view(r) == dec_ref_extdoc(v@),
    {
        let o = match v {
            Any::Object(o) => o,
            _ => {
                return Err(DecodeError::ExpectedObject);
            },
        };
        match get_entry(o, "$ref") {
            Some(Any::Text(u)) => {
                let summary = match get_opt_str_field(o, "summary") {
                    Ok(s) => s,
                    Err(e) => return Err(e),
                };
                let description = match get_opt_str_field(o, "description") {
                    Ok(d) => d,
                    Err(e) => return Err(e),
                };
                Ok(Reference::Pointer { uri: u.clone(), summary, description })
            },
            Some(_) => Err(DecodeError::ExpectedString),
            None => match ExternalDocument::decode(v) {
                Ok(t) => Ok(Reference::Inline(t)),
                Err(e) => Err(e),
            },
        }
    }
}

} // verus!
