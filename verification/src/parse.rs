//! The byte-level document boundary: JSON and YAML text parsed into the
//! library's own value tree by outside parsers, behind trusted wrappers.
//!
//! Both wire formats produce the same kind of tree, so one entry point per
//! format is enough; everything after the parse is verified code over
//! [`Any`].

use vstd::prelude::*;

use crate::codec::{DecodeError, res_view};
use crate::schema::Schema;
use crate::schema_codec::dec_schema;
use crate::value::{Any, ValS};

verus! {

/// The tree a JSON document parses to, when it parses.
pub uninterp spec fn json_tree_of(bytes: Seq<u8>) -> Option<ValS>;

/// The tree a YAML document parses to, when it parses.
pub uninterp spec fn yaml_tree_of(bytes: Seq<u8>) -> Option<ValS>;

/// Relies on serde_json::Value only as a carrier: each of its variants maps
/// one for one onto the library's own tree, numbers keeping their decimal
/// rendering.
#[verifier::external_body]
fn value_from_json(v: serde_json::Value) -> Any {
    match v {
        serde_json::Value::Null => Any::Null,
        serde_json::Value::Bool(b) => Any::Bool(b),
        serde_json::Value::Number(n) => Any::Number(n.to_string()),
        serde_json::Value::String(s) => Any::Text(s),
        serde_json::Value::Array(a) => Any::Array(
            a.into_iter().map(value_from_json).collect(),
        ),
        serde_json::Value::Object(m) => Any::Object(
            m.into_iter().map(|e| (e.0, value_from_json(e.1))).collect(),
        ),
    }
}

/// Relies on serde_json::from_slice: parses JSON text into a tree, or
/// fails; the result depends on the bytes alone.
#[verifier::external_body]
pub fn value_from_json_slice(bytes: &[u8]) -> (r: Option<Any>)
    ensures
        match r {
            Some(v) => json_tree_of(bytes@) == Some(v@),
            None => json_tree_of(bytes@) is None,
        },
{
    match serde_json::from_slice::<serde_json::Value>(bytes) {
        Ok(v) => Some(value_from_json(v)),
        Err(_) => None,
    }
}

/// Relies on serde_yaml::from_slice: parses YAML text into the same kind
/// of tree, or fails; the result depends on the bytes alone.
#[verifier::external_body]
pub fn value_from_yaml_slice(bytes: &[u8]) -> (r: Option<Any>)
    ensures
        match r {
            Some(v) => yaml_tree_of(bytes@) == Some(v@),
            None => yaml_tree_of(bytes@) is None,
        },
{
    match serde_yaml::from_slice::<serde_json::Value>(bytes) {
        Ok(v) => Some(value_from_json(v)),
        Err(_) => None,
    }
}

/// Read a schema from JSON text: parse the bytes, then decode the tree.
pub fn schema_from_json_slice(bytes: &[u8]) -> (r: Result<Schema, DecodeError>)
    ensures
        match json_tree_of(bytes@) {
            Some(t) => res_view(r) == dec_schema(t),
            None => r == Err::<Schema, DecodeError>(DecodeError::Syntax),
        },
{
    match value_from_json_slice(bytes) {
        Some(v) => Schema::decode(&v),
        None => Err(DecodeError::Syntax),
    }
}

/// Read a schema from YAML text: parse the bytes, then decode the tree.
pub fn schema_from_yaml_slice(bytes: &[u8]) -> (r: Result<Schema, DecodeError>)
    ensures
        match yaml_tree_of(bytes@) {
            Some(t) => res_view(r) == dec_schema(t),
            None => r == Err::<Schema, DecodeError>(DecodeError::Syntax),
        },
{
    match value_from_yaml_slice(bytes) {
        Some(v) => Schema::decode(&v),
        None => Err(DecodeError::Syntax),
    }
}

} // verus!
