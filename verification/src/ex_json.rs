//! Declaration of the outside parser's tree type, so that the conversion
//! wrapper at the document boundary can take it.

use vstd::prelude::*;

verus! {

/// The outside parser's own tree type; the library never looks inside a
/// value of it, it only converts whole values at the parse boundary.
#[verifier::external_type_specification]
#[verifier::external_body]
pub struct ExJsonValue(serde_json::Value);

} // verus!
