//! The codec between [`Schema`] values and the generic value tree:
//! every keyword family encoded into one flat object, unknown keys
//! captured as extensions, and the proof that decoding undoes encoding.

use vstd::prelude::*;

use crate::codec::{DecodeError, compact, enc_bool, enc_opt_num, enc_opt_size,
    enc_opt_str, enc_opt_val, enc_str_list, enc_str_map, enc_val_list, all_strs,
    strs_of, strs_to_vals, dec_bool_field, dec_opt_num_field, dec_opt_size_field,
    dec_opt_str_field, dec_opt_val_field, dec_req_str_field, dec_str_list_field,
    dec_str_map_field, dec_val_list_field, vsize, vsize_list, vsize_entries,
    lemma_lookup_vsize, lemma_vsize_list_elem, lemma_vsize_entries_elem,
    lemma_lookup_compact, str_entries_of, strs_to_entries,
    res_view, res_prepend, opt_entry, lemma_compact_snoc, push_entry, emit_opt_str,
    emit_opt_num, emit_opt_size, emit_bool, emit_str_list, emit_str_map, emit_opt_val,
    emit_val_list, get_opt_str_field, get_req_str_field, get_opt_num_field,
    get_opt_size_field, get_bool_field, get_str_list_field, get_str_map_field,
    get_opt_val_field, get_val_list_field};
use crate::names::{type_label, type_of_name, format_label, format_of_name,
    lemma_type_label_round_trip, lemma_format_label_round_trip, str_eq, type_from_str,
    type_to_str, format_from_str, format_to_str};
use crate::schema::{Schema, SchemaV, FormatOrString, FormatOrStringV, Discriminator,
    DiscriminatorV, Xml, XmlV, ExternalDocument, ExternalDocumentV, Type, Format,
    view_schema, view_opt_schema, view_schemas, view_opt_schemas, view_schema_map,
    view_opt_schema_map, lemma_view_schemas, lemma_view_schema_map};
use crate::value::{Any, ValS, lookup, view_entries, view_vals, view_val,
    lemma_view_entries, lemma_view_vals, get_entry};

verus! {

/// The wire key of schema keyword `i`, in emission order.
pub open spec fn schema_key(i: int) -> Seq<char> {
    if i == 0 {
        "$schema"@
    } else     if i == 1 {
        "$id"@
    } else     if i == 2 {
        "$ref"@
    } else     if i == 3 {
        "$comment"@
    } else     if i == 4 {
        "allOf"@
    } else     if i == 5 {
        "anyOf"@
    } else     if i == 6 {
        "oneOf"@
    } else     if i == 7 {
        "not"@
    } else     if i == 8 {
        "if"@
    } else     if i == 9 {
        "then"@
    } else     if i == 10 {
        "else"@
    } else     if i == 11 {
        "dependentSchemas"@
    } else     if i == 12 {
        "prefixItems"@
    } else     if i == 13 {
        "items"@
    } else     if i == 14 {
        "contains"@
    } else     if i == 15 {
        "properties"@
    } else     if i == 16 {
        "patternProperties"@
    } else     if i == 17 {
        "additionalProperties"@
    } else     if i == 18 {
        "propertyNames"@
    } else     if i == 19 {
        "unevaluatedItems"@
    } else     if i == 20 {
        "unevaluatedProperties"@
    } else     if i == 21 {
        "type"@
    } else     if i == 22 {
        "enum"@
    } else     if i == 23 {
        "const"@
    } else     if i == 24 {
        "multipleOf"@
    } else     if i == 25 {
        "maximum"@
    } else     if i == 26 {
        "exclusiveMaximum"@
    } else     if i == 27 {
        "minimum"@
    } else     if i == 28 {
        "exclusiveMinimum"@
    } else     if i == 29 {
        "maxLength"@
    } else     if i == 30 {
        "minLength"@
    } else     if i == 31 {
        "pattern"@
    } else     if i == 32 {
        "maxItems"@
    } else     if i == 33 {
        "minItems"@
    } else     if i == 34 {
        "uniqueItems"@
    } else     if i == 35 {
        "maxContains"@
    } else     if i == 36 {
        "minContains"@
    } else     if i == 37 {
        "maxProperties"@
    } else     if i == 38 {
        "minProperties"@
    } else     if i == 39 {
        "required"@
    } else     if i == 40 {
        "dependentRequired"@
    } else     if i == 41 {
        "format"@
    } else     if i == 42 {
        "contentEncoding"@
    } else     if i == 43 {
        "contentMediaType"@
    } else     if i == 44 {
        "contentSchema"@
    } else     if i == 45 {
        "title"@
    } else     if i == 46 {
        "description"@
    } else     if i == 47 {
        "default"@
    } else     if i == 48 {
        "deprecated"@
    } else     if i == 49 {
        "readOnly"@
    } else     if i == 50 {
        "writeOnly"@
    } else     if i == 51 {
        "examples"@
    } else     if i == 52 {
        "discriminator"@
    } else     if i == 53 {
        "xml"@
    } else     if i == 54 {
        "externalDocs"@
    } else {
        "example"@
    }
}

/// The number of schema keywords this model knows.
pub open spec fn schema_key_count() -> int {
    56
}

/// True when `k` is one of the known schema keywords.
pub open spec fn is_schema_key(k: Seq<char>) -> bool {
    exists|i: int| 0 <= i < schema_key_count() && k == schema_key(i)
}

/// The known schema keys are pairwise distinct.
#[verifier::rlimit(100)]
pub proof fn lemma_schema_keys_distinct()
    ensures
        forall|i: int, j: int| 0 <= i < j < schema_key_count() ==> schema_key(i)
            != schema_key(j),
{
    reveal_strlit("$schema");
    assert("$schema"@.len() == 7);
    assert("$schema"@[0] == '$');
    assert("$schema"@[1] == 's');
    assert("$schema"@[2] == 'c');
    assert("$schema"@[3] == 'h');
    assert("$schema"@[4] == 'e');
    assert("$schema"@[5] == 'm');
    assert("$schema"@[6] == 'a');
    reveal_strlit("$id");
    assert("$id"@.len() == 3);
    assert("$id"@[0] == '$');
    assert("$id"@[1] == 'i');
    assert("$id"@[2] == 'd');
    reveal_strlit("$ref");
    assert("$ref"@.len() == 4);
    assert("$ref"@[0] == '$');
    assert("$ref"@[1] == 'r');
    assert("$ref"@[2] == 'e');
    assert("$ref"@[3] == 'f');
    reveal_strlit("$comment");
    assert("$comment"@.len() == 8);
    assert("$comment"@[0] == '$');
    assert("$comment"@[1] == 'c');
    assert("$comment"@[2] == 'o');
    assert("$comment"@[3] == 'm');
    assert("$comment"@[4] == 'm');
    assert("$comment"@[5] == 'e');
    assert("$comment"@[6] == 'n');
    assert("$comment"@[7] == 't');
    reveal_strlit("allOf");
    assert("allOf"@.len() == 5);
    assert("allOf"@[0] == 'a');
    assert("allOf"@[1] == 'l');
    assert("allOf"@[2] == 'l');
    assert("allOf"@[3] == 'O');
    assert("allOf"@[4] == 'f');
    reveal_strlit("anyOf");
    assert("anyOf"@.len() == 5);
    assert("anyOf"@[0] == 'a');
    assert("anyOf"@[1] == 'n');
    assert("anyOf"@[2] == 'y');
    assert("anyOf"@[3] == 'O');
    assert("anyOf"@[4] == 'f');
    reveal_strlit("oneOf");
    assert("oneOf"@.len() == 5);
    assert("oneOf"@[0] == 'o');
    assert("oneOf"@[1] == 'n');
    assert("oneOf"@[2] == 'e');
    assert("oneOf"@[3] == 'O');
    assert("oneOf"@[4] == 'f');
    reveal_strlit("not");
    assert("not"@.len() == 3);
    assert("not"@[0] == 'n');
    assert("not"@[1] == 'o');
    assert("not"@[2] == 't');
    reveal_strlit("if");
    assert("if"@.len() == 2);
    assert("if"@[0] == 'i');
    assert("if"@[1] == 'f');
    reveal_strlit("then");
    assert("then"@.len() == 4);
    assert("then"@[0] == 't');
    assert("then"@[1] == 'h');
    assert("then"@[2] == 'e');
    assert("then"@[3] == 'n');
    reveal_strlit("else");
    assert("else"@.len() == 4);
    assert("else"@[0] == 'e');
    assert("else"@[1] == 'l');
    assert("else"@[2] == 's');
    assert("else"@[3] == 'e');
    reveal_strlit("dependentSchemas");
    assert("dependentSchemas"@.len() == 16);
    assert("dependentSchemas"@[0] == 'd');
    assert("dependentSchemas"@[1] == 'e');
    assert("dependentSchemas"@[2] == 'p');
    assert("dependentSchemas"@[3] == 'e');
    assert("dependentSchemas"@[4] == 'n');
    assert("dependentSchemas"@[5] == 'd');
    assert("dependentSchemas"@[6] == 'e');
    assert("dependentSchemas"@[7] == 'n');
    assert("dependentSchemas"@[8] == 't');
    assert("dependentSchemas"@[9] == 'S');
    assert("dependentSchemas"@[10] == 'c');
    assert("dependentSchemas"@[11] == 'h');
    assert("dependentSchemas"@[12] == 'e');
    assert("dependentSchemas"@[13] == 'm');
    assert("dependentSchemas"@[14] == 'a');
    assert("dependentSchemas"@[15] == 's');
    reveal_strlit("prefixItems");
    assert("prefixItems"@.len() == 11);
    assert("prefixItems"@[0] == 'p');
    assert("prefixItems"@[1] == 'r');
    assert("prefixItems"@[2] == 'e');
    assert("prefixItems"@[3] == 'f');
    assert("prefixItems"@[4] == 'i');
    assert("prefixItems"@[5] == 'x');
    assert("prefixItems"@[6] == 'I');
    assert("prefixItems"@[7] == 't');
    assert("prefixItems"@[8] == 'e');
    assert("prefixItems"@[9] == 'm');
    assert("prefixItems"@[10] == 's');
    reveal_strlit("items");
    assert("items"@.len() == 5);
    assert("items"@[0] == 'i');
    assert("items"@[1] == 't');
    assert("items"@[2] == 'e');
    assert("items"@[3] == 'm');
    assert("items"@[4] == 's');
    reveal_strlit("contains");
    assert("contains"@.len() == 8);
    assert("contains"@[0] == 'c');
    assert("contains"@[1] == 'o');
    assert("contains"@[2] == 'n');
    assert("contains"@[3] == 't');
    assert("contains"@[4] == 'a');
    assert("contains"@[5] == 'i');
    assert("contains"@[6] == 'n');
    assert("contains"@[7] == 's');
    reveal_strlit("properties");
    assert("properties"@.len() == 10);
    assert("properties"@[0] == 'p');
    assert("properties"@[1] == 'r');
    assert("properties"@[2] == 'o');
    assert("properties"@[3] == 'p');
    assert("properties"@[4] == 'e');
    assert("properties"@[5] == 'r');
    assert("properties"@[6] == 't');
    assert("properties"@[7] == 'i');
    assert("properties"@[8] == 'e');
    assert("properties"@[9] == 's');
    reveal_strlit("patternProperties");
    assert("patternProperties"@.len() == 17);
    assert("patternProperties"@[0] == 'p');
    assert("patternProperties"@[1] == 'a');
    assert("patternProperties"@[2] == 't');
    assert("patternProperties"@[3] == 't');
    assert("patternProperties"@[4] == 'e');
    assert("patternProperties"@[5] == 'r');
    assert("patternProperties"@[6] == 'n');
    assert("patternProperties"@[7] == 'P');
    assert("patternProperties"@[8] == 'r');
    assert("patternProperties"@[9] == 'o');
    assert("patternProperties"@[10] == 'p');
    assert("patternProperties"@[11] == 'e');
    assert("patternProperties"@[12] == 'r');
    assert("patternProperties"@[13] == 't');
    assert("patternProperties"@[14] == 'i');
    assert("patternProperties"@[15] == 'e');
    assert("patternProperties"@[16] == 's');
    reveal_strlit("additionalProperties");
    assert("additionalProperties"@.len() == 20);
    assert("additionalProperties"@[0] == 'a');
    assert("additionalProperties"@[1] == 'd');
    assert("additionalProperties"@[2] == 'd');
    assert("additionalProperties"@[3] == 'i');
    assert("additionalProperties"@[4] == 't');
    assert("additionalProperties"@[5] == 'i');
    assert("additionalProperties"@[6] == 'o');
    assert("additionalProperties"@[7] == 'n');
    assert("additionalProperties"@[8] == 'a');
    assert("additionalProperties"@[9] == 'l');
    assert("additionalProperties"@[10] == 'P');
    assert("additionalProperties"@[11] == 'r');
    assert("additionalProperties"@[12] == 'o');
    assert("additionalProperties"@[13] == 'p');
    assert("additionalProperties"@[14] == 'e');
    assert("additionalProperties"@[15] == 'r');
    assert("additionalProperties"@[16] == 't');
    assert("additionalProperties"@[17] == 'i');
    assert("additionalProperties"@[18] == 'e');
    assert("additionalProperties"@[19] == 's');
    reveal_strlit("propertyNames");
    assert("propertyNames"@.len() == 13);
    assert("propertyNames"@[0] == 'p');
    assert("propertyNames"@[1] == 'r');
    assert("propertyNames"@[2] == 'o');
    assert("propertyNames"@[3] == 'p');
    assert("propertyNames"@[4] == 'e');
    assert("propertyNames"@[5] == 'r');
    assert("propertyNames"@[6] == 't');
    assert("propertyNames"@[7] == 'y');
    assert("propertyNames"@[8] == 'N');
    assert("propertyNames"@[9] == 'a');
    assert("propertyNames"@[10] == 'm');
    assert("propertyNames"@[11] == 'e');
    assert("propertyNames"@[12] == 's');
    reveal_strlit("unevaluatedItems");
    assert("unevaluatedItems"@.len() == 16);
    assert("unevaluatedItems"@[0] == 'u');
    assert("unevaluatedItems"@[1] == 'n');
    assert("unevaluatedItems"@[2] == 'e');
    assert("unevaluatedItems"@[3] == 'v');
    assert("unevaluatedItems"@[4] == 'a');
    assert("unevaluatedItems"@[5] == 'l');
    assert("unevaluatedItems"@[6] == 'u');
    assert("unevaluatedItems"@[7] == 'a');
    assert("unevaluatedItems"@[8] == 't');
    assert("unevaluatedItems"@[9] == 'e');
    assert("unevaluatedItems"@[10] == 'd');
    assert("unevaluatedItems"@[11] == 'I');
    assert("unevaluatedItems"@[12] == 't');
    assert("unevaluatedItems"@[13] == 'e');
    assert("unevaluatedItems"@[14] == 'm');
    assert("unevaluatedItems"@[15] == 's');
    reveal_strlit("unevaluatedProperties");
    assert("unevaluatedProperties"@.len() == 21);
    assert("unevaluatedProperties"@[0] == 'u');
    assert("unevaluatedProperties"@[1] == 'n');
    assert("unevaluatedProperties"@[2] == 'e');
    assert("unevaluatedProperties"@[3] == 'v');
    assert("unevaluatedProperties"@[4] == 'a');
    assert("unevaluatedProperties"@[5] == 'l');
    assert("unevaluatedProperties"@[6] == 'u');
    assert("unevaluatedProperties"@[7] == 'a');
    assert("unevaluatedProperties"@[8] == 't');
    assert("unevaluatedProperties"@[9] == 'e');
    assert("unevaluatedProperties"@[10] == 'd');
    assert("unevaluatedProperties"@[11] == 'P');
    assert("unevaluatedProperties"@[12] == 'r');
    assert("unevaluatedProperties"@[13] == 'o');
    assert("unevaluatedProperties"@[14] == 'p');
    assert("unevaluatedProperties"@[15] == 'e');
    assert("unevaluatedProperties"@[16] == 'r');
    assert("unevaluatedProperties"@[17] == 't');
    assert("unevaluatedProperties"@[18] == 'i');
    assert("unevaluatedProperties"@[19] == 'e');
    assert("unevaluatedProperties"@[20] == 's');
    reveal_strlit("type");
    assert("type"@.len() == 4);
    assert("type"@[0] == 't');
    assert("type"@[1] == 'y');
    assert("type"@[2] == 'p');
    assert("type"@[3] == 'e');
    reveal_strlit("enum");
    assert("enum"@.len() == 4);
    assert("enum"@[0] == 'e');
    assert("enum"@[1] == 'n');
    assert("enum"@[2] == 'u');
    assert("enum"@[3] == 'm');
    reveal_strlit("const");
    assert("const"@.len() == 5);
    assert("const"@[0] == 'c');
    assert("const"@[1] == 'o');
    assert("const"@[2] == 'n');
    assert("const"@[3] == 's');
    assert("const"@[4] == 't');
    reveal_strlit("multipleOf");
    assert("multipleOf"@.len() == 10);
    assert("multipleOf"@[0] == 'm');
    assert("multipleOf"@[1] == 'u');
    assert("multipleOf"@[2] == 'l');
    assert("multipleOf"@[3] == 't');
    assert("multipleOf"@[4] == 'i');
    assert("multipleOf"@[5] == 'p');
    assert("multipleOf"@[6] == 'l');
    assert("multipleOf"@[7] == 'e');
    assert("multipleOf"@[8] == 'O');
    assert("multipleOf"@[9] == 'f');
    reveal_strlit("maximum");
    assert("maximum"@.len() == 7);
    assert("maximum"@[0] == 'm');
    assert("maximum"@[1] == 'a');
    assert("maximum"@[2] == 'x');
    assert("maximum"@[3] == 'i');
    assert("maximum"@[4] == 'm');
    assert("maximum"@[5] == 'u');
    assert("maximum"@[6] == 'm');
    reveal_strlit("exclusiveMaximum");
    assert("exclusiveMaximum"@.len() == 16);
    assert("exclusiveMaximum"@[0] == 'e');
    assert("exclusiveMaximum"@[1] == 'x');
    assert("exclusiveMaximum"@[2] == 'c');
    assert("exclusiveMaximum"@[3] == 'l');
    assert("exclusiveMaximum"@[4] == 'u');
    assert("exclusiveMaximum"@[5] == 's');
    assert("exclusiveMaximum"@[6] == 'i');
    assert("exclusiveMaximum"@[7] == 'v');
    assert("exclusiveMaximum"@[8] == 'e');
    assert("exclusiveMaximum"@[9] == 'M');
    assert("exclusiveMaximum"@[10] == 'a');
    assert("exclusiveMaximum"@[11] == 'x');
    assert("exclusiveMaximum"@[12] == 'i');
    assert("exclusiveMaximum"@[13] == 'm');
    assert("exclusiveMaximum"@[14] == 'u');
    assert("exclusiveMaximum"@[15] == 'm');
    reveal_strlit("minimum");
    assert("minimum"@.len() == 7);
    assert("minimum"@[0] == 'm');
    assert("minimum"@[1] == 'i');
    assert("minimum"@[2] == 'n');
    assert("minimum"@[3] == 'i');
    assert("minimum"@[4] == 'm');
    assert("minimum"@[5] == 'u');
    assert("minimum"@[6] == 'm');
    reveal_strlit("exclusiveMinimum");
    assert("exclusiveMinimum"@.len() == 16);
    assert("exclusiveMinimum"@[0] == 'e');
    assert("exclusiveMinimum"@[1] == 'x');
    assert("exclusiveMinimum"@[2] == 'c');
    assert("exclusiveMinimum"@[3] == 'l');
    assert("exclusiveMinimum"@[4] == 'u');
    assert("exclusiveMinimum"@[5] == 's');
    assert("exclusiveMinimum"@[6] == 'i');
    assert("exclusiveMinimum"@[7] == 'v');
    assert("exclusiveMinimum"@[8] == 'e');
    assert("exclusiveMinimum"@[9] == 'M');
    assert("exclusiveMinimum"@[10] == 'i');
    assert("exclusiveMinimum"@[11] == 'n');
    assert("exclusiveMinimum"@[12] == 'i');
    assert("exclusiveMinimum"@[13] == 'm');
    assert("exclusiveMinimum"@[14] == 'u');
    assert("exclusiveMinimum"@[15] == 'm');
    reveal_strlit("maxLength");
    assert("maxLength"@.len() == 9);
    assert("maxLength"@[0] == 'm');
    assert("maxLength"@[1] == 'a');
    assert("maxLength"@[2] == 'x');
    assert("maxLength"@[3] == 'L');
    assert("maxLength"@[4] == 'e');
    assert("maxLength"@[5] == 'n');
    assert("maxLength"@[6] == 'g');
    assert("maxLength"@[7] == 't');
    assert("maxLength"@[8] == 'h');
    reveal_strlit("minLength");
    assert("minLength"@.len() == 9);
    assert("minLength"@[0] == 'm');
    assert("minLength"@[1] == 'i');
    assert("minLength"@[2] == 'n');
    assert("minLength"@[3] == 'L');
    assert("minLength"@[4] == 'e');
    assert("minLength"@[5] == 'n');
    assert("minLength"@[6] == 'g');
    assert("minLength"@[7] == 't');
    assert("minLength"@[8] == 'h');
    reveal_strlit("pattern");
    assert("pattern"@.len() == 7);
    assert("pattern"@[0] == 'p');
    assert("pattern"@[1] == 'a');
    assert("pattern"@[2] == 't');
    assert("pattern"@[3] == 't');
    assert("pattern"@[4] == 'e');
    assert("pattern"@[5] == 'r');
    assert("pattern"@[6] == 'n');
    reveal_strlit("maxItems");
    assert("maxItems"@.len() == 8);
    assert("maxItems"@[0] == 'm');
    assert("maxItems"@[1] == 'a');
    assert("maxItems"@[2] == 'x');
    assert("maxItems"@[3] == 'I');
    assert("maxItems"@[4] == 't');
    assert("maxItems"@[5] == 'e');
    assert("maxItems"@[6] == 'm');
    assert("maxItems"@[7] == 's');
    reveal_strlit("minItems");
    assert("minItems"@.len() == 8);
    assert("minItems"@[0] == 'm');
    assert("minItems"@[1] == 'i');
    assert("minItems"@[2] == 'n');
    assert("minItems"@[3] == 'I');
    assert("minItems"@[4] == 't');
    assert("minItems"@[5] == 'e');
    assert("minItems"@[6] == 'm');
    assert("minItems"@[7] == 's');
    reveal_strlit("uniqueItems");
    assert("uniqueItems"@.len() == 11);
    assert("uniqueItems"@[0] == 'u');
    assert("uniqueItems"@[1] == 'n');
    assert("uniqueItems"@[2] == 'i');
    assert("uniqueItems"@[3] == 'q');
    assert("uniqueItems"@[4] == 'u');
    assert("uniqueItems"@[5] == 'e');
    assert("uniqueItems"@[6] == 'I');
    assert("uniqueItems"@[7] == 't');
    assert("uniqueItems"@[8] == 'e');
    assert("uniqueItems"@[9] == 'm');
    assert("uniqueItems"@[10] == 's');
    reveal_strlit("maxContains");
    assert("maxContains"@.len() == 11);
    assert("maxContains"@[0] == 'm');
    assert("maxContains"@[1] == 'a');
    assert("maxContains"@[2] == 'x');
    assert("maxContains"@[3] == 'C');
    assert("maxContains"@[4] == 'o');
    assert("maxContains"@[5] == 'n');
    assert("maxContains"@[6] == 't');
    assert("maxContains"@[7] == 'a');
    assert("maxContains"@[8] == 'i');
    assert("maxContains"@[9] == 'n');
    assert("maxContains"@[10] == 's');
    reveal_strlit("minContains");
    assert("minContains"@.len() == 11);
    assert("minContains"@[0] == 'm');
    assert("minContains"@[1] == 'i');
    assert("minContains"@[2] == 'n');
    assert("minContains"@[3] == 'C');
    assert("minContains"@[4] == 'o');
    assert("minContains"@[5] == 'n');
    assert("minContains"@[6] == 't');
    assert("minContains"@[7] == 'a');
    assert("minContains"@[8] == 'i');
    assert("minContains"@[9] == 'n');
    assert("minContains"@[10] == 's');
    reveal_strlit("maxProperties");
    assert("maxProperties"@.len() == 13);
    assert("maxProperties"@[0] == 'm');
    assert("maxProperties"@[1] == 'a');
    assert("maxProperties"@[2] == 'x');
    assert("maxProperties"@[3] == 'P');
    assert("maxProperties"@[4] == 'r');
    assert("maxProperties"@[5] == 'o');
    assert("maxProperties"@[6] == 'p');
    assert("maxProperties"@[7] == 'e');
    assert("maxProperties"@[8] == 'r');
    assert("maxProperties"@[9] == 't');
    assert("maxProperties"@[10] == 'i');
    assert("maxProperties"@[11] == 'e');
    assert("maxProperties"@[12] == 's');
    reveal_strlit("minProperties");
    assert("minProperties"@.len() == 13);
    assert("minProperties"@[0] == 'm');
    assert("minProperties"@[1] == 'i');
    assert("minProperties"@[2] == 'n');
    assert("minProperties"@[3] == 'P');
    assert("minProperties"@[4] == 'r');
    assert("minProperties"@[5] == 'o');
    assert("minProperties"@[6] == 'p');
    assert("minProperties"@[7] == 'e');
    assert("minProperties"@[8] == 'r');
    assert("minProperties"@[9] == 't');
    assert("minProperties"@[10] == 'i');
    assert("minProperties"@[11] == 'e');
    assert("minProperties"@[12] == 's');
    reveal_strlit("required");
    assert("required"@.len() == 8);
    assert("required"@[0] == 'r');
    assert("required"@[1] == 'e');
    assert("required"@[2] == 'q');
    assert("required"@[3] == 'u');
    assert("required"@[4] == 'i');
    assert("required"@[5] == 'r');
    assert("required"@[6] == 'e');
    assert("required"@[7] == 'd');
    reveal_strlit("dependentRequired");
    assert("dependentRequired"@.len() == 17);
    assert("dependentRequired"@[0] == 'd');
    assert("dependentRequired"@[1] == 'e');
    assert("dependentRequired"@[2] == 'p');
    assert("dependentRequired"@[3] == 'e');
    assert("dependentRequired"@[4] == 'n');
    assert("dependentRequired"@[5] == 'd');
    assert("dependentRequired"@[6] == 'e');
    assert("dependentRequired"@[7] == 'n');
    assert("dependentRequired"@[8] == 't');
    assert("dependentRequired"@[9] == 'R');
    assert("dependentRequired"@[10] == 'e');
    assert("dependentRequired"@[11] == 'q');
    assert("dependentRequired"@[12] == 'u');
    assert("dependentRequired"@[13] == 'i');
    assert("dependentRequired"@[14] == 'r');
    assert("dependentRequired"@[15] == 'e');
    assert("dependentRequired"@[16] == 'd');
    reveal_strlit("format");
    assert("format"@.len() == 6);
    assert("format"@[0] == 'f');
    assert("format"@[1] == 'o');
    assert("format"@[2] == 'r');
    assert("format"@[3] == 'm');
    assert("format"@[4] == 'a');
    assert("format"@[5] == 't');
    reveal_strlit("contentEncoding");
    assert("contentEncoding"@.len() == 15);
    assert("contentEncoding"@[0] == 'c');
    assert("contentEncoding"@[1] == 'o');
    assert("contentEncoding"@[2] == 'n');
    assert("contentEncoding"@[3] == 't');
    assert("contentEncoding"@[4] == 'e');
    assert("contentEncoding"@[5] == 'n');
    assert("contentEncoding"@[6] == 't');
    assert("contentEncoding"@[7] == 'E');
    assert("contentEncoding"@[8] == 'n');
    assert("contentEncoding"@[9] == 'c');
    assert("contentEncoding"@[10] == 'o');
    assert("contentEncoding"@[11] == 'd');
    assert("contentEncoding"@[12] == 'i');
    assert("contentEncoding"@[13] == 'n');
    assert("contentEncoding"@[14] == 'g');
    reveal_strlit("contentMediaType");
    assert("contentMediaType"@.len() == 16);
    assert("contentMediaType"@[0] == 'c');
    assert("contentMediaType"@[1] == 'o');
    assert("contentMediaType"@[2] == 'n');
    assert("contentMediaType"@[3] == 't');
    assert("contentMediaType"@[4] == 'e');
    assert("contentMediaType"@[5] == 'n');
    assert("contentMediaType"@[6] == 't');
    assert("contentMediaType"@[7] == 'M');
    assert("contentMediaType"@[8] == 'e');
    assert("contentMediaType"@[9] == 'd');
    assert("contentMediaType"@[10] == 'i');
    assert("contentMediaType"@[11] == 'a');
    assert("contentMediaType"@[12] == 'T');
    assert("contentMediaType"@[13] == 'y');
    assert("contentMediaType"@[14] == 'p');
    assert("contentMediaType"@[15] == 'e');
    reveal_strlit("contentSchema");
    assert("contentSchema"@.len() == 13);
    assert("contentSchema"@[0] == 'c');
    assert("contentSchema"@[1] == 'o');
    assert("contentSchema"@[2] == 'n');
    assert("contentSchema"@[3] == 't');
    assert("contentSchema"@[4] == 'e');
    assert("contentSchema"@[5] == 'n');
    assert("contentSchema"@[6] == 't');
    assert("contentSchema"@[7] == 'S');
    assert("contentSchema"@[8] == 'c');
    assert("contentSchema"@[9] == 'h');
    assert("contentSchema"@[10] == 'e');
    assert("contentSchema"@[11] == 'm');
    assert("contentSchema"@[12] == 'a');
    reveal_strlit("title");
    assert("title"@.len() == 5);
    assert("title"@[0] == 't');
    assert("title"@[1] == 'i');
    assert("title"@[2] == 't');
    assert("title"@[3] == 'l');
    assert("title"@[4] == 'e');
    reveal_strlit("description");
    assert("description"@.len() == 11);
    assert("description"@[0] == 'd');
    assert("description"@[1] == 'e');
    assert("description"@[2] == 's');
    assert("description"@[3] == 'c');
    assert("description"@[4] == 'r');
    assert("description"@[5] == 'i');
    assert("description"@[6] == 'p');
    assert("description"@[7] == 't');
    assert("description"@[8] == 'i');
    assert("description"@[9] == 'o');
    assert("description"@[10] == 'n');
    reveal_strlit("default");
    assert("default"@.len() == 7);
    assert("default"@[0] == 'd');
    assert("default"@[1] == 'e');
    assert("default"@[2] == 'f');
    assert("default"@[3] == 'a');
    assert("default"@[4] == 'u');
    assert("default"@[5] == 'l');
    assert("default"@[6] == 't');
    reveal_strlit("deprecated");
    assert("deprecated"@.len() == 10);
    assert("deprecated"@[0] == 'd');
    assert("deprecated"@[1] == 'e');
    assert("deprecated"@[2] == 'p');
    assert("deprecated"@[3] == 'r');
    assert("deprecated"@[4] == 'e');
    assert("deprecated"@[5] == 'c');
    assert("deprecated"@[6] == 'a');
    assert("deprecated"@[7] == 't');
    assert("deprecated"@[8] == 'e');
    assert("deprecated"@[9] == 'd');
    reveal_strlit("readOnly");
    assert("readOnly"@.len() == 8);
    assert("readOnly"@[0] == 'r');
    assert("readOnly"@[1] == 'e');
    assert("readOnly"@[2] == 'a');
    assert("readOnly"@[3] == 'd');
    assert("readOnly"@[4] == 'O');
    assert("readOnly"@[5] == 'n');
    assert("readOnly"@[6] == 'l');
    assert("readOnly"@[7] == 'y');
    reveal_strlit("writeOnly");
    assert("writeOnly"@.len() == 9);
    assert("writeOnly"@[0] == 'w');
    assert("writeOnly"@[1] == 'r');
    assert("writeOnly"@[2] == 'i');
    assert("writeOnly"@[3] == 't');
    assert("writeOnly"@[4] == 'e');
    assert("writeOnly"@[5] == 'O');
    assert("writeOnly"@[6] == 'n');
    assert("writeOnly"@[7] == 'l');
    assert("writeOnly"@[8] == 'y');
    reveal_strlit("examples");
    assert("examples"@.len() == 8);
    assert("examples"@[0] == 'e');
    assert("examples"@[1] == 'x');
    assert("examples"@[2] == 'a');
    assert("examples"@[3] == 'm');
    assert("examples"@[4] == 'p');
    assert("examples"@[5] == 'l');
    assert("examples"@[6] == 'e');
    assert("examples"@[7] == 's');
    reveal_strlit("discriminator");
    assert("discriminator"@.len() == 13);
    assert("discriminator"@[0] == 'd');
    assert("discriminator"@[1] == 'i');
    assert("discriminator"@[2] == 's');
    assert("discriminator"@[3] == 'c');
    assert("discriminator"@[4] == 'r');
    assert("discriminator"@[5] == 'i');
    assert("discriminator"@[6] == 'm');
    assert("discriminator"@[7] == 'i');
    assert("discriminator"@[8] == 'n');
    assert("discriminator"@[9] == 'a');
    assert("discriminator"@[10] == 't');
    assert("discriminator"@[11] == 'o');
    assert("discriminator"@[12] == 'r');
    reveal_strlit("xml");
    assert("xml"@.len() == 3);
    assert("xml"@[0] == 'x');
    assert("xml"@[1] == 'm');
    assert("xml"@[2] == 'l');
    reveal_strlit("externalDocs");
    assert("externalDocs"@.len() == 12);
    assert("externalDocs"@[0] == 'e');
    assert("externalDocs"@[1] == 'x');
    assert("externalDocs"@[2] == 't');
    assert("externalDocs"@[3] == 'e');
    assert("externalDocs"@[4] == 'r');
    assert("externalDocs"@[5] == 'n');
    assert("externalDocs"@[6] == 'a');
    assert("externalDocs"@[7] == 'l');
    assert("externalDocs"@[8] == 'D');
    assert("externalDocs"@[9] == 'o');
    assert("externalDocs"@[10] == 'c');
    assert("externalDocs"@[11] == 's');
    reveal_strlit("example");
    assert("example"@.len() == 7);
    assert("example"@[0] == 'e');
    assert("example"@[1] == 'x');
    assert("example"@[2] == 'a');
    assert("example"@[3] == 'm');
    assert("example"@[4] == 'p');
    assert("example"@[5] == 'l');
    assert("example"@[6] == 'e');
    assert forall|i: int, j: int| 0 <= i < j < schema_key_count() implies schema_key(i)
        != schema_key(j) by {
        assert(0 <= i < schema_key_count());
    }
}

// ---------------------------------------------------------------------------
// Encoding
// ---------------------------------------------------------------------------
/// An optional child schema.
pub open spec fn enc_opt_schema(o: Option<Box<SchemaV>>) -> Option<ValS>
    decreases o, 57int,
{
    match o {
        Some(b) => Some(enc_schema(*b)),
        None => None,
    }
}

/// The encodings of a list of child schemas.
pub open spec fn enc_schemas(l: Seq<SchemaV>) -> Seq<ValS>
    decreases l, 57int,
{
    if l.len() == 0 {
        Seq::empty()
    } else {
        seq![enc_schema(l[0])] + enc_schemas(l.skip(1))
    }
}

/// An optional list of child schemas; an empty present list stays present.
pub open spec fn enc_opt_schemas_field(o: Option<Seq<SchemaV>>) -> Option<ValS>
    decreases o, 58int,
{
    match o {
        Some(l) => Some(ValS::Arr(enc_schemas(l))),
        None => None,
    }
}

/// A plain list of child schemas, omitted when empty.
pub open spec fn enc_schemas_field(l: Seq<SchemaV>) -> Option<ValS>
    decreases l, 58int,
{
    if l.len() == 0 {
        None
    } else {
        Some(ValS::Arr(enc_schemas(l)))
    }
}

/// The encodings of a name-to-schema map.
pub open spec fn enc_schema_map_entries(m: Seq<(Seq<char>, SchemaV)>) -> Seq<
    (Seq<char>, ValS),
>
    decreases m, 57int,
{
    if m.len() == 0 {
        Seq::empty()
    } else {
        seq![(m[0].0, enc_schema(m[0].1))] + enc_schema_map_entries(m.skip(1))
    }
}

/// An optional name-to-schema map; an empty present map stays present.
pub open spec fn enc_opt_schema_map_field(o: Option<Seq<(Seq<char>, SchemaV)>>) -> Option<
    ValS,
>
    decreases o, 58int,
{
    match o {
        Some(m) => Some(ValS::Obj(enc_schema_map_entries(m))),
        None => None,
    }
}

/// A plain name-to-schema map, omitted when empty.
pub open spec fn enc_schema_map_field(m: Seq<(Seq<char>, SchemaV)>) -> Option<ValS>
    decreases m, 58int,
{
    if m.len() == 0 {
        None
    } else {
        Some(ValS::Obj(enc_schema_map_entries(m)))
    }
}

/// The type names of a type list, as string values.
pub open spec fn type_vals(l: Seq<Type>) -> Seq<ValS>
    decreases l,
{
    if l.len() == 0 {
        Seq::empty()
    } else {
        seq![ValS::Str(type_label(l[0]))] + type_vals(l.skip(1))
    }
}

/// The `type` keyword: omitted when empty, a bare scalar for exactly one
/// type, a list otherwise.
pub open spec fn enc_types_field(l: Seq<Type>) -> Option<ValS> {
    if l.len() == 0 {
        None
    } else if l.len() == 1 {
        Some(ValS::Str(type_label(l[0])))
    } else {
        Some(ValS::Arr(type_vals(l)))
    }
}

/// The `format` keyword: a recognized tag under its canonical spelling, an
/// unrecognized one verbatim.
pub open spec fn enc_format_field(o: Option<FormatOrStringV>) -> Option<ValS> {
    match o {
        Some(FormatOrStringV::Format(f)) => Some(ValS::Str(format_label(f))),
        Some(FormatOrStringV::Other(t)) => Some(ValS::Str(t)),
        None => None,
    }
}

/// The string lists of a dependent-requirements map, as object entries.
pub open spec fn str_list_entries(m: Seq<(Seq<char>, Seq<Seq<char>>)>) -> Seq<
    (Seq<char>, ValS),
>
    decreases m,
{
    if m.len() == 0 {
        Seq::empty()
    } else {
        seq![(m[0].0, ValS::Arr(strs_to_vals(m[0].1)))] + str_list_entries(m.skip(1))
    }
}

/// A map from names to string lists, omitted when empty.
pub open spec fn enc_str_list_map_field(m: Seq<(Seq<char>, Seq<Seq<char>>)>) -> Option<
    ValS,
> {
    if m.len() == 0 {
        None
    } else {
        Some(ValS::Obj(str_list_entries(m)))
    }
}

/// A Discriminator Object as a value.
pub open spec fn enc_discriminator(d: DiscriminatorV) -> ValS {
    ValS::Obj(
        compact(
            seq![
                ("propertyName"@, Some(ValS::Str(d.property_name))),
                ("mapping"@, enc_str_map(d.mapping)),
            ],
        ),
    )
}

/// An optional Discriminator Object.
pub open spec fn enc_opt_discriminator(o: Option<DiscriminatorV>) -> Option<ValS> {
    match o {
        Some(d) => Some(enc_discriminator(d)),
        None => None,
    }
}

/// An XML Object as a value.
pub open spec fn enc_xml(x: XmlV) -> ValS {
    ValS::Obj(
        compact(
            seq![
                ("name"@, enc_opt_str(x.name)),
                ("namespace"@, enc_opt_str(x.namespace)),
                ("prefix"@, enc_opt_str(x.prefix)),
                ("attribute"@, enc_bool(x.attribute)),
                ("wrapped"@, enc_bool(x.wrapped)),
            ],
        ),
    )
}

/// An optional XML Object.
pub open spec fn enc_opt_xml(o: Option<XmlV>) -> Option<ValS> {
    match o {
        Some(x) => Some(enc_xml(x)),
        None => None,
    }
}

/// An External Documentation Object as a value.
pub open spec fn enc_extdoc(d: ExternalDocumentV) -> ValS {
    ValS::Obj(
        compact(
            seq![
                ("description"@, enc_opt_str(d.description)),
                ("url"@, Some(ValS::Str(d.url))),
            ],
        ),
    )
}

/// An optional External Documentation Object.
pub open spec fn enc_opt_extdoc(o: Option<ExternalDocumentV>) -> Option<ValS> {
    match o {
        Some(d) => Some(enc_extdoc(d)),
        None => None,
    }
}

/// What schema keyword `i` emits for the schema `s`.
pub open spec fn schema_field_enc(s: SchemaV, i: int) -> Option<ValS>
    decreases s, 56int,
{
    if i == 0 {
        enc_opt_str(s.schema)
    } else     if i == 1 {
        enc_opt_str(s.id)
    } else     if i == 2 {
        enc_opt_str(s.ref_uri)
    } else     if i == 3 {
        enc_opt_str(s.comment)
    } else     if i == 4 {
        enc_opt_schemas_field(s.all_of)
    } else     if i == 5 {
        enc_opt_schemas_field(s.any_of)
    } else     if i == 6 {
        enc_opt_schemas_field(s.one_of)
    } else     if i == 7 {
        enc_opt_schema(s.not)
    } else     if i == 8 {
        enc_opt_schema(s.if_schema)
    } else     if i == 9 {
        enc_opt_schema(s.then_schema)
    } else     if i == 10 {
        enc_opt_schema(s.else_schema)
    } else     if i == 11 {
        enc_schema_map_field(s.dependent_schemas)
    } else     if i == 12 {
        enc_schemas_field(s.prefix_items)
    } else     if i == 13 {
        enc_opt_schema(s.items)
    } else     if i == 14 {
        enc_opt_schema(s.contains)
    } else     if i == 15 {
        enc_opt_schema_map_field(s.properties)
    } else     if i == 16 {
        enc_schema_map_field(s.pattern_properties)
    } else     if i == 17 {
        enc_opt_schema(s.additional_properties)
    } else     if i == 18 {
        enc_opt_schema(s.property_names)
    } else     if i == 19 {
        enc_opt_schema(s.unevaluated_items)
    } else     if i == 20 {
        enc_opt_schema(s.unevaluated_properties)
    } else     if i == 21 {
        enc_types_field(s.types)
    } else     if i == 22 {
        enc_str_list(s.enumeration)
    } else     if i == 23 {
        enc_opt_str(s.constant)
    } else     if i == 24 {
        enc_opt_num(s.multiple_of)
    } else     if i == 25 {
        enc_opt_num(s.maximum)
    } else     if i == 26 {
        enc_opt_num(s.exclusive_maximum)
    } else     if i == 27 {
        enc_opt_num(s.minimum)
    } else     if i == 28 {
        enc_opt_num(s.exclusive_minimum)
    } else     if i == 29 {
        enc_opt_size(s.max_length)
    } else     if i == 30 {
        enc_opt_size(s.min_length)
    } else     if i == 31 {
        enc_opt_str(s.pattern)
    } else     if i == 32 {
        enc_opt_size(s.max_items)
    } else     if i == 33 {
        enc_opt_size(s.min_items)
    } else     if i == 34 {
        enc_bool(s.unique_items)
    } else     if i == 35 {
        enc_opt_size(s.max_contains)
    } else     if i == 36 {
        enc_opt_size(s.min_contains)
    } else     if i == 37 {
        enc_opt_size(s.max_properties)
    } else     if i == 38 {
        enc_opt_size(s.min_properties)
    } else     if i == 39 {
        enc_str_list(s.required)
    } else     if i == 40 {
        enc_str_list_map_field(s.dependent_required)
    } else     if i == 41 {
        enc_format_field(s.format)
    } else     if i == 42 {
        enc_opt_str(s.content_encoding)
    } else     if i == 43 {
        enc_opt_str(s.content_media_type)
    } else     if i == 44 {
        enc_opt_schema(s.content_schema)
    } else     if i == 45 {
        enc_opt_str(s.title)
    } else     if i == 46 {
        enc_opt_str(s.description)
    } else     if i == 47 {
        enc_opt_val(s.default)
    } else     if i == 48 {
        enc_bool(s.deprecated)
    } else     if i == 49 {
        enc_bool(s.read_only)
    } else     if i == 50 {
        enc_bool(s.write_only)
    } else     if i == 51 {
        enc_val_list(s.examples)
    } else     if i == 52 {
        enc_opt_discriminator(s.discriminator)
    } else     if i == 53 {
        enc_opt_xml(s.xml)
    } else     if i == 54 {
        enc_opt_extdoc(s.external_docs)
    } else {
        enc_opt_val(s.example)
    }
}

/// The keyword entries of `s`, from keyword `i` on.
pub open spec fn schema_entries_from(s: SchemaV, i: int) -> Seq<
    (Seq<char>, Option<ValS>),
>
    decreases s, 120int - i,
{
    if i < 0 || i >= schema_key_count() {
        Seq::empty()
    } else {
        seq![(schema_key(i), schema_field_enc(s, i))] + schema_entries_from(s, i + 1)
    }
}

/// All keyword entries of `s`, in emission order.
pub open spec fn schema_entries(s: SchemaV) -> Seq<(Seq<char>, Option<ValS>)>
    decreases s, 121int,
{
    schema_entries_from(s, 0)
}

/// A schema as a value: the present keywords, then the extensions.
pub open spec fn enc_schema(s: SchemaV) -> ValS
    decreases s, 122int,
{
    ValS::Obj(compact(schema_entries(s)) + s.extensions)
}

/// The keyword entries index as expected.
pub proof fn lemma_schema_entries_index(s: SchemaV)
    ensures
        schema_entries(s).len() == schema_key_count(),
        forall|i: int| 0 <= i < schema_key_count() ==> schema_entries(s)[i] == (
        schema_key(i), schema_field_enc(s, i)),
{
    lemma_schema_entries_from_index(s, 0);
}

proof fn lemma_schema_entries_from_index(s: SchemaV, i: int)
    requires
        0 <= i <= schema_key_count(),
    ensures
        schema_entries_from(s, i).len() == schema_key_count() - i,
        forall|j: int| i <= j < schema_key_count() ==> schema_entries_from(s, i)[j - i]
            == (schema_key(j), schema_field_enc(s, j)),
    decreases schema_key_count() - i,
{
    if i < schema_key_count() {
        lemma_schema_entries_from_index(s, i + 1);
        assert forall|j: int| i <= j < schema_key_count() implies schema_entries_from(
            s,
            i,
        )[j - i] == (schema_key(j), schema_field_enc(s, j)) by {
            if j > i {
                assert(schema_entries_from(s, i)[j - i] == schema_entries_from(s, i + 1)[j
                    - i - 1]);
            }
        }
    }
}

// ---------------------------------------------------------------------------
// Decoding
// ---------------------------------------------------------------------------
/// The error of a failed field, if it failed.
pub open spec fn err_of<T>(r: Result<T, DecodeError>) -> Option<DecodeError> {
    match r {
        Ok(_) => None,
        Err(e) => Some(e),
    }
}

/// The payload of a field that did not fail, or `d` if it did.
pub open spec fn ok_or<T>(r: Result<T, DecodeError>, d: T) -> T {
    match r {
        Ok(t) => t,
        Err(_) => d,
    }
}

/// Read an optional child schema.
pub open spec fn dec_opt_schema_field(es: Seq<(Seq<char>, ValS)>, k: Seq<char>) -> Result<
    Option<Box<SchemaV>>,
    DecodeError,
>
    decreases vsize_entries(es), 6int, 0int,
        via dec_opt_schema_field_decreases
{
    match lookup(es, k) {
        None => Ok(None),
        Some(ValS::Null) => Ok(None),
        Some(v) => match dec_schema(v) {
            Ok(c) => Ok(Some(Box::new(c))),
            Err(e) => Err(e),
        },
    }
}

#[via_fn]
proof fn dec_opt_schema_field_decreases(es: Seq<(Seq<char>, ValS)>, k: Seq<char>) {
    lemma_lookup_vsize(es, k);
}

/// Read the elements of a schema list.
pub open spec fn dec_schemas(vs: Seq<ValS>) -> Result<Seq<SchemaV>, DecodeError>
    decreases vsize_list(vs), 5int, 0int,
{
    if vs.len() == 0 {
        Ok(Seq::empty())
    } else {
        match dec_schema(vs[0]) {
            Ok(c) => match dec_schemas(vs.skip(1)) {
                Ok(rest) => Ok(seq![c] + rest),
                Err(e) => Err(e),
            },
            Err(e) => Err(e),
        }
    }
}

/// Read an optional schema list.
pub open spec fn dec_opt_schemas_field(es: Seq<(Seq<char>, ValS)>, k: Seq<char>) -> Result<
    Option<Seq<SchemaV>>,
    DecodeError,
>
    decreases vsize_entries(es), 6int, 0int,
        via dec_opt_schemas_field_decreases
{
    match lookup(es, k) {
        None => Ok(None),
        Some(ValS::Null) => Ok(None),
        Some(ValS::Arr(vs)) => match dec_schemas(vs) {
            Ok(l) => Ok(Some(l)),
            Err(e) => Err(e),
        },
        Some(_) => Err(DecodeError::ExpectedArray),
    }
}

#[via_fn]
proof fn dec_opt_schemas_field_decreases(es: Seq<(Seq<char>, ValS)>, k: Seq<char>) {
    lemma_lookup_vsize(es, k);
}

/// Read a plain schema list that defaults to empty.
pub open spec fn dec_schemas_list_field(es: Seq<(Seq<char>, ValS)>, k: Seq<char>) -> Result<
    Seq<SchemaV>,
    DecodeError,
>
    decreases vsize_entries(es), 6int, 0int,
        via dec_schemas_list_field_decreases
{
    match lookup(es, k) {
        None => Ok(Seq::empty()),
        Some(ValS::Arr(vs)) => dec_schemas(vs),
        Some(_) => Err(DecodeError::ExpectedArray),
    }
}

#[via_fn]
proof fn dec_schemas_list_field_decreases(es: Seq<(Seq<char>, ValS)>, k: Seq<char>) {
    lemma_lookup_vsize(es, k);
}

/// Read the entries of a name-to-schema map.
pub open spec fn dec_schema_map(m: Seq<(Seq<char>, ValS)>) -> Result<
    Seq<(Seq<char>, SchemaV)>,
    DecodeError,
>
    decreases vsize_entries(m), 5int, 0int,
{
    if m.len() == 0 {
        Ok(Seq::empty())
    } else {
        match dec_schema(m[0].1) {
            Ok(c) => match dec_schema_map(m.skip(1)) {
                Ok(rest) => Ok(seq![(m[0].0, c)] + rest),
                Err(e) => Err(e),
            },
            Err(e) => Err(e),
        }
    }
}

/// Read an optional name-to-schema map.
pub open spec fn dec_opt_schema_map_field(es: Seq<(Seq<char>, ValS)>, k: Seq<char>) -> Result<
    Option<Seq<(Seq<char>, SchemaV)>>,
    DecodeError,
>
    decreases vsize_entries(es), 6int, 0int,
        via dec_opt_schema_map_field_decreases
{
    match lookup(es, k) {
        None => Ok(None),
        Some(ValS::Null) => Ok(None),
        Some(ValS::Obj(m)) => match dec_schema_map(m) {
            Ok(l) => Ok(Some(l)),
            Err(e) => Err(e),
        },
        Some(_) => Err(DecodeError::ExpectedObject),
    }
}

#[via_fn]
proof fn dec_opt_schema_map_field_decreases(es: Seq<(Seq<char>, ValS)>, k: Seq<char>) {
    lemma_lookup_vsize(es, k);
}

/// Read a plain name-to-schema map that defaults to empty.
pub open spec fn dec_schema_map_field(es: Seq<(Seq<char>, ValS)>, k: Seq<char>) -> Result<
    Seq<(Seq<char>, SchemaV)>,
    DecodeError,
>
    decreases vsize_entries(es), 6int, 0int,
        via dec_schema_map_field_decreases
{
    match lookup(es, k) {
        None => Ok(Seq::empty()),
        Some(ValS::Obj(m)) => dec_schema_map(m),
        Some(_) => Err(DecodeError::ExpectedObject),
    }
}

#[via_fn]
proof fn dec_schema_map_field_decreases(es: Seq<(Seq<char>, ValS)>, k: Seq<char>) {
    lemma_lookup_vsize(es, k);
}

/// Read the elements of a type list.
pub open spec fn dec_type_list(vs: Seq<ValS>) -> Result<Seq<Type>, DecodeError>
    decreases vs.len(),
{
    if vs.len() == 0 {
        Ok(Seq::empty())
    } else {
        match vs[0] {
            ValS::Str(t) => match type_of_name(t) {
                Some(ty) => match dec_type_list(vs.skip(1)) {
                    Ok(rest) => Ok(seq![ty] + rest),
                    Err(e) => Err(e),
                },
                None => Err(DecodeError::UnknownVariant),
            },
            _ => Err(DecodeError::ExpectedString),
        }
    }
}

/// Read the `type` keyword: a bare scalar or a list of type names.
pub open spec fn dec_types_field(es: Seq<(Seq<char>, ValS)>, k: Seq<char>) -> Result<
    Seq<Type>,
    DecodeError,
> {
    match lookup(es, k) {
        None => Ok(Seq::empty()),
        Some(ValS::Str(t)) => match type_of_name(t) {
            Some(ty) => Ok(seq![ty]),
            None => Err(DecodeError::UnknownVariant),
        },
        Some(ValS::Arr(vs)) => dec_type_list(vs),
        Some(_) => Err(DecodeError::ExpectedString),
    }
}

/// Read the `format` keyword: a recognized tag or a verbatim string.
pub open spec fn dec_format_field(es: Seq<(Seq<char>, ValS)>, k: Seq<char>) -> Result<
    Option<FormatOrStringV>,
    DecodeError,
> {
    match lookup(es, k) {
        None => Ok(None),
        Some(ValS::Null) => Ok(None),
        Some(ValS::Str(t)) => match format_of_name(t) {
            Some(f) => Ok(Some(FormatOrStringV::Format(f))),
            None => Ok(Some(FormatOrStringV::Other(t))),
        },
        Some(_) => Err(DecodeError::ExpectedString),
    }
}

/// Read the entries of a map from names to string lists.
pub open spec fn dec_str_list_entries(m: Seq<(Seq<char>, ValS)>) -> Result<
    Seq<(Seq<char>, Seq<Seq<char>>)>,
    DecodeError,
>
    decreases m.len(),
{
    if m.len() == 0 {
        Ok(Seq::empty())
    } else {
        match m[0].1 {
            ValS::Arr(vs) => if all_strs(vs) {
                match dec_str_list_entries(m.skip(1)) {
                    Ok(rest) => Ok(seq![(m[0].0, strs_of(vs))] + rest),
                    Err(e) => Err(e),
                }
            } else {
                Err(DecodeError::ExpectedString)
            },
            _ => Err(DecodeError::ExpectedArray),
        }
    }
}

/// Read a map from names to string lists that defaults to empty.
pub open spec fn dec_str_list_map_field(es: Seq<(Seq<char>, ValS)>, k: Seq<char>) -> Result<
    Seq<(Seq<char>, Seq<Seq<char>>)>,
    DecodeError,
> {
    match lookup(es, k) {
        None => Ok(Seq::empty()),
        Some(ValS::Obj(m)) => dec_str_list_entries(m),
        Some(_) => Err(DecodeError::ExpectedObject),
    }
}

/// Read a Discriminator Object.
pub open spec fn dec_discriminator(v: ValS) -> Result<DiscriminatorV, DecodeError> {
    match v {
        ValS::Obj(es) => match dec_req_str_field(es, "propertyName"@) {
            Ok(pn) => match dec_str_map_field(es, "mapping"@) {
                Ok(m) => Ok(DiscriminatorV { property_name: pn, mapping: m }),
                Err(e) => Err(e),
            },
            Err(e) => Err(e),
        },
        _ => Err(DecodeError::ExpectedObject),
    }
}

/// Read an optional Discriminator Object.
pub open spec fn dec_opt_discriminator_field(
    es: Seq<(Seq<char>, ValS)>,
    k: Seq<char>,
) -> Result<Option<DiscriminatorV>, DecodeError> {
    match lookup(es, k) {
        None => Ok(None),
        Some(ValS::Null) => Ok(None),
        Some(v) => match dec_discriminator(v) {
            Ok(d) => Ok(Some(d)),
            Err(e) => Err(e),
        },
    }
}

/// Read an XML Object.
pub open spec fn dec_xml(v: ValS) -> Result<XmlV, DecodeError> {
    match v {
        ValS::Obj(es) => match (
            dec_opt_str_field(es, "name"@),
            dec_opt_str_field(es, "namespace"@),
            dec_opt_str_field(es, "prefix"@),
            dec_bool_field(es, "attribute"@),
            dec_bool_field(es, "wrapped"@),
        ) {
            (Ok(n), Ok(ns), Ok(p), Ok(a), Ok(w)) => Ok(
                XmlV { name: n, namespace: ns, prefix: p, attribute: a, wrapped: w },
            ),
            (Err(e), _, _, _, _) => Err(e),
            (_, Err(e), _, _, _) => Err(e),
            (_, _, Err(e), _, _) => Err(e),
            (_, _, _, Err(e), _) => Err(e),
            (_, _, _, _, Err(e)) => Err(e),
        },
        _ => Err(DecodeError::ExpectedObject),
    }
}

/// Read an optional XML Object.
pub open spec fn dec_opt_xml_field(es: Seq<(Seq<char>, ValS)>, k: Seq<char>) -> Result<
    Option<XmlV>,
    DecodeError,
> {
    match lookup(es, k) {
        None => Ok(None),
        Some(ValS::Null) => Ok(None),
        Some(v) => match dec_xml(v) {
            Ok(x) => Ok(Some(x)),
            Err(e) => Err(e),
        },
    }
}

/// Read an External Documentation Object.
pub open spec fn dec_extdoc(v: ValS) -> Result<ExternalDocumentV, DecodeError> {
    match v {
        ValS::Obj(es) => match dec_opt_str_field(es, "description"@) {
            Ok(d) => match dec_req_str_field(es, "url"@) {
                Ok(u) => Ok(ExternalDocumentV { description: d, url: u }),
                Err(e) => Err(e),
            },
            Err(e) => Err(e),
        },
        _ => Err(DecodeError::ExpectedObject),
    }
}

/// Read an optional External Documentation Object.
pub open spec fn dec_opt_extdoc_field(es: Seq<(Seq<char>, ValS)>, k: Seq<char>) -> Result<
    Option<ExternalDocumentV>,
    DecodeError,
> {
    match lookup(es, k) {
        None => Ok(None),
        Some(ValS::Null) => Ok(None),
        Some(v) => match dec_extdoc(v) {
            Ok(d) => Ok(Some(d)),
            Err(e) => Err(e),
        },
    }
}

/// The entries whose keys are not schema keywords, in order.
pub open spec fn drop_known(es: Seq<(Seq<char>, ValS)>) -> Seq<(Seq<char>, ValS)>
    decreases es.len(),
{
    if es.len() == 0 {
        Seq::empty()
    } else if is_schema_key(es[0].0) {
        drop_known(es.skip(1))
    } else {
        seq![es[0]] + drop_known(es.skip(1))
    }
}

/// What decoding schema keyword `i` from `es` reports.
pub open spec fn schema_field_err(es: Seq<(Seq<char>, ValS)>, i: int) -> Option<
    DecodeError,
>
    decreases vsize_entries(es), 7int, 0int,
{
    if i == 0 {
        err_of(dec_opt_str_field(es, schema_key(0)))
    } else     if i == 1 {
        err_of(dec_opt_str_field(es, schema_key(1)))
    } else     if i == 2 {
        err_of(dec_opt_str_field(es, schema_key(2)))
    } else     if i == 3 {
        err_of(dec_opt_str_field(es, schema_key(3)))
    } else     if i == 4 {
        err_of(dec_opt_schemas_field(es, schema_key(4)))
    } else     if i == 5 {
        err_of(dec_opt_schemas_field(es, schema_key(5)))
    } else     if i == 6 {
        err_of(dec_opt_schemas_field(es, schema_key(6)))
    } else     if i == 7 {
        err_of(dec_opt_schema_field(es, schema_key(7)))
    } else     if i == 8 {
        err_of(dec_opt_schema_field(es, schema_key(8)))
    } else     if i == 9 {
        err_of(dec_opt_schema_field(es, schema_key(9)))
    } else     if i == 10 {
        err_of(dec_opt_schema_field(es, schema_key(10)))
    } else     if i == 11 {
        err_of(dec_schema_map_field(es, schema_key(11)))
    } else     if i == 12 {
        err_of(dec_schemas_list_field(es, schema_key(12)))
    } else     if i == 13 {
        err_of(dec_opt_schema_field(es, schema_key(13)))
    } else     if i == 14 {
        err_of(dec_opt_schema_field(es, schema_key(14)))
    } else     if i == 15 {
        err_of(dec_opt_schema_map_field(es, schema_key(15)))
    } else     if i == 16 {
        err_of(dec_schema_map_field(es, schema_key(16)))
    } else     if i == 17 {
        err_of(dec_opt_schema_field(es, schema_key(17)))
    } else     if i == 18 {
        err_of(dec_opt_schema_field(es, schema_key(18)))
    } else     if i == 19 {
        err_of(dec_opt_schema_field(es, schema_key(19)))
    } else     if i == 20 {
        err_of(dec_opt_schema_field(es, schema_key(20)))
    } else     if i == 21 {
        err_of(dec_types_field(es, schema_key(21)))
    } else     if i == 22 {
        err_of(dec_str_list_field(es, schema_key(22)))
    } else     if i == 23 {
        err_of(dec_opt_str_field(es, schema_key(23)))
    } else     if i == 24 {
        err_of(dec_opt_num_field(es, schema_key(24)))
    } else     if i == 25 {
        err_of(dec_opt_num_field(es, schema_key(25)))
    } else     if i == 26 {
        err_of(dec_opt_num_field(es, schema_key(26)))
    } else     if i == 27 {
        err_of(dec_opt_num_field(es, schema_key(27)))
    } else     if i == 28 {
        err_of(dec_opt_num_field(es, schema_key(28)))
    } else     if i == 29 {
        err_of(dec_opt_size_field(es, schema_key(29)))
    } else     if i == 30 {
        err_of(dec_opt_size_field(es, schema_key(30)))
    } else     if i == 31 {
        err_of(dec_opt_str_field(es, schema_key(31)))
    } else     if i == 32 {
        err_of(dec_opt_size_field(es, schema_key(32)))
    } else     if i == 33 {
        err_of(dec_opt_size_field(es, schema_key(33)))
    } else     if i == 34 {
        err_of(dec_bool_field(es, schema_key(34)))
    } else     if i == 35 {
        err_of(dec_opt_size_field(es, schema_key(35)))
    } else     if i == 36 {
        err_of(dec_opt_size_field(es, schema_key(36)))
    } else     if i == 37 {
        err_of(dec_opt_size_field(es, schema_key(37)))
    } else     if i == 38 {
        err_of(dec_opt_size_field(es, schema_key(38)))
    } else     if i == 39 {
        err_of(dec_str_list_field(es, schema_key(39)))
    } else     if i == 40 {
        err_of(dec_str_list_map_field(es, schema_key(40)))
    } else     if i == 41 {
        err_of(dec_format_field(es, schema_key(41)))
    } else     if i == 42 {
        err_of(dec_opt_str_field(es, schema_key(42)))
    } else     if i == 43 {
        err_of(dec_opt_str_field(es, schema_key(43)))
    } else     if i == 44 {
        err_of(dec_opt_schema_field(es, schema_key(44)))
    } else     if i == 45 {
        err_of(dec_opt_str_field(es, schema_key(45)))
    } else     if i == 46 {
        err_of(dec_opt_str_field(es, schema_key(46)))
    } else     if i == 47 {
        err_of(dec_opt_val_field(es, schema_key(47)))
    } else     if i == 48 {
        err_of(dec_bool_field(es, schema_key(48)))
    } else     if i == 49 {
        err_of(dec_bool_field(es, schema_key(49)))
    } else     if i == 50 {
        err_of(dec_bool_field(es, schema_key(50)))
    } else     if i == 51 {
        err_of(dec_val_list_field(es, schema_key(51)))
    } else     if i == 52 {
        err_of(dec_opt_discriminator_field(es, schema_key(52)))
    } else     if i == 53 {
        err_of(dec_opt_xml_field(es, schema_key(53)))
    } else     if i == 54 {
        err_of(dec_opt_extdoc_field(es, schema_key(54)))
    } else {
        err_of(dec_opt_val_field(es, schema_key(55)))
    }
}

/// The first failing keyword from `i` on, if any.
pub open spec fn schema_first_err_from(es: Seq<(Seq<char>, ValS)>, i: int) -> Option<
    DecodeError,
>
    decreases vsize_entries(es), 8int, 56int - i,
{
    if i < 0 || i >= schema_key_count() {
        None
    } else {
        match schema_field_err(es, i) {
            Some(e) => Some(e),
            None => schema_first_err_from(es, i + 1),
        }
    }
}

/// Read a schema from object entries: every keyword by key, the unknown
/// keys into the extensions, the first failing keyword's error if any.
pub open spec fn dec_schema_obj(es: Seq<(Seq<char>, ValS)>) -> Result<
    SchemaV,
    DecodeError,
>
    decreases vsize_entries(es), 9int, 0int,
{
    match schema_first_err_from(es, 0) {
        Some(e) => Err(e),
        None => Ok(
            SchemaV {
            schema: ok_or(dec_opt_str_field(es, schema_key(0)), None),
            id: ok_or(dec_opt_str_field(es, schema_key(1)), None),
            ref_uri: ok_or(dec_opt_str_field(es, schema_key(2)), None),
            comment: ok_or(dec_opt_str_field(es, schema_key(3)), None),
            all_of: ok_or(dec_opt_schemas_field(es, schema_key(4)), None),
            any_of: ok_or(dec_opt_schemas_field(es, schema_key(5)), None),
            one_of: ok_or(dec_opt_schemas_field(es, schema_key(6)), None),
            not: ok_or(dec_opt_schema_field(es, schema_key(7)), None),
            if_schema: ok_or(dec_opt_schema_field(es, schema_key(8)), None),
            then_schema: ok_or(dec_opt_schema_field(es, schema_key(9)), None),
            else_schema: ok_or(dec_opt_schema_field(es, schema_key(10)), None),
            dependent_schemas: ok_or(dec_schema_map_field(es, schema_key(11)), Seq::empty()),
            prefix_items: ok_or(dec_schemas_list_field(es, schema_key(12)), Seq::empty()),
            items: ok_or(dec_opt_schema_field(es, schema_key(13)), None),
            contains: ok_or(dec_opt_schema_field(es, schema_key(14)), None),
            properties: ok_or(dec_opt_schema_map_field(es, schema_key(15)), None),
            pattern_properties: ok_or(dec_schema_map_field(es, schema_key(16)), Seq::empty()),
            additional_properties: ok_or(dec_opt_schema_field(es, schema_key(17)), None),
            property_names: ok_or(dec_opt_schema_field(es, schema_key(18)), None),
            unevaluated_items: ok_or(dec_opt_schema_field(es, schema_key(19)), None),
            unevaluated_properties: ok_or(dec_opt_schema_field(es, schema_key(20)), None),
            types: ok_or(dec_types_field(es, schema_key(21)), Seq::empty()),
            enumeration: ok_or(dec_str_list_field(es, schema_key(22)), Seq::empty()),
            constant: ok_or(dec_opt_str_field(es, schema_key(23)), None),
            multiple_of: ok_or(dec_opt_num_field(es, schema_key(24)), None),
            maximum: ok_or(dec_opt_num_field(es, schema_key(25)), None),
            exclusive_maximum: ok_or(dec_opt_num_field(es, schema_key(26)), None),
            minimum: ok_or(dec_opt_num_field(es, schema_key(27)), None),
            exclusive_minimum: ok_or(dec_opt_num_field(es, schema_key(28)), None),
            max_length: ok_or(dec_opt_size_field(es, schema_key(29)), None),
            min_length: ok_or(dec_opt_size_field(es, schema_key(30)), None),
            pattern: ok_or(dec_opt_str_field(es, schema_key(31)), None),
            max_items: ok_or(dec_opt_size_field(es, schema_key(32)), None),
            min_items: ok_or(dec_opt_size_field(es, schema_key(33)), None),
            unique_items: ok_or(dec_bool_field(es, schema_key(34)), false),
            max_contains: ok_or(dec_opt_size_field(es, schema_key(35)), None),
            min_contains: ok_or(dec_opt_size_field(es, schema_key(36)), None),
            max_properties: ok_or(dec_opt_size_field(es, schema_key(37)), None),
            min_properties: ok_or(dec_opt_size_field(es, schema_key(38)), None),
            required: ok_or(dec_str_list_field(es, schema_key(39)), Seq::empty()),
            dependent_required: ok_or(dec_str_list_map_field(es, schema_key(40)), Seq::empty()),
            format: ok_or(dec_format_field(es, schema_key(41)), None),
            content_encoding: ok_or(dec_opt_str_field(es, schema_key(42)), None),
            content_media_type: ok_or(dec_opt_str_field(es, schema_key(43)), None),
            content_schema: ok_or(dec_opt_schema_field(es, schema_key(44)), None),
            title: ok_or(dec_opt_str_field(es, schema_key(45)), None),
            description: ok_or(dec_opt_str_field(es, schema_key(46)), None),
            default: ok_or(dec_opt_val_field(es, schema_key(47)), None),
            deprecated: ok_or(dec_bool_field(es, schema_key(48)), false),
            read_only: ok_or(dec_bool_field(es, schema_key(49)), false),
            write_only: ok_or(dec_bool_field(es, schema_key(50)), false),
            examples: ok_or(dec_val_list_field(es, schema_key(51)), Seq::empty()),
            discriminator: ok_or(dec_opt_discriminator_field(es, schema_key(52)), None),
            xml: ok_or(dec_opt_xml_field(es, schema_key(53)), None),
            external_docs: ok_or(dec_opt_extdoc_field(es, schema_key(54)), None),
            example: ok_or(dec_opt_val_field(es, schema_key(55)), None),
                extensions: drop_known(es),
            },
        ),
    }
}

/// Read a schema from a value, which must be an object.
pub open spec fn dec_schema(v: ValS) -> Result<SchemaV, DecodeError>
    decreases vsize(v), 10int, 0int,
{
    match v {
        ValS::Obj(es) => dec_schema_obj(es),
        _ => Err(DecodeError::ExpectedObject),
    }
}

// ---------------------------------------------------------------------------
// Well-formedness: the conditions under which decoding undoes encoding
// ---------------------------------------------------------------------------
/// A schema model the codec round-trips: extension keys are not keywords,
/// an unrecognized format tag really is unrecognized, the free-form value
/// keywords are not a literal null, and every child schema is the same.
pub open spec fn wf_schema(s: SchemaV) -> bool
    decreases s, 1int,
{
    &&& forall|j: int| 0 <= j < s.extensions.len() ==> !is_schema_key(
        #[trigger] s.extensions[j].0,
    )
    &&& match s.format {
        Some(FormatOrStringV::Other(t)) => format_of_name(t) is None,
        _ => true,
    }
    &&& s.default != Some(ValS::Null)
    &&& s.example != Some(ValS::Null)
    &&& wf_opt_schemas(s.all_of)
    &&& wf_opt_schemas(s.any_of)
    &&& wf_opt_schemas(s.one_of)
    &&& wf_opt_schema(s.not)
    &&& wf_opt_schema(s.if_schema)
    &&& wf_opt_schema(s.then_schema)
    &&& wf_opt_schema(s.else_schema)
    &&& wf_schema_map(s.dependent_schemas)
    &&& wf_schemas(s.prefix_items)
    &&& wf_opt_schema(s.items)
    &&& wf_opt_schema(s.contains)
    &&& wf_opt_schema_map(s.properties)
    &&& wf_schema_map(s.pattern_properties)
    &&& wf_opt_schema(s.additional_properties)
    &&& wf_opt_schema(s.property_names)
    &&& wf_opt_schema(s.unevaluated_items)
    &&& wf_opt_schema(s.unevaluated_properties)
    &&& wf_opt_schema(s.content_schema)
}

/// Well-formedness of an optional child schema.
pub open spec fn wf_opt_schema(o: Option<Box<SchemaV>>) -> bool
    decreases o, 2int,
{
    match o {
        Some(b) => wf_schema(*b),
        None => true,
    }
}

/// Well-formedness of every schema in a list.
pub open spec fn wf_schemas(l: Seq<SchemaV>) -> bool
    decreases l, 2int,
{
    if l.len() == 0 {
        true
    } else {
        wf_schema(l[0]) && wf_schemas(l.skip(1))
    }
}

/// Well-formedness of an optional schema list.
pub open spec fn wf_opt_schemas(o: Option<Seq<SchemaV>>) -> bool
    decreases o, 3int,
{
    match o {
        Some(l) => wf_schemas(l),
        None => true,
    }
}

/// Well-formedness of every schema in a name-to-schema map.
pub open spec fn wf_schema_map(m: Seq<(Seq<char>, SchemaV)>) -> bool
    decreases m, 2int,
{
    if m.len() == 0 {
        true
    } else {
        wf_schema(m[0].1) && wf_schema_map(m.skip(1))
    }
}

/// Well-formedness of an optional name-to-schema map.
pub open spec fn wf_opt_schema_map(o: Option<Seq<(Seq<char>, SchemaV)>>) -> bool
    decreases o, 3int,
{
    match o {
        Some(m) => wf_schema_map(m),
        None => true,
    }
}

// ---------------------------------------------------------------------------
// Round trips of the satellite shapes
// ---------------------------------------------------------------------------
/// The object entries a schema encodes to.
pub open spec fn schema_es(s: SchemaV) -> Seq<(Seq<char>, ValS)> {
    compact(schema_entries(s)) + s.extensions
}

/// Reading back an emitted type list yields the same list.
pub proof fn lemma_type_list_rt(l: Seq<Type>)
    ensures
        dec_type_list(type_vals(l)) == Ok::<Seq<Type>, DecodeError>(l),
    decreases l.len(),
{
    if l.len() == 0 {
        assert(type_vals(l) =~= Seq::<ValS>::empty());
        assert(l =~= Seq::<Type>::empty());
    } else {
        lemma_type_list_rt(l.skip(1));
        lemma_type_label_round_trip(l[0]);
        assert(type_vals(l)[0] == ValS::Str(type_label(l[0])));
        assert(type_vals(l).skip(1) =~= type_vals(l.skip(1)));
        assert(seq![l[0]] + l.skip(1) =~= l);
    }
}

/// Reading back an emitted map of string lists yields the same map.
pub proof fn lemma_str_list_entries_rt(m: Seq<(Seq<char>, Seq<Seq<char>>)>)
    ensures
        dec_str_list_entries(str_list_entries(m)) == Ok::<Seq<(Seq<char>, Seq<Seq<char>>)>, DecodeError>(m),
    decreases m.len(),
{
    if m.len() == 0 {
        assert(str_list_entries(m) =~= Seq::<(Seq<char>, ValS)>::empty());
        assert(m =~= Seq::<(Seq<char>, Seq<Seq<char>>)>::empty());
    } else {
        lemma_str_list_entries_rt(m.skip(1));
        assert(str_list_entries(m)[0] == (m[0].0, ValS::Arr(strs_to_vals(m[0].1))));
        assert(str_list_entries(m).skip(1) =~= str_list_entries(m.skip(1)));
        assert(all_strs(strs_to_vals(m[0].1))) by {
            assert forall|i: int| 0 <= i < strs_to_vals(m[0].1).len() implies strs_to_vals(
                m[0].1,
            )[i] is Str by {}
        }
        assert(strs_of(strs_to_vals(m[0].1)) =~= m[0].1);
        assert(seq![(m[0].0, m[0].1)] + m.skip(1) =~= m);
        assert((m[0].0, m[0].1) == m[0]);
    }
}

/// Reading back an emitted Discriminator Object yields the same value.
pub proof fn lemma_discriminator_rt(d: DiscriminatorV)
    ensures
        dec_discriminator(enc_discriminator(d)) == Ok::<DiscriminatorV, DecodeError>(d),
{
    reveal_strlit("propertyName");
    reveal_strlit("mapping");
    assert("propertyName"@.len() == 12);
    assert("mapping"@.len() == 7);
    let entries = seq![
        ("propertyName"@, Some(ValS::Str(d.property_name))),
        ("mapping"@, enc_str_map(d.mapping)),
    ];
    let ext = Seq::<(Seq<char>, ValS)>::empty();
    assert(entries[0] == ("propertyName"@, Some(ValS::Str(d.property_name))));
    assert(entries[1] == ("mapping"@, enc_str_map(d.mapping)));
    assert(compact(entries) + ext =~= compact(entries));
    lemma_lookup_compact(entries, ext, 0);
    lemma_lookup_compact(entries, ext, 1);
    crate::codec::lemma_str_map_round_trip(d.mapping);
    if d.mapping.len() == 0 {
        assert(d.mapping =~= Seq::<(Seq<char>, Seq<char>)>::empty());
    } else {
        assert(str_entries_of(strs_to_entries(d.mapping)) == d.mapping);
    }
    assert(dec_discriminator(enc_discriminator(d))->Ok_0 =~= d);
}

/// Reading back an emitted XML Object yields the same value.
pub proof fn lemma_xml_rt(x: XmlV)
    ensures
        dec_xml(enc_xml(x)) == Ok::<XmlV, DecodeError>(x),
{
    reveal_strlit("name");
    reveal_strlit("namespace");
    reveal_strlit("prefix");
    reveal_strlit("attribute");
    reveal_strlit("wrapped");
    assert("name"@.len() == 4);
    assert("namespace"@.len() == 9);
    assert("prefix"@.len() == 6);
    assert("attribute"@.len() == 9);
    assert("wrapped"@.len() == 7);
    assert("namespace"@[0] == 'n');
    assert("attribute"@[0] == 'a');
    let entries = seq![
        ("name"@, enc_opt_str(x.name)),
        ("namespace"@, enc_opt_str(x.namespace)),
        ("prefix"@, enc_opt_str(x.prefix)),
        ("attribute"@, enc_bool(x.attribute)),
        ("wrapped"@, enc_bool(x.wrapped)),
    ];
    let ext = Seq::<(Seq<char>, ValS)>::empty();
    assert(entries[0] == ("name"@, enc_opt_str(x.name)));
    assert(entries[1] == ("namespace"@, enc_opt_str(x.namespace)));
    assert(entries[2] == ("prefix"@, enc_opt_str(x.prefix)));
    assert(entries[3] == ("attribute"@, enc_bool(x.attribute)));
    assert(entries[4] == ("wrapped"@, enc_bool(x.wrapped)));
    assert(compact(entries) + ext =~= compact(entries));
    lemma_lookup_compact(entries, ext, 0);
    lemma_lookup_compact(entries, ext, 1);
    lemma_lookup_compact(entries, ext, 2);
    lemma_lookup_compact(entries, ext, 3);
    lemma_lookup_compact(entries, ext, 4);
    assert(dec_xml(enc_xml(x))->Ok_0 =~= x);
}

/// Reading back an emitted External Documentation Object yields the same
/// value.
pub proof fn lemma_extdoc_rt(d: ExternalDocumentV)
    ensures
        dec_extdoc(enc_extdoc(d)) == Ok::<ExternalDocumentV, DecodeError>(d),
{
    reveal_strlit("description");
    reveal_strlit("url");
    assert("description"@.len() == 11);
    assert("url"@.len() == 3);
    let entries = seq![
        ("description"@, enc_opt_str(d.description)),
        ("url"@, Some(ValS::Str(d.url))),
    ];
    let ext = Seq::<(Seq<char>, ValS)>::empty();
    assert(entries[0] == ("description"@, enc_opt_str(d.description)));
    assert(entries[1] == ("url"@, Some(ValS::Str(d.url))));
    assert(compact(entries) + ext =~= compact(entries));
    lemma_lookup_compact(entries, ext, 0);
    lemma_lookup_compact(entries, ext, 1);
    assert(dec_extdoc(enc_extdoc(d))->Ok_0 =~= d);
}

/// Entries with keyword keys vanish under the extension filter and entries
/// without them survive unchanged.
proof fn lemma_drop_known_split(
    entries: Seq<(Seq<char>, Option<ValS>)>,
    ext: Seq<(Seq<char>, ValS)>,
)
    requires
        forall|j: int| 0 <= j < entries.len() ==> is_schema_key(
            #[trigger] entries[j].0,
        ),
        forall|j: int| 0 <= j < ext.len() ==> !is_schema_key(#[trigger] ext[j].0),
    ensures
        drop_known(compact(entries) + ext) =~= ext,
    decreases entries.len(),
{
    if entries.len() == 0 {
        assert(compact(entries) + ext =~= ext);
        lemma_drop_known_keeps_unknown(ext);
    } else {
        lemma_drop_known_split(entries.skip(1), ext);
        match entries[0].1 {
            Some(v) => {
                let whole = seq![(entries[0].0, v)] + (compact(entries.skip(1)) + ext);
                assert(compact(entries) + ext =~= whole);
                assert(whole[0].0 == entries[0].0);
                assert(is_schema_key(whole[0].0));
                assert(whole.skip(1) =~= compact(entries.skip(1)) + ext);
            },
            None => {
                assert(compact(entries) + ext =~= compact(entries.skip(1)) + ext);
            },
        }
    }
}

/// The extension filter keeps every entry whose key is unknown.
proof fn lemma_drop_known_keeps_unknown(ext: Seq<(Seq<char>, ValS)>)
    requires
        forall|j: int| 0 <= j < ext.len() ==> !is_schema_key(#[trigger] ext[j].0),
    ensures
        drop_known(ext) =~= ext,
    decreases ext.len(),
{
    if ext.len() > 0 {
        lemma_drop_known_keeps_unknown(ext.skip(1));
        assert(seq![ext[0]] + ext.skip(1) =~= ext);
    }
}

/// If no keyword fails from `i` on, the first-error scan reports nothing.
proof fn lemma_first_err_none(es: Seq<(Seq<char>, ValS)>, i: int)
    requires
        forall|j: int| i <= j < schema_key_count() ==> schema_field_err(es, j)
            is None,
    ensures
        schema_first_err_from(es, i) is None,
    decreases schema_key_count() - i,
{
    if 0 <= i < schema_key_count() {
        assert(schema_field_err(es, i) is None);
        lemma_first_err_none(es, i + 1);
    }
}

// ---------------------------------------------------------------------------
// The main round trip
// ---------------------------------------------------------------------------
/// Every keyword lookup in an emitted schema object finds exactly what its
/// field emitted.
proof fn lemma_schema_lookups(s: SchemaV)
    requires
        wf_schema(s),
    ensures
        forall|i: int| 0 <= i < schema_key_count() ==> lookup(
            schema_es(s),
            #[trigger] schema_key(i),
        ) == schema_field_enc(s, i),
{
    let entries = schema_entries(s);
    let ext = s.extensions;
    lemma_schema_entries_index(s);
    lemma_schema_keys_distinct();
    assert forall|i: int| 0 <= i < schema_key_count() implies lookup(
        schema_es(s),
        #[trigger] schema_key(i),
    ) == schema_field_enc(s, i) by {
        assert forall|j: int| 0 <= j < entries.len() && j != i implies entries[j].0
            != entries[i].0 by {
            assert(entries[j].0 == schema_key(j));
            assert(entries[i].0 == schema_key(i));
        }
        assert forall|j: int| 0 <= j < ext.len() implies ext[j].0 != entries[i].0 by {
            assert(!is_schema_key(ext[j].0));
            if ext[j].0 == schema_key(i) {
                assert(0 <= i < schema_key_count() && ext[j].0 == schema_key(i));
                assert(is_schema_key(ext[j].0));
            }
        }
        lemma_lookup_compact(entries, ext, i);
        assert(entries[i].1 == schema_field_enc(s, i));
    }
}

/// Reading back an emitted schema list yields the same list.
pub proof fn lemma_schemas_rt(l: Seq<SchemaV>)
    requires
        wf_schemas(l),
    ensures
        dec_schemas(enc_schemas(l)) == Ok::<Seq<SchemaV>, DecodeError>(l),
    decreases l, 9int,
{
    if l.len() == 0 {
        assert(enc_schemas(l) =~= Seq::<ValS>::empty());
        assert(l =~= Seq::<SchemaV>::empty());
    } else {
        lemma_schema_round_trip(l[0]);
        lemma_schemas_rt(l.skip(1));
        assert(enc_schemas(l)[0] == enc_schema(l[0]));
        assert(enc_schemas(l).skip(1) =~= enc_schemas(l.skip(1)));
        assert(seq![l[0]] + l.skip(1) =~= l);
    }
}

/// Reading back an emitted name-to-schema map yields the same map.
pub proof fn lemma_schema_map_rt(m: Seq<(Seq<char>, SchemaV)>)
    requires
        wf_schema_map(m),
    ensures
        dec_schema_map(enc_schema_map_entries(m)) == Ok::<
            Seq<(Seq<char>, SchemaV)>,
            DecodeError,
        >(m),
    decreases m, 9int,
{
    if m.len() == 0 {
        assert(enc_schema_map_entries(m) =~= Seq::<(Seq<char>, ValS)>::empty());
        assert(m =~= Seq::<(Seq<char>, SchemaV)>::empty());
    } else {
        lemma_schema_round_trip(m[0].1);
        lemma_schema_map_rt(m.skip(1));
        assert(enc_schema_map_entries(m)[0] == (m[0].0, enc_schema(m[0].1)));
        assert(enc_schema_map_entries(m).skip(1) =~= enc_schema_map_entries(m.skip(1)));
        assert(seq![(m[0].0, m[0].1)] + m.skip(1) =~= m);
        assert((m[0].0, m[0].1) == m[0]);
    }
}

/// The keyword fields of this family decode back to themselves.
#[verifier::rlimit(100)]
proof fn lemma_schema_fields_a(s: SchemaV, es: Seq<(Seq<char>, ValS)>)
    requires
        wf_schema(s),
        es == schema_es(s),
    ensures
        dec_opt_str_field(es, schema_key(0)) == Ok::<Option<Seq<char>>, DecodeError>(s.schema),
        dec_opt_str_field(es, schema_key(1)) == Ok::<Option<Seq<char>>, DecodeError>(s.id),
        dec_opt_str_field(es, schema_key(2)) == Ok::<Option<Seq<char>>, DecodeError>(s.ref_uri),
        dec_opt_str_field(es, schema_key(3)) == Ok::<Option<Seq<char>>, DecodeError>(s.comment),
        dec_opt_schemas_field(es, schema_key(4)) == Ok::<Option<Seq<SchemaV>>, DecodeError>(s.all_of),
        dec_opt_schemas_field(es, schema_key(5)) == Ok::<Option<Seq<SchemaV>>, DecodeError>(s.any_of),
        dec_opt_schemas_field(es, schema_key(6)) == Ok::<Option<Seq<SchemaV>>, DecodeError>(s.one_of),
        dec_opt_schema_field(es, schema_key(7)) == Ok::<Option<Box<SchemaV>>, DecodeError>(s.not),
        dec_opt_schema_field(es, schema_key(8)) == Ok::<Option<Box<SchemaV>>, DecodeError>(s.if_schema),
        dec_opt_schema_field(es, schema_key(9)) == Ok::<Option<Box<SchemaV>>, DecodeError>(s.then_schema),
        dec_opt_schema_field(es, schema_key(10)) == Ok::<Option<Box<SchemaV>>, DecodeError>(s.else_schema),
        forall|j: int| 0 <= j < 11 ==> schema_field_err(es, j) is None,
    decreases s, 9int,
{
    lemma_schema_lookups(s);
    assert(dec_opt_str_field(es, schema_key(0)) == Ok::<Option<Seq<char>>, DecodeError>(s.schema));
    assert(dec_opt_str_field(es, schema_key(1)) == Ok::<Option<Seq<char>>, DecodeError>(s.id));
    assert(dec_opt_str_field(es, schema_key(2)) == Ok::<Option<Seq<char>>, DecodeError>(s.ref_uri));
    assert(dec_opt_str_field(es, schema_key(3)) == Ok::<Option<Seq<char>>, DecodeError>(s.comment));
    match s.all_of {
        Some(l) => {
            lemma_schemas_rt(l);
        },
        None => {},
    }
    assert(dec_opt_schemas_field(es, schema_key(4)) == Ok::<Option<Seq<SchemaV>>, DecodeError>(s.all_of));
    match s.any_of {
        Some(l) => {
            lemma_schemas_rt(l);
        },
        None => {},
    }
    assert(dec_opt_schemas_field(es, schema_key(5)) == Ok::<Option<Seq<SchemaV>>, DecodeError>(s.any_of));
    match s.one_of {
        Some(l) => {
            lemma_schemas_rt(l);
        },
        None => {},
    }
    assert(dec_opt_schemas_field(es, schema_key(6)) == Ok::<Option<Seq<SchemaV>>, DecodeError>(s.one_of));
    match s.not {
        Some(b) => {
            lemma_schema_round_trip(*b);
            assert(Box::new(*b) == b);
        },
        None => {},
    }
    assert(dec_opt_schema_field(es, schema_key(7)) == Ok::<Option<Box<SchemaV>>, DecodeError>(s.not));
    match s.if_schema {
        Some(b) => {
            lemma_schema_round_trip(*b);
            assert(Box::new(*b) == b);
        },
        None => {},
    }
    assert(dec_opt_schema_field(es, schema_key(8)) == Ok::<Option<Box<SchemaV>>, DecodeError>(s.if_schema));
    match s.then_schema {
        Some(b) => {
            lemma_schema_round_trip(*b);
            assert(Box::new(*b) == b);
        },
        None => {},
    }
    assert(dec_opt_schema_field(es, schema_key(9)) == Ok::<Option<Box<SchemaV>>, DecodeError>(s.then_schema));
    match s.else_schema {
        Some(b) => {
            lemma_schema_round_trip(*b);
            assert(Box::new(*b) == b);
        },
        None => {},
    }
    assert(dec_opt_schema_field(es, schema_key(10)) == Ok::<Option<Box<SchemaV>>, DecodeError>(s.else_schema));
    assert forall|j: int| 0 <= j < 11 implies schema_field_err(es, j) is None by {
        assert(0 <= j < 11);
    }
}

/// The keyword fields of this family decode back to themselves.
#[verifier::rlimit(100)]
proof fn lemma_schema_fields_b(s: SchemaV, es: Seq<(Seq<char>, ValS)>)
    requires
        wf_schema(s),
        es == schema_es(s),
    ensures
        dec_schema_map_field(es, schema_key(11)) == Ok::<Seq<(Seq<char>, SchemaV)>, DecodeError>(s.dependent_schemas),
        dec_schemas_list_field(es, schema_key(12)) == Ok::<Seq<SchemaV>, DecodeError>(s.prefix_items),
        dec_opt_schema_field(es, schema_key(13)) == Ok::<Option<Box<SchemaV>>, DecodeError>(s.items),
        dec_opt_schema_field(es, schema_key(14)) == Ok::<Option<Box<SchemaV>>, DecodeError>(s.contains),
        dec_opt_schema_map_field(es, schema_key(15)) == Ok::<Option<Seq<(Seq<char>, SchemaV)>>, DecodeError>(s.properties),
        dec_schema_map_field(es, schema_key(16)) == Ok::<Seq<(Seq<char>, SchemaV)>, DecodeError>(s.pattern_properties),
        dec_opt_schema_field(es, schema_key(17)) == Ok::<Option<Box<SchemaV>>, DecodeError>(s.additional_properties),
        dec_opt_schema_field(es, schema_key(18)) == Ok::<Option<Box<SchemaV>>, DecodeError>(s.property_names),
        dec_opt_schema_field(es, schema_key(19)) == Ok::<Option<Box<SchemaV>>, DecodeError>(s.unevaluated_items),
        dec_opt_schema_field(es, schema_key(20)) == Ok::<Option<Box<SchemaV>>, DecodeError>(s.unevaluated_properties),
        forall|j: int| 11 <= j < 21 ==> schema_field_err(es, j) is None,
    decreases s, 9int,
{
    lemma_schema_lookups(s);
    if s.dependent_schemas.len() == 0 {
        assert(s.dependent_schemas =~= Seq::<(Seq<char>, SchemaV)>::empty());
    } else {
        lemma_schema_map_rt(s.dependent_schemas);
    }
    assert(dec_schema_map_field(es, schema_key(11)) == Ok::<Seq<(Seq<char>, SchemaV)>, DecodeError>(s.dependent_schemas));
    if s.prefix_items.len() == 0 {
        assert(s.prefix_items =~= Seq::<SchemaV>::empty());
    } else {
        lemma_schemas_rt(s.prefix_items);
    }
    assert(dec_schemas_list_field(es, schema_key(12)) == Ok::<Seq<SchemaV>, DecodeError>(s.prefix_items));
    match s.items {
        Some(b) => {
            lemma_schema_round_trip(*b);
            assert(Box::new(*b) == b);
        },
        None => {},
    }
    assert(dec_opt_schema_field(es, schema_key(13)) == Ok::<Option<Box<SchemaV>>, DecodeError>(s.items));
    match s.contains {
        Some(b) => {
            lemma_schema_round_trip(*b);
            assert(Box::new(*b) == b);
        },
        None => {},
    }
    assert(dec_opt_schema_field(es, schema_key(14)) == Ok::<Option<Box<SchemaV>>, DecodeError>(s.contains));
    match s.properties {
        Some(m) => {
            lemma_schema_map_rt(m);
        },
        None => {},
    }
    assert(dec_opt_schema_map_field(es, schema_key(15)) == Ok::<Option<Seq<(Seq<char>, SchemaV)>>, DecodeError>(s.properties));
    if s.pattern_properties.len() == 0 {
        assert(s.pattern_properties =~= Seq::<(Seq<char>, SchemaV)>::empty());
    } else {
        lemma_schema_map_rt(s.pattern_properties);
    }
    assert(dec_schema_map_field(es, schema_key(16)) == Ok::<Seq<(Seq<char>, SchemaV)>, DecodeError>(s.pattern_properties));
    match s.additional_properties {
        Some(b) => {
            lemma_schema_round_trip(*b);
            assert(Box::new(*b) == b);
        },
        None => {},
    }
    assert(dec_opt_schema_field(es, schema_key(17)) == Ok::<Option<Box<SchemaV>>, DecodeError>(s.additional_properties));
    match s.property_names {
        Some(b) => {
            lemma_schema_round_trip(*b);
            assert(Box::new(*b) == b);
        },
        None => {},
    }
    assert(dec_opt_schema_field(es, schema_key(18)) == Ok::<Option<Box<SchemaV>>, DecodeError>(s.property_names));
    match s.unevaluated_items {
        Some(b) => {
            lemma_schema_round_trip(*b);
            assert(Box::new(*b) == b);
        },
        None => {},
    }
    assert(dec_opt_schema_field(es, schema_key(19)) == Ok::<Option<Box<SchemaV>>, DecodeError>(s.unevaluated_items));
    match s.unevaluated_properties {
        Some(b) => {
            lemma_schema_round_trip(*b);
            assert(Box::new(*b) == b);
        },
        None => {},
    }
    assert(dec_opt_schema_field(es, schema_key(20)) == Ok::<Option<Box<SchemaV>>, DecodeError>(s.unevaluated_properties));
    assert forall|j: int| 11 <= j < 21 implies schema_field_err(es, j) is None by {
        assert(11 <= j < 21);
    }
}

/// The keyword fields of this family decode back to themselves.
#[verifier::rlimit(100)]
proof fn lemma_schema_fields_c(s: SchemaV, es: Seq<(Seq<char>, ValS)>)
    requires
        wf_schema(s),
        es == schema_es(s),
    ensures
        dec_types_field(es, schema_key(21)) == Ok::<Seq<Type>, DecodeError>(s.types),
        dec_str_list_field(es, schema_key(22)) == Ok::<Seq<Seq<char>>, DecodeError>(s.enumeration),
        dec_opt_str_field(es, schema_key(23)) == Ok::<Option<Seq<char>>, DecodeError>(s.constant),
        dec_opt_num_field(es, schema_key(24)) == Ok::<Option<Seq<char>>, DecodeError>(s.multiple_of),
        dec_opt_num_field(es, schema_key(25)) == Ok::<Option<Seq<char>>, DecodeError>(s.maximum),
        dec_opt_num_field(es, schema_key(26)) == Ok::<Option<Seq<char>>, DecodeError>(s.exclusive_maximum),
        dec_opt_num_field(es, schema_key(27)) == Ok::<Option<Seq<char>>, DecodeError>(s.minimum),
        dec_opt_num_field(es, schema_key(28)) == Ok::<Option<Seq<char>>, DecodeError>(s.exclusive_minimum),
        forall|j: int| 21 <= j < 29 ==> schema_field_err(es, j) is None,
    decreases s, 9int,
{
    lemma_schema_lookups(s);
    if s.types.len() == 0 {
        assert(s.types =~= Seq::<Type>::empty());
    } else if s.types.len() == 1 {
        lemma_type_label_round_trip(s.types[0]);
        assert(seq![s.types[0]] =~= s.types);
    } else {
        lemma_type_list_rt(s.types);
    }
    assert(dec_types_field(es, schema_key(21)) == Ok::<Seq<Type>, DecodeError>(s.types));
    if s.enumeration.len() == 0 {
        assert(s.enumeration =~= Seq::<Seq<char>>::empty());
    } else {
        crate::codec::lemma_str_list_round_trip(s.enumeration);
    }
    assert(dec_str_list_field(es, schema_key(22)) == Ok::<Seq<Seq<char>>, DecodeError>(s.enumeration));
    assert(dec_opt_str_field(es, schema_key(23)) == Ok::<Option<Seq<char>>, DecodeError>(s.constant));
    assert(dec_opt_num_field(es, schema_key(24)) == Ok::<Option<Seq<char>>, DecodeError>(s.multiple_of));
    assert(dec_opt_num_field(es, schema_key(25)) == Ok::<Option<Seq<char>>, DecodeError>(s.maximum));
    assert(dec_opt_num_field(es, schema_key(26)) == Ok::<Option<Seq<char>>, DecodeError>(s.exclusive_maximum));
    assert(dec_opt_num_field(es, schema_key(27)) == Ok::<Option<Seq<char>>, DecodeError>(s.minimum));
    assert(dec_opt_num_field(es, schema_key(28)) == Ok::<Option<Seq<char>>, DecodeError>(s.exclusive_minimum));
    assert forall|j: int| 21 <= j < 29 implies schema_field_err(es, j) is None by {
        assert(21 <= j < 29);
    }
}

/// The keyword fields of this family decode back to themselves.
#[verifier::rlimit(100)]
proof fn lemma_schema_fields_d(s: SchemaV, es: Seq<(Seq<char>, ValS)>)
    requires
        wf_schema(s),
        es == schema_es(s),
    ensures
        dec_opt_size_field(es, schema_key(29)) == Ok::<Option<usize>, DecodeError>(s.max_length),
        dec_opt_size_field(es, schema_key(30)) == Ok::<Option<usize>, DecodeError>(s.min_length),
        dec_opt_str_field(es, schema_key(31)) == Ok::<Option<Seq<char>>, DecodeError>(s.pattern),
        dec_opt_size_field(es, schema_key(32)) == Ok::<Option<usize>, DecodeError>(s.max_items),
        dec_opt_size_field(es, schema_key(33)) == Ok::<Option<usize>, DecodeError>(s.min_items),
        dec_bool_field(es, schema_key(34)) == Ok::<bool, DecodeError>(s.unique_items),
        dec_opt_size_field(es, schema_key(35)) == Ok::<Option<usize>, DecodeError>(s.max_contains),
        dec_opt_size_field(es, schema_key(36)) == Ok::<Option<usize>, DecodeError>(s.min_contains),
        dec_opt_size_field(es, schema_key(37)) == Ok::<Option<usize>, DecodeError>(s.max_properties),
        dec_opt_size_field(es, schema_key(38)) == Ok::<Option<usize>, DecodeError>(s.min_properties),
        dec_str_list_field(es, schema_key(39)) == Ok::<Seq<Seq<char>>, DecodeError>(s.required),
        dec_str_list_map_field(es, schema_key(40)) == Ok::<Seq<(Seq<char>, Seq<Seq<char>>)>, DecodeError>(s.dependent_required),
        forall|j: int| 29 <= j < 41 ==> schema_field_err(es, j) is None,
    decreases s, 9int,
{
    lemma_schema_lookups(s);
    match s.max_length {
        Some(n) => {
            crate::num::lemma_parse_format_round_trip(n as u64);
        },
        None => {},
    }
    assert(dec_opt_size_field(es, schema_key(29)) == Ok::<Option<usize>, DecodeError>(s.max_length));
    match s.min_length {
        Some(n) => {
            crate::num::lemma_parse_format_round_trip(n as u64);
        },
        None => {},
    }
    assert(dec_opt_size_field(es, schema_key(30)) == Ok::<Option<usize>, DecodeError>(s.min_length));
    assert(dec_opt_str_field(es, schema_key(31)) == Ok::<Option<Seq<char>>, DecodeError>(s.pattern));
    match s.max_items {
        Some(n) => {
            crate::num::lemma_parse_format_round_trip(n as u64);
        },
        None => {},
    }
    assert(dec_opt_size_field(es, schema_key(32)) == Ok::<Option<usize>, DecodeError>(s.max_items));
    match s.min_items {
        Some(n) => {
            crate::num::lemma_parse_format_round_trip(n as u64);
        },
        None => {},
    }
    assert(dec_opt_size_field(es, schema_key(33)) == Ok::<Option<usize>, DecodeError>(s.min_items));
    assert(dec_bool_field(es, schema_key(34)) == Ok::<bool, DecodeError>(s.unique_items));
    match s.max_contains {
        Some(n) => {
            crate::num::lemma_parse_format_round_trip(n as u64);
        },
        None => {},
    }
    assert(dec_opt_size_field(es, schema_key(35)) == Ok::<Option<usize>, DecodeError>(s.max_contains));
    match s.min_contains {
        Some(n) => {
            crate::num::lemma_parse_format_round_trip(n as u64);
        },
        None => {},
    }
    assert(dec_opt_size_field(es, schema_key(36)) == Ok::<Option<usize>, DecodeError>(s.min_contains));
    match s.max_properties {
        Some(n) => {
            crate::num::lemma_parse_format_round_trip(n as u64);
        },
        None => {},
    }
    assert(dec_opt_size_field(es, schema_key(37)) == Ok::<Option<usize>, DecodeError>(s.max_properties));
    match s.min_properties {
        Some(n) => {
            crate::num::lemma_parse_format_round_trip(n as u64);
        },
        None => {},
    }
    assert(dec_opt_size_field(es, schema_key(38)) == Ok::<Option<usize>, DecodeError>(s.min_properties));
    if s.required.len() == 0 {
        assert(s.required =~= Seq::<Seq<char>>::empty());
    } else {
        crate::codec::lemma_str_list_round_trip(s.required);
    }
    assert(dec_str_list_field(es, schema_key(39)) == Ok::<Seq<Seq<char>>, DecodeError>(s.required));
    if s.dependent_required.len() == 0 {
        assert(s.dependent_required =~= Seq::<(Seq<char>, Seq<Seq<char>>)>::empty());
    } else {
        lemma_str_list_entries_rt(s.dependent_required);
    }
    assert(dec_str_list_map_field(es, schema_key(40)) == Ok::<Seq<(Seq<char>, Seq<Seq<char>>)>, DecodeError>(s.dependent_required));
    assert forall|j: int| 29 <= j < 41 implies schema_field_err(es, j) is None by {
        assert(29 <= j < 41);
    }
}

/// The keyword fields of this family decode back to themselves.
#[verifier::rlimit(100)]
proof fn lemma_schema_fields_e(s: SchemaV, es: Seq<(Seq<char>, ValS)>)
    requires
        wf_schema(s),
        es == schema_es(s),
    ensures
        dec_format_field(es, schema_key(41)) == Ok::<Option<FormatOrStringV>, DecodeError>(s.format),
        dec_opt_str_field(es, schema_key(42)) == Ok::<Option<Seq<char>>, DecodeError>(s.content_encoding),
        dec_opt_str_field(es, schema_key(43)) == Ok::<Option<Seq<char>>, DecodeError>(s.content_media_type),
        dec_opt_schema_field(es, schema_key(44)) == Ok::<Option<Box<SchemaV>>, DecodeError>(s.content_schema),
        dec_opt_str_field(es, schema_key(45)) == Ok::<Option<Seq<char>>, DecodeError>(s.title),
        dec_opt_str_field(es, schema_key(46)) == Ok::<Option<Seq<char>>, DecodeError>(s.description),
        dec_opt_val_field(es, schema_key(47)) == Ok::<Option<ValS>, DecodeError>(s.default),
        dec_bool_field(es, schema_key(48)) == Ok::<bool, DecodeError>(s.deprecated),
        dec_bool_field(es, schema_key(49)) == Ok::<bool, DecodeError>(s.read_only),
        dec_bool_field(es, schema_key(50)) == Ok::<bool, DecodeError>(s.write_only),
        forall|j: int| 41 <= j < 51 ==> schema_field_err(es, j) is None,
    decreases s, 9int,
{
    lemma_schema_lookups(s);
    match s.format {
        Some(FormatOrStringV::Format(f)) => {
            lemma_format_label_round_trip(f);
        },
        _ => {},
    }
    assert(dec_format_field(es, schema_key(41)) == Ok::<Option<FormatOrStringV>, DecodeError>(s.format));
    assert(dec_opt_str_field(es, schema_key(42)) == Ok::<Option<Seq<char>>, DecodeError>(s.content_encoding));
    assert(dec_opt_str_field(es, schema_key(43)) == Ok::<Option<Seq<char>>, DecodeError>(s.content_media_type));
    match s.content_schema {
        Some(b) => {
            lemma_schema_round_trip(*b);
            assert(Box::new(*b) == b);
        },
        None => {},
    }
    assert(dec_opt_schema_field(es, schema_key(44)) == Ok::<Option<Box<SchemaV>>, DecodeError>(s.content_schema));
    assert(dec_opt_str_field(es, schema_key(45)) == Ok::<Option<Seq<char>>, DecodeError>(s.title));
    assert(dec_opt_str_field(es, schema_key(46)) == Ok::<Option<Seq<char>>, DecodeError>(s.description));
    assert(dec_opt_val_field(es, schema_key(47)) == Ok::<Option<ValS>, DecodeError>(s.default));
    assert(dec_bool_field(es, schema_key(48)) == Ok::<bool, DecodeError>(s.deprecated));
    assert(dec_bool_field(es, schema_key(49)) == Ok::<bool, DecodeError>(s.read_only));
    assert(dec_bool_field(es, schema_key(50)) == Ok::<bool, DecodeError>(s.write_only));
    assert forall|j: int| 41 <= j < 51 implies schema_field_err(es, j) is None by {
        assert(41 <= j < 51);
    }
}

/// The keyword fields of this family decode back to themselves.
#[verifier::rlimit(100)]
proof fn lemma_schema_fields_f(s: SchemaV, es: Seq<(Seq<char>, ValS)>)
    requires
        wf_schema(s),
        es == schema_es(s),
    ensures
        dec_val_list_field(es, schema_key(51)) == Ok::<Seq<ValS>, DecodeError>(s.examples),
        dec_opt_discriminator_field(es, schema_key(52)) == Ok::<Option<DiscriminatorV>, DecodeError>(s.discriminator),
        dec_opt_xml_field(es, schema_key(53)) == Ok::<Option<XmlV>, DecodeError>(s.xml),
        dec_opt_extdoc_field(es, schema_key(54)) == Ok::<Option<ExternalDocumentV>, DecodeError>(s.external_docs),
        dec_opt_val_field(es, schema_key(55)) == Ok::<Option<ValS>, DecodeError>(s.example),
        forall|j: int| 51 <= j < 56 ==> schema_field_err(es, j) is None,
    decreases s, 9int,
{
    lemma_schema_lookups(s);
    if s.examples.len() == 0 {
        assert(s.examples =~= Seq::<ValS>::empty());
    }
    assert(dec_val_list_field(es, schema_key(51)) == Ok::<Seq<ValS>, DecodeError>(s.examples));
    match s.discriminator {
        Some(d) => {
            lemma_discriminator_rt(d);
        },
        None => {},
    }
    assert(dec_opt_discriminator_field(es, schema_key(52)) == Ok::<Option<DiscriminatorV>, DecodeError>(s.discriminator));
    match s.xml {
        Some(x) => {
            lemma_xml_rt(x);
        },
        None => {},
    }
    assert(dec_opt_xml_field(es, schema_key(53)) == Ok::<Option<XmlV>, DecodeError>(s.xml));
    match s.external_docs {
        Some(d) => {
            lemma_extdoc_rt(d);
        },
        None => {},
    }
    assert(dec_opt_extdoc_field(es, schema_key(54)) == Ok::<Option<ExternalDocumentV>, DecodeError>(s.external_docs));
    assert(dec_opt_val_field(es, schema_key(55)) == Ok::<Option<ValS>, DecodeError>(s.example));
    assert forall|j: int| 51 <= j < 56 implies schema_field_err(es, j) is None by {
        assert(51 <= j < 56);
    }
}

/// Decoding an encoded well-formed schema yields the schema itself: the
/// type set, every keyword child and the extensions all survive, even
/// though a one-element type set crosses the wire as a bare scalar.
#[verifier::rlimit(100)]
pub proof fn lemma_schema_round_trip(s: SchemaV)
    requires
        wf_schema(s),
    ensures
        dec_schema(enc_schema(s)) == Ok::<SchemaV, DecodeError>(s),
    decreases s, 10int,
{
    let es = schema_es(s);
    assert(enc_schema(s) == ValS::Obj(es));
    lemma_schema_entries_index(s);
    lemma_schema_fields_a(s, es);
    lemma_schema_fields_b(s, es);
    lemma_schema_fields_c(s, es);
    lemma_schema_fields_d(s, es);
    lemma_schema_fields_e(s, es);
    lemma_schema_fields_f(s, es);
    assert(forall|j: int| 0 <= j < schema_key_count() ==> schema_field_err(es, j)
        is None);
    lemma_first_err_none(es, 0);
    assert forall|j: int| 0 <= j < schema_entries(s).len() implies is_schema_key(
        #[trigger] schema_entries(s)[j].0,
    ) by {
        assert(schema_entries(s)[j].0 == schema_key(j));
    }
    lemma_drop_known_split(schema_entries(s), s.extensions);
    assert(dec_schema_obj(es)->Ok_0 =~= s);
}

// ---------------------------------------------------------------------------
// Executable codec: satellite entities
// ---------------------------------------------------------------------------
impl ExternalDocument {
    /// Encode as an object value.
    pub fn encode(&self) -> (v: Any)
        ensures
            v@ == enc_extdoc(self.deep_view()),
    {
        let ghost entries = seq![
            ("description"@, enc_opt_str(self.description.deep_view())),
            ("url"@, Some(ValS::Str(self.url@))),
        ];
        let mut out: Vec<(String, Any)> = Vec::new();
        proof {
            lemma_view_entries(out@);
            assert(view_entries(out@) =~= Seq::<(Seq<char>, ValS)>::empty());
        }
        emit_opt_str(&mut out, "description", &self.description);
        push_entry(&mut out, "url", Any::Text(self.url.clone()));
        proof {
            assert(entries[0] == ("description"@, enc_opt_str(self.description.deep_view())));
            assert(entries[1] == ("url"@, Some(ValS::Str(self.url@))));
            lemma_compact_snoc(entries, 0);
            lemma_compact_snoc(entries, 1);
            assert(entries.take(0) =~= Seq::<(Seq<char>, Option<ValS>)>::empty());
            assert(compact(entries.take(0)) =~= Seq::<(Seq<char>, ValS)>::empty());
            assert(entries.take(2) =~= entries);
            assert(view_entries(out@) =~= compact(entries));
        }
        Any::Object(out)
    }

    /// Decode from an object value.
    pub fn decode(v: &Any) -> (r: Result<ExternalDocument, DecodeError>)
        ensures
            res_view(r) == dec_extdoc(v@),
    {
        match v {
            Any::Object(o) => {
                let description = match get_opt_str_field(o, "description") {
                    Ok(x) => x,
                    Err(e) => return Err(e),
                };
                let url = match get_req_str_field(o, "url") {
                    Ok(x) => x,
                    Err(e) => return Err(e),
                };
                Ok(ExternalDocument { description, url })
            },
            _ => Err(DecodeError::ExpectedObject),
        }
    }
}

impl Xml {
    /// Encode as an object value.
    pub fn encode(&self) -> (v: Any)
        ensures
            v@ == enc_xml(self.deep_view()),
    {
        let ghost entries = seq![
            ("name"@, enc_opt_str(self.name.deep_view())),
            ("namespace"@, enc_opt_str(self.namespace.deep_view())),
            ("prefix"@, enc_opt_str(self.prefix.deep_view())),
            ("attribute"@, enc_bool(self.attribute)),
            ("wrapped"@, enc_bool(self.wrapped)),
        ];
        let mut out: Vec<(String, Any)> = Vec::new();
        proof {
            lemma_view_entries(out@);
            assert(view_entries(out@) =~= Seq::<(Seq<char>, ValS)>::empty());
        }
        emit_opt_str(&mut out, "name", &self.name);
        emit_opt_str(&mut out, "namespace", &self.namespace);
        emit_opt_str(&mut out, "prefix", &self.prefix);
        emit_bool(&mut out, "attribute", self.attribute);
        emit_bool(&mut out, "wrapped", self.wrapped);
        proof {
            assert(entries[0] == ("name"@, enc_opt_str(self.name.deep_view())));
            assert(entries[1] == ("namespace"@, enc_opt_str(self.namespace.deep_view())));
            assert(entries[2] == ("prefix"@, enc_opt_str(self.prefix.deep_view())));
            assert(entries[3] == ("attribute"@, enc_bool(self.attribute)));
            assert(entries[4] == ("wrapped"@, enc_bool(self.wrapped)));
            lemma_compact_snoc(entries, 0);
            lemma_compact_snoc(entries, 1);
            lemma_compact_snoc(entries, 2);
            lemma_compact_snoc(entries, 3);
            lemma_compact_snoc(entries, 4);
            assert(entries.take(0) =~= Seq::<(Seq<char>, Option<ValS>)>::empty());
            assert(compact(entries.take(0)) =~= Seq::<(Seq<char>, ValS)>::empty());
            assert(entries.take(5) =~= entries);
            assert(view_entries(out@) =~= compact(entries));
        }
        Any::Object(out)
    }

    /// Decode from an object value.
    pub fn decode(v: &Any) -> (r: Result<Xml, DecodeError>)
        ensures
            res_view(r) == dec_xml(v@),
    {
        match v {
            Any::Object(o) => {
                let name = match get_opt_str_field(o, "name") {
                    Ok(x) => x,
                    Err(e) => return Err(e),
                };
                let namespace = match get_opt_str_field(o, "namespace") {
                    Ok(x) => x,
                    Err(e) => return Err(e),
                };
                let prefix = match get_opt_str_field(o, "prefix") {
                    Ok(x) => x,
                    Err(e) => return Err(e),
                };
                let attribute = match get_bool_field(o, "attribute") {
                    Ok(x) => x,
                    Err(e) => return Err(e),
                };
                let wrapped = match get_bool_field(o, "wrapped") {
                    Ok(x) => x,
                    Err(e) => return Err(e),
                };
                Ok(Xml { name, namespace, prefix, attribute, wrapped })
            },
            _ => Err(DecodeError::ExpectedObject),
        }
    }
}

impl Discriminator {
    /// Encode as an object value.
    pub fn encode(&self) -> (v: Any)
        ensures
            v@ == enc_discriminator(self.deep_view()),
    {
        let ghost entries = seq![
            ("propertyName"@, Some(ValS::Str(self.property_name@))),
            ("mapping"@, enc_str_map(self.mapping.deep_view())),
        ];
        let mut out: Vec<(String, Any)> = Vec::new();
        proof {
            lemma_view_entries(out@);
            assert(view_entries(out@) =~= Seq::<(Seq<char>, ValS)>::empty());
        }
        push_entry(&mut out, "propertyName", Any::Text(self.property_name.clone()));
        emit_str_map(&mut out, "mapping", &self.mapping);
        proof {
            assert(entries[0] == ("propertyName"@, Some(ValS::Str(self.property_name@))));
            assert(entries[1] == ("mapping"@, enc_str_map(self.mapping.deep_view())));
            lemma_compact_snoc(entries, 0);
            lemma_compact_snoc(entries, 1);
            assert(entries.take(0) =~= Seq::<(Seq<char>, Option<ValS>)>::empty());
            assert(compact(entries.take(0)) =~= Seq::<(Seq<char>, ValS)>::empty());
            assert(entries.take(2) =~= entries);
            assert(view_entries(out@) =~= compact(entries));
        }
        Any::Object(out)
    }

    /// Decode from an object value.
    pub fn decode(v: &Any) -> (r: Result<Discriminator, DecodeError>)
        ensures
            res_view(r) == dec_discriminator(v@),
    {
        match v {
            Any::Object(o) => {
                let property_name = match get_req_str_field(o, "propertyName") {
                    Ok(x) => x,
                    Err(e) => return Err(e),
                };
                let mapping = match get_str_map_field(o, "mapping") {
                    Ok(x) => x,
                    Err(e) => return Err(e),
                };
                Ok(Discriminator { property_name, mapping })
            },
            _ => Err(DecodeError::ExpectedObject),
        }
    }
}

// ---------------------------------------------------------------------------
// Executable codec: field shapes
// ---------------------------------------------------------------------------
/// The encoded schema list indexes elementwise.
pub proof fn lemma_enc_schemas_index(l: Seq<SchemaV>)
    ensures
        enc_schemas(l).len() == l.len(),
        forall|i: int| 0 <= i < l.len() ==> enc_schemas(l)[i] == enc_schema(l[i]),
    decreases l,
{
    if l.len() > 0 {
        lemma_enc_schemas_index(l.skip(1));
    }
}

/// The encoded schema map indexes elementwise.
pub proof fn lemma_enc_schema_map_index(m: Seq<(Seq<char>, SchemaV)>)
    ensures
        enc_schema_map_entries(m).len() == m.len(),
        forall|i: int| 0 <= i < m.len() ==> enc_schema_map_entries(m)[i] == (m[i].0,
        enc_schema(m[i].1)),
    decreases m,
{
    if m.len() > 0 {
        lemma_enc_schema_map_index(m.skip(1));
    }
}

/// The encoded type list indexes elementwise.
pub proof fn lemma_type_vals_index(l: Seq<Type>)
    ensures
        type_vals(l).len() == l.len(),
        forall|i: int| 0 <= i < l.len() ==> type_vals(l)[i] == ValS::Str(type_label(
            l[i],
        )),
    decreases l,
{
    if l.len() > 0 {
        lemma_type_vals_index(l.skip(1));
    }
}

/// The encoded map of string lists indexes elementwise.
pub proof fn lemma_str_list_entries_index(m: Seq<(Seq<char>, Seq<Seq<char>>)>)
    ensures
        str_list_entries(m).len() == m.len(),
        forall|i: int| 0 <= i < m.len() ==> str_list_entries(m)[i] == (m[i].0, ValS::Arr(
            strs_to_vals(m[i].1),
        )),
    decreases m,
{
    if m.len() > 0 {
        lemma_str_list_entries_index(m.skip(1));
    }
}

/// Emit the `type` keyword: nothing, a bare scalar, or a list.
pub fn emit_types(out: &mut Vec<(String, Any)>, key: &str, f: &Vec<Type>)
    ensures
        view_entries(final(out)@) =~= view_entries(old(out)@) + opt_entry(
            key@,
            enc_types_field(f@),
        ),
{
    if f.len() == 1 {
        push_entry(out, key, Any::Text(type_to_str(&f[0]).to_owned()));
    } else if f.len() > 1 {
        let mut items: Vec<Any> = Vec::new();
        let mut i: usize = 0;
        while i < f.len()
            invariant
                i <= f@.len(),
                items@.len() == i,
                forall|j: int| 0 <= j < i ==> view_val(items@[j]) == ValS::Str(
                    type_label(f@[j]),
                ),
            decreases f@.len() - i,
        {
            items.push(Any::Text(type_to_str(&f[i]).to_owned()));
            i += 1;
        }
        proof {
            lemma_view_vals(items@);
            lemma_type_vals_index(f@);
            assert(view_vals(items@) =~= type_vals(f@));
        }
        push_entry(out, key, Any::Array(items));
    }
}

/// Read the `type` keyword.
pub fn get_types_field(es: &Vec<(String, Any)>, key: &str) -> (r: Result<
    Vec<Type>,
    DecodeError,
>)
    ensures
        match r {
            Ok(l) => dec_types_field(view_entries(es@), key@) == Ok::<
                Seq<Type>,
                DecodeError,
            >(l@),
            Err(e) => dec_types_field(view_entries(es@), key@) == Err::<
                Seq<Type>,
                DecodeError,
            >(e),
        },
{
    match get_entry(es, key) {
        None => {
            let empty: Vec<Type> = Vec::new();
            Ok(empty)
        },
        Some(v) => match v {
            Any::Text(t) => match type_from_str(t.as_str()) {
                Some(ty) => {
                    let mut one: Vec<Type> = Vec::new();
                    one.push(ty);
                    proof {
                        assert(one@ =~= seq![ty]);
                    }
                    Ok(one)
                },
                None => Err(DecodeError::UnknownVariant),
            },
            Any::Array(a) => {
                let ghost vs = view_vals(a@);
                proof {
                    lemma_view_vals(a@);
                    assert(lookup(view_entries(es@), key@) == Some(ValS::Arr(vs)));
                    assert(vs.skip(0) =~= vs);
                }
                let mut outv: Vec<Type> = Vec::new();
                let mut i: usize = 0;
                while i < a.len()
                    invariant
                        i <= a@.len(),
                        vs == view_vals(a@),
                        vs.len() == a@.len(),
                        lookup(view_entries(es@), key@) == Some(ValS::Arr(vs)),
                        forall|j: int| 0 <= j < a@.len() ==> vs[j] == view_val(a@[j]),
                        outv@.len() == i,
                        dec_type_list(vs) == res_prepend(
                            outv@,
                            dec_type_list(vs.skip(i as int)),
                        ),
                    decreases a@.len() - i,
                {
                    proof {
                        assert(vs.skip(i as int)[0] == vs[i as int]);
                        assert(vs.skip(i as int).skip(1) =~= vs.skip(i as int + 1));
                    }
                    match &a[i] {
                        Any::Text(t) => match type_from_str(t.as_str()) {
                            Some(ty) => {
                                let ghost before = outv@;
                                outv.push(ty);
                                proof {
                                    assert(outv@ =~= before + seq![ty]);
                                    match dec_type_list(vs.skip(i as int + 1)) {
                                        Ok(rest) => {
                                            assert((before + seq![ty]) + rest
                                                =~= before + (seq![ty] + rest));
                                        },
                                        Err(_) => {},
                                    }
                                }
                            },
                            None => {
                                return Err(DecodeError::UnknownVariant);
                            },
                        },
                        _ => {
                            return Err(DecodeError::ExpectedString);
                        },
                    }
                    i += 1;
                }
                proof {
                    assert(vs.skip(a@.len() as int) =~= Seq::<ValS>::empty());
                    assert(outv@ + Seq::<Type>::empty() =~= outv@);
                }
                Ok(outv)
            },
            _ => Err(DecodeError::ExpectedString),
        },
    }
}

/// Emit the `format` keyword.
pub fn emit_format(out: &mut Vec<(String, Any)>, key: &str, f: &Option<FormatOrString>)
    ensures
        view_entries(final(out)@) =~= view_entries(old(out)@) + opt_entry(
            key@,
            enc_format_field(f.deep_view()),
        ),
{
    match f {
        Some(FormatOrString::Format(t)) => {
            push_entry(out, key, Any::Text(format_to_str(t).to_owned()));
        },
        Some(FormatOrString::Other(s)) => {
            push_entry(out, key, Any::Text(s.clone()));
        },
        None => {},
    }
}

/// Read the `format` keyword.
pub fn get_format_field(es: &Vec<(String, Any)>, key: &str) -> (r: Result<
    Option<FormatOrString>,
    DecodeError,
>)
    ensures
        res_view(r) == dec_format_field(view_entries(es@), key@),
{
    match get_entry(es, key) {
        None => Ok(None),
        Some(Any::Null) => Ok(None),
        Some(Any::Text(t)) => match format_from_str(t.as_str()) {
            Some(ft) => Ok(Some(FormatOrString::Format(ft))),
            None => Ok(Some(FormatOrString::Other(t.clone()))),
        },
        Some(_) => Err(DecodeError::ExpectedString),
    }
}

/// Decode an array whose elements must all be strings.
fn vals_to_strings(a: &Vec<Any>) -> (r: Result<Vec<String>, DecodeError>)
    ensures
        match r {
            Ok(l) => all_strs(view_vals(a@)) && l.deep_view() =~= strs_of(view_vals(
                a@,
            )),
            Err(e) => !all_strs(view_vals(a@)) && e == DecodeError::ExpectedString,
        },
{
    let ghost vs = view_vals(a@);
    proof {
        lemma_view_vals(a@);
    }
    let mut outv: Vec<String> = Vec::new();
    let mut i: usize = 0;
    while i < a.len()
        invariant
            i <= a@.len(),
            vs == view_vals(a@),
            vs.len() == a@.len(),
            forall|j: int| 0 <= j < a@.len() ==> vs[j] == view_val(a@[j]),
            outv@.len() == i,
            forall|j: int| 0 <= j < i ==> vs[j] is Str && outv@[j]@ == vs[j]->Str_0,
        decreases a@.len() - i,
    {
        match &a[i] {
            Any::Text(s) => {
                outv.push(s.clone());
            },
            _ => {
                proof {
                    assert(!(vs[i as int] is Str));
                }
                return Err(DecodeError::ExpectedString);
            },
        }
        i += 1;
    }
    proof {
        assert(all_strs(vs));
        assert(outv.deep_view() =~= strs_of(vs));
    }
    Ok(outv)
}

/// Emit a map from names to string lists, only when non-empty.
pub fn emit_str_list_map(
    out: &mut Vec<(String, Any)>,
    key: &str,
    f: &Vec<(String, Vec<String>)>,
)
    ensures
        view_entries(final(out)@) =~= view_entries(old(out)@) + opt_entry(
            key@,
            enc_str_list_map_field(f.deep_view()),
        ),
{
    if f.len() > 0 {
        let mut items: Vec<(String, Any)> = Vec::new();
        let mut i: usize = 0;
        while i < f.len()
            invariant
                i <= f@.len(),
                items@.len() == i,
                forall|j: int| 0 <= j < i ==> items@[j].0@ == f@[j].0@ && view_val(
                    items@[j].1,
                ) == ValS::Arr(strs_to_vals(f@[j].1.deep_view())),
            decreases f@.len() - i,
        {
            let (k, l) = &f[i];
            let mut elems: Vec<Any> = Vec::new();
            let mut j: usize = 0;
            while j < l.len()
                invariant
                    j <= l@.len(),
                    elems@.len() == j,
                    forall|q: int| 0 <= q < j ==> view_val(elems@[q]) == ValS::Str(
                        l@[q]@,
                    ),
                decreases l@.len() - j,
            {
                elems.push(Any::Text(l[j].clone()));
                j += 1;
            }
            proof {
                lemma_view_vals(elems@);
                assert(view_vals(elems@) =~= strs_to_vals(l.deep_view()));
            }
            items.push((k.clone(), Any::Array(elems)));
            i += 1;
        }
        proof {
            lemma_view_entries(items@);
            lemma_str_list_entries_index(f.deep_view());
            assert(view_entries(items@) =~= str_list_entries(f.deep_view()));
            assert(f.deep_view().len() > 0);
        }
        push_entry(out, key, Any::Object(items));
    }
}

/// Read a map from names to string lists that defaults to empty.
pub fn get_str_list_map_field(es: &Vec<(String, Any)>, key: &str) -> (r: Result<
    Vec<(String, Vec<String>)>,
    DecodeError,
>)
    ensures
        match r {
            Ok(m) => dec_str_list_map_field(view_entries(es@), key@) == Ok::<
                Seq<(Seq<char>, Seq<Seq<char>>)>,
                DecodeError,
            >(m.deep_view()),
            Err(e) => dec_str_list_map_field(view_entries(es@), key@) == Err::<
                Seq<(Seq<char>, Seq<Seq<char>>)>,
                DecodeError,
            >(e),
        },
{
    match get_entry(es, key) {
        None => {
            let empty: Vec<(String, Vec<String>)> = Vec::new();
            proof {
                assert(empty.deep_view() =~= Seq::<
                    (Seq<char>, Seq<Seq<char>>),
                >::empty());
            }
            Ok(empty)
        },
        Some(v) => match v {
            Any::Object(o) => {
                let ghost m = view_entries(o@);
                proof {
                    lemma_view_entries(o@);
                    assert(lookup(view_entries(es@), key@) == Some(ValS::Obj(m)));
                    assert(m.skip(0) =~= m);
                }
                let mut outv: Vec<(String, Vec<String>)> = Vec::new();
                let mut i: usize = 0;
                while i < o.len()
                    invariant
                        i <= o@.len(),
                        m == view_entries(o@),
                        m.len() == o@.len(),
                        lookup(view_entries(es@), key@) == Some(ValS::Obj(m)),
                        forall|j: int| 0 <= j < o@.len() ==> m[j] == (o@[j].0@, view_val(
                            o@[j].1,
                        )),
                        outv@.len() == i,
                        dec_str_list_entries(m) == res_prepend(
                            outv.deep_view(),
                            dec_str_list_entries(m.skip(i as int)),
                        ),
                    decreases o@.len() - i,
                {
                    proof {
                        assert(m.skip(i as int)[0] == m[i as int]);
                        assert(m.skip(i as int).skip(1) =~= m.skip(i as int + 1));
                    }
                    let (k, v2) = &o[i];
                    match v2 {
                        Any::Array(a) => match vals_to_strings(a) {
                            Ok(l) => {
                                let ghost before = outv.deep_view();
                                let ghost entry = (k@, strs_of(view_vals(a@)));
                                outv.push((k.clone(), l));
                                proof {
                                    assert(outv.deep_view() =~= before + seq![entry]);
                                    match dec_str_list_entries(m.skip(i as int + 1)) {
                                        Ok(rest) => {
                                            assert((before + seq![entry]) + rest
                                                =~= before + (seq![entry] + rest));
                                        },
                                        Err(_) => {},
                                    }
                                }
                            },
                            Err(e) => {
                                return Err(e);
                            },
                        },
                        _ => {
                            return Err(DecodeError::ExpectedArray);
                        },
                    }
                    i += 1;
                }
                proof {
                    assert(m.skip(o@.len() as int) =~= Seq::<(Seq<char>, ValS)>::empty());
                    assert(outv.deep_view() + Seq::<(Seq<char>, Seq<Seq<char>>)>::empty()
                        =~= outv.deep_view());
                }
                Ok(outv)
            },
            _ => Err(DecodeError::ExpectedObject),
        },
    }
}

/// True when `k` is one of the known schema keywords.
pub fn is_known_key(k: &String) -> (r: bool)
    ensures
        r == is_schema_key(k@),
{
    if str_eq(k.as_str(), "$schema") {
        proof {
            assert(k@ == schema_key(0));
        }
        return true;
    }
    if str_eq(k.as_str(), "$id") {
        proof {
            assert(k@ == schema_key(1));
        }
        return true;
    }
    if str_eq(k.as_str(), "$ref") {
        proof {
            assert(k@ == schema_key(2));
        }
        return true;
    }
    if str_eq(k.as_str(), "$comment") {
        proof {
            assert(k@ == schema_key(3));
        }
        return true;
    }
    if str_eq(k.as_str(), "allOf") {
        proof {
            assert(k@ == schema_key(4));
        }
        return true;
    }
    if str_eq(k.as_str(), "anyOf") {
        proof {
            assert(k@ == schema_key(5));
        }
        return true;
    }
    if str_eq(k.as_str(), "oneOf") {
        proof {
            assert(k@ == schema_key(6));
        }
        return true;
    }
    if str_eq(k.as_str(), "not") {
        proof {
            assert(k@ == schema_key(7));
        }
        return true;
    }
    if str_eq(k.as_str(), "if") {
        proof {
            assert(k@ == schema_key(8));
        }
        return true;
    }
    if str_eq(k.as_str(), "then") {
        proof {
            assert(k@ == schema_key(9));
        }
        return true;
    }
    if str_eq(k.as_str(), "else") {
        proof {
            assert(k@ == schema_key(10));
        }
        return true;
    }
    if str_eq(k.as_str(), "dependentSchemas") {
        proof {
            assert(k@ == schema_key(11));
        }
        return true;
    }
    if str_eq(k.as_str(), "prefixItems") {
        proof {
            assert(k@ == schema_key(12));
        }
        return true;
    }
    if str_eq(k.as_str(), "items") {
        proof {
            assert(k@ == schema_key(13));
        }
        return true;
    }
    if str_eq(k.as_str(), "contains") {
        proof {
            assert(k@ == schema_key(14));
        }
        return true;
    }
    if str_eq(k.as_str(), "properties") {
        proof {
            assert(k@ == schema_key(15));
        }
        return true;
    }
    if str_eq(k.as_str(), "patternProperties") {
        proof {
            assert(k@ == schema_key(16));
        }
        return true;
    }
    if str_eq(k.as_str(), "additionalProperties") {
        proof {
            assert(k@ == schema_key(17));
        }
        return true;
    }
    if str_eq(k.as_str(), "propertyNames") {
        proof {
            assert(k@ == schema_key(18));
        }
        return true;
    }
    if str_eq(k.as_str(), "unevaluatedItems") {
        proof {
            assert(k@ == schema_key(19));
        }
        return true;
    }
    if str_eq(k.as_str(), "unevaluatedProperties") {
        proof {
            assert(k@ == schema_key(20));
        }
        return true;
    }
    if str_eq(k.as_str(), "type") {
        proof {
            assert(k@ == schema_key(21));
        }
        return true;
    }
    if str_eq(k.as_str(), "enum") {
        proof {
            assert(k@ == schema_key(22));
        }
        return true;
    }
    if str_eq(k.as_str(), "const") {
        proof {
            assert(k@ == schema_key(23));
        }
        return true;
    }
    if str_eq(k.as_str(), "multipleOf") {
        proof {
            assert(k@ == schema_key(24));
        }
        return true;
    }
    if str_eq(k.as_str(), "maximum") {
        proof {
            assert(k@ == schema_key(25));
        }
        return true;
    }
    if str_eq(k.as_str(), "exclusiveMaximum") {
        proof {
            assert(k@ == schema_key(26));
        }
        return true;
    }
    if str_eq(k.as_str(), "minimum") {
        proof {
            assert(k@ == schema_key(27));
        }
        return true;
    }
    if str_eq(k.as_str(), "exclusiveMinimum") {
        proof {
            assert(k@ == schema_key(28));
        }
        return true;
    }
    if str_eq(k.as_str(), "maxLength") {
        proof {
            assert(k@ == schema_key(29));
        }
        return true;
    }
    if str_eq(k.as_str(), "minLength") {
        proof {
            assert(k@ == schema_key(30));
        }
        return true;
    }
    if str_eq(k.as_str(), "pattern") {
        proof {
            assert(k@ == schema_key(31));
        }
        return true;
    }
    if str_eq(k.as_str(), "maxItems") {
        proof {
            assert(k@ == schema_key(32));
        }
        return true;
    }
    if str_eq(k.as_str(), "minItems") {
        proof {
            assert(k@ == schema_key(33));
        }
        return true;
    }
    if str_eq(k.as_str(), "uniqueItems") {
        proof {
            assert(k@ == schema_key(34));
        }
        return true;
    }
    if str_eq(k.as_str(), "maxContains") {
        proof {
            assert(k@ == schema_key(35));
        }
        return true;
    }
    if str_eq(k.as_str(), "minContains") {
        proof {
            assert(k@ == schema_key(36));
        }
        return true;
    }
    if str_eq(k.as_str(), "maxProperties") {
        proof {
            assert(k@ == schema_key(37));
        }
        return true;
    }
    if str_eq(k.as_str(), "minProperties") {
        proof {
            assert(k@ == schema_key(38));
        }
        return true;
    }
    if str_eq(k.as_str(), "required") {
        proof {
            assert(k@ == schema_key(39));
        }
        return true;
    }
    if str_eq(k.as_str(), "dependentRequired") {
        proof {
            assert(k@ == schema_key(40));
        }
        return true;
    }
    if str_eq(k.as_str(), "format") {
        proof {
            assert(k@ == schema_key(41));
        }
        return true;
    }
    if str_eq(k.as_str(), "contentEncoding") {
        proof {
            assert(k@ == schema_key(42));
        }
        return true;
    }
    if str_eq(k.as_str(), "contentMediaType") {
        proof {
            assert(k@ == schema_key(43));
        }
        return true;
    }
    if str_eq(k.as_str(), "contentSchema") {
        proof {
            assert(k@ == schema_key(44));
        }
        return true;
    }
    if str_eq(k.as_str(), "title") {
        proof {
            assert(k@ == schema_key(45));
        }
        return true;
    }
    if str_eq(k.as_str(), "description") {
        proof {
            assert(k@ == schema_key(46));
        }
        return true;
    }
    if str_eq(k.as_str(), "default") {
        proof {
            assert(k@ == schema_key(47));
        }
        return true;
    }
    if str_eq(k.as_str(), "deprecated") {
        proof {
            assert(k@ == schema_key(48));
        }
        return true;
    }
    if str_eq(k.as_str(), "readOnly") {
        proof {
            assert(k@ == schema_key(49));
        }
        return true;
    }
    if str_eq(k.as_str(), "writeOnly") {
        proof {
            assert(k@ == schema_key(50));
        }
        return true;
    }
    if str_eq(k.as_str(), "examples") {
        proof {
            assert(k@ == schema_key(51));
        }
        return true;
    }
    if str_eq(k.as_str(), "discriminator") {
        proof {
            assert(k@ == schema_key(52));
        }
        return true;
    }
    if str_eq(k.as_str(), "xml") {
        proof {
            assert(k@ == schema_key(53));
        }
        return true;
    }
    if str_eq(k.as_str(), "externalDocs") {
        proof {
            assert(k@ == schema_key(54));
        }
        return true;
    }
    if str_eq(k.as_str(), "example") {
        proof {
            assert(k@ == schema_key(55));
        }
        return true;
    }
    proof {
        assert forall|i: int| 0 <= i < schema_key_count() implies k@ != schema_key(
            i,
        ) by {
            assert(0 <= i < schema_key_count());
        }
    }
    false
}

// ---------------------------------------------------------------------------
// Executable codec: child schemas
// ---------------------------------------------------------------------------
/// Encode every schema in a list.
fn encode_schemas_vec(a: &Vec<Schema>) -> (r: Vec<Any>)
    ensures
        view_vals(r@) =~= enc_schemas(view_schemas(a@)),
    decreases a, 3int,
{
    let mut items: Vec<Any> = Vec::new();
    let mut i: usize = 0;
    while i < a.len()
        invariant
            i <= a@.len(),
            items@.len() == i,
            forall|j: int| 0 <= j < i ==> view_val(items@[j]) == enc_schema(view_schema(
                a@[j],
            )),
        decreases a@.len() - i,
    {
        let v = a[i].encode();
        items.push(v);
        i += 1;
    }
    proof {
        lemma_view_vals(items@);
        lemma_view_schemas(a@);
        lemma_enc_schemas_index(view_schemas(a@));
        assert(view_vals(items@) =~= enc_schemas(view_schemas(a@)));
    }
    items
}

/// Encode every schema in a name-to-schema map.
fn encode_schema_map_vec(m: &Vec<(String, Schema)>) -> (r: Vec<(String, Any)>)
    ensures
        view_entries(r@) =~= enc_schema_map_entries(view_schema_map(m@)),
    decreases m, 3int,
{
    let mut items: Vec<(String, Any)> = Vec::new();
    let mut i: usize = 0;
    while i < m.len()
        invariant
            i <= m@.len(),
            items@.len() == i,
            forall|j: int| 0 <= j < i ==> items@[j].0@ == m@[j].0@ && view_val(
                items@[j].1,
            ) == enc_schema(view_schema(m@[j].1)),
        decreases m@.len() - i,
    {
        let (k, sch) = &m[i];
        let v = sch.encode();
        items.push((k.clone(), v));
        i += 1;
    }
    proof {
        lemma_view_entries(items@);
        lemma_view_schema_map(m@);
        lemma_enc_schema_map_index(view_schema_map(m@));
        assert(view_entries(items@) =~= enc_schema_map_entries(view_schema_map(m@)));
    }
    items
}

/// Emit an optional child schema keyword.
fn emit_opt_schema(out: &mut Vec<(String, Any)>, key: &str, f: &Option<Box<Schema>>)
    ensures
        view_entries(final(out)@) =~= view_entries(old(out)@) + opt_entry(
            key@,
            enc_opt_schema(view_opt_schema(*f)),
        ),
    decreases f, 3int,
{
    match f {
        Some(b) => {
            let v = (**b).encode();
            push_entry(out, key, v);
        },
        None => {},
    }
}

/// Emit an optional schema-list keyword.
fn emit_opt_schemas(out: &mut Vec<(String, Any)>, key: &str, f: &Option<Vec<Schema>>)
    ensures
        view_entries(final(out)@) =~= view_entries(old(out)@) + opt_entry(
            key@,
            enc_opt_schemas_field(view_opt_schemas(*f)),
        ),
    decreases f, 4int,
{
    match f {
        Some(l) => {
            let items = encode_schemas_vec(l);
            push_entry(out, key, Any::Array(items));
        },
        None => {},
    }
}

/// Emit a plain schema-list keyword, only when non-empty.
fn emit_schemas_list(out: &mut Vec<(String, Any)>, key: &str, f: &Vec<Schema>)
    ensures
        view_entries(final(out)@) =~= view_entries(old(out)@) + opt_entry(
            key@,
            enc_schemas_field(view_schemas(f@)),
        ),
    decreases f, 4int,
{
    if f.len() > 0 {
        let items = encode_schemas_vec(f);
        proof {
            lemma_view_schemas(f@);
        }
        push_entry(out, key, Any::Array(items));
    } else {
        proof {
            lemma_view_schemas(f@);
        }
    }
}

/// Emit an optional name-to-schema map keyword.
fn emit_opt_schema_map(
    out: &mut Vec<(String, Any)>,
    key: &str,
    f: &Option<Vec<(String, Schema)>>,
)
    ensures
        view_entries(final(out)@) =~= view_entries(old(out)@) + opt_entry(
            key@,
            enc_opt_schema_map_field(view_opt_schema_map(*f)),
        ),
    decreases f, 4int,
{
    match f {
        Some(m) => {
            let items = encode_schema_map_vec(m);
            push_entry(out, key, Any::Object(items));
        },
        None => {},
    }
}

/// Emit a plain name-to-schema map keyword, only when non-empty.
fn emit_schema_map(out: &mut Vec<(String, Any)>, key: &str, f: &Vec<(String, Schema)>)
    ensures
        view_entries(final(out)@) =~= view_entries(old(out)@) + opt_entry(
            key@,
            enc_schema_map_field(view_schema_map(f@)),
        ),
    decreases f, 4int,
{
    if f.len() > 0 {
        let items = encode_schema_map_vec(f);
        proof {
            lemma_view_schema_map(f@);
        }
        push_entry(out, key, Any::Object(items));
    } else {
        proof {
            lemma_view_schema_map(f@);
        }
    }
}

/// Emit an optional Discriminator Object keyword.
fn emit_opt_discriminator(out: &mut Vec<(String, Any)>, key: &str, f: &Option<
    Discriminator,
>)
    ensures
        view_entries(final(out)@) =~= view_entries(old(out)@) + opt_entry(
            key@,
            enc_opt_discriminator(f.deep_view()),
        ),
{
    match f {
        Some(d) => {
            let v = d.encode();
            push_entry(out, key, v);
        },
        None => {},
    }
}

/// Emit an optional XML Object keyword.
fn emit_opt_xml(out: &mut Vec<(String, Any)>, key: &str, f: &Option<Xml>)
    ensures
        view_entries(final(out)@) =~= view_entries(old(out)@) + opt_entry(
            key@,
            enc_opt_xml(f.deep_view()),
        ),
{
    match f {
        Some(x) => {
            let v = x.encode();
            push_entry(out, key, v);
        },
        None => {},
    }
}

/// Emit an optional external-documentation keyword.
fn emit_opt_extdoc(out: &mut Vec<(String, Any)>, key: &str, f: &Option<
    ExternalDocument,
>)
    ensures
        view_entries(final(out)@) =~= view_entries(old(out)@) + opt_entry(
            key@,
            enc_opt_extdoc(f.deep_view()),
        ),
{
    match f {
        Some(d) => {
            let v = d.encode();
            push_entry(out, key, v);
        },
        None => {},
    }
}

/// Decode every element of an array as a schema.
fn decode_schemas_vec(a: &Vec<Any>) -> (r: Result<Vec<Schema>, DecodeError>)
    ensures
        match r {
            Ok(x) => dec_schemas(view_vals(a@)) == Ok::<Seq<SchemaV>, DecodeError>(
                view_schemas(x@),
            ),
            Err(e) => dec_schemas(view_vals(a@)) == Err::<Seq<SchemaV>, DecodeError>(e),
        },
    decreases vsize_list(view_vals(a@)), 3int, 0int,
{
    let ghost vs = view_vals(a@);
    proof {
        lemma_view_vals(a@);
        assert(vs.skip(0) =~= vs);
        lemma_view_schemas(Seq::<Schema>::empty());
    }
    let mut outv: Vec<Schema> = Vec::new();
    proof {
        assert(view_schemas(outv@) =~= Seq::<SchemaV>::empty());
    }
    let mut i: usize = 0;
    while i < a.len()
        invariant
            i <= a@.len(),
            vs == view_vals(a@),
            vs.len() == a@.len(),
            forall|j: int| 0 <= j < a@.len() ==> vs[j] == view_val(a@[j]),
            outv@.len() == i,
            dec_schemas(vs) == res_prepend(
                view_schemas(outv@),
                dec_schemas(vs.skip(i as int)),
            ),
        decreases a@.len() - i,
    {
        proof {
            assert(vs.skip(i as int)[0] == vs[i as int]);
            assert(vs.skip(i as int).skip(1) =~= vs.skip(i as int + 1));
            lemma_vsize_list_elem(vs, i as int);
        }
        match Schema::decode(&a[i]) {
            Ok(sch) => {
                let ghost before = outv@;
                outv.push(sch);
                proof {
                    lemma_view_schemas(before);
                    lemma_view_schemas(outv@);
                    let x = view_schema(outv@[outv@.len() - 1]);
                    assert(view_schemas(outv@) =~= view_schemas(before) + seq![x]);
                    match dec_schemas(vs.skip(i as int + 1)) {
                        Ok(rest) => {
                            assert((view_schemas(before) + seq![x]) + rest
                                =~= view_schemas(before) + (seq![x] + rest));
                        },
                        Err(_) => {},
                    }
                }
            },
            Err(e) => {
                return Err(e);
            },
        }
        i += 1;
    }
    proof {
        assert(vs.skip(a@.len() as int) =~= Seq::<ValS>::empty());
        assert(view_schemas(outv@) + Seq::<SchemaV>::empty() =~= view_schemas(outv@));
    }
    Ok(outv)
}

/// Decode every entry value of an object as a schema.
fn decode_schema_map_vec(o: &Vec<(String, Any)>) -> (r: Result<
    Vec<(String, Schema)>,
    DecodeError,
>)
    ensures
        match r {
            Ok(x) => dec_schema_map(view_entries(o@)) == Ok::<
                Seq<(Seq<char>, SchemaV)>,
                DecodeError,
            >(view_schema_map(x@)),
            Err(e) => dec_schema_map(view_entries(o@)) == Err::<
                Seq<(Seq<char>, SchemaV)>,
                DecodeError,
            >(e),
        },
    decreases vsize_entries(view_entries(o@)), 3int, 0int,
{
    let ghost m = view_entries(o@);
    proof {
        lemma_view_entries(o@);
        assert(m.skip(0) =~= m);
        lemma_view_schema_map(Seq::<(String, Schema)>::empty());
    }
    let mut outv: Vec<(String, Schema)> = Vec::new();
    proof {
        assert(view_schema_map(outv@) =~= Seq::<(Seq<char>, SchemaV)>::empty());
    }
    let mut i: usize = 0;
    while i < o.len()
        invariant
            i <= o@.len(),
            m == view_entries(o@),
            m.len() == o@.len(),
            forall|j: int| 0 <= j < o@.len() ==> m[j] == (o@[j].0@, view_val(o@[j].1)),
            outv@.len() == i,
            dec_schema_map(m) == res_prepend(
                view_schema_map(outv@),
                dec_schema_map(m.skip(i as int)),
            ),
        decreases o@.len() - i,
    {
        proof {
            assert(m.skip(i as int)[0] == m[i as int]);
            assert(m.skip(i as int).skip(1) =~= m.skip(i as int + 1));
            lemma_vsize_entries_elem(m, i as int);
        }
        let (k, v2) = &o[i];
        match Schema::decode(v2) {
            Ok(sch) => {
                let ghost before = outv@;
                outv.push((k.clone(), sch));
                proof {
                    lemma_view_schema_map(before);
                    lemma_view_schema_map(outv@);
                    let x = (outv@[outv@.len() - 1].0@, view_schema(
                        outv@[outv@.len() - 1].1,
                    ));
                    assert(view_schema_map(outv@) =~= view_schema_map(before) + seq![x]);
                    match dec_schema_map(m.skip(i as int + 1)) {
                        Ok(rest) => {
                            assert((view_schema_map(before) + seq![x]) + rest
                                =~= view_schema_map(before) + (seq![x] + rest));
                        },
                        Err(_) => {},
                    }
                }
            },
            Err(e) => {
                return Err(e);
            },
        }
        i += 1;
    }
    proof {
        assert(m.skip(o@.len() as int) =~= Seq::<(Seq<char>, ValS)>::empty());
        assert(view_schema_map(outv@) + Seq::<(Seq<char>, SchemaV)>::empty()
            =~= view_schema_map(outv@));
    }
    Ok(outv)
}

/// Read an optional child schema keyword.
fn get_opt_schema_field(es: &Vec<(String, Any)>, key: &str) -> (r: Result<
    Option<Box<Schema>>,
    DecodeError,
>)
    ensures
        match r {
            Ok(x) => dec_opt_schema_field(view_entries(es@), key@) == Ok::<
                Option<Box<SchemaV>>,
                DecodeError,
            >(view_opt_schema(x)),
            Err(e) => dec_opt_schema_field(view_entries(es@), key@) == Err::<
                Option<Box<SchemaV>>,
                DecodeError,
            >(e),
        },
    decreases vsize_entries(view_entries(es@)), 1int, 0int,
{
    match get_entry(es, key) {
        None => Ok(None),
        Some(Any::Null) => Ok(None),
        Some(v) => {
            proof {
                lemma_lookup_vsize(view_entries(es@), key@);
            }
            match Schema::decode(v) {
                Ok(c) => Ok(Some(Box::new(c))),
                Err(e) => Err(e),
            }
        },
    }
}

/// Read an optional schema-list keyword.
fn get_opt_schemas_field(es: &Vec<(String, Any)>, key: &str) -> (r: Result<
    Option<Vec<Schema>>,
    DecodeError,
>)
    ensures
        match r {
            Ok(x) => dec_opt_schemas_field(view_entries(es@), key@) == Ok::<
                Option<Seq<SchemaV>>,
                DecodeError,
            >(view_opt_schemas(x)),
            Err(e) => dec_opt_schemas_field(view_entries(es@), key@) == Err::<
                Option<Seq<SchemaV>>,
                DecodeError,
            >(e),
        },
    decreases vsize_entries(view_entries(es@)), 1int, 0int,
{
    match get_entry(es, key) {
        None => Ok(None),
        Some(Any::Null) => Ok(None),
        Some(v) => match v {
            Any::Array(a) => {
                proof {
                    lemma_lookup_vsize(view_entries(es@), key@);
                    lemma_view_vals(a@);
                }
                match decode_schemas_vec(a) {
                    Ok(l) => Ok(Some(l)),
                    Err(e) => Err(e),
                }
            },
            _ => Err(DecodeError::ExpectedArray),
        },
    }
}

/// Read a plain schema-list keyword that defaults to empty.
fn get_schemas_list_field(es: &Vec<(String, Any)>, key: &str) -> (r: Result<
    Vec<Schema>,
    DecodeError,
>)
    ensures
        match r {
            Ok(x) => dec_schemas_list_field(view_entries(es@), key@) == Ok::<
                Seq<SchemaV>,
                DecodeError,
            >(view_schemas(x@)),
            Err(e) => dec_schemas_list_field(view_entries(es@), key@) == Err::<
                Seq<SchemaV>,
                DecodeError,
            >(e),
        },
    decreases vsize_entries(view_entries(es@)), 1int, 0int,
{
    match get_entry(es, key) {
        None => {
            let empty: Vec<Schema> = Vec::new();
            proof {
                lemma_view_schemas(empty@);
                assert(view_schemas(empty@) =~= Seq::<SchemaV>::empty());
            }
            Ok(empty)
        },
        Some(v) => match v {
            Any::Array(a) => {
                proof {
                    lemma_lookup_vsize(view_entries(es@), key@);
                    lemma_view_vals(a@);
                }
                decode_schemas_vec(a)
            },
            _ => Err(DecodeError::ExpectedArray),
        },
    }
}

/// Read an optional name-to-schema map keyword.
fn get_opt_schema_map_field(es: &Vec<(String, Any)>, key: &str) -> (r: Result<
    Option<Vec<(String, Schema)>>,
    DecodeError,
>)
    ensures
        match r {
            Ok(x) => dec_opt_schema_map_field(view_entries(es@), key@) == Ok::<
                Option<Seq<(Seq<char>, SchemaV)>>,
                DecodeError,
            >(view_opt_schema_map(x)),
            Err(e) => dec_opt_schema_map_field(view_entries(es@), key@) == Err::<
                Option<Seq<(Seq<char>, SchemaV)>>,
                DecodeError,
            >(e),
        },
    decreases vsize_entries(view_entries(es@)), 1int, 0int,
{
    match get_entry(es, key) {
        None => Ok(None),
        Some(Any::Null) => Ok(None),
        Some(v) => match v {
            Any::Object(o) => {
                proof {
                    lemma_lookup_vsize(view_entries(es@), key@);
                    lemma_view_entries(o@);
                }
                match decode_schema_map_vec(o) {
                    Ok(m) => Ok(Some(m)),
                    Err(e) => Err(e),
                }
            },
            _ => Err(DecodeError::ExpectedObject),
        },
    }
}

/// Read a plain name-to-schema map keyword that defaults to empty.
fn get_schema_map_field(es: &Vec<(String, Any)>, key: &str) -> (r: Result<
    Vec<(String, Schema)>,
    DecodeError,
>)
    ensures
        match r {
            Ok(x) => dec_schema_map_field(view_entries(es@), key@) == Ok::<
                Seq<(Seq<char>, SchemaV)>,
                DecodeError,
            >(view_schema_map(x@)),
            Err(e) => dec_schema_map_field(view_entries(es@), key@) == Err::<
                Seq<(Seq<char>, SchemaV)>,
                DecodeError,
            >(e),
        },
    decreases vsize_entries(view_entries(es@)), 1int, 0int,
{
    match get_entry(es, key) {
        None => {
            let empty: Vec<(String, Schema)> = Vec::new();
            proof {
                lemma_view_schema_map(empty@);
                assert(view_schema_map(empty@) =~= Seq::<(Seq<char>, SchemaV)>::empty());
            }
            Ok(empty)
        },
        Some(v) => match v {
            Any::Object(o) => {
                proof {
                    lemma_lookup_vsize(view_entries(es@), key@);
                    lemma_view_entries(o@);
                }
                decode_schema_map_vec(o)
            },
            _ => Err(DecodeError::ExpectedObject),
        },
    }
}

/// Read an optional Discriminator Object keyword.
fn get_opt_discriminator_field(es: &Vec<(String, Any)>, key: &str) -> (r: Result<
    Option<Discriminator>,
    DecodeError,
>)
    ensures
        res_view(r) == dec_opt_discriminator_field(view_entries(es@), key@),
{
    match get_entry(es, key) {
        None => Ok(None),
        Some(Any::Null) => Ok(None),
        Some(v) => match Discriminator::decode(v) {
            Ok(d) => Ok(Some(d)),
            Err(e) => Err(e),
        },
    }
}

/// Read an optional XML Object keyword.
fn get_opt_xml_field(es: &Vec<(String, Any)>, key: &str) -> (r: Result<
    Option<Xml>,
    DecodeError,
>)
    ensures
        res_view(r) == dec_opt_xml_field(view_entries(es@), key@),
{
    match get_entry(es, key) {
        None => Ok(None),
        Some(Any::Null) => Ok(None),
        Some(v) => match Xml::decode(v) {
            Ok(x) => Ok(Some(x)),
            Err(e) => Err(e),
        },
    }
}

/// Read an optional external-documentation keyword.
fn get_opt_extdoc_field(es: &Vec<(String, Any)>, key: &str) -> (r: Result<
    Option<ExternalDocument>,
    DecodeError,
>)
    ensures
        res_view(r) == dec_opt_extdoc_field(view_entries(es@), key@),
{
    match get_entry(es, key) {
        None => Ok(None),
        Some(Any::Null) => Ok(None),
        Some(v) => match ExternalDocument::decode(v) {
            Ok(d) => Ok(Some(d)),
            Err(e) => Err(e),
        },
    }
}

/// Adding one entry to the scanned prefix extends the kept extensions by
/// that entry exactly when its key is unknown.
proof fn lemma_drop_known_snoc(es: Seq<(Seq<char>, ValS)>, i: int)
    requires
        0 <= i < es.len(),
    ensures
        drop_known(es.take(i + 1)) =~= drop_known(es.take(i)) + (if is_schema_key(
            es[i].0,
        ) {
            Seq::<(Seq<char>, ValS)>::empty()
        } else {
            seq![es[i]]
        }),
    decreases i,
{
    if i == 0 {
        assert(es.take(0) =~= Seq::<(Seq<char>, ValS)>::empty());
        assert(es.take(1) =~= seq![es[0]]);
        assert(seq![es[0]].skip(1) =~= Seq::<(Seq<char>, ValS)>::empty());
    } else {
        lemma_drop_known_snoc(es.skip(1), i - 1);
        assert(es.take(i + 1).skip(1) =~= es.skip(1).take(i));
        assert(es.take(i).skip(1) =~= es.skip(1).take(i - 1));
        assert(es.skip(1)[i - 1] == es[i]);
        assert(es.take(i + 1)[0] == es[0]);
        assert(es.take(i)[0] == es[0]);
    }
}

/// Collect the entries whose keys are not schema keywords.
fn split_extensions(es: &Vec<(String, Any)>) -> (r: Vec<(String, Any)>)
    ensures
        view_entries(r@) =~= drop_known(view_entries(es@)),
{
    let ghost evs = view_entries(es@);
    proof {
        lemma_view_entries(es@);
        assert(evs.take(0) =~= Seq::<(Seq<char>, ValS)>::empty());
    }
    let mut out: Vec<(String, Any)> = Vec::new();
    proof {
        lemma_view_entries(out@);
        assert(view_entries(out@) =~= drop_known(evs.take(0)));
    }
    let mut i: usize = 0;
    while i < es.len()
        invariant
            i <= es@.len(),
            evs == view_entries(es@),
            evs.len() == es@.len(),
            forall|j: int| 0 <= j < es@.len() ==> evs[j] == (es@[j].0@, view_val(
                es@[j].1,
            )),
            view_entries(out@) =~= drop_known(evs.take(i as int)),
        decreases es@.len() - i,
    {
        let (k, v) = &es[i];
        let ghost before = out@;
        if !is_known_key(k) {
            out.push((k.clone(), v.clone()));
            proof {
                lemma_view_entries(before);
                lemma_view_entries(out@);
                assert(view_entries(out@) =~= view_entries(before) + seq![
                    (out@[out@.len() - 1].0@, view_val(out@[out@.len() - 1].1)),
                ]);
            }
        }
        proof {
            lemma_drop_known_snoc(evs, i as int);
        }
        i += 1;
    }
    proof {
        assert(evs.take(es@.len() as int) =~= evs);
    }
    out
}


// ---------------------------------------------------------------------------
// Executable codec: the Schema itself
// ---------------------------------------------------------------------------
/// Emission distributes over splitting the field list.
proof fn lemma_compact_append(
    a: Seq<(Seq<char>, Option<ValS>)>,
    b: Seq<(Seq<char>, Option<ValS>)>,
)
    ensures
        compact(a + b) =~= compact(a) + compact(b),
    decreases a.len(),
{
    if a.len() == 0 {
        assert(a + b =~= b);
    } else {
        lemma_compact_append(a.skip(1), b);
        assert((a + b).skip(1) =~= a.skip(1) + b);
        assert(compact(a + b) =~= opt_entry((a + b)[0].0, (a + b)[0].1) + compact(
            a.skip(1) + b,
        ));
    }
}

/// The first failing keyword in the range `[i, hi)`, if any.
pub open spec fn schema_err_range(es: Seq<(Seq<char>, ValS)>, i: int, hi: int) -> Option<
    DecodeError,
>
    decreases vsize_entries(es), 8int, 200int - i,
{
    if i < 0 || i >= hi || hi > schema_key_count() {
        None
    } else {
        match schema_field_err(es, i) {
            Some(e) => Some(e),
            None => schema_err_range(es, i + 1, hi),
        }
    }
}

/// A clean keyword moves the range scan one step right.
proof fn lemma_err_range_step(es: Seq<(Seq<char>, ValS)>, lo: int, hi: int)
    requires
        0 <= lo < hi <= schema_key_count(),
        schema_field_err(es, lo) is None,
    ensures
        schema_err_range(es, lo, hi) == schema_err_range(es, lo + 1, hi),
{
}

/// A failing keyword ends the range scan.
proof fn lemma_err_range_here(es: Seq<(Seq<char>, ValS)>, lo: int, hi: int, e: DecodeError)
    requires
        0 <= lo < hi <= schema_key_count(),
        schema_field_err(es, lo) == Some(e),
    ensures
        schema_err_range(es, lo, hi) == Some(e),
{
}

/// The whole-schema scan splits at any range boundary.
proof fn lemma_first_err_via_range(es: Seq<(Seq<char>, ValS)>, lo: int, hi: int)
    requires
        0 <= lo <= hi <= schema_key_count(),
    ensures
        schema_first_err_from(es, lo) == match schema_err_range(es, lo, hi) {
            Some(e) => Some(e),
            None => schema_first_err_from(es, hi),
        },
    decreases hi - lo,
{
    if lo < hi {
        match schema_field_err(es, lo) {
            Some(e) => {},
            None => {
                lemma_first_err_via_range(es, lo + 1, hi);
            },
        }
    }
}

proof fn lemma_fe_0(s: SchemaV)
    ensures
        schema_key(0) == "$schema"@,
        schema_field_enc(s, 0) == enc_opt_str(s.schema),
{
}

proof fn lemma_fe_1(s: SchemaV)
    ensures
        schema_key(1) == "$id"@,
        schema_field_enc(s, 1) == enc_opt_str(s.id),
{
}

proof fn lemma_fe_2(s: SchemaV)
    ensures
        schema_key(2) == "$ref"@,
        schema_field_enc(s, 2) == enc_opt_str(s.ref_uri),
{
}

proof fn lemma_fe_3(s: SchemaV)
    ensures
        schema_key(3) == "$comment"@,
        schema_field_enc(s, 3) == enc_opt_str(s.comment),
{
}

proof fn lemma_fe_4(s: SchemaV)
    ensures
        schema_key(4) == "allOf"@,
        schema_field_enc(s, 4) == enc_opt_schemas_field(s.all_of),
{
}

proof fn lemma_fe_5(s: SchemaV)
    ensures
        schema_key(5) == "anyOf"@,
        schema_field_enc(s, 5) == enc_opt_schemas_field(s.any_of),
{
}

proof fn lemma_fe_6(s: SchemaV)
    ensures
        schema_key(6) == "oneOf"@,
        schema_field_enc(s, 6) == enc_opt_schemas_field(s.one_of),
{
}

proof fn lemma_fe_7(s: SchemaV)
    ensures
        schema_key(7) == "not"@,
        schema_field_enc(s, 7) == enc_opt_schema(s.not),
{
}

proof fn lemma_fe_8(s: SchemaV)
    ensures
        schema_key(8) == "if"@,
        schema_field_enc(s, 8) == enc_opt_schema(s.if_schema),
{
}

proof fn lemma_fe_9(s: SchemaV)
    ensures
        schema_key(9) == "then"@,
        schema_field_enc(s, 9) == enc_opt_schema(s.then_schema),
{
}

proof fn lemma_fe_10(s: SchemaV)
    ensures
        schema_key(10) == "else"@,
        schema_field_enc(s, 10) == enc_opt_schema(s.else_schema),
{
}

proof fn lemma_fe_11(s: SchemaV)
    ensures
        schema_key(11) == "dependentSchemas"@,
        schema_field_enc(s, 11) == enc_schema_map_field(s.dependent_schemas),
{
}

proof fn lemma_fe_12(s: SchemaV)
    ensures
        schema_key(12) == "prefixItems"@,
        schema_field_enc(s, 12) == enc_schemas_field(s.prefix_items),
{
}

proof fn lemma_fe_13(s: SchemaV)
    ensures
        schema_key(13) == "items"@,
        schema_field_enc(s, 13) == enc_opt_schema(s.items),
{
}

proof fn lemma_fe_14(s: SchemaV)
    ensures
        schema_key(14) == "contains"@,
        schema_field_enc(s, 14) == enc_opt_schema(s.contains),
{
}

proof fn lemma_fe_15(s: SchemaV)
    ensures
        schema_key(15) == "properties"@,
        schema_field_enc(s, 15) == enc_opt_schema_map_field(s.properties),
{
}

proof fn lemma_fe_16(s: SchemaV)
    ensures
        schema_key(16) == "patternProperties"@,
        schema_field_enc(s, 16) == enc_schema_map_field(s.pattern_properties),
{
}

proof fn lemma_fe_17(s: SchemaV)
    ensures
        schema_key(17) == "additionalProperties"@,
        schema_field_enc(s, 17) == enc_opt_schema(s.additional_properties),
{
}

proof fn lemma_fe_18(s: SchemaV)
    ensures
        schema_key(18) == "propertyNames"@,
        schema_field_enc(s, 18) == enc_opt_schema(s.property_names),
{
}

proof fn lemma_fe_19(s: SchemaV)
    ensures
        schema_key(19) == "unevaluatedItems"@,
        schema_field_enc(s, 19) == enc_opt_schema(s.unevaluated_items),
{
}

proof fn lemma_fe_20(s: SchemaV)
    ensures
        schema_key(20) == "unevaluatedProperties"@,
        schema_field_enc(s, 20) == enc_opt_schema(s.unevaluated_properties),
{
}

proof fn lemma_fe_21(s: SchemaV)
    ensures
        schema_key(21) == "type"@,
        schema_field_enc(s, 21) == enc_types_field(s.types),
{
}

proof fn lemma_fe_22(s: SchemaV)
    ensures
        schema_key(22) == "enum"@,
        schema_field_enc(s, 22) == enc_str_list(s.enumeration),
{
}

proof fn lemma_fe_23(s: SchemaV)
    ensures
        schema_key(23) == "const"@,
        schema_field_enc(s, 23) == enc_opt_str(s.constant),
{
}

proof fn lemma_fe_24(s: SchemaV)
    ensures
        schema_key(24) == "multipleOf"@,
        schema_field_enc(s, 24) == enc_opt_num(s.multiple_of),
{
}

proof fn lemma_fe_25(s: SchemaV)
    ensures
        schema_key(25) == "maximum"@,
        schema_field_enc(s, 25) == enc_opt_num(s.maximum),
{
}

proof fn lemma_fe_26(s: SchemaV)
    ensures
        schema_key(26) == "exclusiveMaximum"@,
        schema_field_enc(s, 26) == enc_opt_num(s.exclusive_maximum),
{
}

proof fn lemma_fe_27(s: SchemaV)
    ensures
        schema_key(27) == "minimum"@,
        schema_field_enc(s, 27) == enc_opt_num(s.minimum),
{
}

proof fn lemma_fe_28(s: SchemaV)
    ensures
        schema_key(28) == "exclusiveMinimum"@,
        schema_field_enc(s, 28) == enc_opt_num(s.exclusive_minimum),
{
}

proof fn lemma_fe_29(s: SchemaV)
    ensures
        schema_key(29) == "maxLength"@,
        schema_field_enc(s, 29) == enc_opt_size(s.max_length),
{
}

proof fn lemma_fe_30(s: SchemaV)
    ensures
        schema_key(30) == "minLength"@,
        schema_field_enc(s, 30) == enc_opt_size(s.min_length),
{
}

proof fn lemma_fe_31(s: SchemaV)
    ensures
        schema_key(31) == "pattern"@,
        schema_field_enc(s, 31) == enc_opt_str(s.pattern),
{
}

proof fn lemma_fe_32(s: SchemaV)
    ensures
        schema_key(32) == "maxItems"@,
        schema_field_enc(s, 32) == enc_opt_size(s.max_items),
{
}

proof fn lemma_fe_33(s: SchemaV)
    ensures
        schema_key(33) == "minItems"@,
        schema_field_enc(s, 33) == enc_opt_size(s.min_items),
{
}

proof fn lemma_fe_34(s: SchemaV)
    ensures
        schema_key(34) == "uniqueItems"@,
        schema_field_enc(s, 34) == enc_bool(s.unique_items),
{
}

proof fn lemma_fe_35(s: SchemaV)
    ensures
        schema_key(35) == "maxContains"@,
        schema_field_enc(s, 35) == enc_opt_size(s.max_contains),
{
}

proof fn lemma_fe_36(s: SchemaV)
    ensures
        schema_key(36) == "minContains"@,
        schema_field_enc(s, 36) == enc_opt_size(s.min_contains),
{
}

proof fn lemma_fe_37(s: SchemaV)
    ensures
        schema_key(37) == "maxProperties"@,
        schema_field_enc(s, 37) == enc_opt_size(s.max_properties),
{
}

proof fn lemma_fe_38(s: SchemaV)
    ensures
        schema_key(38) == "minProperties"@,
        schema_field_enc(s, 38) == enc_opt_size(s.min_properties),
{
}

proof fn lemma_fe_39(s: SchemaV)
    ensures
        schema_key(39) == "required"@,
        schema_field_enc(s, 39) == enc_str_list(s.required),
{
}

proof fn lemma_fe_40(s: SchemaV)
    ensures
        schema_key(40) == "dependentRequired"@,
        schema_field_enc(s, 40) == enc_str_list_map_field(s.dependent_required),
{
}

proof fn lemma_fe_41(s: SchemaV)
    ensures
        schema_key(41) == "format"@,
        schema_field_enc(s, 41) == enc_format_field(s.format),
{
}

proof fn lemma_fe_42(s: SchemaV)
    ensures
        schema_key(42) == "contentEncoding"@,
        schema_field_enc(s, 42) == enc_opt_str(s.content_encoding),
{
}

proof fn lemma_fe_43(s: SchemaV)
    ensures
        schema_key(43) == "contentMediaType"@,
        schema_field_enc(s, 43) == enc_opt_str(s.content_media_type),
{
}

proof fn lemma_fe_44(s: SchemaV)
    ensures
        schema_key(44) == "contentSchema"@,
        schema_field_enc(s, 44) == enc_opt_schema(s.content_schema),
{
}

proof fn lemma_fe_45(s: SchemaV)
    ensures
        schema_key(45) == "title"@,
        schema_field_enc(s, 45) == enc_opt_str(s.title),
{
}

proof fn lemma_fe_46(s: SchemaV)
    ensures
        schema_key(46) == "description"@,
        schema_field_enc(s, 46) == enc_opt_str(s.description),
{
}

proof fn lemma_fe_47(s: SchemaV)
    ensures
        schema_key(47) == "default"@,
        schema_field_enc(s, 47) == enc_opt_val(s.default),
{
}

proof fn lemma_fe_48(s: SchemaV)
    ensures
        schema_key(48) == "deprecated"@,
        schema_field_enc(s, 48) == enc_bool(s.deprecated),
{
}

proof fn lemma_fe_49(s: SchemaV)
    ensures
        schema_key(49) == "readOnly"@,
        schema_field_enc(s, 49) == enc_bool(s.read_only),
{
}

proof fn lemma_fe_50(s: SchemaV)
    ensures
        schema_key(50) == "writeOnly"@,
        schema_field_enc(s, 50) == enc_bool(s.write_only),
{
}

proof fn lemma_fe_51(s: SchemaV)
    ensures
        schema_key(51) == "examples"@,
        schema_field_enc(s, 51) == enc_val_list(s.examples),
{
}

proof fn lemma_fe_52(s: SchemaV)
    ensures
        schema_key(52) == "discriminator"@,
        schema_field_enc(s, 52) == enc_opt_discriminator(s.discriminator),
{
}

proof fn lemma_fe_53(s: SchemaV)
    ensures
        schema_key(53) == "xml"@,
        schema_field_enc(s, 53) == enc_opt_xml(s.xml),
{
}

proof fn lemma_fe_54(s: SchemaV)
    ensures
        schema_key(54) == "externalDocs"@,
        schema_field_enc(s, 54) == enc_opt_extdoc(s.external_docs),
{
}

proof fn lemma_fe_55(s: SchemaV)
    ensures
        schema_key(55) == "example"@,
        schema_field_enc(s, 55) == enc_opt_val(s.example),
{
}

/// One emitted keyword extends the built object by one emission step.
proof fn lemma_emit_chain(
    base: Seq<(Seq<char>, ValS)>,
    prev: Seq<(Seq<char>, ValS)>,
    cur: Seq<(Seq<char>, ValS)>,
    sub: Seq<(Seq<char>, Option<ValS>)>,
    t: int,
)
    requires
        0 <= t < sub.len(),
        prev =~= base + compact(sub.take(t)),
        cur =~= prev + opt_entry(sub[t].0, sub[t].1),
    ensures
        cur =~= base + compact(sub.take(t + 1)),
{
    lemma_compact_snoc(sub, t);
}

/// Emit keywords 0 through 10.
fn emit_schema_group_a(out: &mut Vec<(String, Any)>, s: &Schema)
    ensures
        view_entries(final(out)@) =~= view_entries(old(out)@) + compact(
            schema_entries(view_schema(*s)).subrange(0, 11),
        ),
    decreases s, 2int,
{
    let ghost sv = view_schema(*s);
    let ghost entries = schema_entries(sv);
    let ghost sub = entries.subrange(0, 11);
    let ghost base = view_entries(out@);
    proof {
        lemma_schema_entries_index(sv);
        assert(sub.take(0) =~= Seq::<(Seq<char>, Option<ValS>)>::empty());
        assert(compact(sub.take(0)) =~= Seq::<(Seq<char>, ValS)>::empty());
        assert(view_entries(out@) =~= base + compact(sub.take(0)));
    }
    let ghost prev0 = view_entries(out@);
    emit_opt_str(out, "$schema", &s.schema);
    proof {
        lemma_fe_0(sv);
        assert(entries[0] == (schema_key(0), schema_field_enc(sv, 0)));
        assert(sub[0] == entries[0]);
        lemma_emit_chain(base, prev0, view_entries(out@), sub, 0);
    }
    let ghost prev1 = view_entries(out@);
    emit_opt_str(out, "$id", &s.id);
    proof {
        lemma_fe_1(sv);
        assert(entries[1] == (schema_key(1), schema_field_enc(sv, 1)));
        assert(sub[1] == entries[1]);
        lemma_emit_chain(base, prev1, view_entries(out@), sub, 1);
    }
    let ghost prev2 = view_entries(out@);
    emit_opt_str(out, "$ref", &s.ref_uri);
    proof {
        lemma_fe_2(sv);
        assert(entries[2] == (schema_key(2), schema_field_enc(sv, 2)));
        assert(sub[2] == entries[2]);
        lemma_emit_chain(base, prev2, view_entries(out@), sub, 2);
    }
    let ghost prev3 = view_entries(out@);
    emit_opt_str(out, "$comment", &s.comment);
    proof {
        lemma_fe_3(sv);
        assert(entries[3] == (schema_key(3), schema_field_enc(sv, 3)));
        assert(sub[3] == entries[3]);
        lemma_emit_chain(base, prev3, view_entries(out@), sub, 3);
    }
    let ghost prev4 = view_entries(out@);
    emit_opt_schemas(out, "allOf", &s.all_of);
    proof {
        lemma_fe_4(sv);
        assert(entries[4] == (schema_key(4), schema_field_enc(sv, 4)));
        assert(sub[4] == entries[4]);
        lemma_emit_chain(base, prev4, view_entries(out@), sub, 4);
    }
    let ghost prev5 = view_entries(out@);
    emit_opt_schemas(out, "anyOf", &s.any_of);
    proof {
        lemma_fe_5(sv);
        assert(entries[5] == (schema_key(5), schema_field_enc(sv, 5)));
        assert(sub[5] == entries[5]);
        lemma_emit_chain(base, prev5, view_entries(out@), sub, 5);
    }
    let ghost prev6 = view_entries(out@);
    emit_opt_schemas(out, "oneOf", &s.one_of);
    proof {
        lemma_fe_6(sv);
        assert(entries[6] == (schema_key(6), schema_field_enc(sv, 6)));
        assert(sub[6] == entries[6]);
        lemma_emit_chain(base, prev6, view_entries(out@), sub, 6);
    }
    let ghost prev7 = view_entries(out@);
    emit_opt_schema(out, "not", &s.not);
    proof {
        lemma_fe_7(sv);
        assert(entries[7] == (schema_key(7), schema_field_enc(sv, 7)));
        assert(sub[7] == entries[7]);
        lemma_emit_chain(base, prev7, view_entries(out@), sub, 7);
    }
    let ghost prev8 = view_entries(out@);
    emit_opt_schema(out, "if", &s.if_schema);
    proof {
        lemma_fe_8(sv);
        assert(entries[8] == (schema_key(8), schema_field_enc(sv, 8)));
        assert(sub[8] == entries[8]);
        lemma_emit_chain(base, prev8, view_entries(out@), sub, 8);
    }
    let ghost prev9 = view_entries(out@);
    emit_opt_schema(out, "then", &s.then_schema);
    proof {
        lemma_fe_9(sv);
        assert(entries[9] == (schema_key(9), schema_field_enc(sv, 9)));
        assert(sub[9] == entries[9]);
        lemma_emit_chain(base, prev9, view_entries(out@), sub, 9);
    }
    let ghost prev10 = view_entries(out@);
    emit_opt_schema(out, "else", &s.else_schema);
    proof {
        lemma_fe_10(sv);
        assert(entries[10] == (schema_key(10), schema_field_enc(sv, 10)));
        assert(sub[10] == entries[10]);
        lemma_emit_chain(base, prev10, view_entries(out@), sub, 10);
    }
    proof {
        assert(sub.take(11) =~= sub);
    }
}

/// Emit keywords 11 through 20.
fn emit_schema_group_b(out: &mut Vec<(String, Any)>, s: &Schema)
    ensures
        view_entries(final(out)@) =~= view_entries(old(out)@) + compact(
            schema_entries(view_schema(*s)).subrange(11, 21),
        ),
    decreases s, 2int,
{
    let ghost sv = view_schema(*s);
    let ghost entries = schema_entries(sv);
    let ghost sub = entries.subrange(11, 21);
    let ghost base = view_entries(out@);
    proof {
        lemma_schema_entries_index(sv);
        assert(sub.take(0) =~= Seq::<(Seq<char>, Option<ValS>)>::empty());
        assert(compact(sub.take(0)) =~= Seq::<(Seq<char>, ValS)>::empty());
        assert(view_entries(out@) =~= base + compact(sub.take(0)));
    }
    let ghost prev0 = view_entries(out@);
    emit_schema_map(out, "dependentSchemas", &s.dependent_schemas);
    proof {
        lemma_fe_11(sv);
        assert(entries[11] == (schema_key(11), schema_field_enc(sv, 11)));
        assert(sub[0] == entries[11]);
        lemma_emit_chain(base, prev0, view_entries(out@), sub, 0);
    }
    let ghost prev1 = view_entries(out@);
    emit_schemas_list(out, "prefixItems", &s.prefix_items);
    proof {
        lemma_fe_12(sv);
        assert(entries[12] == (schema_key(12), schema_field_enc(sv, 12)));
        assert(sub[1] == entries[12]);
        lemma_emit_chain(base, prev1, view_entries(out@), sub, 1);
    }
    let ghost prev2 = view_entries(out@);
    emit_opt_schema(out, "items", &s.items);
    proof {
        lemma_fe_13(sv);
        assert(entries[13] == (schema_key(13), schema_field_enc(sv, 13)));
        assert(sub[2] == entries[13]);
        lemma_emit_chain(base, prev2, view_entries(out@), sub, 2);
    }
    let ghost prev3 = view_entries(out@);
    emit_opt_schema(out, "contains", &s.contains);
    proof {
        lemma_fe_14(sv);
        assert(entries[14] == (schema_key(14), schema_field_enc(sv, 14)));
        assert(sub[3] == entries[14]);
        lemma_emit_chain(base, prev3, view_entries(out@), sub, 3);
    }
    let ghost prev4 = view_entries(out@);
    emit_opt_schema_map(out, "properties", &s.properties);
    proof {
        lemma_fe_15(sv);
        assert(entries[15] == (schema_key(15), schema_field_enc(sv, 15)));
        assert(sub[4] == entries[15]);
        lemma_emit_chain(base, prev4, view_entries(out@), sub, 4);
    }
    let ghost prev5 = view_entries(out@);
    emit_schema_map(out, "patternProperties", &s.pattern_properties);
    proof {
        lemma_fe_16(sv);
        assert(entries[16] == (schema_key(16), schema_field_enc(sv, 16)));
        assert(sub[5] == entries[16]);
        lemma_emit_chain(base, prev5, view_entries(out@), sub, 5);
    }
    let ghost prev6 = view_entries(out@);
    emit_opt_schema(out, "additionalProperties", &s.additional_properties);
    proof {
        lemma_fe_17(sv);
        assert(entries[17] == (schema_key(17), schema_field_enc(sv, 17)));
        assert(sub[6] == entries[17]);
        lemma_emit_chain(base, prev6, view_entries(out@), sub, 6);
    }
    let ghost prev7 = view_entries(out@);
    emit_opt_schema(out, "propertyNames", &s.property_names);
    proof {
        lemma_fe_18(sv);
        assert(entries[18] == (schema_key(18), schema_field_enc(sv, 18)));
        assert(sub[7] == entries[18]);
        lemma_emit_chain(base, prev7, view_entries(out@), sub, 7);
    }
    let ghost prev8 = view_entries(out@);
    emit_opt_schema(out, "unevaluatedItems", &s.unevaluated_items);
    proof {
        lemma_fe_19(sv);
        assert(entries[19] == (schema_key(19), schema_field_enc(sv, 19)));
        assert(sub[8] == entries[19]);
        lemma_emit_chain(base, prev8, view_entries(out@), sub, 8);
    }
    let ghost prev9 = view_entries(out@);
    emit_opt_schema(out, "unevaluatedProperties", &s.unevaluated_properties);
    proof {
        lemma_fe_20(sv);
        assert(entries[20] == (schema_key(20), schema_field_enc(sv, 20)));
        assert(sub[9] == entries[20]);
        lemma_emit_chain(base, prev9, view_entries(out@), sub, 9);
    }
    proof {
        assert(sub.take(10) =~= sub);
    }
}

/// Emit keywords 21 through 28.
fn emit_schema_group_c(out: &mut Vec<(String, Any)>, s: &Schema)
    ensures
        view_entries(final(out)@) =~= view_entries(old(out)@) + compact(
            schema_entries(view_schema(*s)).subrange(21, 29),
        ),
    decreases s, 2int,
{
    let ghost sv = view_schema(*s);
    let ghost entries = schema_entries(sv);
    let ghost sub = entries.subrange(21, 29);
    let ghost base = view_entries(out@);
    proof {
        lemma_schema_entries_index(sv);
        assert(sub.take(0) =~= Seq::<(Seq<char>, Option<ValS>)>::empty());
        assert(compact(sub.take(0)) =~= Seq::<(Seq<char>, ValS)>::empty());
        assert(view_entries(out@) =~= base + compact(sub.take(0)));
    }
    let ghost prev0 = view_entries(out@);
    emit_types(out, "type", &s.types);
    proof {
        lemma_fe_21(sv);
        assert(entries[21] == (schema_key(21), schema_field_enc(sv, 21)));
        assert(sub[0] == entries[21]);
        lemma_emit_chain(base, prev0, view_entries(out@), sub, 0);
    }
    let ghost prev1 = view_entries(out@);
    emit_str_list(out, "enum", &s.enumeration);
    proof {
        lemma_fe_22(sv);
        assert(entries[22] == (schema_key(22), schema_field_enc(sv, 22)));
        assert(sub[1] == entries[22]);
        lemma_emit_chain(base, prev1, view_entries(out@), sub, 1);
    }
    let ghost prev2 = view_entries(out@);
    emit_opt_str(out, "const", &s.constant);
    proof {
        lemma_fe_23(sv);
        assert(entries[23] == (schema_key(23), schema_field_enc(sv, 23)));
        assert(sub[2] == entries[23]);
        lemma_emit_chain(base, prev2, view_entries(out@), sub, 2);
    }
    let ghost prev3 = view_entries(out@);
    emit_opt_num(out, "multipleOf", &s.multiple_of);
    proof {
        lemma_fe_24(sv);
        assert(entries[24] == (schema_key(24), schema_field_enc(sv, 24)));
        assert(sub[3] == entries[24]);
        lemma_emit_chain(base, prev3, view_entries(out@), sub, 3);
    }
    let ghost prev4 = view_entries(out@);
    emit_opt_num(out, "maximum", &s.maximum);
    proof {
        lemma_fe_25(sv);
        assert(entries[25] == (schema_key(25), schema_field_enc(sv, 25)));
        assert(sub[4] == entries[25]);
        lemma_emit_chain(base, prev4, view_entries(out@), sub, 4);
    }
    let ghost prev5 = view_entries(out@);
    emit_opt_num(out, "exclusiveMaximum", &s.exclusive_maximum);
    proof {
        lemma_fe_26(sv);
        assert(entries[26] == (schema_key(26), schema_field_enc(sv, 26)));
        assert(sub[5] == entries[26]);
        lemma_emit_chain(base, prev5, view_entries(out@), sub, 5);
    }
    let ghost prev6 = view_entries(out@);
    emit_opt_num(out, "minimum", &s.minimum);
    proof {
        lemma_fe_27(sv);
        assert(entries[27] == (schema_key(27), schema_field_enc(sv, 27)));
        assert(sub[6] == entries[27]);
        lemma_emit_chain(base, prev6, view_entries(out@), sub, 6);
    }
    let ghost prev7 = view_entries(out@);
    emit_opt_num(out, "exclusiveMinimum", &s.exclusive_minimum);
    proof {
        lemma_fe_28(sv);
        assert(entries[28] == (schema_key(28), schema_field_enc(sv, 28)));
        assert(sub[7] == entries[28]);
        lemma_emit_chain(base, prev7, view_entries(out@), sub, 7);
    }
    proof {
        assert(sub.take(8) =~= sub);
    }
}

/// Emit keywords 29 through 40.
fn emit_schema_group_d(out: &mut Vec<(String, Any)>, s: &Schema)
    ensures
        view_entries(final(out)@) =~= view_entries(old(out)@) + compact(
            schema_entries(view_schema(*s)).subrange(29, 41),
        ),
    decreases s, 2int,
{
    let ghost sv = view_schema(*s);
    let ghost entries = schema_entries(sv);
    let ghost sub = entries.subrange(29, 41);
    let ghost base = view_entries(out@);
    proof {
        lemma_schema_entries_index(sv);
        assert(sub.take(0) =~= Seq::<(Seq<char>, Option<ValS>)>::empty());
        assert(compact(sub.take(0)) =~= Seq::<(Seq<char>, ValS)>::empty());
        assert(view_entries(out@) =~= base + compact(sub.take(0)));
    }
    let ghost prev0 = view_entries(out@);
    emit_opt_size(out, "maxLength", &s.max_length);
    proof {
        lemma_fe_29(sv);
        assert(entries[29] == (schema_key(29), schema_field_enc(sv, 29)));
        assert(sub[0] == entries[29]);
        lemma_emit_chain(base, prev0, view_entries(out@), sub, 0);
    }
    let ghost prev1 = view_entries(out@);
    emit_opt_size(out, "minLength", &s.min_length);
    proof {
        lemma_fe_30(sv);
        assert(entries[30] == (schema_key(30), schema_field_enc(sv, 30)));
        assert(sub[1] == entries[30]);
        lemma_emit_chain(base, prev1, view_entries(out@), sub, 1);
    }
    let ghost prev2 = view_entries(out@);
    emit_opt_str(out, "pattern", &s.pattern);
    proof {
        lemma_fe_31(sv);
        assert(entries[31] == (schema_key(31), schema_field_enc(sv, 31)));
        assert(sub[2] == entries[31]);
        lemma_emit_chain(base, prev2, view_entries(out@), sub, 2);
    }
    let ghost prev3 = view_entries(out@);
    emit_opt_size(out, "maxItems", &s.max_items);
    proof {
        lemma_fe_32(sv);
        assert(entries[32] == (schema_key(32), schema_field_enc(sv, 32)));
        assert(sub[3] == entries[32]);
        lemma_emit_chain(base, prev3, view_entries(out@), sub, 3);
    }
    let ghost prev4 = view_entries(out@);
    emit_opt_size(out, "minItems", &s.min_items);
    proof {
        lemma_fe_33(sv);
        assert(entries[33] == (schema_key(33), schema_field_enc(sv, 33)));
        assert(sub[4] == entries[33]);
        lemma_emit_chain(base, prev4, view_entries(out@), sub, 4);
    }
    let ghost prev5 = view_entries(out@);
    emit_bool(out, "uniqueItems", s.unique_items);
    proof {
        lemma_fe_34(sv);
        assert(entries[34] == (schema_key(34), schema_field_enc(sv, 34)));
        assert(sub[5] == entries[34]);
        lemma_emit_chain(base, prev5, view_entries(out@), sub, 5);
    }
    let ghost prev6 = view_entries(out@);
    emit_opt_size(out, "maxContains", &s.max_contains);
    proof {
        lemma_fe_35(sv);
        assert(entries[35] == (schema_key(35), schema_field_enc(sv, 35)));
        assert(sub[6] == entries[35]);
        lemma_emit_chain(base, prev6, view_entries(out@), sub, 6);
    }
    let ghost prev7 = view_entries(out@);
    emit_opt_size(out, "minContains", &s.min_contains);
    proof {
        lemma_fe_36(sv);
        assert(entries[36] == (schema_key(36), schema_field_enc(sv, 36)));
        assert(sub[7] == entries[36]);
        lemma_emit_chain(base, prev7, view_entries(out@), sub, 7);
    }
    let ghost prev8 = view_entries(out@);
    emit_opt_size(out, "maxProperties", &s.max_properties);
    proof {
        lemma_fe_37(sv);
        assert(entries[37] == (schema_key(37), schema_field_enc(sv, 37)));
        assert(sub[8] == entries[37]);
        lemma_emit_chain(base, prev8, view_entries(out@), sub, 8);
    }
    let ghost prev9 = view_entries(out@);
    emit_opt_size(out, "minProperties", &s.min_properties);
    proof {
        lemma_fe_38(sv);
        assert(entries[38] == (schema_key(38), schema_field_enc(sv, 38)));
        assert(sub[9] == entries[38]);
        lemma_emit_chain(base, prev9, view_entries(out@), sub, 9);
    }
    let ghost prev10 = view_entries(out@);
    emit_str_list(out, "required", &s.required);
    proof {
        lemma_fe_39(sv);
        assert(entries[39] == (schema_key(39), schema_field_enc(sv, 39)));
        assert(sub[10] == entries[39]);
        lemma_emit_chain(base, prev10, view_entries(out@), sub, 10);
    }
    let ghost prev11 = view_entries(out@);
    emit_str_list_map(out, "dependentRequired", &s.dependent_required);
    proof {
        lemma_fe_40(sv);
        assert(entries[40] == (schema_key(40), schema_field_enc(sv, 40)));
        assert(sub[11] == entries[40]);
        lemma_emit_chain(base, prev11, view_entries(out@), sub, 11);
    }
    proof {
        assert(sub.take(12) =~= sub);
    }
}

/// Emit keywords 41 through 50.
fn emit_schema_group_e(out: &mut Vec<(String, Any)>, s: &Schema)
    ensures
        view_entries(final(out)@) =~= view_entries(old(out)@) + compact(
            schema_entries(view_schema(*s)).subrange(41, 51),
        ),
    decreases s, 2int,
{
    let ghost sv = view_schema(*s);
    let ghost entries = schema_entries(sv);
    let ghost sub = entries.subrange(41, 51);
    let ghost base = view_entries(out@);
    proof {
        lemma_schema_entries_index(sv);
        assert(sub.take(0) =~= Seq::<(Seq<char>, Option<ValS>)>::empty());
        assert(compact(sub.take(0)) =~= Seq::<(Seq<char>, ValS)>::empty());
        assert(view_entries(out@) =~= base + compact(sub.take(0)));
    }
    let ghost prev0 = view_entries(out@);
    emit_format(out, "format", &s.format);
    proof {
        lemma_fe_41(sv);
        assert(entries[41] == (schema_key(41), schema_field_enc(sv, 41)));
        assert(sub[0] == entries[41]);
        lemma_emit_chain(base, prev0, view_entries(out@), sub, 0);
    }
    let ghost prev1 = view_entries(out@);
    emit_opt_str(out, "contentEncoding", &s.content_encoding);
    proof {
        lemma_fe_42(sv);
        assert(entries[42] == (schema_key(42), schema_field_enc(sv, 42)));
        assert(sub[1] == entries[42]);
        lemma_emit_chain(base, prev1, view_entries(out@), sub, 1);
    }
    let ghost prev2 = view_entries(out@);
    emit_opt_str(out, "contentMediaType", &s.content_media_type);
    proof {
        lemma_fe_43(sv);
        assert(entries[43] == (schema_key(43), schema_field_enc(sv, 43)));
        assert(sub[2] == entries[43]);
        lemma_emit_chain(base, prev2, view_entries(out@), sub, 2);
    }
    let ghost prev3 = view_entries(out@);
    emit_opt_schema(out, "contentSchema", &s.content_schema);
    proof {
        lemma_fe_44(sv);
        assert(entries[44] == (schema_key(44), schema_field_enc(sv, 44)));
        assert(sub[3] == entries[44]);
        lemma_emit_chain(base, prev3, view_entries(out@), sub, 3);
    }
    let ghost prev4 = view_entries(out@);
    emit_opt_str(out, "title", &s.title);
    proof {
        lemma_fe_45(sv);
        assert(entries[45] == (schema_key(45), schema_field_enc(sv, 45)));
        assert(sub[4] == entries[45]);
        lemma_emit_chain(base, prev4, view_entries(out@), sub, 4);
    }
    let ghost prev5 = view_entries(out@);
    emit_opt_str(out, "description", &s.description);
    proof {
        lemma_fe_46(sv);
        assert(entries[46] == (schema_key(46), schema_field_enc(sv, 46)));
        assert(sub[5] == entries[46]);
        lemma_emit_chain(base, prev5, view_entries(out@), sub, 5);
    }
    let ghost prev6 = view_entries(out@);
    emit_opt_val(out, "default", &s.default);
    proof {
        lemma_fe_47(sv);
        assert(entries[47] == (schema_key(47), schema_field_enc(sv, 47)));
        assert(sub[6] == entries[47]);
        lemma_emit_chain(base, prev6, view_entries(out@), sub, 6);
    }
    let ghost prev7 = view_entries(out@);
    emit_bool(out, "deprecated", s.deprecated);
    proof {
        lemma_fe_48(sv);
        assert(entries[48] == (schema_key(48), schema_field_enc(sv, 48)));
        assert(sub[7] == entries[48]);
        lemma_emit_chain(base, prev7, view_entries(out@), sub, 7);
    }
    let ghost prev8 = view_entries(out@);
    emit_bool(out, "readOnly", s.read_only);
    proof {
        lemma_fe_49(sv);
        assert(entries[49] == (schema_key(49), schema_field_enc(sv, 49)));
        assert(sub[8] == entries[49]);
        lemma_emit_chain(base, prev8, view_entries(out@), sub, 8);
    }
    let ghost prev9 = view_entries(out@);
    emit_bool(out, "writeOnly", s.write_only);
    proof {
        lemma_fe_50(sv);
        assert(entries[50] == (schema_key(50), schema_field_enc(sv, 50)));
        assert(sub[9] == entries[50]);
        lemma_emit_chain(base, prev9, view_entries(out@), sub, 9);
    }
    proof {
        assert(sub.take(10) =~= sub);
    }
}

/// Emit keywords 51 through 55.
fn emit_schema_group_f(out: &mut Vec<(String, Any)>, s: &Schema)
    ensures
        view_entries(final(out)@) =~= view_entries(old(out)@) + compact(
            schema_entries(view_schema(*s)).subrange(51, 56),
        ),
    decreases s, 2int,
{
    let ghost sv = view_schema(*s);
    let ghost entries = schema_entries(sv);
    let ghost sub = entries.subrange(51, 56);
    let ghost base = view_entries(out@);
    proof {
        lemma_schema_entries_index(sv);
        assert(sub.take(0) =~= Seq::<(Seq<char>, Option<ValS>)>::empty());
        assert(compact(sub.take(0)) =~= Seq::<(Seq<char>, ValS)>::empty());
        assert(view_entries(out@) =~= base + compact(sub.take(0)));
    }
    let ghost prev0 = view_entries(out@);
    emit_val_list(out, "examples", &s.examples);
    proof {
        lemma_fe_51(sv);
        assert(entries[51] == (schema_key(51), schema_field_enc(sv, 51)));
        assert(sub[0] == entries[51]);
        crate::value::lemma_view_vals(s.examples@);
        assert(s.examples.deep_view() =~= crate::value::view_vals(s.examples@));
        assert(enc_val_list(s.examples.deep_view()) == enc_val_list(sv.examples));
        lemma_emit_chain(base, prev0, view_entries(out@), sub, 0);
    }
    let ghost prev1 = view_entries(out@);
    emit_opt_discriminator(out, "discriminator", &s.discriminator);
    proof {
        lemma_fe_52(sv);
        assert(entries[52] == (schema_key(52), schema_field_enc(sv, 52)));
        assert(sub[1] == entries[52]);
        lemma_emit_chain(base, prev1, view_entries(out@), sub, 1);
    }
    let ghost prev2 = view_entries(out@);
    emit_opt_xml(out, "xml", &s.xml);
    proof {
        lemma_fe_53(sv);
        assert(entries[53] == (schema_key(53), schema_field_enc(sv, 53)));
        assert(sub[2] == entries[53]);
        lemma_emit_chain(base, prev2, view_entries(out@), sub, 2);
    }
    let ghost prev3 = view_entries(out@);
    emit_opt_extdoc(out, "externalDocs", &s.external_docs);
    proof {
        lemma_fe_54(sv);
        assert(entries[54] == (schema_key(54), schema_field_enc(sv, 54)));
        assert(sub[3] == entries[54]);
        lemma_emit_chain(base, prev3, view_entries(out@), sub, 3);
    }
    let ghost prev4 = view_entries(out@);
    emit_opt_val(out, "example", &s.example);
    proof {
        lemma_fe_55(sv);
        assert(entries[55] == (schema_key(55), schema_field_enc(sv, 55)));
        assert(sub[4] == entries[55]);
        lemma_emit_chain(base, prev4, view_entries(out@), sub, 4);
    }
    proof {
        assert(sub.take(5) =~= sub);
    }
}
/// Read keywords 0 through 10.
#[verifier::rlimit(100)]
fn decode_schema_group_a(es: &Vec<(String, Any)>) -> (r: Result<
    (
        Option<String>,
        Option<String>,
        Option<String>,
        Option<String>,
        Option<Vec<Schema>>,
        Option<Vec<Schema>>,
        Option<Vec<Schema>>,
        Option<Box<Schema>>,
        Option<Box<Schema>>,
        Option<Box<Schema>>,
        Option<Box<Schema>>,
    ),
    DecodeError,
>)
    ensures
        match r {
            Ok(t) => schema_err_range(view_entries(es@), 0, 11) is None && dec_opt_str_field(view_entries(es@), schema_key(0)) == Ok::<Option<Seq<char>>, DecodeError>(t.0.deep_view()) &&
                dec_opt_str_field(view_entries(es@), schema_key(1)) == Ok::<Option<Seq<char>>, DecodeError>(t.1.deep_view()) &&
                dec_opt_str_field(view_entries(es@), schema_key(2)) == Ok::<Option<Seq<char>>, DecodeError>(t.2.deep_view()) &&
                dec_opt_str_field(view_entries(es@), schema_key(3)) == Ok::<Option<Seq<char>>, DecodeError>(t.3.deep_view()) &&
                dec_opt_schemas_field(view_entries(es@), schema_key(4)) == Ok::<Option<Seq<SchemaV>>, DecodeError>(view_opt_schemas(t.4)) &&
                dec_opt_schemas_field(view_entries(es@), schema_key(5)) == Ok::<Option<Seq<SchemaV>>, DecodeError>(view_opt_schemas(t.5)) &&
                dec_opt_schemas_field(view_entries(es@), schema_key(6)) == Ok::<Option<Seq<SchemaV>>, DecodeError>(view_opt_schemas(t.6)) &&
                dec_opt_schema_field(view_entries(es@), schema_key(7)) == Ok::<Option<Box<SchemaV>>, DecodeError>(view_opt_schema(t.7)) &&
                dec_opt_schema_field(view_entries(es@), schema_key(8)) == Ok::<Option<Box<SchemaV>>, DecodeError>(view_opt_schema(t.8)) &&
                dec_opt_schema_field(view_entries(es@), schema_key(9)) == Ok::<Option<Box<SchemaV>>, DecodeError>(view_opt_schema(t.9)) &&
                dec_opt_schema_field(view_entries(es@), schema_key(10)) == Ok::<Option<Box<SchemaV>>, DecodeError>(view_opt_schema(t.10)),
            Err(e) => schema_err_range(view_entries(es@), 0, 11) == Some(e),
        },
    decreases vsize_entries(view_entries(es@)), 2int, 0int,
{
    let ghost evs = view_entries(es@);
    let x0 = match get_opt_str_field(es, "$schema") {
        Ok(x) => x,
        Err(e) => {
            proof {
                assert(schema_field_err(evs, 0) == Some(e));

                lemma_err_range_here(evs, 0, 11, e);
            }
            return Err(e);
        },
    };
    proof {
        assert(schema_field_err(evs, 0) is None);
    }
    let x1 = match get_opt_str_field(es, "$id") {
        Ok(x) => x,
        Err(e) => {
            proof {
                assert(schema_field_err(evs, 1) == Some(e));
                    lemma_err_range_step(evs, 0, 11);
                lemma_err_range_here(evs, 1, 11, e);
            }
            return Err(e);
        },
    };
    proof {
        assert(schema_field_err(evs, 1) is None);
    }
    let x2 = match get_opt_str_field(es, "$ref") {
        Ok(x) => x,
        Err(e) => {
            proof {
                assert(schema_field_err(evs, 2) == Some(e));
                    lemma_err_range_step(evs, 0, 11);
                    lemma_err_range_step(evs, 1, 11);
                lemma_err_range_here(evs, 2, 11, e);
            }
            return Err(e);
        },
    };
    proof {
        assert(schema_field_err(evs, 2) is None);
    }
    let x3 = match get_opt_str_field(es, "$comment") {
        Ok(x) => x,
        Err(e) => {
            proof {
                assert(schema_field_err(evs, 3) == Some(e));
                    lemma_err_range_step(evs, 0, 11);
                    lemma_err_range_step(evs, 1, 11);
                    lemma_err_range_step(evs, 2, 11);
                lemma_err_range_here(evs, 3, 11, e);
            }
            return Err(e);
        },
    };
    proof {
        assert(schema_field_err(evs, 3) is None);
    }
    let x4 = match get_opt_schemas_field(es, "allOf") {
        Ok(x) => x,
        Err(e) => {
            proof {
                assert(schema_field_err(evs, 4) == Some(e));
                    lemma_err_range_step(evs, 0, 11);
                    lemma_err_range_step(evs, 1, 11);
                    lemma_err_range_step(evs, 2, 11);
                    lemma_err_range_step(evs, 3, 11);
                lemma_err_range_here(evs, 4, 11, e);
            }
            return Err(e);
        },
    };
    proof {
        assert(schema_field_err(evs, 4) is None);
    }
    let x5 = match get_opt_schemas_field(es, "anyOf") {
        Ok(x) => x,
        Err(e) => {
            proof {
                assert(schema_field_err(evs, 5) == Some(e));
                    lemma_err_range_step(evs, 0, 11);
                    lemma_err_range_step(evs, 1, 11);
                    lemma_err_range_step(evs, 2, 11);
                    lemma_err_range_step(evs, 3, 11);
                    lemma_err_range_step(evs, 4, 11);
                lemma_err_range_here(evs, 5, 11, e);
            }
            return Err(e);
        },
    };
    proof {
        assert(schema_field_err(evs, 5) is None);
    }
    let x6 = match get_opt_schemas_field(es, "oneOf") {
        Ok(x) => x,
        Err(e) => {
            proof {
                assert(schema_field_err(evs, 6) == Some(e));
                    lemma_err_range_step(evs, 0, 11);
                    lemma_err_range_step(evs, 1, 11);
                    lemma_err_range_step(evs, 2, 11);
                    lemma_err_range_step(evs, 3, 11);
                    lemma_err_range_step(evs, 4, 11);
                    lemma_err_range_step(evs, 5, 11);
                lemma_err_range_here(evs, 6, 11, e);
            }
            return Err(e);
        },
    };
    proof {
        assert(schema_field_err(evs, 6) is None);
    }
    let x7 = match get_opt_schema_field(es, "not") {
        Ok(x) => x,
        Err(e) => {
            proof {
                assert(schema_field_err(evs, 7) == Some(e));
                    lemma_err_range_step(evs, 0, 11);
                    lemma_err_range_step(evs, 1, 11);
                    lemma_err_range_step(evs, 2, 11);
                    lemma_err_range_step(evs, 3, 11);
                    lemma_err_range_step(evs, 4, 11);
                    lemma_err_range_step(evs, 5, 11);
                    lemma_err_range_step(evs, 6, 11);
                lemma_err_range_here(evs, 7, 11, e);
            }
            return Err(e);
        },
    };
    proof {
        assert(schema_field_err(evs, 7) is None);
    }
    let x8 = match get_opt_schema_field(es, "if") {
        Ok(x) => x,
        Err(e) => {
            proof {
                assert(schema_field_err(evs, 8) == Some(e));
                    lemma_err_range_step(evs, 0, 11);
                    lemma_err_range_step(evs, 1, 11);
                    lemma_err_range_step(evs, 2, 11);
                    lemma_err_range_step(evs, 3, 11);
                    lemma_err_range_step(evs, 4, 11);
                    lemma_err_range_step(evs, 5, 11);
                    lemma_err_range_step(evs, 6, 11);
                    lemma_err_range_step(evs, 7, 11);
                lemma_err_range_here(evs, 8, 11, e);
            }
            return Err(e);
        },
    };
    proof {
        assert(schema_field_err(evs, 8) is None);
    }
    let x9 = match get_opt_schema_field(es, "then") {
        Ok(x) => x,
        Err(e) => {
            proof {
                assert(schema_field_err(evs, 9) == Some(e));
                    lemma_err_range_step(evs, 0, 11);
                    lemma_err_range_step(evs, 1, 11);
                    lemma_err_range_step(evs, 2, 11);
                    lemma_err_range_step(evs, 3, 11);
                    lemma_err_range_step(evs, 4, 11);
                    lemma_err_range_step(evs, 5, 11);
                    lemma_err_range_step(evs, 6, 11);
                    lemma_err_range_step(evs, 7, 11);
                    lemma_err_range_step(evs, 8, 11);
                lemma_err_range_here(evs, 9, 11, e);
            }
            return Err(e);
        },
    };
    proof {
        assert(schema_field_err(evs, 9) is None);
    }
    let x10 = match get_opt_schema_field(es, "else") {
        Ok(x) => x,
        Err(e) => {
            proof {
                assert(schema_field_err(evs, 10) == Some(e));
                    lemma_err_range_step(evs, 0, 11);
                    lemma_err_range_step(evs, 1, 11);
                    lemma_err_range_step(evs, 2, 11);
                    lemma_err_range_step(evs, 3, 11);
                    lemma_err_range_step(evs, 4, 11);
                    lemma_err_range_step(evs, 5, 11);
                    lemma_err_range_step(evs, 6, 11);
                    lemma_err_range_step(evs, 7, 11);
                    lemma_err_range_step(evs, 8, 11);
                    lemma_err_range_step(evs, 9, 11);
                lemma_err_range_here(evs, 10, 11, e);
            }
            return Err(e);
        },
    };
    proof {
        assert(schema_field_err(evs, 10) is None);
    }
    proof {
        lemma_err_range_step(evs, 0, 11);
        lemma_err_range_step(evs, 1, 11);
        lemma_err_range_step(evs, 2, 11);
        lemma_err_range_step(evs, 3, 11);
        lemma_err_range_step(evs, 4, 11);
        lemma_err_range_step(evs, 5, 11);
        lemma_err_range_step(evs, 6, 11);
        lemma_err_range_step(evs, 7, 11);
        lemma_err_range_step(evs, 8, 11);
        lemma_err_range_step(evs, 9, 11);
        lemma_err_range_step(evs, 10, 11);
        assert(schema_err_range(evs, 11, 11) is None);
    }
    Ok((x0, x1, x2, x3, x4, x5, x6, x7, x8, x9, x10))
}

/// Read keywords 11 through 20.
#[verifier::rlimit(100)]
fn decode_schema_group_b(es: &Vec<(String, Any)>) -> (r: Result<
    (
        Vec<(String, Schema)>,
        Vec<Schema>,
        Option<Box<Schema>>,
        Option<Box<Schema>>,
        Option<Vec<(String, Schema)>>,
        Vec<(String, Schema)>,
        Option<Box<Schema>>,
        Option<Box<Schema>>,
        Option<Box<Schema>>,
        Option<Box<Schema>>,
    ),
    DecodeError,
>)
    ensures
        match r {
            Ok(t) => schema_err_range(view_entries(es@), 11, 21) is None && dec_schema_map_field(view_entries(es@), schema_key(11)) == Ok::<Seq<(Seq<char>, SchemaV)>, DecodeError>(view_schema_map(t.0@)) &&
                dec_schemas_list_field(view_entries(es@), schema_key(12)) == Ok::<Seq<SchemaV>, DecodeError>(view_schemas(t.1@)) &&
                dec_opt_schema_field(view_entries(es@), schema_key(13)) == Ok::<Option<Box<SchemaV>>, DecodeError>(view_opt_schema(t.2)) &&
                dec_opt_schema_field(view_entries(es@), schema_key(14)) == Ok::<Option<Box<SchemaV>>, DecodeError>(view_opt_schema(t.3)) &&
                dec_opt_schema_map_field(view_entries(es@), schema_key(15)) == Ok::<Option<Seq<(Seq<char>, SchemaV)>>, DecodeError>(view_opt_schema_map(t.4)) &&
                dec_schema_map_field(view_entries(es@), schema_key(16)) == Ok::<Seq<(Seq<char>, SchemaV)>, DecodeError>(view_schema_map(t.5@)) &&
                dec_opt_schema_field(view_entries(es@), schema_key(17)) == Ok::<Option<Box<SchemaV>>, DecodeError>(view_opt_schema(t.6)) &&
                dec_opt_schema_field(view_entries(es@), schema_key(18)) == Ok::<Option<Box<SchemaV>>, DecodeError>(view_opt_schema(t.7)) &&
                dec_opt_schema_field(view_entries(es@), schema_key(19)) == Ok::<Option<Box<SchemaV>>, DecodeError>(view_opt_schema(t.8)) &&
                dec_opt_schema_field(view_entries(es@), schema_key(20)) == Ok::<Option<Box<SchemaV>>, DecodeError>(view_opt_schema(t.9)),
            Err(e) => schema_err_range(view_entries(es@), 11, 21) == Some(e),
        },
    decreases vsize_entries(view_entries(es@)), 2int, 0int,
{
    let ghost evs = view_entries(es@);
    let x0 = match get_schema_map_field(es, "dependentSchemas") {
        Ok(x) => x,
        Err(e) => {
            proof {
                assert(schema_field_err(evs, 11) == Some(e));

                lemma_err_range_here(evs, 11, 21, e);
            }
            return Err(e);
        },
    };
    proof {
        assert(schema_field_err(evs, 11) is None);
    }
    let x1 = match get_schemas_list_field(es, "prefixItems") {
        Ok(x) => x,
        Err(e) => {
            proof {
                assert(schema_field_err(evs, 12) == Some(e));
                    lemma_err_range_step(evs, 11, 21);
                lemma_err_range_here(evs, 12, 21, e);
            }
            return Err(e);
        },
    };
    proof {
        assert(schema_field_err(evs, 12) is None);
    }
    let x2 = match get_opt_schema_field(es, "items") {
        Ok(x) => x,
        Err(e) => {
            proof {
                assert(schema_field_err(evs, 13) == Some(e));
                    lemma_err_range_step(evs, 11, 21);
                    lemma_err_range_step(evs, 12, 21);
                lemma_err_range_here(evs, 13, 21, e);
            }
            return Err(e);
        },
    };
    proof {
        assert(schema_field_err(evs, 13) is None);
    }
    let x3 = match get_opt_schema_field(es, "contains") {
        Ok(x) => x,
        Err(e) => {
            proof {
                assert(schema_field_err(evs, 14) == Some(e));
                    lemma_err_range_step(evs, 11, 21);
                    lemma_err_range_step(evs, 12, 21);
                    lemma_err_range_step(evs, 13, 21);
                lemma_err_range_here(evs, 14, 21, e);
            }
            return Err(e);
        },
    };
    proof {
        assert(schema_field_err(evs, 14) is None);
    }
    let x4 = match get_opt_schema_map_field(es, "properties") {
        Ok(x) => x,
        Err(e) => {
            proof {
                assert(schema_field_err(evs, 15) == Some(e));
                    lemma_err_range_step(evs, 11, 21);
                    lemma_err_range_step(evs, 12, 21);
                    lemma_err_range_step(evs, 13, 21);
                    lemma_err_range_step(evs, 14, 21);
                lemma_err_range_here(evs, 15, 21, e);
            }
            return Err(e);
        },
    };
    proof {
        assert(schema_field_err(evs, 15) is None);
    }
    let x5 = match get_schema_map_field(es, "patternProperties") {
        Ok(x) => x,
        Err(e) => {
            proof {
                assert(schema_field_err(evs, 16) == Some(e));
                    lemma_err_range_step(evs, 11, 21);
                    lemma_err_range_step(evs, 12, 21);
                    lemma_err_range_step(evs, 13, 21);
                    lemma_err_range_step(evs, 14, 21);
                    lemma_err_range_step(evs, 15, 21);
                lemma_err_range_here(evs, 16, 21, e);
            }
            return Err(e);
        },
    };
    proof {
        assert(schema_field_err(evs, 16) is None);
    }
    let x6 = match get_opt_schema_field(es, "additionalProperties") {
        Ok(x) => x,
        Err(e) => {
            proof {
                assert(schema_field_err(evs, 17) == Some(e));
                    lemma_err_range_step(evs, 11, 21);
                    lemma_err_range_step(evs, 12, 21);
                    lemma_err_range_step(evs, 13, 21);
                    lemma_err_range_step(evs, 14, 21);
                    lemma_err_range_step(evs, 15, 21);
                    lemma_err_range_step(evs, 16, 21);
                lemma_err_range_here(evs, 17, 21, e);
            }
            return Err(e);
        },
    };
    proof {
        assert(schema_field_err(evs, 17) is None);
    }
    let x7 = match get_opt_schema_field(es, "propertyNames") {
        Ok(x) => x,
        Err(e) => {
            proof {
                assert(schema_field_err(evs, 18) == Some(e));
                    lemma_err_range_step(evs, 11, 21);
                    lemma_err_range_step(evs, 12, 21);
                    lemma_err_range_step(evs, 13, 21);
                    lemma_err_range_step(evs, 14, 21);
                    lemma_err_range_step(evs, 15, 21);
                    lemma_err_range_step(evs, 16, 21);
                    lemma_err_range_step(evs, 17, 21);
                lemma_err_range_here(evs, 18, 21, e);
            }
            return Err(e);
        },
    };
    proof {
        assert(schema_field_err(evs, 18) is None);
    }
    let x8 = match get_opt_schema_field(es, "unevaluatedItems") {
        Ok(x) => x,
        Err(e) => {
            proof {
                assert(schema_field_err(evs, 19) == Some(e));
                    lemma_err_range_step(evs, 11, 21);
                    lemma_err_range_step(evs, 12, 21);
                    lemma_err_range_step(evs, 13, 21);
                    lemma_err_range_step(evs, 14, 21);
                    lemma_err_range_step(evs, 15, 21);
                    lemma_err_range_step(evs, 16, 21);
                    lemma_err_range_step(evs, 17, 21);
                    lemma_err_range_step(evs, 18, 21);
                lemma_err_range_here(evs, 19, 21, e);
            }
            return Err(e);
        },
    };
    proof {
        assert(schema_field_err(evs, 19) is None);
    }
    let x9 = match get_opt_schema_field(es, "unevaluatedProperties") {
        Ok(x) => x,
        Err(e) => {
            proof {
                assert(schema_field_err(evs, 20) == Some(e));
                    lemma_err_range_step(evs, 11, 21);
                    lemma_err_range_step(evs, 12, 21);
                    lemma_err_range_step(evs, 13, 21);
                    lemma_err_range_step(evs, 14, 21);
                    lemma_err_range_step(evs, 15, 21);
                    lemma_err_range_step(evs, 16, 21);
                    lemma_err_range_step(evs, 17, 21);
                    lemma_err_range_step(evs, 18, 21);
                    lemma_err_range_step(evs, 19, 21);
                lemma_err_range_here(evs, 20, 21, e);
            }
            return Err(e);
        },
    };
    proof {
        assert(schema_field_err(evs, 20) is None);
    }
    proof {
        lemma_err_range_step(evs, 11, 21);
        lemma_err_range_step(evs, 12, 21);
        lemma_err_range_step(evs, 13, 21);
        lemma_err_range_step(evs, 14, 21);
        lemma_err_range_step(evs, 15, 21);
        lemma_err_range_step(evs, 16, 21);
        lemma_err_range_step(evs, 17, 21);
        lemma_err_range_step(evs, 18, 21);
        lemma_err_range_step(evs, 19, 21);
        lemma_err_range_step(evs, 20, 21);
        assert(schema_err_range(evs, 21, 21) is None);
    }
    Ok((x0, x1, x2, x3, x4, x5, x6, x7, x8, x9))
}

/// Read keywords 21 through 28.
#[verifier::rlimit(100)]
fn decode_schema_group_c(es: &Vec<(String, Any)>) -> (r: Result<
    (
        Vec<Type>,
        Vec<String>,
        Option<String>,
        Option<String>,
        Option<String>,
        Option<String>,
        Option<String>,
        Option<String>,
    ),
    DecodeError,
>)
    ensures
        match r {
            Ok(t) => schema_err_range(view_entries(es@), 21, 29) is None && dec_types_field(view_entries(es@), schema_key(21)) == Ok::<Seq<Type>, DecodeError>(t.0@) &&
                dec_str_list_field(view_entries(es@), schema_key(22)) == Ok::<Seq<Seq<char>>, DecodeError>(t.1.deep_view()) &&
                dec_opt_str_field(view_entries(es@), schema_key(23)) == Ok::<Option<Seq<char>>, DecodeError>(t.2.deep_view()) &&
                dec_opt_num_field(view_entries(es@), schema_key(24)) == Ok::<Option<Seq<char>>, DecodeError>(t.3.deep_view()) &&
                dec_opt_num_field(view_entries(es@), schema_key(25)) == Ok::<Option<Seq<char>>, DecodeError>(t.4.deep_view()) &&
                dec_opt_num_field(view_entries(es@), schema_key(26)) == Ok::<Option<Seq<char>>, DecodeError>(t.5.deep_view()) &&
                dec_opt_num_field(view_entries(es@), schema_key(27)) == Ok::<Option<Seq<char>>, DecodeError>(t.6.deep_view()) &&
                dec_opt_num_field(view_entries(es@), schema_key(28)) == Ok::<Option<Seq<char>>, DecodeError>(t.7.deep_view()),
            Err(e) => schema_err_range(view_entries(es@), 21, 29) == Some(e),
        },
    decreases vsize_entries(view_entries(es@)), 2int, 0int,
{
    let ghost evs = view_entries(es@);
    let x0 = match get_types_field(es, "type") {
        Ok(x) => x,
        Err(e) => {
            proof {
                assert(schema_field_err(evs, 21) == Some(e));

                lemma_err_range_here(evs, 21, 29, e);
            }
            return Err(e);
        },
    };
    proof {
        assert(schema_field_err(evs, 21) is None);
    }
    let x1 = match get_str_list_field(es, "enum") {
        Ok(x) => x,
        Err(e) => {
            proof {
                assert(schema_field_err(evs, 22) == Some(e));
                    lemma_err_range_step(evs, 21, 29);
                lemma_err_range_here(evs, 22, 29, e);
            }
            return Err(e);
        },
    };
    proof {
        assert(schema_field_err(evs, 22) is None);
    }
    let x2 = match get_opt_str_field(es, "const") {
        Ok(x) => x,
        Err(e) => {
            proof {
                assert(schema_field_err(evs, 23) == Some(e));
                    lemma_err_range_step(evs, 21, 29);
                    lemma_err_range_step(evs, 22, 29);
                lemma_err_range_here(evs, 23, 29, e);
            }
            return Err(e);
        },
    };
    proof {
        assert(schema_field_err(evs, 23) is None);
    }
    let x3 = match get_opt_num_field(es, "multipleOf") {
        Ok(x) => x,
        Err(e) => {
            proof {
                assert(schema_field_err(evs, 24) == Some(e));
                    lemma_err_range_step(evs, 21, 29);
                    lemma_err_range_step(evs, 22, 29);
                    lemma_err_range_step(evs, 23, 29);
                lemma_err_range_here(evs, 24, 29, e);
            }
            return Err(e);
        },
    };
    proof {
        assert(schema_field_err(evs, 24) is None);
    }
    let x4 = match get_opt_num_field(es, "maximum") {
        Ok(x) => x,
        Err(e) => {
            proof {
                assert(schema_field_err(evs, 25) == Some(e));
                    lemma_err_range_step(evs, 21, 29);
                    lemma_err_range_step(evs, 22, 29);
                    lemma_err_range_step(evs, 23, 29);
                    lemma_err_range_step(evs, 24, 29);
                lemma_err_range_here(evs, 25, 29, e);
            }
            return Err(e);
        },
    };
    proof {
        assert(schema_field_err(evs, 25) is None);
    }
    let x5 = match get_opt_num_field(es, "exclusiveMaximum") {
        Ok(x) => x,
        Err(e) => {
            proof {
                assert(schema_field_err(evs, 26) == Some(e));
                    lemma_err_range_step(evs, 21, 29);
                    lemma_err_range_step(evs, 22, 29);
                    lemma_err_range_step(evs, 23, 29);
                    lemma_err_range_step(evs, 24, 29);
                    lemma_err_range_step(evs, 25, 29);
                lemma_err_range_here(evs, 26, 29, e);
            }
            return Err(e);
        },
    };
    proof {
        assert(schema_field_err(evs, 26) is None);
    }
    let x6 = match get_opt_num_field(es, "minimum") {
        Ok(x) => x,
        Err(e) => {
            proof {
                assert(schema_field_err(evs, 27) == Some(e));
                    lemma_err_range_step(evs, 21, 29);
                    lemma_err_range_step(evs, 22, 29);
                    lemma_err_range_step(evs, 23, 29);
                    lemma_err_range_step(evs, 24, 29);
                    lemma_err_range_step(evs, 25, 29);
                    lemma_err_range_step(evs, 26, 29);
                lemma_err_range_here(evs, 27, 29, e);
            }
            return Err(e);
        },
    };
    proof {
        assert(schema_field_err(evs, 27) is None);
    }
    let x7 = match get_opt_num_field(es, "exclusiveMinimum") {
        Ok(x) => x,
        Err(e) => {
            proof {
                assert(schema_field_err(evs, 28) == Some(e));
                    lemma_err_range_step(evs, 21, 29);
                    lemma_err_range_step(evs, 22, 29);
                    lemma_err_range_step(evs, 23, 29);
                    lemma_err_range_step(evs, 24, 29);
                    lemma_err_range_step(evs, 25, 29);
                    lemma_err_range_step(evs, 26, 29);
                    lemma_err_range_step(evs, 27, 29);
                lemma_err_range_here(evs, 28, 29, e);
            }
            return Err(e);
        },
    };
    proof {
        assert(schema_field_err(evs, 28) is None);
    }
    proof {
        lemma_err_range_step(evs, 21, 29);
        lemma_err_range_step(evs, 22, 29);
        lemma_err_range_step(evs, 23, 29);
        lemma_err_range_step(evs, 24, 29);
        lemma_err_range_step(evs, 25, 29);
        lemma_err_range_step(evs, 26, 29);
        lemma_err_range_step(evs, 27, 29);
        lemma_err_range_step(evs, 28, 29);
        assert(schema_err_range(evs, 29, 29) is None);
    }
    Ok((x0, x1, x2, x3, x4, x5, x6, x7))
}

/// Read keywords 29 through 40.
#[verifier::rlimit(100)]
fn decode_schema_group_d(es: &Vec<(String, Any)>) -> (r: Result<
    (
        Option<usize>,
        Option<usize>,
        Option<String>,
        Option<usize>,
        Option<usize>,
        bool,
        Option<usize>,
        Option<usize>,
        Option<usize>,
        Option<usize>,
        Vec<String>,
        Vec<(String, Vec<String>)>,
    ),
    DecodeError,
>)
    ensures
        match r {
            Ok(t) => schema_err_range(view_entries(es@), 29, 41) is None && dec_opt_size_field(view_entries(es@), schema_key(29)) == Ok::<Option<usize>, DecodeError>(t.0) &&
                dec_opt_size_field(view_entries(es@), schema_key(30)) == Ok::<Option<usize>, DecodeError>(t.1) &&
                dec_opt_str_field(view_entries(es@), schema_key(31)) == Ok::<Option<Seq<char>>, DecodeError>(t.2.deep_view()) &&
                dec_opt_size_field(view_entries(es@), schema_key(32)) == Ok::<Option<usize>, DecodeError>(t.3) &&
                dec_opt_size_field(view_entries(es@), schema_key(33)) == Ok::<Option<usize>, DecodeError>(t.4) &&
                dec_bool_field(view_entries(es@), schema_key(34)) == Ok::<bool, DecodeError>(t.5) &&
                dec_opt_size_field(view_entries(es@), schema_key(35)) == Ok::<Option<usize>, DecodeError>(t.6) &&
                dec_opt_size_field(view_entries(es@), schema_key(36)) == Ok::<Option<usize>, DecodeError>(t.7) &&
                dec_opt_size_field(view_entries(es@), schema_key(37)) == Ok::<Option<usize>, DecodeError>(t.8) &&
                dec_opt_size_field(view_entries(es@), schema_key(38)) == Ok::<Option<usize>, DecodeError>(t.9) &&
                dec_str_list_field(view_entries(es@), schema_key(39)) == Ok::<Seq<Seq<char>>, DecodeError>(t.10.deep_view()) &&
                dec_str_list_map_field(view_entries(es@), schema_key(40)) == Ok::<Seq<(Seq<char>, Seq<Seq<char>>)>, DecodeError>(t.11.deep_view()),
            Err(e) => schema_err_range(view_entries(es@), 29, 41) == Some(e),
        },
    decreases vsize_entries(view_entries(es@)), 2int, 0int,
{
    let ghost evs = view_entries(es@);
    let x0 = match get_opt_size_field(es, "maxLength") {
        Ok(x) => x,
        Err(e) => {
            proof {
                assert(schema_field_err(evs, 29) == Some(e));

                lemma_err_range_here(evs, 29, 41, e);
            }
            return Err(e);
        },
    };
    proof {
        assert(schema_field_err(evs, 29) is None);
    }
    let x1 = match get_opt_size_field(es, "minLength") {
        Ok(x) => x,
        Err(e) => {
            proof {
                assert(schema_field_err(evs, 30) == Some(e));
                    lemma_err_range_step(evs, 29, 41);
                lemma_err_range_here(evs, 30, 41, e);
            }
            return Err(e);
        },
    };
    proof {
        assert(schema_field_err(evs, 30) is None);
    }
    let x2 = match get_opt_str_field(es, "pattern") {
        Ok(x) => x,
        Err(e) => {
            proof {
                assert(schema_field_err(evs, 31) == Some(e));
                    lemma_err_range_step(evs, 29, 41);
                    lemma_err_range_step(evs, 30, 41);
                lemma_err_range_here(evs, 31, 41, e);
            }
            return Err(e);
        },
    };
    proof {
        assert(schema_field_err(evs, 31) is None);
    }
    let x3 = match get_opt_size_field(es, "maxItems") {
        Ok(x) => x,
        Err(e) => {
            proof {
                assert(schema_field_err(evs, 32) == Some(e));
                    lemma_err_range_step(evs, 29, 41);
                    lemma_err_range_step(evs, 30, 41);
                    lemma_err_range_step(evs, 31, 41);
                lemma_err_range_here(evs, 32, 41, e);
            }
            return Err(e);
        },
    };
    proof {
        assert(schema_field_err(evs, 32) is None);
    }
    let x4 = match get_opt_size_field(es, "minItems") {
        Ok(x) => x,
        Err(e) => {
            proof {
                assert(schema_field_err(evs, 33) == Some(e));
                    lemma_err_range_step(evs, 29, 41);
                    lemma_err_range_step(evs, 30, 41);
                    lemma_err_range_step(evs, 31, 41);
                    lemma_err_range_step(evs, 32, 41);
                lemma_err_range_here(evs, 33, 41, e);
            }
            return Err(e);
        },
    };
    proof {
        assert(schema_field_err(evs, 33) is None);
    }
    let x5 = match get_bool_field(es, "uniqueItems") {
        Ok(x) => x,
        Err(e) => {
            proof {
                assert(schema_field_err(evs, 34) == Some(e));
                    lemma_err_range_step(evs, 29, 41);
                    lemma_err_range_step(evs, 30, 41);
                    lemma_err_range_step(evs, 31, 41);
                    lemma_err_range_step(evs, 32, 41);
                    lemma_err_range_step(evs, 33, 41);
                lemma_err_range_here(evs, 34, 41, e);
            }
            return Err(e);
        },
    };
    proof {
        assert(schema_field_err(evs, 34) is None);
    }
    let x6 = match get_opt_size_field(es, "maxContains") {
        Ok(x) => x,
        Err(e) => {
            proof {
                assert(schema_field_err(evs, 35) == Some(e));
                    lemma_err_range_step(evs, 29, 41);
                    lemma_err_range_step(evs, 30, 41);
                    lemma_err_range_step(evs, 31, 41);
                    lemma_err_range_step(evs, 32, 41);
                    lemma_err_range_step(evs, 33, 41);
                    lemma_err_range_step(evs, 34, 41);
                lemma_err_range_here(evs, 35, 41, e);
            }
            return Err(e);
        },
    };
    proof {
        assert(schema_field_err(evs, 35) is None);
    }
    let x7 = match get_opt_size_field(es, "minContains") {
        Ok(x) => x,
        Err(e) => {
            proof {
                assert(schema_field_err(evs, 36) == Some(e));
                    lemma_err_range_step(evs, 29, 41);
                    lemma_err_range_step(evs, 30, 41);
                    lemma_err_range_step(evs, 31, 41);
                    lemma_err_range_step(evs, 32, 41);
                    lemma_err_range_step(evs, 33, 41);
                    lemma_err_range_step(evs, 34, 41);
                    lemma_err_range_step(evs, 35, 41);
                lemma_err_range_here(evs, 36, 41, e);
            }
            return Err(e);
        },
    };
    proof {
        assert(schema_field_err(evs, 36) is None);
    }
    let x8 = match get_opt_size_field(es, "maxProperties") {
        Ok(x) => x,
        Err(e) => {
            proof {
                assert(schema_field_err(evs, 37) == Some(e));
                    lemma_err_range_step(evs, 29, 41);
                    lemma_err_range_step(evs, 30, 41);
                    lemma_err_range_step(evs, 31, 41);
                    lemma_err_range_step(evs, 32, 41);
                    lemma_err_range_step(evs, 33, 41);
                    lemma_err_range_step(evs, 34, 41);
                    lemma_err_range_step(evs, 35, 41);
                    lemma_err_range_step(evs, 36, 41);
                lemma_err_range_here(evs, 37, 41, e);
            }
            return Err(e);
        },
    };
    proof {
        assert(schema_field_err(evs, 37) is None);
    }
    let x9 = match get_opt_size_field(es, "minProperties") {
        Ok(x) => x,
        Err(e) => {
            proof {
                assert(schema_field_err(evs, 38) == Some(e));
                    lemma_err_range_step(evs, 29, 41);
                    lemma_err_range_step(evs, 30, 41);
                    lemma_err_range_step(evs, 31, 41);
                    lemma_err_range_step(evs, 32, 41);
                    lemma_err_range_step(evs, 33, 41);
                    lemma_err_range_step(evs, 34, 41);
                    lemma_err_range_step(evs, 35, 41);
                    lemma_err_range_step(evs, 36, 41);
                    lemma_err_range_step(evs, 37, 41);
                lemma_err_range_here(evs, 38, 41, e);
            }
            return Err(e);
        },
    };
    proof {
        assert(schema_field_err(evs, 38) is None);
    }
    let x10 = match get_str_list_field(es, "required") {
        Ok(x) => x,
        Err(e) => {
            proof {
                assert(schema_field_err(evs, 39) == Some(e));
                    lemma_err_range_step(evs, 29, 41);
                    lemma_err_range_step(evs, 30, 41);
                    lemma_err_range_step(evs, 31, 41);
                    lemma_err_range_step(evs, 32, 41);
                    lemma_err_range_step(evs, 33, 41);
                    lemma_err_range_step(evs, 34, 41);
                    lemma_err_range_step(evs, 35, 41);
                    lemma_err_range_step(evs, 36, 41);
                    lemma_err_range_step(evs, 37, 41);
                    lemma_err_range_step(evs, 38, 41);
                lemma_err_range_here(evs, 39, 41, e);
            }
            return Err(e);
        },
    };
    proof {
        assert(schema_field_err(evs, 39) is None);
    }
    let x11 = match get_str_list_map_field(es, "dependentRequired") {
        Ok(x) => x,
        Err(e) => {
            proof {
                assert(schema_field_err(evs, 40) == Some(e));
                    lemma_err_range_step(evs, 29, 41);
                    lemma_err_range_step(evs, 30, 41);
                    lemma_err_range_step(evs, 31, 41);
                    lemma_err_range_step(evs, 32, 41);
                    lemma_err_range_step(evs, 33, 41);
                    lemma_err_range_step(evs, 34, 41);
                    lemma_err_range_step(evs, 35, 41);
                    lemma_err_range_step(evs, 36, 41);
                    lemma_err_range_step(evs, 37, 41);
                    lemma_err_range_step(evs, 38, 41);
                    lemma_err_range_step(evs, 39, 41);
                lemma_err_range_here(evs, 40, 41, e);
            }
            return Err(e);
        },
    };
    proof {
        assert(schema_field_err(evs, 40) is None);
    }
    proof {
        lemma_err_range_step(evs, 29, 41);
        lemma_err_range_step(evs, 30, 41);
        lemma_err_range_step(evs, 31, 41);
        lemma_err_range_step(evs, 32, 41);
        lemma_err_range_step(evs, 33, 41);
        lemma_err_range_step(evs, 34, 41);
        lemma_err_range_step(evs, 35, 41);
        lemma_err_range_step(evs, 36, 41);
        lemma_err_range_step(evs, 37, 41);
        lemma_err_range_step(evs, 38, 41);
        lemma_err_range_step(evs, 39, 41);
        lemma_err_range_step(evs, 40, 41);
        assert(schema_err_range(evs, 41, 41) is None);
    }
    Ok((x0, x1, x2, x3, x4, x5, x6, x7, x8, x9, x10, x11))
}

/// Read keywords 41 through 50.
#[verifier::rlimit(100)]
fn decode_schema_group_e(es: &Vec<(String, Any)>) -> (r: Result<
    (
        Option<FormatOrString>,
        Option<String>,
        Option<String>,
        Option<Box<Schema>>,
        Option<String>,
        Option<String>,
        Option<Any>,
        bool,
        bool,
        bool,
    ),
    DecodeError,
>)
    ensures
        match r {
            Ok(t) => schema_err_range(view_entries(es@), 41, 51) is None && dec_format_field(view_entries(es@), schema_key(41)) == Ok::<Option<FormatOrStringV>, DecodeError>(t.0.deep_view()) &&
                dec_opt_str_field(view_entries(es@), schema_key(42)) == Ok::<Option<Seq<char>>, DecodeError>(t.1.deep_view()) &&
                dec_opt_str_field(view_entries(es@), schema_key(43)) == Ok::<Option<Seq<char>>, DecodeError>(t.2.deep_view()) &&
                dec_opt_schema_field(view_entries(es@), schema_key(44)) == Ok::<Option<Box<SchemaV>>, DecodeError>(view_opt_schema(t.3)) &&
                dec_opt_str_field(view_entries(es@), schema_key(45)) == Ok::<Option<Seq<char>>, DecodeError>(t.4.deep_view()) &&
                dec_opt_str_field(view_entries(es@), schema_key(46)) == Ok::<Option<Seq<char>>, DecodeError>(t.5.deep_view()) &&
                dec_opt_val_field(view_entries(es@), schema_key(47)) == Ok::<Option<ValS>, DecodeError>(t.6.deep_view()) &&
                dec_bool_field(view_entries(es@), schema_key(48)) == Ok::<bool, DecodeError>(t.7) &&
                dec_bool_field(view_entries(es@), schema_key(49)) == Ok::<bool, DecodeError>(t.8) &&
                dec_bool_field(view_entries(es@), schema_key(50)) == Ok::<bool, DecodeError>(t.9),
            Err(e) => schema_err_range(view_entries(es@), 41, 51) == Some(e),
        },
    decreases vsize_entries(view_entries(es@)), 2int, 0int,
{
    let ghost evs = view_entries(es@);
    let x0 = match get_format_field(es, "format") {
        Ok(x) => x,
        Err(e) => {
            proof {
                assert(schema_field_err(evs, 41) == Some(e));

                lemma_err_range_here(evs, 41, 51, e);
            }
            return Err(e);
        },
    };
    proof {
        assert(schema_field_err(evs, 41) is None);
    }
    let x1 = match get_opt_str_field(es, "contentEncoding") {
        Ok(x) => x,
        Err(e) => {
            proof {
                assert(schema_field_err(evs, 42) == Some(e));
                    lemma_err_range_step(evs, 41, 51);
                lemma_err_range_here(evs, 42, 51, e);
            }
            return Err(e);
        },
    };
    proof {
        assert(schema_field_err(evs, 42) is None);
    }
    let x2 = match get_opt_str_field(es, "contentMediaType") {
        Ok(x) => x,
        Err(e) => {
            proof {
                assert(schema_field_err(evs, 43) == Some(e));
                    lemma_err_range_step(evs, 41, 51);
                    lemma_err_range_step(evs, 42, 51);
                lemma_err_range_here(evs, 43, 51, e);
            }
            return Err(e);
        },
    };
    proof {
        assert(schema_field_err(evs, 43) is None);
    }
    let x3 = match get_opt_schema_field(es, "contentSchema") {
        Ok(x) => x,
        Err(e) => {
            proof {
                assert(schema_field_err(evs, 44) == Some(e));
                    lemma_err_range_step(evs, 41, 51);
                    lemma_err_range_step(evs, 42, 51);
                    lemma_err_range_step(evs, 43, 51);
                lemma_err_range_here(evs, 44, 51, e);
            }
            return Err(e);
        },
    };
    proof {
        assert(schema_field_err(evs, 44) is None);
    }
    let x4 = match get_opt_str_field(es, "title") {
        Ok(x) => x,
        Err(e) => {
            proof {
                assert(schema_field_err(evs, 45) == Some(e));
                    lemma_err_range_step(evs, 41, 51);
                    lemma_err_range_step(evs, 42, 51);
                    lemma_err_range_step(evs, 43, 51);
                    lemma_err_range_step(evs, 44, 51);
                lemma_err_range_here(evs, 45, 51, e);
            }
            return Err(e);
        },
    };
    proof {
        assert(schema_field_err(evs, 45) is None);
    }
    let x5 = match get_opt_str_field(es, "description") {
        Ok(x) => x,
        Err(e) => {
            proof {
                assert(schema_field_err(evs, 46) == Some(e));
                    lemma_err_range_step(evs, 41, 51);
                    lemma_err_range_step(evs, 42, 51);
                    lemma_err_range_step(evs, 43, 51);
                    lemma_err_range_step(evs, 44, 51);
                    lemma_err_range_step(evs, 45, 51);
                lemma_err_range_here(evs, 46, 51, e);
            }
            return Err(e);
        },
    };
    proof {
        assert(schema_field_err(evs, 46) is None);
    }
    let x6 = match get_opt_val_field(es, "default") {
        Ok(x) => x,
        Err(e) => {
            proof {
                assert(schema_field_err(evs, 47) == Some(e));
                    lemma_err_range_step(evs, 41, 51);
                    lemma_err_range_step(evs, 42, 51);
                    lemma_err_range_step(evs, 43, 51);
                    lemma_err_range_step(evs, 44, 51);
                    lemma_err_range_step(evs, 45, 51);
                    lemma_err_range_step(evs, 46, 51);
                lemma_err_range_here(evs, 47, 51, e);
            }
            return Err(e);
        },
    };
    proof {
        assert(schema_field_err(evs, 47) is None);
    }
    let x7 = match get_bool_field(es, "deprecated") {
        Ok(x) => x,
        Err(e) => {
            proof {
                assert(schema_field_err(evs, 48) == Some(e));
                    lemma_err_range_step(evs, 41, 51);
                    lemma_err_range_step(evs, 42, 51);
                    lemma_err_range_step(evs, 43, 51);
                    lemma_err_range_step(evs, 44, 51);
                    lemma_err_range_step(evs, 45, 51);
                    lemma_err_range_step(evs, 46, 51);
                    lemma_err_range_step(evs, 47, 51);
                lemma_err_range_here(evs, 48, 51, e);
            }
            return Err(e);
        },
    };
    proof {
        assert(schema_field_err(evs, 48) is None);
    }
    let x8 = match get_bool_field(es, "readOnly") {
        Ok(x) => x,
        Err(e) => {
            proof {
                assert(schema_field_err(evs, 49) == Some(e));
                    lemma_err_range_step(evs, 41, 51);
                    lemma_err_range_step(evs, 42, 51);
                    lemma_err_range_step(evs, 43, 51);
                    lemma_err_range_step(evs, 44, 51);
                    lemma_err_range_step(evs, 45, 51);
                    lemma_err_range_step(evs, 46, 51);
                    lemma_err_range_step(evs, 47, 51);
                    lemma_err_range_step(evs, 48, 51);
                lemma_err_range_here(evs, 49, 51, e);
            }
            return Err(e);
        },
    };
    proof {
        assert(schema_field_err(evs, 49) is None);
    }
    let x9 = match get_bool_field(es, "writeOnly") {
        Ok(x) => x,
        Err(e) => {
            proof {
                assert(schema_field_err(evs, 50) == Some(e));
                    lemma_err_range_step(evs, 41, 51);
                    lemma_err_range_step(evs, 42, 51);
                    lemma_err_range_step(evs, 43, 51);
                    lemma_err_range_step(evs, 44, 51);
                    lemma_err_range_step(evs, 45, 51);
                    lemma_err_range_step(evs, 46, 51);
                    lemma_err_range_step(evs, 47, 51);
                    lemma_err_range_step(evs, 48, 51);
                    lemma_err_range_step(evs, 49, 51);
                lemma_err_range_here(evs, 50, 51, e);
            }
            return Err(e);
        },
    };
    proof {
        assert(schema_field_err(evs, 50) is None);
    }
    proof {
        lemma_err_range_step(evs, 41, 51);
        lemma_err_range_step(evs, 42, 51);
        lemma_err_range_step(evs, 43, 51);
        lemma_err_range_step(evs, 44, 51);
        lemma_err_range_step(evs, 45, 51);
        lemma_err_range_step(evs, 46, 51);
        lemma_err_range_step(evs, 47, 51);
        lemma_err_range_step(evs, 48, 51);
        lemma_err_range_step(evs, 49, 51);
        lemma_err_range_step(evs, 50, 51);
        assert(schema_err_range(evs, 51, 51) is None);
    }
    Ok((x0, x1, x2, x3, x4, x5, x6, x7, x8, x9))
}

/// Read keywords 51 through 55.
#[verifier::rlimit(100)]
fn decode_schema_group_f(es: &Vec<(String, Any)>) -> (r: Result<
    (
        Vec<Any>,
        Option<Discriminator>,
        Option<Xml>,
        Option<ExternalDocument>,
        Option<Any>,
    ),
    DecodeError,
>)
    ensures
        match r {
            Ok(t) => schema_err_range(view_entries(es@), 51, 56) is None && dec_val_list_field(view_entries(es@), schema_key(51)) == Ok::<Seq<ValS>, DecodeError>(t.0.deep_view()) &&
                dec_opt_discriminator_field(view_entries(es@), schema_key(52)) == Ok::<Option<DiscriminatorV>, DecodeError>(t.1.deep_view()) &&
                dec_opt_xml_field(view_entries(es@), schema_key(53)) == Ok::<Option<XmlV>, DecodeError>(t.2.deep_view()) &&
                dec_opt_extdoc_field(view_entries(es@), schema_key(54)) == Ok::<Option<ExternalDocumentV>, DecodeError>(t.3.deep_view()) &&
                dec_opt_val_field(view_entries(es@), schema_key(55)) == Ok::<Option<ValS>, DecodeError>(t.4.deep_view()),
            Err(e) => schema_err_range(view_entries(es@), 51, 56) == Some(e),
        },
    decreases vsize_entries(view_entries(es@)), 2int, 0int,
{
    let ghost evs = view_entries(es@);
    let x0 = match get_val_list_field(es, "examples") {
        Ok(x) => x,
        Err(e) => {
            proof {
                assert(schema_field_err(evs, 51) == Some(e));

                lemma_err_range_here(evs, 51, 56, e);
            }
            return Err(e);
        },
    };
    proof {
        assert(schema_field_err(evs, 51) is None);
    }
    let x1 = match get_opt_discriminator_field(es, "discriminator") {
        Ok(x) => x,
        Err(e) => {
            proof {
                assert(schema_field_err(evs, 52) == Some(e));
                    lemma_err_range_step(evs, 51, 56);
                lemma_err_range_here(evs, 52, 56, e);
            }
            return Err(e);
        },
    };
    proof {
        assert(schema_field_err(evs, 52) is None);
    }
    let x2 = match get_opt_xml_field(es, "xml") {
        Ok(x) => x,
        Err(e) => {
            proof {
                assert(schema_field_err(evs, 53) == Some(e));
                    lemma_err_range_step(evs, 51, 56);
                    lemma_err_range_step(evs, 52, 56);
                lemma_err_range_here(evs, 53, 56, e);
            }
            return Err(e);
        },
    };
    proof {
        assert(schema_field_err(evs, 53) is None);
    }
    let x3 = match get_opt_extdoc_field(es, "externalDocs") {
        Ok(x) => x,
        Err(e) => {
            proof {
                assert(schema_field_err(evs, 54) == Some(e));
                    lemma_err_range_step(evs, 51, 56);
                    lemma_err_range_step(evs, 52, 56);
                    lemma_err_range_step(evs, 53, 56);
                lemma_err_range_here(evs, 54, 56, e);
            }
            return Err(e);
        },
    };
    proof {
        assert(schema_field_err(evs, 54) is None);
    }
    let x4 = match get_opt_val_field(es, "example") {
        Ok(x) => x,
        Err(e) => {
            proof {
                assert(schema_field_err(evs, 55) == Some(e));
                    lemma_err_range_step(evs, 51, 56);
                    lemma_err_range_step(evs, 52, 56);
                    lemma_err_range_step(evs, 53, 56);
                    lemma_err_range_step(evs, 54, 56);
                lemma_err_range_here(evs, 55, 56, e);
            }
            return Err(e);
        },
    };
    proof {
        assert(schema_field_err(evs, 55) is None);
    }
    proof {
        lemma_err_range_step(evs, 51, 56);
        lemma_err_range_step(evs, 52, 56);
        lemma_err_range_step(evs, 53, 56);
        lemma_err_range_step(evs, 54, 56);
        lemma_err_range_step(evs, 55, 56);
        assert(schema_err_range(evs, 56, 56) is None);
    }
    Ok((x0, x1, x2, x3, x4))
}

impl Schema {
    /// Encode as an object value: the present keywords in their canonical
    /// order, then the extension entries verbatim.
    pub fn encode(&self) -> (v: Any)
        ensures
            v@ == enc_schema(self.deep_view()),
        decreases self, 4int,
    {
        let ghost sv = view_schema(*self);
        let ghost entries = schema_entries(sv);
        let mut out: Vec<(String, Any)> = Vec::new();
        proof {
            lemma_schema_entries_index(sv);
            lemma_view_entries(out@);
            assert(view_entries(out@) =~= Seq::<(Seq<char>, ValS)>::empty());
            assert(entries.subrange(0, 0) =~= Seq::<(Seq<char>, Option<ValS>)>::empty());
            assert(view_entries(out@) =~= compact(entries.subrange(0, 0)));
        }
        let ghost before_a = view_entries(out@);
        emit_schema_group_a(&mut out, self);
        proof {
            assert(entries.subrange(0, 11) =~= entries.subrange(0, 0)
                + entries.subrange(0, 11));
            lemma_compact_append(entries.subrange(0, 0), entries.subrange(0, 11));
            assert(view_entries(out@) =~= compact(entries.subrange(0, 11)));
        }
        let ghost before_b = view_entries(out@);
        emit_schema_group_b(&mut out, self);
        proof {
            assert(entries.subrange(0, 21) =~= entries.subrange(0, 11)
                + entries.subrange(11, 21));
            lemma_compact_append(entries.subrange(0, 11), entries.subrange(11, 21));
            assert(view_entries(out@) =~= compact(entries.subrange(0, 21)));
        }
        let ghost before_c = view_entries(out@);
        emit_schema_group_c(&mut out, self);
        proof {
            assert(entries.subrange(0, 29) =~= entries.subrange(0, 21)
                + entries.subrange(21, 29));
            lemma_compact_append(entries.subrange(0, 21), entries.subrange(21, 29));
            assert(view_entries(out@) =~= compact(entries.subrange(0, 29)));
        }
        let ghost before_d = view_entries(out@);
        emit_schema_group_d(&mut out, self);
        proof {
            assert(entries.subrange(0, 41) =~= entries.subrange(0, 29)
                + entries.subrange(29, 41));
            lemma_compact_append(entries.subrange(0, 29), entries.subrange(29, 41));
            assert(view_entries(out@) =~= compact(entries.subrange(0, 41)));
        }
        let ghost before_e = view_entries(out@);
        emit_schema_group_e(&mut out, self);
        proof {
            assert(entries.subrange(0, 51) =~= entries.subrange(0, 41)
                + entries.subrange(41, 51));
            lemma_compact_append(entries.subrange(0, 41), entries.subrange(41, 51));
            assert(view_entries(out@) =~= compact(entries.subrange(0, 51)));
        }
        let ghost before_f = view_entries(out@);
        emit_schema_group_f(&mut out, self);
        proof {
            assert(entries.subrange(0, 56) =~= entries.subrange(0, 51)
                + entries.subrange(51, 56));
            lemma_compact_append(entries.subrange(0, 51), entries.subrange(51, 56));
            assert(view_entries(out@) =~= compact(entries.subrange(0, 56)));
        }
        proof {
            assert(entries.subrange(0, 56) =~= entries);
            assert(view_entries(out@) =~= compact(entries));
        }
        let ghost mid = view_entries(out@);
        let mut i: usize = 0;
        proof {
            assert(self.extensions@.take(0) =~= Seq::<(String, Any)>::empty());
            lemma_view_entries(self.extensions@.take(0));
            assert(view_entries(out@) =~= mid + view_entries(self.extensions@.take(0)));
        }
        while i < self.extensions.len()
            invariant
                i <= self.extensions@.len(),
                mid == compact(schema_entries(view_schema(*self))),
                view_entries(out@) =~= mid + view_entries(self.extensions@.take(i as int)),
            decreases self.extensions@.len() - i,
        {
            let (k, v2) = &self.extensions[i];
            let ghost before = out@;
            out.push((k.clone(), v2.clone()));
            proof {
                lemma_view_entries(before);
                lemma_view_entries(out@);
                lemma_view_entries(self.extensions@.take(i as int));
                lemma_view_entries(self.extensions@.take(i as int + 1));
                assert(view_entries(out@) =~= view_entries(before) + seq![
                    (out@[out@.len() - 1].0@, view_val(out@[out@.len() - 1].1)),
                ]);
                assert(view_entries(self.extensions@.take(i as int + 1))
                    =~= view_entries(self.extensions@.take(i as int)) + seq![
                    (self.extensions@[i as int].0@, view_val(self.extensions@[i as int].1)),
                ]);
            }
            i += 1;
        }
        proof {
            assert(self.extensions@.take(self.extensions@.len() as int)
                =~= self.extensions@);
            assert(view_entries(out@) =~= compact(entries) + sv.extensions);
        }
        Any::Object(out)
    }

    /// Decode from a value, which must be an object: every keyword by key,
    /// unrecognized keys into the extensions, the first failing keyword's
    /// error otherwise.
    #[verifier::rlimit(100)]
    pub fn decode(v: &Any) -> (r: Result<Schema, DecodeError>)
        ensures
            res_view(r) == dec_schema(v@),
        decreases vsize(v@), 4int, 0int,
    {
        let o = match v {
            Any::Object(o) => o,
            _ => {
                return Err(DecodeError::ExpectedObject);
            },
        };
        let ghost evs = view_entries(o@);
        proof {
            lemma_view_entries(o@);
            assert(v@ == ValS::Obj(evs));
        }
        let (fld0, fld1, fld2, fld3, fld4, fld5, fld6, fld7, fld8, fld9, fld10) = match decode_schema_group_a(o) {
            Ok(t) => t,
            Err(e) => {
                proof {
                            lemma_first_err_via_range(evs, 0, 11);
                    assert(schema_first_err_from(evs, 0) == Some(e));
                }
                return Err(e);
            },
        };
        let (fld11, fld12, fld13, fld14, fld15, fld16, fld17, fld18, fld19, fld20) = match decode_schema_group_b(o) {
            Ok(t) => t,
            Err(e) => {
                proof {
                            lemma_first_err_via_range(evs, 0, 11);
                            lemma_first_err_via_range(evs, 11, 21);
                    assert(schema_first_err_from(evs, 0) == Some(e));
                }
                return Err(e);
            },
        };
        let (fld21, fld22, fld23, fld24, fld25, fld26, fld27, fld28) = match decode_schema_group_c(o) {
            Ok(t) => t,
            Err(e) => {
                proof {
                            lemma_first_err_via_range(evs, 0, 11);
                            lemma_first_err_via_range(evs, 11, 21);
                            lemma_first_err_via_range(evs, 21, 29);
                    assert(schema_first_err_from(evs, 0) == Some(e));
                }
                return Err(e);
            },
        };
        let (fld29, fld30, fld31, fld32, fld33, fld34, fld35, fld36, fld37, fld38, fld39, fld40) = match decode_schema_group_d(o) {
            Ok(t) => t,
            Err(e) => {
                proof {
                            lemma_first_err_via_range(evs, 0, 11);
                            lemma_first_err_via_range(evs, 11, 21);
                            lemma_first_err_via_range(evs, 21, 29);
                            lemma_first_err_via_range(evs, 29, 41);
                    assert(schema_first_err_from(evs, 0) == Some(e));
                }
                return Err(e);
            },
        };
        let (fld41, fld42, fld43, fld44, fld45, fld46, fld47, fld48, fld49, fld50) = match decode_schema_group_e(o) {
            Ok(t) => t,
            Err(e) => {
                proof {
                            lemma_first_err_via_range(evs, 0, 11);
                            lemma_first_err_via_range(evs, 11, 21);
                            lemma_first_err_via_range(evs, 21, 29);
                            lemma_first_err_via_range(evs, 29, 41);
                            lemma_first_err_via_range(evs, 41, 51);
                    assert(schema_first_err_from(evs, 0) == Some(e));
                }
                return Err(e);
            },
        };
        let (fld51, fld52, fld53, fld54, fld55) = match decode_schema_group_f(o) {
            Ok(t) => t,
            Err(e) => {
                proof {
                            lemma_first_err_via_range(evs, 0, 11);
                            lemma_first_err_via_range(evs, 11, 21);
                            lemma_first_err_via_range(evs, 21, 29);
                            lemma_first_err_via_range(evs, 29, 41);
                            lemma_first_err_via_range(evs, 41, 51);
                            lemma_first_err_via_range(evs, 51, 56);
                    assert(schema_first_err_from(evs, 0) == Some(e));
                }
                return Err(e);
            },
        };
        let extensions = split_extensions(o);
        proof {
            lemma_first_err_via_range(evs, 0, 11);
            lemma_first_err_via_range(evs, 11, 21);
            lemma_first_err_via_range(evs, 21, 29);
            lemma_first_err_via_range(evs, 29, 41);
            lemma_first_err_via_range(evs, 41, 51);
            lemma_first_err_via_range(evs, 51, 56);
            assert(schema_first_err_from(evs, 0) is None);
        }
        let decoded = Schema {
            schema: fld0,
            id: fld1,
            ref_uri: fld2,
            comment: fld3,
            all_of: fld4,
            any_of: fld5,
            one_of: fld6,
            not: fld7,
            if_schema: fld8,
            then_schema: fld9,
            else_schema: fld10,
            dependent_schemas: fld11,
            prefix_items: fld12,
            items: fld13,
            contains: fld14,
            properties: fld15,
            pattern_properties: fld16,
            additional_properties: fld17,
            property_names: fld18,
            unevaluated_items: fld19,
            unevaluated_properties: fld20,
            types: fld21,
            enumeration: fld22,
            constant: fld23,
            multiple_of: fld24,
            maximum: fld25,
            exclusive_maximum: fld26,
            minimum: fld27,
            exclusive_minimum: fld28,
            max_length: fld29,
            min_length: fld30,
            pattern: fld31,
            max_items: fld32,
            min_items: fld33,
            unique_items: fld34,
            max_contains: fld35,
            min_contains: fld36,
            max_properties: fld37,
            min_properties: fld38,
            required: fld39,
            dependent_required: fld40,
            format: fld41,
            content_encoding: fld42,
            content_media_type: fld43,
            content_schema: fld44,
            title: fld45,
            description: fld46,
            default: fld47,
            deprecated: fld48,
            read_only: fld49,
            write_only: fld50,
            examples: fld51,
            discriminator: fld52,
            xml: fld53,
            external_docs: fld54,
            example: fld55,
            extensions,
        };
        proof {
            lemma_view_vals(fld51@);
            assert(fld51.deep_view() =~= view_vals(fld51@));
            let ghost target = dec_schema_obj(evs)->Ok_0;
            assert(view_schema(decoded).schema == target.schema);
            assert(view_schema(decoded).id == target.id);
            assert(view_schema(decoded).ref_uri == target.ref_uri);
            assert(view_schema(decoded).comment == target.comment);
            assert(view_schema(decoded).all_of == target.all_of);
            assert(view_schema(decoded).any_of == target.any_of);
            assert(view_schema(decoded).one_of == target.one_of);
            assert(view_schema(decoded).not == target.not);
            assert(view_schema(decoded).if_schema == target.if_schema);
            assert(view_schema(decoded).then_schema == target.then_schema);
            assert(view_schema(decoded).else_schema == target.else_schema);
            assert(view_schema(decoded).dependent_schemas == target.dependent_schemas);
            assert(view_schema(decoded).prefix_items == target.prefix_items);
            assert(view_schema(decoded).items == target.items);
            assert(view_schema(decoded).contains == target.contains);
            assert(view_schema(decoded).properties == target.properties);
            assert(view_schema(decoded).pattern_properties == target.pattern_properties);
            assert(view_schema(decoded).additional_properties == target.additional_properties);
            assert(view_schema(decoded).property_names == target.property_names);
            assert(view_schema(decoded).unevaluated_items == target.unevaluated_items);
            assert(view_schema(decoded).unevaluated_properties == target.unevaluated_properties);
            assert(view_schema(decoded).types == target.types);
            assert(view_schema(decoded).enumeration == target.enumeration);
            assert(view_schema(decoded).constant == target.constant);
            assert(view_schema(decoded).multiple_of == target.multiple_of);
            assert(view_schema(decoded).maximum == target.maximum);
            assert(view_schema(decoded).exclusive_maximum == target.exclusive_maximum);
            assert(view_schema(decoded).minimum == target.minimum);
            assert(view_schema(decoded).exclusive_minimum == target.exclusive_minimum);
            assert(view_schema(decoded).max_length == target.max_length);
            assert(view_schema(decoded).min_length == target.min_length);
            assert(view_schema(decoded).pattern == target.pattern);
            assert(view_schema(decoded).max_items == target.max_items);
            assert(view_schema(decoded).min_items == target.min_items);
            assert(view_schema(decoded).unique_items == target.unique_items);
            assert(view_schema(decoded).max_contains == target.max_contains);
            assert(view_schema(decoded).min_contains == target.min_contains);
            assert(view_schema(decoded).max_properties == target.max_properties);
            assert(view_schema(decoded).min_properties == target.min_properties);
            assert(view_schema(decoded).required == target.required);
            assert(view_schema(decoded).dependent_required == target.dependent_required);
            assert(view_schema(decoded).format == target.format);
            assert(view_schema(decoded).content_encoding == target.content_encoding);
            assert(view_schema(decoded).content_media_type == target.content_media_type);
            assert(view_schema(decoded).content_schema == target.content_schema);
            assert(view_schema(decoded).title == target.title);
            assert(view_schema(decoded).description == target.description);
            assert(view_schema(decoded).default == target.default);
            assert(view_schema(decoded).deprecated == target.deprecated);
            assert(view_schema(decoded).read_only == target.read_only);
            assert(view_schema(decoded).write_only == target.write_only);
            assert(view_schema(decoded).examples == target.examples);
            assert(view_schema(decoded).discriminator == target.discriminator);
            assert(view_schema(decoded).xml == target.xml);
            assert(view_schema(decoded).external_docs == target.external_docs);
            assert(view_schema(decoded).example == target.example);
            assert(view_schema(decoded).extensions == target.extensions);
            assert(view_schema(decoded) =~= target);
        }
        Ok(decoded)
    }
}

} // verus!
