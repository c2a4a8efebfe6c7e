//! Names on the wire for the closed catalogs: data types and well-known
//! format tags, with their historical aliases.

use vstd::prelude::*;

use crate::schema::{Type, Format};

verus! {

/// The canonical wire name of a data type.
pub open spec fn type_label(t: Type) -> Seq<char> {
    match t {
        Type::Null => "null"@,
        Type::Boolean => "boolean"@,
        Type::Object => "object"@,
        Type::Array => "array"@,
        Type::Number => "number"@,
        Type::String => "string"@,
        Type::Integer => "integer"@,
    }
}

/// The data type a wire name denotes, if any.
pub open spec fn type_of_name(s: Seq<char>) -> Option<Type> {
    if s == "null"@ {
        Some(Type::Null)
    } else     if s == "boolean"@ {
        Some(Type::Boolean)
    } else     if s == "object"@ {
        Some(Type::Object)
    } else     if s == "array"@ {
        Some(Type::Array)
    } else     if s == "number"@ {
        Some(Type::Number)
    } else     if s == "string"@ {
        Some(Type::String)
    } else     if s == "integer"@ {
        Some(Type::Integer)
    } else {
        None
    }
}

/// The canonical wire name of a format tag.
pub open spec fn format_label(f: Format) -> Seq<char> {
    match f {
        Format::DateTime => "date-time"@,
        Format::Date => "date"@,
        Format::Time => "time"@,
        Format::Duration => "duration"@,
        Format::Email => "email"@,
        Format::IdnEmail => "idn-email"@,
        Format::Hostname => "hostname"@,
        Format::IdnHostname => "idn-hostname"@,
        Format::Ipv4 => "ipv4"@,
        Format::Ipv6 => "ipv6"@,
        Format::Uri => "uri"@,
        Format::UriReference => "uri-reference"@,
        Format::Iri => "iri"@,
        Format::IriReference => "iri-reference"@,
        Format::Uuid => "uuid"@,
        Format::UriTemplate => "uri-template"@,
        Format::JsonPointer => "json-pointer"@,
        Format::RelativeJsonPointer => "relative-json-pointer"@,
        Format::Regex => "regex"@,
        Format::Binary => "binary"@,
        Format::Ip => "ip"@,
        Format::Int32 => "int32"@,
        Format::Int64 => "int64"@,
        Format::Float => "float"@,
        Format::Double => "double"@,
        Format::Password => "password"@,
    }
}

/// The format tag a wire name denotes, if any; historical aliases
/// ("full-date", "full-time", "partial-time", "url") map to their
/// canonical tags.
pub open spec fn format_of_name(s: Seq<char>) -> Option<Format> {
    if s == "date-time"@ {
        Some(Format::DateTime)
    } else     if s == "date"@ {
        Some(Format::Date)
    } else     if s == "time"@ {
        Some(Format::Time)
    } else     if s == "duration"@ {
        Some(Format::Duration)
    } else     if s == "email"@ {
        Some(Format::Email)
    } else     if s == "idn-email"@ {
        Some(Format::IdnEmail)
    } else     if s == "hostname"@ {
        Some(Format::Hostname)
    } else     if s == "idn-hostname"@ {
        Some(Format::IdnHostname)
    } else     if s == "ipv4"@ {
        Some(Format::Ipv4)
    } else     if s == "ipv6"@ {
        Some(Format::Ipv6)
    } else     if s == "uri"@ {
        Some(Format::Uri)
    } else     if s == "uri-reference"@ {
        Some(Format::UriReference)
    } else     if s == "iri"@ {
        Some(Format::Iri)
    } else     if s == "iri-reference"@ {
        Some(Format::IriReference)
    } else     if s == "uuid"@ {
        Some(Format::Uuid)
    } else     if s == "uri-template"@ {
        Some(Format::UriTemplate)
    } else     if s == "json-pointer"@ {
        Some(Format::JsonPointer)
    } else     if s == "relative-json-pointer"@ {
        Some(Format::RelativeJsonPointer)
    } else     if s == "regex"@ {
        Some(Format::Regex)
    } else     if s == "binary"@ {
        Some(Format::Binary)
    } else     if s == "ip"@ {
        Some(Format::Ip)
    } else     if s == "int32"@ {
        Some(Format::Int32)
    } else     if s == "int64"@ {
        Some(Format::Int64)
    } else     if s == "float"@ {
        Some(Format::Float)
    } else     if s == "double"@ {
        Some(Format::Double)
    } else     if s == "password"@ {
        Some(Format::Password)
    } else if s == "full-date"@ {
        Some(Format::Date)
    } else if s == "full-time"@ {
        Some(Format::Time)
    } else if s == "partial-time"@ {
        Some(Format::Time)
    } else if s == "url"@ {
        Some(Format::Uri)
    } else {
        None
    }
}

/// Reading back a type's canonical name yields the type.
pub proof fn lemma_type_label_round_trip(t: Type)
    ensures
        type_of_name(type_label(t)) == Some(t),
{
    reveal_strlit("null");
    assert("null"@.len() == 4);
    assert("null"@[0] == 'n');
    assert("null"@[1] == 'u');
    assert("null"@[2] == 'l');
    assert("null"@[3] == 'l');
    reveal_strlit("boolean");
    assert("boolean"@.len() == 7);
    assert("boolean"@[0] == 'b');
    assert("boolean"@[1] == 'o');
    assert("boolean"@[2] == 'o');
    assert("boolean"@[3] == 'l');
    assert("boolean"@[4] == 'e');
    assert("boolean"@[5] == 'a');
    assert("boolean"@[6] == 'n');
    reveal_strlit("object");
    assert("object"@.len() == 6);
    assert("object"@[0] == 'o');
    assert("object"@[1] == 'b');
    assert("object"@[2] == 'j');
    assert("object"@[3] == 'e');
    assert("object"@[4] == 'c');
    assert("object"@[5] == 't');
    reveal_strlit("array");
    assert("array"@.len() == 5);
    assert("array"@[0] == 'a');
    assert("array"@[1] == 'r');
    assert("array"@[2] == 'r');
    assert("array"@[3] == 'a');
    assert("array"@[4] == 'y');
    reveal_strlit("number");
    assert("number"@.len() == 6);
    assert("number"@[0] == 'n');
    assert("number"@[1] == 'u');
    assert("number"@[2] == 'm');
    assert("number"@[3] == 'b');
    assert("number"@[4] == 'e');
    assert("number"@[5] == 'r');
    reveal_strlit("string");
    assert("string"@.len() == 6);
    assert("string"@[0] == 's');
    assert("string"@[1] == 't');
    assert("string"@[2] == 'r');
    assert("string"@[3] == 'i');
    assert("string"@[4] == 'n');
    assert("string"@[5] == 'g');
    reveal_strlit("integer");
    assert("integer"@.len() == 7);
    assert("integer"@[0] == 'i');
    assert("integer"@[1] == 'n');
    assert("integer"@[2] == 't');
    assert("integer"@[3] == 'e');
    assert("integer"@[4] == 'g');
    assert("integer"@[5] == 'e');
    assert("integer"@[6] == 'r');
}

/// Reading back a format's canonical name yields the format.
#[verifier::rlimit(50)]
pub proof fn lemma_format_label_round_trip(f: Format)
    ensures
        format_of_name(format_label(f)) == Some(f),
{
    reveal_strlit("date-time");
    assert("date-time"@.len() == 9);
    assert("date-time"@[0] == 'd');
    assert("date-time"@[1] == 'a');
    assert("date-time"@[2] == 't');
    assert("date-time"@[3] == 'e');
    assert("date-time"@[4] == '-');
    assert("date-time"@[5] == 't');
    assert("date-time"@[6] == 'i');
    assert("date-time"@[7] == 'm');
    assert("date-time"@[8] == 'e');
    reveal_strlit("date");
    assert("date"@.len() == 4);
    assert("date"@[0] == 'd');
    assert("date"@[1] == 'a');
    assert("date"@[2] == 't');
    assert("date"@[3] == 'e');
    reveal_strlit("time");
    assert("time"@.len() == 4);
    assert("time"@[0] == 't');
    assert("time"@[1] == 'i');
    assert("time"@[2] == 'm');
    assert("time"@[3] == 'e');
    reveal_strlit("duration");
    assert("duration"@.len() == 8);
    assert("duration"@[0] == 'd');
    assert("duration"@[1] == 'u');
    assert("duration"@[2] == 'r');
    assert("duration"@[3] == 'a');
    assert("duration"@[4] == 't');
    assert("duration"@[5] == 'i');
    assert("duration"@[6] == 'o');
    assert("duration"@[7] == 'n');
    reveal_strlit("email");
    assert("email"@.len() == 5);
    assert("email"@[0] == 'e');
    assert("email"@[1] == 'm');
    assert("email"@[2] == 'a');
    assert("email"@[3] == 'i');
    assert("email"@[4] == 'l');
    reveal_strlit("idn-email");
    assert("idn-email"@.len() == 9);
    assert("idn-email"@[0] == 'i');
    assert("idn-email"@[1] == 'd');
    assert("idn-email"@[2] == 'n');
    assert("idn-email"@[3] == '-');
    assert("idn-email"@[4] == 'e');
    assert("idn-email"@[5] == 'm');
    assert("idn-email"@[6] == 'a');
    assert("idn-email"@[7] == 'i');
    assert("idn-email"@[8] == 'l');
    reveal_strlit("hostname");
    assert("hostname"@.len() == 8);
    assert("hostname"@[0] == 'h');
    assert("hostname"@[1] == 'o');
    assert("hostname"@[2] == 's');
    assert("hostname"@[3] == 't');
    assert("hostname"@[4] == 'n');
    assert("hostname"@[5] == 'a');
    assert("hostname"@[6] == 'm');
    assert("hostname"@[7] == 'e');
    reveal_strlit("idn-hostname");
    assert("idn-hostname"@.len() == 12);
    assert("idn-hostname"@[0] == 'i');
    assert("idn-hostname"@[1] == 'd');
    assert("idn-hostname"@[2] == 'n');
    assert("idn-hostname"@[3] == '-');
    assert("idn-hostname"@[4] == 'h');
    assert("idn-hostname"@[5] == 'o');
    assert("idn-hostname"@[6] == 's');
    assert("idn-hostname"@[7] == 't');
    assert("idn-hostname"@[8] == 'n');
    assert("idn-hostname"@[9] == 'a');
    assert("idn-hostname"@[10] == 'm');
    assert("idn-hostname"@[11] == 'e');
    reveal_strlit("ipv4");
    assert("ipv4"@.len() == 4);
    assert("ipv4"@[0] == 'i');
    assert("ipv4"@[1] == 'p');
    assert("ipv4"@[2] == 'v');
    assert("ipv4"@[3] == '4');
    reveal_strlit("ipv6");
    assert("ipv6"@.len() == 4);
    assert("ipv6"@[0] == 'i');
    assert("ipv6"@[1] == 'p');
    assert("ipv6"@[2] == 'v');
    assert("ipv6"@[3] == '6');
    reveal_strlit("uri");
    assert("uri"@.len() == 3);
    assert("uri"@[0] == 'u');
    assert("uri"@[1] == 'r');
    assert("uri"@[2] == 'i');
    reveal_strlit("uri-reference");
    assert("uri-reference"@.len() == 13);
    assert("uri-reference"@[0] == 'u');
    assert("uri-reference"@[1] == 'r');
    assert("uri-reference"@[2] == 'i');
    assert("uri-reference"@[3] == '-');
    assert("uri-reference"@[4] == 'r');
    assert("uri-reference"@[5] == 'e');
    assert("uri-reference"@[6] == 'f');
    assert("uri-reference"@[7] == 'e');
    assert("uri-reference"@[8] == 'r');
    assert("uri-reference"@[9] == 'e');
    assert("uri-reference"@[10] == 'n');
    assert("uri-reference"@[11] == 'c');
    assert("uri-reference"@[12] == 'e');
    reveal_strlit("iri");
    assert("iri"@.len() == 3);
    assert("iri"@[0] == 'i');
    assert("iri"@[1] == 'r');
    assert("iri"@[2] == 'i');
    reveal_strlit("iri-reference");
    assert("iri-reference"@.len() == 13);
    assert("iri-reference"@[0] == 'i');
    assert("iri-reference"@[1] == 'r');
    assert("iri-reference"@[2] == 'i');
    assert("iri-reference"@[3] == '-');
    assert("iri-reference"@[4] == 'r');
    assert("iri-reference"@[5] == 'e');
    assert("iri-reference"@[6] == 'f');
    assert("iri-reference"@[7] == 'e');
    assert("iri-reference"@[8] == 'r');
    assert("iri-reference"@[9] == 'e');
    assert("iri-reference"@[10] == 'n');
    assert("iri-reference"@[11] == 'c');
    assert("iri-reference"@[12] == 'e');
    reveal_strlit("uuid");
    assert("uuid"@.len() == 4);
    assert("uuid"@[0] == 'u');
    assert("uuid"@[1] == 'u');
    assert("uuid"@[2] == 'i');
    assert("uuid"@[3] == 'd');
    reveal_strlit("uri-template");
    assert("uri-template"@.len() == 12);
    assert("uri-template"@[0] == 'u');
    assert("uri-template"@[1] == 'r');
    assert("uri-template"@[2] == 'i');
    assert("uri-template"@[3] == '-');
    assert("uri-template"@[4] == 't');
    assert("uri-template"@[5] == 'e');
    assert("uri-template"@[6] == 'm');
    assert("uri-template"@[7] == 'p');
    assert("uri-template"@[8] == 'l');
    assert("uri-template"@[9] == 'a');
    assert("uri-template"@[10] == 't');
    assert("uri-template"@[11] == 'e');
    reveal_strlit("json-pointer");
    assert("json-pointer"@.len() == 12);
    assert("json-pointer"@[0] == 'j');
    assert("json-pointer"@[1] == 's');
    assert("json-pointer"@[2] == 'o');
    assert("json-pointer"@[3] == 'n');
    assert("json-pointer"@[4] == '-');
    assert("json-pointer"@[5] == 'p');
    assert("json-pointer"@[6] == 'o');
    assert("json-pointer"@[7] == 'i');
    assert("json-pointer"@[8] == 'n');
    assert("json-pointer"@[9] == 't');
    assert("json-pointer"@[10] == 'e');
    assert("json-pointer"@[11] == 'r');
    reveal_strlit("relative-json-pointer");
    assert("relative-json-pointer"@.len() == 21);
    assert("relative-json-pointer"@[0] == 'r');
    assert("relative-json-pointer"@[1] == 'e');
    assert("relative-json-pointer"@[2] == 'l');
    assert("relative-json-pointer"@[3] == 'a');
    assert("relative-json-pointer"@[4] == 't');
    assert("relative-json-pointer"@[5] == 'i');
    assert("relative-json-pointer"@[6] == 'v');
    assert("relative-json-pointer"@[7] == 'e');
    assert("relative-json-pointer"@[8] == '-');
    assert("relative-json-pointer"@[9] == 'j');
    assert("relative-json-pointer"@[10] == 's');
    assert("relative-json-pointer"@[11] == 'o');
    assert("relative-json-pointer"@[12] == 'n');
    assert("relative-json-pointer"@[13] == '-');
    assert("relative-json-pointer"@[14] == 'p');
    assert("relative-json-pointer"@[15] == 'o');
    assert("relative-json-pointer"@[16] == 'i');
    assert("relative-json-pointer"@[17] == 'n');
    assert("relative-json-pointer"@[18] == 't');
    assert("relative-json-pointer"@[19] == 'e');
    assert("relative-json-pointer"@[20] == 'r');
    reveal_strlit("regex");
    assert("regex"@.len() == 5);
    assert("regex"@[0] == 'r');
    assert("regex"@[1] == 'e');
    assert("regex"@[2] == 'g');
    assert("regex"@[3] == 'e');
    assert("regex"@[4] == 'x');
    reveal_strlit("binary");
    assert("binary"@.len() == 6);
    assert("binary"@[0] == 'b');
    assert("binary"@[1] == 'i');
    assert("binary"@[2] == 'n');
    assert("binary"@[3] == 'a');
    assert("binary"@[4] == 'r');
    assert("binary"@[5] == 'y');
    reveal_strlit("ip");
    assert("ip"@.len() == 2);
    assert("ip"@[0] == 'i');
    assert("ip"@[1] == 'p');
    reveal_strlit("int32");
    assert("int32"@.len() == 5);
    assert("int32"@[0] == 'i');
    assert("int32"@[1] == 'n');
    assert("int32"@[2] == 't');
    assert("int32"@[3] == '3');
    assert("int32"@[4] == '2');
    reveal_strlit("int64");
    assert("int64"@.len() == 5);
    assert("int64"@[0] == 'i');
    assert("int64"@[1] == 'n');
    assert("int64"@[2] == 't');
    assert("int64"@[3] == '6');
    assert("int64"@[4] == '4');
    reveal_strlit("float");
    assert("float"@.len() == 5);
    assert("float"@[0] == 'f');
    assert("float"@[1] == 'l');
    assert("float"@[2] == 'o');
    assert("float"@[3] == 'a');
    assert("float"@[4] == 't');
    reveal_strlit("double");
    assert("double"@.len() == 6);
    assert("double"@[0] == 'd');
    assert("double"@[1] == 'o');
    assert("double"@[2] == 'u');
    assert("double"@[3] == 'b');
    assert("double"@[4] == 'l');
    assert("double"@[5] == 'e');
    reveal_strlit("password");
    assert("password"@.len() == 8);
    assert("password"@[0] == 'p');
    assert("password"@[1] == 'a');
    assert("password"@[2] == 's');
    assert("password"@[3] == 's');
    assert("password"@[4] == 'w');
    assert("password"@[5] == 'o');
    assert("password"@[6] == 'r');
    assert("password"@[7] == 'd');
    reveal_strlit("full-date");
    assert("full-date"@.len() == 9);
    assert("full-date"@[0] == 'f');
    assert("full-date"@[1] == 'u');
    assert("full-date"@[2] == 'l');
    assert("full-date"@[3] == 'l');
    assert("full-date"@[4] == '-');
    assert("full-date"@[5] == 'd');
    assert("full-date"@[6] == 'a');
    assert("full-date"@[7] == 't');
    assert("full-date"@[8] == 'e');
    reveal_strlit("full-time");
    assert("full-time"@.len() == 9);
    assert("full-time"@[0] == 'f');
    assert("full-time"@[1] == 'u');
    assert("full-time"@[2] == 'l');
    assert("full-time"@[3] == 'l');
    assert("full-time"@[4] == '-');
    assert("full-time"@[5] == 't');
    assert("full-time"@[6] == 'i');
    assert("full-time"@[7] == 'm');
    assert("full-time"@[8] == 'e');
    reveal_strlit("partial-time");
    assert("partial-time"@.len() == 12);
    assert("partial-time"@[0] == 'p');
    assert("partial-time"@[1] == 'a');
    assert("partial-time"@[2] == 'r');
    assert("partial-time"@[3] == 't');
    assert("partial-time"@[4] == 'i');
    assert("partial-time"@[5] == 'a');
    assert("partial-time"@[6] == 'l');
    assert("partial-time"@[7] == '-');
    assert("partial-time"@[8] == 't');
    assert("partial-time"@[9] == 'i');
    assert("partial-time"@[10] == 'm');
    assert("partial-time"@[11] == 'e');
    reveal_strlit("url");
    assert("url"@.len() == 3);
    assert("url"@[0] == 'u');
    assert("url"@[1] == 'r');
    assert("url"@[2] == 'l');
}

/// View equality of two string slices, decided without trust by comparing
/// owned copies.
pub fn str_eq(a: &str, b: &str) -> (r: bool)
    ensures
        r == (a@ == b@),
{
    let ao: String = a.to_owned();
    let bo: String = b.to_owned();
    ao == bo
}

/// The data type a wire name denotes, if any.
pub fn type_from_str(s: &str) -> (r: Option<Type>)
    ensures
        r == type_of_name(s@),
{
    if str_eq(s, "null") {
        return Some(Type::Null);
    }
    if str_eq(s, "boolean") {
        return Some(Type::Boolean);
    }
    if str_eq(s, "object") {
        return Some(Type::Object);
    }
    if str_eq(s, "array") {
        return Some(Type::Array);
    }
    if str_eq(s, "number") {
        return Some(Type::Number);
    }
    if str_eq(s, "string") {
        return Some(Type::String);
    }
    if str_eq(s, "integer") {
        return Some(Type::Integer);
    }
    None
}

/// The canonical wire name of a data type.
pub fn type_to_str(t: &Type) -> (r: &'static str)
    ensures
        r@ == type_label(*t),
{
    match t {
        Type::Null => "null",
        Type::Boolean => "boolean",
        Type::Object => "object",
        Type::Array => "array",
        Type::Number => "number",
        Type::String => "string",
        Type::Integer => "integer",
    }
}

/// The format tag a wire name denotes, if any.
pub fn format_from_str(s: &str) -> (r: Option<Format>)
    ensures
        r == format_of_name(s@),
{
    if str_eq(s, "date-time") {
        return Some(Format::DateTime);
    }
    if str_eq(s, "date") {
        return Some(Format::Date);
    }
    if str_eq(s, "time") {
        return Some(Format::Time);
    }
    if str_eq(s, "duration") {
        return Some(Format::Duration);
    }
    if str_eq(s, "email") {
        return Some(Format::Email);
    }
    if str_eq(s, "idn-email") {
        return Some(Format::IdnEmail);
    }
    if str_eq(s, "hostname") {
        return Some(Format::Hostname);
    }
    if str_eq(s, "idn-hostname") {
        return Some(Format::IdnHostname);
    }
    if str_eq(s, "ipv4") {
        return Some(Format::Ipv4);
    }
    if str_eq(s, "ipv6") {
        return Some(Format::Ipv6);
    }
    if str_eq(s, "uri") {
        return Some(Format::Uri);
    }
    if str_eq(s, "uri-reference") {
        return Some(Format::UriReference);
    }
    if str_eq(s, "iri") {
        return Some(Format::Iri);
    }
    if str_eq(s, "iri-reference") {
        return Some(Format::IriReference);
    }
    if str_eq(s, "uuid") {
        return Some(Format::Uuid);
    }
    if str_eq(s, "uri-template") {
        return Some(Format::UriTemplate);
    }
    if str_eq(s, "json-pointer") {
        return Some(Format::JsonPointer);
    }
    if str_eq(s, "relative-json-pointer") {
        return Some(Format::RelativeJsonPointer);
    }
    if str_eq(s, "regex") {
        return Some(Format::Regex);
    }
    if str_eq(s, "binary") {
        return Some(Format::Binary);
    }
    if str_eq(s, "ip") {
        return Some(Format::Ip);
    }
    if str_eq(s, "int32") {
        return Some(Format::Int32);
    }
    if str_eq(s, "int64") {
        return Some(Format::Int64);
    }
    if str_eq(s, "float") {
        return Some(Format::Float);
    }
    if str_eq(s, "double") {
        return Some(Format::Double);
    }
    if str_eq(s, "password") {
        return Some(Format::Password);
    }
    if str_eq(s, "full-date") {
        return Some(Format::Date);
    }
    if str_eq(s, "full-time") {
        return Some(Format::Time);
    }
    if str_eq(s, "partial-time") {
        return Some(Format::Time);
    }
    if str_eq(s, "url") {
        return Some(Format::Uri);
    }
    None
}

/// The canonical wire name of a format tag.
pub fn format_to_str(f: &Format) -> (r: &'static str)
    ensures
        r@ == format_label(*f),
{
    match f {
        Format::DateTime => "date-time",
        Format::Date => "date",
        Format::Time => "time",
        Format::Duration => "duration",
        Format::Email => "email",
        Format::IdnEmail => "idn-email",
        Format::Hostname => "hostname",
        Format::IdnHostname => "idn-hostname",
        Format::Ipv4 => "ipv4",
        Format::Ipv6 => "ipv6",
        Format::Uri => "uri",
        Format::UriReference => "uri-reference",
        Format::Iri => "iri",
        Format::IriReference => "iri-reference",
        Format::Uuid => "uuid",
        Format::UriTemplate => "uri-template",
        Format::JsonPointer => "json-pointer",
        Format::RelativeJsonPointer => "relative-json-pointer",
        Format::Regex => "regex",
        Format::Binary => "binary",
        Format::Ip => "ip",
        Format::Int32 => "int32",
        Format::Int64 => "int64",
        Format::Float => "float",
        Format::Double => "double",
        Format::Password => "password",
    }
}

} // verus!
