//! A typed in-memory model of an OpenAPI 3.1 document, a verified codec
//! between that model and a generic JSON-compatible value tree, and a
//! documentation-header synthesizer consumed by code-generation backends.

use vstd::prelude::*;

pub mod code;
pub mod codec;
pub mod ex_json;
pub mod model;
pub mod names;
pub mod num;
pub mod parse;
pub mod reference;
pub mod schema;
pub mod schema_codec;
pub mod value;

pub use code::{Generator, Language, Rust};
pub use codec::DecodeError;
pub use model::{Callback, Components, Contact, Encoding, Example, Header,
    HeaderStyle, Info, License, Link, MediaType, OauthFlow, OauthFlows, Operation,
    Parameter, ParameterLocation, ParameterStyle, PathItem, Paths, RequestBody,
    Response, Responses, RuntimeExpression, SecurityRequirement, SecurityScheme,
    SecuritySchemeIn, SecuritySchemeType, Server, ServerVariable, Spec, Tag, Version};
pub use reference::Reference;
pub use schema::{Discriminator, ExternalDocument, Format, FormatOrString, Schema, Type,
    Xml};
pub use value::Any;
