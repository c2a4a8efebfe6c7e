//! The document model aggregate: the root object and every entity it owns,
//! wired together through [`Reference`] where the specification allows a
//! named component in place of an inlined value.
//!
//! Maps are ordered association lists, so a decoded document keeps its key
//! order and re-encodes without reshuffling.

use vstd::prelude::*;

use crate::reference::Reference;
use crate::schema::{ExternalDocument, Schema};
use crate::value::Any;

verus! {

/// A runtime expression, evaluated against the live HTTP message.
pub type RuntimeExpression = String;

/// The required security schemes: scheme name to scope (or role) names.
pub type SecurityRequirement = Vec<(String, Vec<String>)>;

/// The relative endpoint paths and their operations.
pub type Paths = Vec<(String, PathItem)>;

/// The version of the OpenAPI Specification a document uses.
#[derive(Clone, Copy, Debug, PartialEq, Eq, Structural)]
pub enum Version {
    /// Version `3.1.0`.
    OpenApi3_1,
}

/// Metadata about the API.
#[derive(Debug)]
pub struct Info {
    /// The title of the API.
    pub title: String,
    /// A short summary of the API.
    pub summary: Option<String>,
    /// A description of the API; preferred over `summary` when both exist.
    pub description: Option<String>,
    /// A URL to the Terms of Service for the API.
    pub terms_of_service: Option<String>,
    /// The contact information for the exposed API.
    pub contact: Option<Contact>,
    /// The license information for the exposed API.
    pub license: Option<License>,
    /// The version of this document, not of the OpenAPI Specification.
    pub version: String,
}

/// Contact information for the exposed API.
#[derive(Debug)]
pub struct Contact {
    /// The identifying name of the contact person or organization.
    pub name: Option<String>,
    /// The URL pointing to the contact information.
    pub url: Option<String>,
    /// The email address of the contact person or organization.
    pub email: Option<String>,
}

/// License information for the exposed API.
#[derive(Debug)]
pub struct License {
    /// The license name used for the API.
    pub name: String,
    /// An SPDX license expression; mutually exclusive with `url`.
    pub identifier: Option<String>,
    /// A URL to the license; mutually exclusive with `identifier`.
    pub url: Option<String>,
}

/// An object representing a server.
#[derive(Debug)]
pub struct Server {
    /// A URL to the target host; may be relative and may hold variables.
    pub url: String,
    /// An optional description of the host.
    pub description: Option<String>,
    /// Variable names and values substituted into the URL template.
    pub variables: Vec<(String, ServerVariable)>,
}

/// A server variable for server URL template substitution.
#[derive(Debug)]
pub struct ServerVariable {
    /// The allowed substitution values, when limited to a set.
    pub enumeration: Vec<String>,
    /// The value used when no other is supplied.
    pub default: String,
    /// An optional description of the variable.
    pub description: Option<String>,
}

/// The reusable component pools of a document.
#[derive(Debug)]
pub struct Components {
    /// Reusable Schema Objects.
    pub schemas: Vec<(String, Schema)>,
    /// Reusable Response Objects.
    pub responses: Vec<(String, Reference<Response>)>,
    /// Reusable Parameter Objects.
    pub parameters: Vec<(String, Reference<Parameter>)>,
    /// Reusable Example Objects.
    pub examples: Vec<(String, Reference<Example>)>,
    /// Reusable Request Body Objects.
    pub request_bodies: Vec<(String, Reference<RequestBody>)>,
    /// Reusable Header Objects.
    pub headers: Vec<(String, Reference<Header>)>,
    /// Reusable Security Scheme Objects.
    pub security_schemes: Vec<(String, Reference<SecurityScheme>)>,
    /// Reusable Link Objects.
    pub links: Vec<(String, Reference<Link>)>,
    /// Reusable Callback Objects.
    pub callbacks: Vec<(String, Reference<Callback>)>,
    /// Reusable Path Item Objects.
    pub path_items: Vec<(String, PathItem)>,
}

/// The operations available on a single path.
#[derive(Debug)]
pub struct PathItem {
    /// A referenced definition of this path item.
    pub ref_uri: Option<String>,
    /// A short summary for all operations in this path.
    pub summary: Option<String>,
    /// A description for all operations in this path.
    pub description: Option<String>,
    /// The GET operation.
    pub get: Option<Operation>,
    /// The PUT operation.
    pub put: Option<Operation>,
    /// The POST operation.
    pub post: Option<Operation>,
    /// The DELETE operation.
    pub delete: Option<Operation>,
    /// The OPTIONS operation.
    pub options: Option<Operation>,
    /// The HEAD operation.
    pub head: Option<Operation>,
    /// The PATCH operation.
    pub patch: Option<Operation>,
    /// The TRACE operation.
    pub trace: Option<Operation>,
    /// An alternative server array for this path.
    pub servers: Vec<Server>,
    /// Parameters applicable to every operation under this path.
    pub parameters: Vec<Reference<Parameter>>,
}

/// A single API operation on a path.
#[derive(Debug)]
pub struct Operation {
    /// Tags for documentation control.
    pub tags: Vec<String>,
    /// A short summary of what the operation does.
    pub summary: Option<String>,
    /// A verbose explanation of the operation behavior.
    pub description: Option<String>,
    /// Additional external documentation.
    pub external_docs: Option<ExternalDocument>,
    /// A string unique among all operations in the document.
    pub operation_id: Option<String>,
    /// Parameters applicable to this operation.
    pub parameters: Vec<Reference<Parameter>>,
    /// The request body for this operation.
    pub request_body: Option<Reference<RequestBody>>,
    /// The possible responses returned by this operation.
    pub responses: Option<Responses>,
    /// Out-of-band callbacks related to this operation.
    pub callbacks: Vec<(String, Reference<Callback>)>,
    /// Whether consumers should refrain from using this operation.
    pub deprecated: bool,
    /// Security mechanisms overriding the document-level declaration.
    pub security: Vec<SecurityRequirement>,
    /// An alternative server array for this operation.
    pub servers: Vec<Server>,
}

/// A single operation parameter, identified by name and location.
#[derive(Debug)]
pub struct Parameter {
    /// The case-sensitive parameter name.
    pub name: String,
    /// Where the parameter lives.
    pub location: ParameterLocation,
    /// A brief description of the parameter.
    pub description: Option<String>,
    /// Whether the parameter is mandatory; always true for path parameters.
    pub required: bool,
    /// Whether the parameter should be transitioned out of usage.
    pub deprecated: bool,
    /// Whether an empty value may be sent; query parameters only.
    pub allow_empty_value: bool,
    /// How the value serializes depending on its type.
    pub style: Option<ParameterStyle>,
    /// Whether arrays and objects generate one parameter per element.
    pub explode: bool,
    /// Whether reserved characters may appear unencoded; query only.
    pub allow_reserved: bool,
    /// The schema defining the parameter's type.
    pub schema: Option<Schema>,
    /// One example of the parameter's value.
    pub example: Option<Any>,
    /// Named examples of the parameter's value.
    pub examples: Vec<(String, Reference<Example>)>,
    /// The media-type representations of the parameter.
    pub content: Vec<(String, MediaType)>,
}

/// The four locations a parameter may live in.
#[derive(Clone, Copy, Debug, PartialEq, Eq, Structural)]
pub enum ParameterLocation {
    /// Part of the operation's URL, via path templating.
    Path,
    /// Appended to the URL as a query parameter.
    Query,
    /// A custom request header.
    Header,
    /// A cookie value.
    Cookie,
}

/// How a parameter value is serialized.
#[derive(Clone, Copy, Debug, PartialEq, Eq, Structural)]
pub enum ParameterStyle {
    /// Path-style parameters.
    Matrix,
    /// Label-style parameters.
    Label,
    /// Form-style parameters.
    Form,
    /// Simple comma-separated values.
    Simple,
    /// Space-separated array or object values.
    SpaceDelimited,
    /// Pipe-separated array or object values.
    PipeDelimited,
    /// Nested objects rendered as form parameters.
    DeepObject,
}

/// A single request body.
#[derive(Debug)]
pub struct RequestBody {
    /// A brief description of the request body.
    pub description: Option<String>,
    /// The content by media type or media type range.
    pub content: Vec<(String, MediaType)>,
    /// Whether the request body is required.
    pub required: bool,
}

/// Schema and examples for one media type.
#[derive(Debug)]
pub struct MediaType {
    /// The schema defining the content.
    pub schema: Option<Schema>,
    /// One example of the media type.
    pub example: Option<Any>,
    /// Named examples of the media type.
    pub examples: Vec<(String, Reference<Example>)>,
    /// Encoding information by property name.
    pub encoding: Vec<(String, Encoding)>,
}

/// A single encoding definition applied to a single schema property.
#[derive(Debug)]
pub struct Encoding {
    /// The Content-Type for encoding this property.
    pub content_type: Option<String>,
    /// Additional headers, such as Content-Disposition.
    pub headers: Vec<(String, Reference<Header>)>,
    /// How the property value serializes depending on its type.
    pub style: Option<ParameterStyle>,
    /// Whether arrays and objects generate one parameter per element.
    pub explode: bool,
    /// Whether reserved characters may appear unencoded.
    pub allow_reserved: bool,
}

/// The expected responses of an operation, by HTTP status code.
#[derive(Debug)]
pub struct Responses {
    /// The response for status codes not covered individually.
    pub default: Option<Reference<Response>>,
    /// Responses by status code or wildcard class such as `2XX`.
    pub response: Vec<(String, Reference<Response>)>,
}

/// A single response from an API operation.
#[derive(Debug)]
pub struct Response {
    /// A description of the response.
    pub description: String,
    /// Response headers by case-insensitive name.
    pub headers: Vec<(String, Reference<Header>)>,
    /// Potential payloads by media type or media type range.
    pub content: Vec<(String, MediaType)>,
    /// Operation links that can be followed from the response.
    pub links: Vec<(String, Reference<Link>)>,
}

/// Out-of-band callbacks related to a parent operation.
#[derive(Debug)]
pub struct Callback {
    /// Path items keyed by the runtime expression that picks the URL.
    pub expressions: Vec<(String, PathItem)>,
}

/// An example value with optional metadata.
#[derive(Debug)]
pub struct Example {
    /// A short description for the example.
    pub summary: Option<String>,
    /// A long description for the example.
    pub description: Option<String>,
    /// The embedded literal example; mutually exclusive with external.
    pub value: Option<Any>,
    /// A URI pointing to the literal example.
    pub external_value: String,
}

/// A possible design-time link for a response.
#[derive(Debug)]
pub struct Link {
    /// A URI reference to an operation; exclusive with `operation_id`.
    pub operation_ref: Option<String>,
    /// The id of an existing operation; exclusive with `operation_ref`.
    pub operation_id: Option<String>,
    /// Parameters to pass to the linked operation.
    pub parameters: Vec<(String, RuntimeExpression)>,
    /// A value or expression to use as the request body.
    pub request_body: Option<RuntimeExpression>,
    /// A description of the link.
    pub description: Option<String>,
    /// A server to be used by the target operation.
    pub server: Option<Server>,
}

/// A response or request header: a parameter without a name or location.
#[derive(Debug)]
pub struct Header {
    /// A brief description of the header.
    pub description: Option<String>,
    /// Whether the header is mandatory.
    pub required: bool,
    /// Whether the header should be transitioned out of usage.
    pub deprecated: bool,
    /// How the value serializes.
    pub style: Option<HeaderStyle>,
    /// The schema defining the header's type.
    pub schema: Option<Schema>,
    /// One example of the header's value.
    pub example: Option<Any>,
    /// Named examples of the header's value.
    pub examples: Vec<(String, Reference<Example>)>,
    /// The media-type representations of the header.
    pub content: Vec<(String, MediaType)>,
}

/// The one header serialization style.
#[derive(Clone, Copy, Debug, PartialEq, Eq, Structural)]
pub enum HeaderStyle {
    /// Simple comma-separated values.
    Simple,
}

/// Metadata for a single tag used by operations.
#[derive(Debug)]
pub struct Tag {
    /// The name of the tag.
    pub name: String,
    /// A description for the tag.
    pub description: Option<String>,
    /// Additional external documentation for this tag.
    pub external_docs: Option<ExternalDocument>,
}

/// A security scheme usable by the operations.
#[derive(Debug)]
pub struct SecurityScheme {
    /// The type of the security scheme.
    pub scheme_type: SecuritySchemeType,
    /// A description for the security scheme.
    pub description: Option<String>,
    /// The header, query or cookie parameter name; for API keys.
    pub name: Option<String>,
    /// The location of the API key.
    pub location: Option<SecuritySchemeIn>,
    /// The HTTP Authorization scheme name.
    pub scheme: Option<String>,
    /// A hint to the client about the bearer token format.
    pub bearer_format: Option<String>,
    /// Configuration for the supported OAuth flows.
    pub flows: Option<OauthFlows>,
    /// The OpenId Connect discovery URL.
    pub open_id_connect_url: Option<String>,
}

/// The kind of a security scheme.
#[derive(Clone, Copy, Debug, PartialEq, Eq, Structural)]
pub enum SecuritySchemeType {
    ApiKey,
    Http,
    MutualTls,
    Oauth2,
    OpenIdConnect,
}

/// Where an API key is carried.
#[derive(Clone, Copy, Debug, PartialEq, Eq, Structural)]
pub enum SecuritySchemeIn {
    Query,
    Header,
    Cookie,
}

/// The supported OAuth flows.
#[derive(Debug)]
pub struct OauthFlows {
    /// The OAuth Implicit flow.
    pub implicit: Option<OauthFlow>,
    /// The OAuth Resource Owner Password flow.
    pub password: Option<OauthFlow>,
    /// The OAuth Client Credentials flow.
    pub client_credentials: Option<OauthFlow>,
    /// The OAuth Authorization Code flow.
    pub authorization_code: Option<OauthFlow>,
}

/// Configuration details for one OAuth flow.
#[derive(Debug)]
pub struct OauthFlow {
    /// The authorization URL for this flow.
    pub authorization_url: String,
    /// The token URL for this flow.
    pub token_url: String,
    /// The URL for obtaining refresh tokens.
    pub refresh_url: Option<String>,
    /// The available scopes, with a short description each.
    pub scopes: Vec<(String, String)>,
}

/// The root object of a document.
#[derive(Debug)]
pub struct Spec {
    /// The OpenAPI Specification version of this document.
    pub openapi: Version,
    /// Metadata about the API.
    pub info: Info,
    /// The default `$schema` dialect for contained Schema Objects.
    pub json_schema_dialect: Option<String>,
    /// The servers providing connectivity to the API.
    pub servers: Vec<Server>,
    /// The available paths and operations.
    pub paths: Paths,
    /// Incoming webhooks the API consumer may implement.
    pub webhooks: Vec<(String, PathItem)>,
    /// The reusable component pools.
    pub components: Components,
    /// The security mechanisms usable across the API.
    pub security: Vec<SecurityRequirement>,
    /// Tags used by the document, with metadata.
    pub tags: Vec<Tag>,
    /// Additional external documentation.
    pub external_docs: Option<ExternalDocument>,
}

impl Default for PathItem {
    /// The path item with nothing set.
    fn default() -> (r: PathItem)
        ensures
            r.ref_uri is None,
            r.summary is None,
            r.description is None,
            r.get is None,
            r.put is None,
            r.post is None,
            r.delete is None,
            r.options is None,
            r.head is None,
            r.patch is None,
            r.trace is None,
            r.servers@.len() == 0,
            r.parameters@.len() == 0,
    {
        PathItem {
            ref_uri: None,
            summary: None,
            description: None,
            get: None,
            put: None,
            post: None,
            delete: None,
            options: None,
            head: None,
            patch: None,
            trace: None,
            servers: Vec::new(),
            parameters: Vec::new(),
        }
    }
}

} // verus!
