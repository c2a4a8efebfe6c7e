//! The Schema entity and its satellite types: the recursive, keyword-driven
//! description of a JSON value's shape, with applicator, assertion and
//! annotation keyword families, plus an open extension map for keys this
//! model does not know.

use vstd::prelude::*;

use crate::value::{Any, ValS};

verus! {

/// A JSON Schema data type name.
#[derive(Clone, Copy, Debug, PartialEq, Eq, Structural)]
pub enum Type {
    Null,
    Boolean,
    Object,
    Array,
    Number,
    String,
    Integer,
}

/// A well-known data format tag.
#[derive(Clone, Copy, Debug, PartialEq, Eq, Structural)]
pub enum Format {
    /// The "date-time" production.
    DateTime,
    /// The "full-date" production.
    Date,
    /// The "full-time" production.
    Time,
    /// The "duration" production.
    Duration,
    /// A mailbox address.
    Email,
    /// An internationalized mailbox address.
    IdnEmail,
    /// A host name.
    Hostname,
    /// An internationalized host name.
    IdnHostname,
    /// A dotted-quad IPv4 address.
    Ipv4,
    /// An IPv6 address.
    Ipv6,
    /// A URI.
    Uri,
    /// A URI or a relative reference.
    UriReference,
    /// An IRI.
    Iri,
    /// An IRI or a relative reference.
    IriReference,
    /// A plain UUID.
    Uuid,
    /// A URI template.
    UriTemplate,
    /// A JSON Pointer.
    JsonPointer,
    /// A relative JSON Pointer.
    RelativeJsonPointer,
    /// A regular expression.
    Regex,
    /// Binary data.
    Binary,
    /// An IPv4 or IPv6 address.
    Ip,
    /// A signed 32-bit integer.
    Int32,
    /// A signed 64-bit integer.
    Int64,
    /// A 32-bit floating point number.
    Float,
    /// A 64-bit floating point number.
    Double,
    /// A hint to user interfaces to obscure input.
    Password,
}

impl DeepView for Type {
    type V = Type;

    open spec fn deep_view(&self) -> Type {
        *self
    }
}

impl DeepView for Format {
    type V = Format;

    open spec fn deep_view(&self) -> Format {
        *self
    }
}

/// Either a recognized [`Format`] tag or an arbitrary string kept verbatim.
#[derive(Debug)]
pub enum FormatOrString {
    Format(Format),
    Other(String),
}

/// The model of a [`FormatOrString`].
#[verifier::ext_equal]
pub enum FormatOrStringV {
    Format(Format),
    Other(Seq<char>),
}

impl DeepView for FormatOrString {
    type V = FormatOrStringV;

    open spec fn deep_view(&self) -> FormatOrStringV {
        match self {
            FormatOrString::Format(f) => FormatOrStringV::Format(*f),
            FormatOrString::Other(s) => FormatOrStringV::Other(s@),
        }
    }
}

/// Discriminator Object: names the property whose value selects among
/// alternative schemas, with an optional value-to-schema mapping.
#[derive(Debug)]
pub struct Discriminator {
    /// The property in the payload that holds the discriminating value.
    pub property_name: String,
    /// Mappings between payload values and schema names or references.
    pub mapping: Vec<(String, String)>,
}

/// The model of a [`Discriminator`].
#[verifier::ext_equal]
pub struct DiscriminatorV {
    pub property_name: Seq<char>,
    pub mapping: Seq<(Seq<char>, Seq<char>)>,
}

impl DeepView for Discriminator {
    type V = DiscriminatorV;

    open spec fn deep_view(&self) -> DiscriminatorV {
        DiscriminatorV {
            property_name: self.property_name@,
            mapping: self.mapping.deep_view(),
        }
    }
}

/// XML Object: metadata for a fine-tuned XML representation.
#[derive(Debug)]
pub struct Xml {
    /// Replaces the name of the element or attribute.
    pub name: Option<String>,
    /// The absolute URI of the namespace definition.
    pub namespace: Option<String>,
    /// The prefix for the name.
    pub prefix: Option<String>,
    /// Whether the property renders as an attribute instead of an element.
    pub attribute: bool,
    /// Whether an array is wrapped in a containing element.
    pub wrapped: bool,
}

/// The model of an [`Xml`].
#[verifier::ext_equal]
pub struct XmlV {
    pub name: Option<Seq<char>>,
    pub namespace: Option<Seq<char>>,
    pub prefix: Option<Seq<char>>,
    pub attribute: bool,
    pub wrapped: bool,
}

impl DeepView for Xml {
    type V = XmlV;

    open spec fn deep_view(&self) -> XmlV {
        XmlV {
            name: self.name.deep_view(),
            namespace: self.namespace.deep_view(),
            prefix: self.prefix.deep_view(),
            attribute: self.attribute,
            wrapped: self.wrapped,
        }
    }
}

/// Allows referencing an external resource for extended documentation.
#[derive(Debug)]
pub struct ExternalDocument {
    /// A description of the target documentation.
    pub description: Option<String>,
    /// The URL for the target documentation.
    pub url: String,
}

/// The model of an [`ExternalDocument`].
#[verifier::ext_equal]
pub struct ExternalDocumentV {
    pub description: Option<Seq<char>>,
    pub url: Seq<char>,
}

impl DeepView for ExternalDocument {
    type V = ExternalDocumentV;

    open spec fn deep_view(&self) -> ExternalDocumentV {
        ExternalDocumentV { description: self.description.deep_view(), url: self.url@ }
    }
}

/// The Schema Object: the recursive definition of input and output data
/// types, a superset of JSON Schema draft 2020-12.
///
/// The `types` field is always a list internally even though the wire form
/// allows a bare scalar; size bounds carry machine integers; the numeric
/// bounds (`multiple_of` and friends) keep their decimal literal text so
/// that no precision is lost. Unrecognized keys land in `extensions`.
#[derive(Debug)]
pub struct Schema {
    /// The `$schema` dialect identifier URI.
    pub schema: Option<String>,
    /// The `$id` canonical resource URI.
    pub id: Option<String>,
    /// The `$ref` keyword: this schema is wholly a reference.
    pub ref_uri: Option<String>,
    /// The `$comment` keyword: an author comment, never shown to end users.
    pub comment: Option<String>,
    /// Valid when all of these schemas hold.
    pub all_of: Option<Vec<Schema>>,
    /// Valid when at least one of these schemas holds.
    pub any_of: Option<Vec<Schema>>,
    /// Valid when exactly one of these schemas holds.
    pub one_of: Option<Vec<Schema>>,
    /// Valid when this schema does not hold.
    pub not: Option<Box<Schema>>,
    /// Selects between `then` and `else`.
    pub if_schema: Option<Box<Schema>>,
    /// Applied when `if` holds.
    pub then_schema: Option<Box<Schema>>,
    /// Applied when `if` fails.
    pub else_schema: Option<Box<Schema>>,
    /// Schemas applied when the named property is present.
    pub dependent_schemas: Vec<(String, Schema)>,
    /// Positional schemas for array prefixes.
    pub prefix_items: Vec<Schema>,
    /// The schema for array elements beyond the prefix.
    pub items: Option<Box<Schema>>,
    /// At least one array element matches this schema.
    pub contains: Option<Box<Schema>>,
    /// Schemas for named object properties.
    pub properties: Option<Vec<(String, Schema)>>,
    /// Schemas for properties whose names match a regular expression.
    pub pattern_properties: Vec<(String, Schema)>,
    /// The schema for properties matched by neither of the above.
    pub additional_properties: Option<Box<Schema>>,
    /// The schema every property name must match.
    pub property_names: Option<Box<Schema>>,
    /// The schema for array locations no other keyword evaluated.
    pub unevaluated_items: Option<Box<Schema>>,
    /// The schema for object properties no other keyword evaluated.
    pub unevaluated_properties: Option<Box<Schema>>,
    /// The data types, kept as a list whatever the wire shape was.
    pub types: Vec<Type>,
    /// The valid values.
    pub enumeration: Vec<String>,
    /// The single valid value.
    pub constant: Option<String>,
    /// Division by this number must give an integer (decimal literal text).
    pub multiple_of: Option<String>,
    /// Inclusive upper bound (decimal literal text).
    pub maximum: Option<String>,
    /// Exclusive upper bound (decimal literal text).
    pub exclusive_maximum: Option<String>,
    /// Inclusive lower bound (decimal literal text).
    pub minimum: Option<String>,
    /// Exclusive lower bound (decimal literal text).
    pub exclusive_minimum: Option<String>,
    /// Greatest valid string length.
    pub max_length: Option<usize>,
    /// Least valid string length.
    pub min_length: Option<usize>,
    /// The regular expression a string must match.
    pub pattern: Option<String>,
    /// Greatest valid array size.
    pub max_items: Option<usize>,
    /// Least valid array size.
    pub min_items: Option<usize>,
    /// Whether array elements must be unique.
    pub unique_items: bool,
    /// Greatest number of elements `contains` may match.
    pub max_contains: Option<usize>,
    /// Least number of elements `contains` must match.
    pub min_contains: Option<usize>,
    /// Greatest valid property count.
    pub max_properties: Option<usize>,
    /// Least valid property count.
    pub min_properties: Option<usize>,
    /// Property names that must be present.
    pub required: Vec<String>,
    /// Properties required when another property is present.
    pub dependent_required: Vec<(String, Vec<String>)>,
    /// Semantic format, recognized or verbatim.
    pub format: Option<FormatOrString>,
    /// How a string encodes binary data.
    pub content_encoding: Option<String>,
    /// The media type of the string contents.
    pub content_media_type: Option<String>,
    /// The schema of the decoded string contents.
    pub content_schema: Option<Box<Schema>>,
    /// A short explanation.
    pub title: Option<String>,
    /// A longer explanation.
    pub description: Option<String>,
    /// A default value; should be valid against this schema.
    pub default: Option<Any>,
    /// Whether use of the instance is discouraged.
    pub deprecated: bool,
    /// Whether the value is managed by the owning authority alone.
    pub read_only: bool,
    /// Whether the value is never returned by the owning authority.
    pub write_only: bool,
    /// Sample values illustrating usage.
    pub examples: Vec<Any>,
    /// Support for polymorphism.
    pub discriminator: Option<Discriminator>,
    /// XML representation metadata.
    pub xml: Option<Xml>,
    /// Additional external documentation.
    pub external_docs: Option<ExternalDocument>,
    /// A single example; superseded by `examples`.
    pub example: Option<Any>,
    /// Unrecognized top-level keys, kept verbatim in order.
    pub extensions: Vec<(String, Any)>,
}

/// The model of a [`Schema`].
#[verifier::ext_equal]
pub struct SchemaV {
    pub schema: Option<Seq<char>>,
    pub id: Option<Seq<char>>,
    pub ref_uri: Option<Seq<char>>,
    pub comment: Option<Seq<char>>,
    pub all_of: Option<Seq<SchemaV>>,
    pub any_of: Option<Seq<SchemaV>>,
    pub one_of: Option<Seq<SchemaV>>,
    pub not: Option<Box<SchemaV>>,
    pub if_schema: Option<Box<SchemaV>>,
    pub then_schema: Option<Box<SchemaV>>,
    pub else_schema: Option<Box<SchemaV>>,
    pub dependent_schemas: Seq<(Seq<char>, SchemaV)>,
    pub prefix_items: Seq<SchemaV>,
    pub items: Option<Box<SchemaV>>,
    pub contains: Option<Box<SchemaV>>,
    pub properties: Option<Seq<(Seq<char>, SchemaV)>>,
    pub pattern_properties: Seq<(Seq<char>, SchemaV)>,
    pub additional_properties: Option<Box<SchemaV>>,
    pub property_names: Option<Box<SchemaV>>,
    pub unevaluated_items: Option<Box<SchemaV>>,
    pub unevaluated_properties: Option<Box<SchemaV>>,
    pub types: Seq<Type>,
    pub enumeration: Seq<Seq<char>>,
    pub constant: Option<Seq<char>>,
    pub multiple_of: Option<Seq<char>>,
    pub maximum: Option<Seq<char>>,
    pub exclusive_maximum: Option<Seq<char>>,
    pub minimum: Option<Seq<char>>,
    pub exclusive_minimum: Option<Seq<char>>,
    pub max_length: Option<usize>,
    pub min_length: Option<usize>,
    pub pattern: Option<Seq<char>>,
    pub max_items: Option<usize>,
    pub min_items: Option<usize>,
    pub unique_items: bool,
    pub max_contains: Option<usize>,
    pub min_contains: Option<usize>,
    pub max_properties: Option<usize>,
    pub min_properties: Option<usize>,
    pub required: Seq<Seq<char>>,
    pub dependent_required: Seq<(Seq<char>, Seq<Seq<char>>)>,
    pub format: Option<FormatOrStringV>,
    pub content_encoding: Option<Seq<char>>,
    pub content_media_type: Option<Seq<char>>,
    pub content_schema: Option<Box<SchemaV>>,
    pub title: Option<Seq<char>>,
    pub description: Option<Seq<char>>,
    pub default: Option<ValS>,
    pub deprecated: bool,
    pub read_only: bool,
    pub write_only: bool,
    pub examples: Seq<ValS>,
    pub discriminator: Option<DiscriminatorV>,
    pub xml: Option<XmlV>,
    pub external_docs: Option<ExternalDocumentV>,
    pub example: Option<ValS>,
    pub extensions: Seq<(Seq<char>, ValS)>,
}

/// The model of a schema: every child schema modelled in place.
pub open spec fn view_schema(s: Schema) -> SchemaV
    decreases s,
{
    SchemaV {
        schema: s.schema.deep_view(),
        id: s.id.deep_view(),
        ref_uri: s.ref_uri.deep_view(),
        comment: s.comment.deep_view(),
        all_of: view_opt_schemas(s.all_of),
        any_of: view_opt_schemas(s.any_of),
        one_of: view_opt_schemas(s.one_of),
        not: view_opt_schema(s.not),
        if_schema: view_opt_schema(s.if_schema),
        then_schema: view_opt_schema(s.then_schema),
        else_schema: view_opt_schema(s.else_schema),
        dependent_schemas: view_schema_map(s.dependent_schemas@),
        prefix_items: view_schemas(s.prefix_items@),
        items: view_opt_schema(s.items),
        contains: view_opt_schema(s.contains),
        properties: view_opt_schema_map(s.properties),
        pattern_properties: view_schema_map(s.pattern_properties@),
        additional_properties: view_opt_schema(s.additional_properties),
        property_names: view_opt_schema(s.property_names),
        unevaluated_items: view_opt_schema(s.unevaluated_items),
        unevaluated_properties: view_opt_schema(s.unevaluated_properties),
        types: s.types@,
        enumeration: s.enumeration.deep_view(),
        constant: s.constant.deep_view(),
        multiple_of: s.multiple_of.deep_view(),
        maximum: s.maximum.deep_view(),
        exclusive_maximum: s.exclusive_maximum.deep_view(),
        minimum: s.minimum.deep_view(),
        exclusive_minimum: s.exclusive_minimum.deep_view(),
        max_length: s.max_length,
        min_length: s.min_length,
        pattern: s.pattern.deep_view(),
        max_items: s.max_items,
        min_items: s.min_items,
        unique_items: s.unique_items,
        max_contains: s.max_contains,
        min_contains: s.min_contains,
        max_properties: s.max_properties,
        min_properties: s.min_properties,
        required: s.required.deep_view(),
        dependent_required: s.dependent_required.deep_view(),
        format: s.format.deep_view(),
        content_encoding: s.content_encoding.deep_view(),
        content_media_type: s.content_media_type.deep_view(),
        content_schema: view_opt_schema(s.content_schema),
        title: s.title.deep_view(),
        description: s.description.deep_view(),
        default: s.default.deep_view(),
        deprecated: s.deprecated,
        read_only: s.read_only,
        write_only: s.write_only,
        examples: crate::value::view_vals(s.examples@),
        discriminator: s.discriminator.deep_view(),
        xml: s.xml.deep_view(),
        external_docs: s.external_docs.deep_view(),
        example: s.example.deep_view(),
        extensions: crate::value::view_entries(s.extensions@),
    }
}

/// The model of an optional boxed child schema.
pub open spec fn view_opt_schema(o: Option<Box<Schema>>) -> Option<Box<SchemaV>>
    decreases o,
{
    match o {
        Some(b) => Some(Box::new(view_schema(*b))),
        None => None,
    }
}

/// The model of an optional schema list.
pub open spec fn view_opt_schemas(o: Option<Vec<Schema>>) -> Option<Seq<SchemaV>>
    decreases o,
{
    match o {
        Some(v) => Some(view_schemas(v@)),
        None => None,
    }
}

/// The models of the elements of a schema list, in order.
pub open spec fn view_schemas(ss: Seq<Schema>) -> Seq<SchemaV>
    decreases ss,
{
    if ss.len() == 0 {
        Seq::empty()
    } else {
        seq![view_schema(ss[0])] + view_schemas(ss.skip(1))
    }
}

/// The model of an optional name-to-schema map.
pub open spec fn view_opt_schema_map(o: Option<Vec<(String, Schema)>>) -> Option<
    Seq<(Seq<char>, SchemaV)>,
>
    decreases o,
{
    match o {
        Some(m) => Some(view_schema_map(m@)),
        None => None,
    }
}

/// The models of the entries of a name-to-schema map, in order.
pub open spec fn view_schema_map(m: Seq<(String, Schema)>) -> Seq<(Seq<char>, SchemaV)>
    decreases m,
{
    if m.len() == 0 {
        Seq::empty()
    } else {
        seq![(m[0].0@, view_schema(m[0].1))] + view_schema_map(m.skip(1))
    }
}

impl DeepView for Schema {
    type V = SchemaV;

    open spec fn deep_view(&self) -> SchemaV {
        view_schema(*self)
    }
}

/// `view_schemas` maps the list elementwise.
pub proof fn lemma_view_schemas(ss: Seq<Schema>)
    ensures
        view_schemas(ss).len() == ss.len(),
        forall|i: int| 0 <= i < ss.len() ==> view_schemas(ss)[i] == view_schema(ss[i]),
    decreases ss,
{
    if ss.len() > 0 {
        lemma_view_schemas(ss.skip(1));
    }
}

/// `view_schema_map` maps the entry list elementwise.
pub proof fn lemma_view_schema_map(m: Seq<(String, Schema)>)
    ensures
        view_schema_map(m).len() == m.len(),
        forall|i: int| 0 <= i < m.len() ==> view_schema_map(m)[i] == (m[i].0@,
        view_schema(m[i].1)),
    decreases m,
{
    if m.len() > 0 {
        lemma_view_schema_map(m.skip(1));
    }
}

/// The schema with nothing set: no keywords, no extensions.
pub open spec fn empty_schema() -> SchemaV {
    SchemaV {
        schema: None,
        id: None,
        ref_uri: None,
        comment: None,
        all_of: None,
        any_of: None,
        one_of: None,
        not: None,
        if_schema: None,
        then_schema: None,
        else_schema: None,
        dependent_schemas: Seq::empty(),
        prefix_items: Seq::empty(),
        items: None,
        contains: None,
        properties: None,
        pattern_properties: Seq::empty(),
        additional_properties: None,
        property_names: None,
        unevaluated_items: None,
        unevaluated_properties: None,
        types: Seq::empty(),
        enumeration: Seq::empty(),
        constant: None,
        multiple_of: None,
        maximum: None,
        exclusive_maximum: None,
        minimum: None,
        exclusive_minimum: None,
        max_length: None,
        min_length: None,
        pattern: None,
        max_items: None,
        min_items: None,
        unique_items: false,
        max_contains: None,
        min_contains: None,
        max_properties: None,
        min_properties: None,
        required: Seq::empty(),
        dependent_required: Seq::empty(),
        format: None,
        content_encoding: None,
        content_media_type: None,
        content_schema: None,
        title: None,
        description: None,
        default: None,
        deprecated: false,
        read_only: false,
        write_only: false,
        examples: Seq::empty(),
        discriminator: None,
        xml: None,
        external_docs: None,
        example: None,
        extensions: Seq::empty(),
    }
}

impl Default for Schema {
    /// The schema with nothing set.
    fn default() -> (r: Schema)
        ensures
            r.deep_view() == empty_schema(),
    {
        let r = Schema {
            schema: None,
            id: None,
            ref_uri: None,
            comment: None,
            all_of: None,
            any_of: None,
            one_of: None,
            not: None,
            if_schema: None,
            then_schema: None,
            else_schema: None,
            dependent_schemas: Vec::new(),
            prefix_items: Vec::new(),
            items: None,
            contains: None,
            properties: None,
            pattern_properties: Vec::new(),
            additional_properties: None,
            property_names: None,
            unevaluated_items: None,
            unevaluated_properties: None,
            types: Vec::new(),
            enumeration: Vec::new(),
            constant: None,
            multiple_of: None,
            maximum: None,
            exclusive_maximum: None,
            minimum: None,
            exclusive_minimum: None,
            max_length: None,
            min_length: None,
            pattern: None,
            max_items: None,
            min_items: None,
            unique_items: false,
            max_contains: None,
            min_contains: None,
            max_properties: None,
            min_properties: None,
            required: Vec::new(),
            dependent_required: Vec::new(),
            format: None,
            content_encoding: None,
            content_media_type: None,
            content_schema: None,
            title: None,
            description: None,
            default: None,
            deprecated: false,
            read_only: false,
            write_only: false,
            examples: Vec::new(),
            discriminator: None,
            xml: None,
            external_docs: None,
            example: None,
            extensions: Vec::new(),
        };
        proof {
            assert(view_schemas(Seq::<Schema>::empty()) =~= Seq::<SchemaV>::empty());
            assert(view_schema_map(Seq::<(String, Schema)>::empty()) =~= Seq::<
                (Seq<char>, SchemaV),
            >::empty());
            assert(crate::value::view_vals(Seq::<Any>::empty()) =~= Seq::<
                ValS,
            >::empty());
            assert(crate::value::view_entries(Seq::<(String, Any)>::empty()) =~= Seq::<
                (Seq<char>, ValS),
            >::empty());
            assert(r.deep_view() =~= empty_schema());
        }
        r
    }
}

} // verus!
