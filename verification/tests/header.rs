//! The documentation-header synthesizer and the Rust backend, on concrete
//! documents.

use openapi::code::{synthesize_header, Generator, Language, Rust};
use openapi::model::{Components, Contact, Info, License, PathItem, Spec, Version};
use openapi::schema::ExternalDocument;

fn base_info() -> Info {
    Info {
        title: "Pet Store".to_owned(),
        summary: None,
        description: None,
        terms_of_service: None,
        contact: None,
        license: None,
        version: "1.0.0".to_owned(),
    }
}

fn empty_components() -> Components {
    Components {
        schemas: Vec::new(),
        responses: Vec::new(),
        parameters: Vec::new(),
        examples: Vec::new(),
        request_bodies: Vec::new(),
        headers: Vec::new(),
        security_schemes: Vec::new(),
        links: Vec::new(),
        callbacks: Vec::new(),
        path_items: Vec::new(),
    }
}

fn base_spec() -> Spec {
    Spec {
        openapi: Version::OpenApi3_1,
        info: base_info(),
        json_schema_dialect: None,
        servers: Vec::new(),
        paths: Vec::new(),
        webhooks: Vec::new(),
        components: empty_components(),
        security: Vec::new(),
        tags: Vec::new(),
        external_docs: None,
    }
}

#[test]
fn header_title_summary_version() {
    let mut info = base_info();
    info.summary = Some("Sells pets".to_owned());
    let docs = synthesize_header(&info, &None);
    assert_eq!(docs, "Pet Store\n\nSells pets.\n\nVersion: 1.0.0");
}

#[test]
fn header_description_wins_over_summary() {
    let mut info = base_info();
    info.summary = Some("short".to_owned());
    info.description = Some("The long story.".to_owned());
    let docs = synthesize_header(&info, &None);
    assert_eq!(docs, "Pet Store\n\nThe long story.\n\nVersion: 1.0.0");
}

#[test]
fn header_contact_name_and_email() {
    let mut info = base_info();
    info.contact = Some(Contact {
        name: Some("Ana".to_owned()),
        url: None,
        email: Some("a@x.com".to_owned()),
    });
    let docs = synthesize_header(&info, &None);
    assert_eq!(docs, "Pet Store\n\nVersion: 1.0.0\nContact: Ana <a@x.com>");
}

#[test]
fn header_contact_email_only() {
    let mut info = base_info();
    info.contact = Some(Contact {
        name: None,
        url: None,
        email: Some("a@x.com".to_owned()),
    });
    let docs = synthesize_header(&info, &None);
    assert_eq!(docs, "Pet Store\n\nVersion: 1.0.0\nContact: a@x.com");
    assert!(!docs.contains('<'));
}

#[test]
fn header_contact_name_only() {
    let mut info = base_info();
    info.contact = Some(Contact {
        name: Some("Ana".to_owned()),
        url: None,
        email: None,
    });
    let docs = synthesize_header(&info, &None);
    assert_eq!(docs, "Pet Store\n\nVersion: 1.0.0\nContact: Ana");
}

#[test]
fn header_empty_contact_renders_nothing() {
    let mut info = base_info();
    info.contact = Some(Contact { name: None, url: None, email: None });
    let docs = synthesize_header(&info, &None);
    assert_eq!(docs, "Pet Store\n\nVersion: 1.0.0");
}

#[test]
fn header_license_full() {
    let mut info = base_info();
    info.license = Some(License {
        name: "MIT".to_owned(),
        identifier: Some("MIT".to_owned()),
        url: Some("https://mit.example".to_owned()),
    });
    let docs = synthesize_header(&info, &None);
    assert_eq!(
        docs,
        "Pet Store\n\nVersion: 1.0.0\nLicense: MIT (MIT) https://mit.example"
    );
}

#[test]
fn header_terms_of_service() {
    let mut info = base_info();
    info.terms_of_service = Some("https://tos.example".to_owned());
    let docs = synthesize_header(&info, &None);
    assert_eq!(docs, "Pet Store\n\nVersion: 1.0.0\nTerms of Service: https://tos.example");
}

#[test]
fn header_external_docs_strips_trailing_period() {
    let ext = Some(ExternalDocument {
        description: Some("All the docs.".to_owned()),
        url: "https://docs.example".to_owned(),
    });
    let docs = synthesize_header(&base_info(), &ext);
    assert_eq!(
        docs,
        "Pet Store\n\nAll the docs: <https://docs.example>.\n\nVersion: 1.0.0"
    );
}

#[test]
fn header_external_docs_default_lead_in() {
    let ext = Some(ExternalDocument {
        description: None,
        url: "https://docs.example".to_owned(),
    });
    let docs = synthesize_header(&base_info(), &ext);
    assert_eq!(
        docs,
        "Pet Store\n\nMore documentation at: <https://docs.example>.\n\nVersion: 1.0.0"
    );
}

#[test]
fn rust_backend_prefixes_every_line() {
    let rendered = Rust.module_docs("a\nb");
    assert_eq!(rendered, "//! a\n//! b\n");
    assert_eq!(Rust.module_docs(""), "");
    assert_eq!(Rust.module_docs("a\n"), "//! a\n");
    assert_eq!(Rust.module_docs("a\r\nb"), "//! a\n//! b\n");
}

#[test]
fn write_to_renders_header_without_warnings() {
    let spec = base_spec();
    let mut warnings: Vec<String> = Vec::new();
    let out = Generator::new(Rust).write_to(&spec, &mut warnings);
    assert_eq!(out, "//! Pet Store\n//! \n//! Version: 1.0.0\n");
    assert!(warnings.is_empty());
}

#[test]
fn warnings_webhooks_then_security() {
    let mut spec = base_spec();
    spec.webhooks = vec![("onEvent".to_owned(), PathItem::default())];
    spec.security = vec![vec![("api_key".to_owned(), Vec::new())]];
    let mut warnings: Vec<String> = Vec::new();
    let _ = Generator::new(Rust).write_to(&spec, &mut warnings);
    assert_eq!(
        warnings,
        vec![
            "$root.webhooks not supported".to_owned(),
            "$root.security not supported".to_owned(),
        ]
    );
}

#[test]
fn warnings_dialect_first() {
    let mut spec = base_spec();
    spec.json_schema_dialect = Some("https://json-schema.org/draft/2020-12/schema".to_owned());
    spec.webhooks = vec![("onEvent".to_owned(), PathItem::default())];
    spec.security = vec![vec![("api_key".to_owned(), Vec::new())]];
    let mut warnings: Vec<String> = Vec::new();
    let _ = Generator::new(Rust).write_to(&spec, &mut warnings);
    assert_eq!(
        warnings,
        vec![
            "$root.jsonSchemaDialect not supported".to_owned(),
            "$root.webhooks not supported".to_owned(),
            "$root.security not supported".to_owned(),
        ]
    );
}
