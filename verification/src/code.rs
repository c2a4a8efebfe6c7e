//! Code generation: the documentation-header synthesizer and the pluggable
//! target-language backends that wrap its output.
//!
//! The synthesizer is a pure, single pass over the document's metadata: it
//! produces one text block (title, description, external documentation,
//! version, contact, license, terms of service) and collects non-fatal
//! warnings for the root-level features no backend supports yet.

use vstd::prelude::*;

use crate::model::{Contact, Info, License, Spec};
use crate::schema::ExternalDocument;

verus! {

/// `s` with one trailing period removed, if it has one.
pub open spec fn strip_dot(s: Seq<char>) -> Seq<char> {
    if s.len() > 0 && s.last() == '.' {
        s.drop_last()
    } else {
        s
    }
}

/// The description block: the description, or else the summary, with a
/// period appended when the text does not already end in one.
pub open spec fn sect_summary(info: Info) -> Seq<char> {
    let d = if info.description is Some {
        info.description
    } else {
        info.summary
    };
    match d {
        Some(t) => "\n\n"@ + t@ + if t@.len() > 0 && t@.last() == '.' {
            Seq::<char>::empty()
        } else {
            "."@
        },
        None => Seq::empty(),
    }
}

/// The external-documentation line: its description with any trailing
/// period stripped, or a fixed lead-in, then the URL.
pub open spec fn sect_extdocs(ext: Option<ExternalDocument>) -> Seq<char> {
    match ext {
        Some(e) => "\n\n"@ + (match e.description {
            Some(d) => strip_dot(d@),
            None => "More documentation at"@,
        }) + ": <"@ + e.url@ + ">."@,
        None => Seq::empty(),
    }
}

/// The version line, always present.
pub open spec fn sect_version(info: Info) -> Seq<char> {
    "\n\nVersion: "@ + info.version@
}

/// The contact line: name alone, email alone, or name with the email in
/// angle brackets; an empty contact object produces no line at all.
pub open spec fn sect_contact(c: Option<Contact>) -> Seq<char> {
    match c {
        Some(c) => match (c.name, c.email) {
            (Some(n), Some(e)) => "\nContact: "@ + n@ + " <"@ + e@ + ">"@,
            (Some(n), None) => "\nContact: "@ + n@,
            (None, Some(e)) => "\nContact: "@ + e@,
            (None, None) => Seq::empty(),
        },
        None => Seq::empty(),
    }
}

/// The license line: the name, a parenthesized identifier if present, and
/// the raw URL if present.
pub open spec fn sect_license(l: Option<License>) -> Seq<char> {
    match l {
        Some(l) => "\nLicense: "@ + l.name@ + (match l.identifier {
            Some(i) => " ("@ + i@ + ")"@,
            None => Seq::empty(),
        }) + (match l.url {
            Some(u) => " "@ + u@,
            None => Seq::empty(),
        }),
        None => Seq::empty(),
    }
}

/// The terms-of-service line, if present.
pub open spec fn sect_tos(info: Info) -> Seq<char> {
    match info.terms_of_service {
        Some(t) => "\nTerms of Service: "@ + t@,
        None => Seq::empty(),
    }
}

/// The whole documentation header for the given metadata.
pub open spec fn header_docs(info: Info, ext: Option<ExternalDocument>) -> Seq<char> {
    info.title@ + sect_summary(info) + sect_extdocs(ext) + sect_version(info)
        + sect_contact(info.contact) + sect_license(info.license) + sect_tos(info)
}

/// The unsupported-feature warnings a document raises, in a fixed order:
/// dialect first, then webhooks, then security.
pub open spec fn warnings_of(s: Spec) -> Seq<Seq<char>> {
    (if s.json_schema_dialect is Some {
        seq!["$root.jsonSchemaDialect not supported"@]
    } else {
        Seq::<Seq<char>>::empty()
    }) + (if s.webhooks@.len() > 0 {
        seq!["$root.webhooks not supported"@]
    } else {
        Seq::<Seq<char>>::empty()
    }) + (if s.security@.len() > 0 {
        seq!["$root.security not supported"@]
    } else {
        Seq::<Seq<char>>::empty()
    })
}

/// Synthesis is deterministic: identical metadata always yields the same
/// header text, and identical documents the same warnings, independent of
/// any other state.
pub proof fn lemma_synthesis_deterministic(
    i1: Info,
    e1: Option<ExternalDocument>,
    s1: Spec,
    i2: Info,
    e2: Option<ExternalDocument>,
    s2: Spec,
)
    requires
        i1 == i2,
        e1 == e2,
        s1 == s2,
    ensures
        header_docs(i1, e1) == header_docs(i2, e2),
        warnings_of(s1) == warnings_of(s2),
{
}

/// Whether the text ends with a period.
fn ends_with_dot(s: &str) -> (r: bool)
    ensures
        r == (s@.len() > 0 && s@.last() == '.'),
{
    let n = s.unicode_len();
    if n == 0 {
        false
    } else {
        s.get_char(n - 1) == '.'
    }
}

/// Append the description block.
fn append_summary(docs: &mut String, info: &Info)
    ensures
        final(docs)@ == old(docs)@ + sect_summary(*info),
{
    let d: &Option<String> = if info.description.is_some() {
        &info.description
    } else {
        &info.summary
    };
    match d {
        Some(t) => {
            docs.append("\n\n");
            docs.append(t.as_str());
            if !ends_with_dot(t.as_str()) {
                docs.append(".");
            }
            proof {
                assert(final(docs)@ =~= old(docs)@ + sect_summary(*info));
            }
        },
        None => {},
    }
}

/// Append the external-documentation line.
fn append_extdocs(docs: &mut String, ext: &Option<ExternalDocument>)
    ensures
        final(docs)@ == old(docs)@ + sect_extdocs(*ext),
{
    match ext {
        Some(e) => {
            docs.append("\n\n");
            match &e.description {
                Some(dsc) => {
                    let n = dsc.as_str().unicode_len();
                    if ends_with_dot(dsc.as_str()) {
                        let head = dsc.as_str().substring_char(0, n - 1);
                        proof {
                            assert(head@ =~= strip_dot(dsc@));
                        }
                        docs.append(head);
                    } else {
                        docs.append(dsc.as_str());
                    }
                },
                None => {
                    docs.append("More documentation at");
                },
            }
            docs.append(": <");
            docs.append(e.url.as_str());
            docs.append(">.");
            proof {
                assert(final(docs)@ =~= old(docs)@ + sect_extdocs(*ext));
            }
        },
        None => {},
    }
}

/// Append the contact line.
fn append_contact(docs: &mut String, c: &Option<Contact>)
    ensures
        final(docs)@ == old(docs)@ + sect_contact(*c),
{
    match c {
        Some(c) => {
            match (&c.name, &c.email) {
                (Some(n), Some(e)) => {
                    docs.append("\nContact: ");
                    docs.append(n.as_str());
                    docs.append(" <");
                    docs.append(e.as_str());
                    docs.append(">");
                },
                (Some(n), None) => {
                    docs.append("\nContact: ");
                    docs.append(n.as_str());
                },
                (None, Some(e)) => {
                    docs.append("\nContact: ");
                    docs.append(e.as_str());
                },
                (None, None) => {},
            }
            proof {
                assert(final(docs)@ =~= old(docs)@ + sect_contact(Some(*c)));
            }
        },
        None => {},
    }
}

/// Append the license line.
fn append_license(docs: &mut String, l: &Option<License>)
    ensures
        final(docs)@ == old(docs)@ + sect_license(*l),
{
    match l {
        Some(l) => {
            docs.append("\nLicense: ");
            docs.append(l.name.as_str());
            match &l.identifier {
                Some(i) => {
                    docs.append(" (");
                    docs.append(i.as_str());
                    docs.append(")");
                },
                None => {},
            }
            match &l.url {
                Some(u) => {
                    docs.append(" ");
                    docs.append(u.as_str());
                },
                None => {},
            }
            proof {
                assert(final(docs)@ =~= old(docs)@ + sect_license(Some(*l)));
            }
        },
        None => {},
    }
}

/// Synthesize the documentation header for the given metadata.
pub fn synthesize_header(info: &Info, external_docs: &Option<ExternalDocument>) -> (r:
    String)
    ensures
        r@ == header_docs(*info, *external_docs),
{
    let mut docs = String::new();
    docs.append(info.title.as_str());
    append_summary(&mut docs, info);
    append_extdocs(&mut docs, external_docs);
    docs.append("\n\nVersion: ");
    docs.append(info.version.as_str());
    append_contact(&mut docs, &info.contact);
    append_license(&mut docs, &info.license);
    match &info.terms_of_service {
        Some(t) => {
            docs.append("\nTerms of Service: ");
            docs.append(t.as_str());
        },
        None => {},
    }
    proof {
        assert(docs@ =~= header_docs(*info, *external_docs));
    }
    docs
}

/// The index of the first newline in `s`, or its length when none exists.
pub open spec fn find_nl(s: Seq<char>) -> int
    decreases s.len(),
{
    if s.len() == 0 {
        0
    } else if s[0] == '\n' {
        0
    } else {
        1 + find_nl(s.skip(1))
    }
}

/// Where the first newline is: in range, on a newline, nothing before it.
pub proof fn lemma_find_nl(s: Seq<char>)
    ensures
        0 <= find_nl(s) <= s.len(),
        find_nl(s) < s.len() ==> s[find_nl(s)] == '\n',
        forall|j: int| 0 <= j < find_nl(s) ==> s[j] != '\n',
    decreases s.len(),
{
    if s.len() > 0 && s[0] != '\n' {
        lemma_find_nl(s.skip(1));
        assert forall|j: int| 0 <= j < find_nl(s) implies s[j] != '\n' by {
            if j > 0 {
                assert(s.skip(1)[j - 1] == s[j]);
            }
        }
        if find_nl(s) < s.len() {
            assert(s.skip(1)[find_nl(s) - 1] == s[find_nl(s)]);
        }
    }
}

/// The first-newline index is fixed by its characteristic properties.
proof fn lemma_find_nl_is(s: Seq<char>, i: int)
    requires
        0 <= i <= s.len(),
        forall|j: int| 0 <= j < i ==> s[j] != '\n',
        i < s.len() ==> s[i] == '\n',
    ensures
        find_nl(s) == i,
    decreases s.len(),
{
    if s.len() > 0 && s[0] != '\n' {
        lemma_find_nl_is(s.skip(1), i - 1);
    }
}

/// A line with one trailing carriage return removed, if it has one.
pub open spec fn strip_cr(line: Seq<char>) -> Seq<char> {
    if line.len() > 0 && line.last() == '\r' {
        line.drop_last()
    } else {
        line
    }
}

/// The text line by line, each line prefixed with the module-documentation
/// marker and closed with a newline; a trailing newline in the input opens
/// no extra empty line.
pub open spec fn render_lines(s: Seq<char>) -> Seq<char>
    decreases s.len(),
    via render_lines_decreases
{
    if s.len() == 0 {
        Seq::empty()
    } else {
        let i = find_nl(s);
        "//! "@ + strip_cr(s.take(i)) + "\n"@ + render_lines(
            if i < s.len() {
                s.skip(i + 1)
            } else {
                s.skip(i)
            },
        )
    }
}

#[via_fn]
proof fn render_lines_decreases(s: Seq<char>) {
    lemma_find_nl(s);
}

/// A pluggable target-language backend: it wraps already-synthesized
/// documentation text in the target's comment convention.
pub trait Language {
    /// The text this backend renders for the given documentation.
    spec fn rendered(&self, docs: Seq<char>) -> Seq<char>;

    /// Render module (or file) documentation.
    fn module_docs(&self, docs: &str) -> (out: String)
        ensures
            out@ == self.rendered(docs@),
    ;
}

/// The Rust backend: each documentation line becomes a `//!` line.
#[derive(Debug)]
pub struct Rust;

impl Language for Rust {
    open spec fn rendered(&self, docs: Seq<char>) -> Seq<char> {
        render_lines(docs)
    }

    fn module_docs(&self, docs: &str) -> (out: String)
        ensures
            out@ == self.rendered(docs@),
    {
        let n = docs.unicode_len();
        let mut out = String::new();
        let mut p: usize = 0;
        proof {
            assert(docs@.skip(0) =~= docs@);
            assert(out@ =~= Seq::<char>::empty());
        }
        while p < n
            invariant
                p <= n,
                n == docs@.len(),
                render_lines(docs@) =~= out@ + render_lines(docs@.skip(p as int)),
            decreases n - p,
        {
            let mut q: usize = p;
            while q < n && docs.get_char(q) != '\n'
                invariant
                    p <= q <= n,
                    n == docs@.len(),
                    forall|j: int| p <= j < q ==> docs@[j] != '\n',
                decreases n - q,
            {
                q += 1;
            }
            let ghost p0 = p as int;
            let ghost rest = docs@.skip(p as int);
            proof {
                assert forall|j: int| 0 <= j < q - p implies rest[j] != '\n' by {
                    assert(rest[j] == docs@[p + j]);
                }
                if q < n {
                    assert(rest[q - p] == docs@[q as int]);
                }
                lemma_find_nl_is(rest, q as int - p as int);
            }
            let line_end = if q > p && docs.get_char(q - 1) == '\r' {
                q - 1
            } else {
                q
            };
            out.append("//! ");
            let line = docs.substring_char(p, line_end);
            out.append(line);
            out.append("\n");
            proof {
                assert(rest.take(q as int - p as int) =~= docs@.subrange(
                    p as int,
                    q as int,
                ));
                assert(strip_cr(rest.take(q as int - p as int)) =~= docs@.subrange(
                    p as int,
                    line_end as int,
                ));
            }
            if q < n {
                p = q + 1;
                proof {
                    assert(rest.skip(q as int - p0 + 1) =~= docs@.skip(p as int));
                    assert(render_lines(rest) == "//! "@ + strip_cr(
                        rest.take(q as int - p0),
                    ) + "\n"@ + render_lines(rest.skip(q as int - p0 + 1)));
                    assert(render_lines(docs@) =~= out@ + render_lines(
                        docs@.skip(p as int),
                    ));
                }
            } else {
                p = n;
                proof {
                    assert(rest.skip(rest.len() as int) =~= Seq::<char>::empty());
                    assert(docs@.skip(n as int) =~= Seq::<char>::empty());
                    assert(render_lines(rest) == "//! "@ + strip_cr(
                        rest.take(q as int - p0),
                    ) + "\n"@ + render_lines(rest.skip(q as int - p0)));
                    assert(rest.skip(q as int - p0) =~= Seq::<char>::empty());
                    assert(render_lines(docs@) =~= out@ + render_lines(
                        docs@.skip(p as int),
                    ));
                }
            }
        }
        proof {
            assert(docs@.skip(n as int) =~= Seq::<char>::empty());
            assert(out@ =~= render_lines(docs@));
        }
        out
    }
}

/// A code generator for one target language.
#[derive(Debug)]
pub struct Generator<L> {
    /// The target-language backend this generator renders through.
    pub language: L,
}

impl<L: Language> Generator<L> {
    /// Create a new code generator.
    pub fn new(language: L) -> (r: Generator<L>)
        ensures
            r.language == language,
    {
        Generator { language }
    }

    /// Render `spec`'s documentation header through this generator's
    /// language, and collect the unsupported-feature warnings, in order:
    /// dialect, webhooks, security.
    pub fn write_to(&self, spec: &Spec, warnings: &mut Vec<String>) -> (out: String)
        ensures
            out@ == self.language.rendered(header_docs(spec.info, spec.external_docs)),
            final(warnings).deep_view() == old(warnings).deep_view() + warnings_of(
                *spec,
            ),
    {
        let docs = synthesize_header(&spec.info, &spec.external_docs);
        let out = self.language.module_docs(docs.as_str());
        let ghost base = warnings.deep_view();
        if spec.json_schema_dialect.is_some() {
            warnings.push("$root.jsonSchemaDialect not supported".to_owned());
        }
        proof {
            assert(warnings.deep_view() =~= base + (if spec.json_schema_dialect
                is Some {
                seq!["$root.jsonSchemaDialect not supported"@]
            } else {
                Seq::<Seq<char>>::empty()
            }));
        }
        let ghost mid1 = warnings.deep_view();
        if spec.webhooks.len() > 0 {
            warnings.push("$root.webhooks not supported".to_owned());
        }
        proof {
            assert(warnings.deep_view() =~= mid1 + (if spec.webhooks@.len() > 0 {
                seq!["$root.webhooks not supported"@]
            } else {
                Seq::<Seq<char>>::empty()
            }));
        }
        let ghost mid2 = warnings.deep_view();
        if spec.security.len() > 0 {
            warnings.push("$root.security not supported".to_owned());
        }
        proof {
            assert(warnings.deep_view() =~= mid2 + (if spec.security@.len() > 0 {
                seq!["$root.security not supported"@]
            } else {
                Seq::<Seq<char>>::empty()
            }));
            assert(warnings.deep_view() =~= base + warnings_of(*spec));
        }
        out
    }
}

} // verus!
