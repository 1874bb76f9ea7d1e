//! The manifest format: a multi-document text whose documents are separated
//! by `---`, each naming its resource by `apiVersion`, `kind` and
//! `metadata`.

use vstd::prelude::*;

use crate::status::text_opt;
use crate::text::{chars_of, is_whitespace, slice_text, whitespace};

verus! {

/// A document separator starts at `i`.
pub open spec fn separator_at(s: Seq<char>, i: int) -> bool {
    0 <= i && i + 3 <= s.len() && s[i] == '-' && s[i + 1] == '-' && s[i + 2] == '-'
}

/// The first index in `i..hi` that is not white space, or `hi`.
pub open spec fn first_solid(s: Seq<char>, i: int, hi: int) -> int
    decreases hi - i,
{
    if i < hi && whitespace(s[i]) {
        first_solid(s, i + 1, hi)
    } else {
        i
    }
}

/// The end of `lo..j` once trailing white space is taken off.
pub open spec fn last_solid(s: Seq<char>, lo: int, j: int) -> int
    decreases j - lo,
{
    if lo < j && whitespace(s[j - 1]) {
        last_solid(s, lo, j - 1)
    } else {
        j
    }
}

/// The text of `lo..hi` without leading and trailing white space.
pub open spec fn trimmed(s: Seq<char>, lo: int, hi: int) -> Seq<char> {
    let a = first_solid(s, lo, hi);
    s.subrange(a, last_solid(s, a, hi))
}

/// A document is kept where it is not empty.
pub open spec fn kept(d: Seq<char>) -> Seq<Seq<char>> {
    if d.len() == 0 {
        seq![]
    } else {
        seq![d]
    }
}

/// The documents of `s`, for a current document that starts at `start` and
/// a scan that has reached `i`: pieces between separators, trimmed, empty
/// ones dropped.
pub open spec fn documents_from(s: Seq<char>, start: int, i: int) -> Seq<Seq<char>>
    decreases s.len() - i,
{
    if i + 3 > s.len() {
        kept(trimmed(s, start, s.len() as int))
    } else if separator_at(s, i) {
        kept(trimmed(s, start, i)) + documents_from(s, i + 3, i + 3)
    } else {
        documents_from(s, start, i + 1)
    }
}

/// The documents of a manifest, in order.
pub open spec fn documents(s: Seq<char>) -> Seq<Seq<char>> {
    documents_from(s, 0, 0)
}

pub open spec fn texts_view(v: Seq<String>) -> Seq<Seq<char>> {
    v.map_values(|d: String| d@)
}

fn trim_bounds(s: &Vec<char>, lo: usize, hi: usize) -> (r: (usize, usize))
    requires
        lo <= hi <= s@.len(),
    ensures
        r.0 == first_solid(s@, lo as int, hi as int),
        r.1 == last_solid(s@, r.0 as int, hi as int),
        lo <= r.0 <= r.1 <= hi,
{
    let mut a = lo;
    while a < hi && is_whitespace(s[a])
        invariant
            lo <= a <= hi <= s@.len(),
            first_solid(s@, lo as int, hi as int) == first_solid(s@, a as int, hi as int),
        decreases hi - a,
    {
        a = a + 1;
    }
    let mut b = hi;
    while a < b && is_whitespace(s[b - 1])
        invariant
            lo <= a <= b <= hi <= s@.len(),
            last_solid(s@, a as int, hi as int) == last_solid(s@, a as int, b as int),
        decreases b - a,
    {
        b = b - 1;
    }
    (a, b)
}

fn push_document(out: &mut Vec<String>, s: &Vec<char>, lo: usize, hi: usize)
    requires
        lo <= hi <= s@.len(),
    ensures
        texts_view(final(out)@) == texts_view(old(out)@) + kept(trimmed(s@, lo as int, hi as int)),
{
    let (a, b) = trim_bounds(s, lo, hi);
    if a < b {
        let d = slice_text(s, a, b);
        out.push(d);
        assert(texts_view(out@) =~= texts_view(old(out)@) + kept(trimmed(s@, lo as int, hi as int)));
    } else {
        assert(texts_view(out@) =~= texts_view(old(out)@) + kept(trimmed(s@, lo as int, hi as int)));
    }
}

/// The text without leading and trailing white space.
pub fn trim_text(s: &str) -> (r: String)
    ensures
        r@ == trimmed(s@, 0, s@.len() as int),
{
    let cs = chars_of(s);
    let (a, b) = trim_bounds(&cs, 0, cs.len());
    slice_text(&cs, a, b)
}

/// Splits a manifest into its documents: the pieces between `---`
/// separators, without surrounding white space, empty ones dropped.
pub fn split_documents(manifest: &str) -> (r: Vec<String>)
    ensures
        texts_view(r@) == documents(manifest@),
{
    let s = chars_of(manifest);
    let n = s.len();
    let mut out: Vec<String> = Vec::new();
    let mut start: usize = 0;
    let mut i: usize = 0;
    while n - i >= 3
        invariant
            n == s@.len(),
            s@ == manifest@,
            start <= i <= n,
            texts_view(out@) + documents_from(s@, start as int, i as int) == documents(s@),
        decreases n - i,
    {
        if s[i] == '-' && s[i + 1] == '-' && s[i + 2] == '-' {
            let ghost before = texts_view(out@);
            push_document(&mut out, &s, start, i);
            assert(texts_view(out@) + documents_from(s@, (i + 3) as int, (i + 3) as int) =~= before
                + documents_from(s@, start as int, i as int));
            i = i + 3;
            start = i;
        } else {
            i = i + 1;
        }
    }
    let ghost before = texts_view(out@);
    push_document(&mut out, &s, start, n);
    assert(texts_view(out@) =~= before + documents_from(s@, start as int, i as int));
    out
}

/// The index of the first `/` at or after `i`, or -1.
pub open spec fn slash_from(a: Seq<char>, i: int) -> int
    decreases a.len() - i,
{
    if i < 0 || i >= a.len() {
        -1
    } else if a[i] == '/' {
        i
    } else {
        slash_from(a, i + 1)
    }
}

/// `slash_from` finds the first `/` at or after `i`.
pub proof fn lemma_slash_from(a: Seq<char>, i: int)
    requires
        0 <= i,
    ensures
        ({
            let r = slash_from(a, i);
            &&& r == -1 || (i <= r < a.len() && a[r] == '/')
            &&& forall|j: int| i <= j < a.len() && (r == -1 || j < r) ==> a[j] != '/'
        }),
    decreases a.len() - i,
{
    if i < a.len() && a[i] != '/' {
        lemma_slash_from(a, i + 1);
    }
}

/// The API group and version of an `apiVersion`: split at the first `/`;
/// without one, the group is the core group, written as empty text.
pub open spec fn group_version(a: Seq<char>) -> (Seq<char>, Seq<char>) {
    let i = slash_from(a, 0);
    if i < 0 {
        (Seq::empty(), a)
    } else {
        (a.subrange(0, i), a.subrange(i + 1, a.len() as int))
    }
}

/// Splits an `apiVersion` into its group and version (see `group_version`).
pub fn parse_group_version(api_version: &str) -> (r: (String, String))
    ensures
        (r.0@, r.1@) == group_version(api_version@),
{
    let a = chars_of(api_version);
    let n = a.len();
    let mut i: usize = 0;
    while i < n
        invariant
            n == a@.len(),
            a@ == api_version@,
            0 <= i <= n,
            slash_from(a@, 0) == slash_from(a@, i as int),
        decreases n - i,
    {
        if a[i] == '/' {
            return (slice_text(&a, 0, i), slice_text(&a, i + 1, n));
        }
        i = i + 1;
    }
    assert(a@.subrange(0, n as int) =~= a@);
    (String::new(), slice_text(&a, 0, n))
}

/// Without a `/`, an `apiVersion` names the core group (empty text) and is
/// the version itself; with one, the group is the text before the first `/`
/// and holds no `/`.
pub proof fn lemma_group_version_core(a: Seq<char>)
    ensures
        (forall|i: int| 0 <= i < a.len() ==> a[i] != '/') ==> group_version(a) == (
        Seq::<char>::empty(),
        a,
        ),
        (exists|i: int| 0 <= i < a.len() && a[i] == '/') ==> {
            let g = group_version(a).0;
            &&& g.len() < a.len()
            &&& forall|j: int| 0 <= j < g.len() ==> g[j] != '/'
        },
{
    lemma_slash_from(a, 0);
}

/// The namespace of a document that names none.
pub const DEFAULT_NAMESPACE: &'static str = "default";

/// What names the resource of a manifest document.
pub struct DocumentHeader {
    pub api_version: String,
    pub group: String,
    pub version: String,
    pub kind: String,
    pub name: String,
    pub namespace: String,
}

pub struct HeaderView {
    pub api_version: Seq<char>,
    pub group: Seq<char>,
    pub version: Seq<char>,
    pub kind: Seq<char>,
    pub name: Seq<char>,
    pub namespace: Seq<char>,
}

impl View for DocumentHeader {
    type V = HeaderView;

    open spec fn view(&self) -> HeaderView {
        HeaderView {
            api_version: self.api_version@,
            group: self.group@,
            version: self.version@,
            kind: self.kind@,
            name: self.name@,
            namespace: self.namespace@,
        }
    }
}

/// Why a manifest document is skipped.
#[derive(Clone, Copy, Debug, PartialEq, Eq, Structural)]
pub enum DocumentError {
    /// The document is not a structured (YAML) document.
    NotStructured,
    MissingApiVersion,
    MissingKind,
    MissingName,
}

/// The header of a document from its `apiVersion`, `kind`, `metadata.name`
/// and `metadata.namespace` fields, each where present as text. The first
/// three are required; the namespace defaults to `DEFAULT_NAMESPACE`.
pub open spec fn header_spec(
    api_version: Option<Seq<char>>,
    kind: Option<Seq<char>>,
    name: Option<Seq<char>>,
    namespace: Option<Seq<char>>,
) -> Result<HeaderView, DocumentError> {
    match (api_version, kind, name) {
        (None, _, _) => Err(DocumentError::MissingApiVersion),
        (Some(_), None, _) => Err(DocumentError::MissingKind),
        (Some(_), Some(_), None) => Err(DocumentError::MissingName),
        (Some(a), Some(k), Some(n)) => Ok(
            HeaderView {
                api_version: a,
                group: group_version(a).0,
                version: group_version(a).1,
                kind: k,
                name: n,
                namespace: match namespace {
                    Some(ns) => ns,
                    None => DEFAULT_NAMESPACE@,
                },
            },
        ),
    }
}

/// The header of a document from its fields (see `header_spec`).
pub fn header_from_fields(
    api_version: Option<String>,
    kind: Option<String>,
    name: Option<String>,
    namespace: Option<String>,
) -> (r: Result<DocumentHeader, DocumentError>)
    ensures
        match r {
            Ok(h) => header_spec(text_opt(api_version), text_opt(kind), text_opt(name), text_opt(namespace)) == Ok::<HeaderView, DocumentError>(h@),
            Err(e) => header_spec(text_opt(api_version), text_opt(kind), text_opt(name), text_opt(namespace)) == Err::<HeaderView, DocumentError>(e),
        },
{
    let api_version = match api_version {
        Some(a) => a,
        None => return Err(DocumentError::MissingApiVersion),
    };
    let kind = match kind {
        Some(k) => k,
        None => return Err(DocumentError::MissingKind),
    };
    let name = match name {
        Some(n) => n,
        None => return Err(DocumentError::MissingName),
    };
    let namespace = match namespace {
        Some(ns) => ns,
        None => DEFAULT_NAMESPACE.to_owned(),
    };
    let (group, version) = parse_group_version(api_version.as_str());
    Ok(DocumentHeader { api_version, group, version, kind, name, namespace })
}

/// Declares serde_json's structured value, which carries a document's body
/// to the apply call.
#[verifier::external_type_specification]
#[verifier::external_body]
pub struct ExValue(serde_json::Value);

/// What serde_yaml reads from a document: `None` where the text is not
/// YAML; else the texts of its `apiVersion`, `kind`, `metadata.name` and
/// `metadata.namespace` fields, each `None` where absent or not text.
pub uninterp spec fn yaml_header_fields(doc: Seq<char>) -> Option<
    (Option<Seq<char>>, Option<Seq<char>>, Option<Seq<char>>, Option<Seq<char>>),
>;

/// Relies on `serde_yaml::from_str` into a `serde_json::Value`, with
/// `Value`'s `Index<&str>` and `as_str` picking the header fields: the
/// document's value and its header fields, `None` where it is not YAML.
#[verifier::external_body]
fn parse_yaml_document(doc: &str) -> (r: Option<
    (serde_json::Value, Option<String>, Option<String>, Option<String>, Option<String>),
>)
    ensures
        match r {
            None => yaml_header_fields(doc@) is None,
            Some((_, a, k, n, ns)) => yaml_header_fields(doc@) == Some(
                (text_opt(a), text_opt(k), text_opt(n), text_opt(ns)),
            ),
        },
{
    let v: serde_json::Value = serde_yaml::from_str(doc).ok()?;
    let api_version = v["apiVersion"].as_str().map(str::to_owned);
    let kind = v["kind"].as_str().map(str::to_owned);
    let name = v["metadata"]["name"].as_str().map(str::to_owned);
    let namespace = v["metadata"]["namespace"].as_str().map(str::to_owned);
    Some((v, api_version, kind, name, namespace))
}

/// A manifest document: the header that names its resource, and its body as
/// the structured value to apply.
pub struct ManifestDocument {
    pub header: DocumentHeader,
    pub body: serde_json::Value,
}

/// The header's group and version are those of its `apiVersion`.
pub open spec fn header_consistent(h: HeaderView) -> bool {
    (h.group, h.version) == group_version(h.api_version)
}

/// What reading a document gives: `NotStructured` where it is not YAML,
/// else the header of its fields (see `header_spec`).
pub open spec fn read_spec(doc: Seq<char>) -> Result<HeaderView, DocumentError> {
    match yaml_header_fields(doc) {
        None => Err(DocumentError::NotStructured),
        Some((a, k, n, ns)) => header_spec(a, k, n, ns),
    }
}

/// Reads a manifest document (see `read_spec`); its body is the parsed
/// value.
pub fn read_document(doc: &str) -> (r: Result<ManifestDocument, DocumentError>)
    ensures
        match r {
            Ok(d) => read_spec(doc@) == Ok::<HeaderView, DocumentError>(d.header@),
            Err(e) => read_spec(doc@) == Err::<HeaderView, DocumentError>(e),
        },
        r matches Ok(d) ==> header_consistent(d.header@),
{
    let (v, api_version, kind, name, namespace) = match parse_yaml_document(doc) {
        Some(parsed) => parsed,
        None => return Err(DocumentError::NotStructured),
    };
    match header_from_fields(api_version, kind, name, namespace) {
        Ok(header) => Ok(ManifestDocument { header, body: v }),
        Err(e) => Err(e),
    }
}

} // verus!
