//! The manifest applier's decisions: reading a "manifest ready" message,
//! resolving each document's resource type against a discovery snapshot,
//! and the one status event a batch ends with.

use vstd::prelude::*;
use vstd::utf8::{decode_utf8, valid_utf8};

use base64::Engine;

use crate::manifest::{DocumentError, DocumentHeader, HeaderView};
use crate::status::{text_eq, text_opt};
use crate::sync::DeployStatusMessage;

verus! {

/// A resource type the control plane serves: its group, version and kind,
/// the plural name it is addressed by, and whether it lives in a namespace.
pub struct ResourceType {
    pub group: String,
    pub version: String,
    pub kind: String,
    pub plural: String,
    pub namespaced: bool,
}

pub struct ResourceTypeView {
    pub group: Seq<char>,
    pub version: Seq<char>,
    pub kind: Seq<char>,
    pub plural: Seq<char>,
    pub namespaced: bool,
}

impl View for ResourceType {
    type V = ResourceTypeView;

    open spec fn view(&self) -> ResourceTypeView {
        ResourceTypeView {
            group: self.group@,
            version: self.version@,
            kind: self.kind@,
            plural: self.plural@,
            namespaced: self.namespaced,
        }
    }
}

impl ResourceType {
    /// A copy with the same value.
    pub fn duplicate(&self) -> (r: ResourceType)
        ensures
            r@ == self@,
    {
        ResourceType {
            group: self.group.clone(),
            version: self.version.clone(),
            kind: self.kind.clone(),
            plural: self.plural.clone(),
            namespaced: self.namespaced,
        }
    }
}

/// The resource types that discovery found, each group's recommended
/// version only, in the order discovery listed them.
pub struct DiscoverySnapshot {
    pub resources: Vec<ResourceType>,
}

pub open spec fn types_view(rs: Seq<ResourceType>) -> Seq<ResourceTypeView> {
    rs.map_values(|r: ResourceType| r@)
}

/// The first resource type at or after `i` of the given group and kind.
pub open spec fn resolve_from(rs: Seq<ResourceTypeView>, group: Seq<char>, kind: Seq<char>, i: int) -> Option<
    ResourceTypeView,
>
    decreases rs.len() - i,
{
    if i < 0 || i >= rs.len() {
        None
    } else if rs[i].group == group && rs[i].kind == kind {
        Some(rs[i])
    } else {
        resolve_from(rs, group, kind, i + 1)
    }
}

/// The resource type of a group and kind: the first one listed.
pub open spec fn resolve_spec(rs: Seq<ResourceTypeView>, group: Seq<char>, kind: Seq<char>) -> Option<
    ResourceTypeView,
> {
    resolve_from(rs, group, kind, 0)
}

/// What to do with a document's resource type.
pub enum Resolution {
    /// Apply the document as this type.
    Resolved(ResourceType),
    /// The type is unknown to this snapshot: discover again, then resolve
    /// once more.
    Rediscover,
    /// The type is unknown to a fresh snapshot too: the document fails.
    Unresolved,
}

impl DiscoverySnapshot {
    /// The resource type of a group and kind (see `resolve_spec`).
    pub fn resolve(&self, group: &String, kind: &String) -> (r: Option<ResourceType>)
        ensures
            match r {
                Some(t) => resolve_spec(types_view(self.resources@), group@, kind@) == Some(t@),
                None => resolve_spec(types_view(self.resources@), group@, kind@) is None,
            },
    {
        let n = self.resources.len();
        let mut i: usize = 0;
        while i < n
            invariant
                n == self.resources@.len(),
                0 <= i <= n,
                resolve_spec(types_view(self.resources@), group@, kind@) == resolve_from(
                    types_view(self.resources@),
                    group@,
                    kind@,
                    i as int,
                ),
            decreases n - i,
        {
            let t = &self.resources[i];
            if text_eq(&t.group, group) && text_eq(&t.kind, kind) {
                return Some(t.duplicate());
            }
            i = i + 1;
        }
        None
    }

    /// Resolves a document's resource type. A type this snapshot lacks may
    /// have been registered since it was taken: unless `rediscovered` says
    /// that the snapshot is already fresh, ask for a new one.
    pub fn resolve_document(&self, header: &DocumentHeader, rediscovered: bool) -> (r: Resolution)
        ensures
            match resolve_spec(types_view(self.resources@), header@.group, header@.kind) {
                Some(t) => r matches Resolution::Resolved(u) && u@ == t,
                None => if rediscovered {
                    r is Unresolved
                } else {
                    r is Rediscover
                },
            },
    {
        match self.resolve(&header.group, &header.kind) {
            Some(t) => Resolution::Resolved(t),
            None => if rediscovered {
                Resolution::Unresolved
            } else {
                Resolution::Rediscover
            },
        }
    }
}

/// The text a failed document is reported with.
pub open spec fn document_error_text(e: DocumentError) -> Seq<char> {
    match e {
        DocumentError::NotStructured => "invalid manifest document: not YAML"@,
        DocumentError::MissingApiVersion => "invalid manifest document: missing apiVersion"@,
        DocumentError::MissingKind => "invalid manifest document: missing kind"@,
        DocumentError::MissingName => "invalid manifest document: missing metadata.name"@,
    }
}

pub open spec fn unresolved_text(h: HeaderView) -> Seq<char> {
    "could not resolve kind "@ + h.kind + " in group '"@ + h.group + "'"@
}

pub open spec fn apply_failed_text(h: HeaderView) -> Seq<char> {
    "failed to apply "@ + h.kind + " "@ + h.name
}

/// The first failure is the one a batch reports.
pub open spec fn first_failure(failure: Option<Seq<char>>, message: Seq<char>) -> Option<Seq<char>> {
    match failure {
        Some(m) => Some(m),
        None => Some(message),
    }
}

/// One manifest's documents as they are applied: the build they belong to,
/// and the first failure met, if any. Later documents are still applied
/// after a failure.
pub struct ApplyBatch {
    pub build_name: String,
    pub failure: Option<String>,
}

impl ApplyBatch {
    pub fn new(build_name: String) -> (r: ApplyBatch)
        ensures
            r.build_name == build_name,
            r.failure is None,
    {
        ApplyBatch { build_name, failure: None }
    }

    fn record_failure(&mut self, message: String)
        ensures
            final(self).build_name == old(self).build_name,
            text_opt(final(self).failure) == first_failure(text_opt(old(self).failure), message@),
    {
        if self.failure.is_none() {
            self.failure = Some(message);
        }
    }

    /// A document that could not be read.
    pub fn record_invalid(&mut self, error: DocumentError)
        ensures
            final(self).build_name == old(self).build_name,
            text_opt(final(self).failure) == first_failure(
                text_opt(old(self).failure),
                document_error_text(error),
            ),
    {
        let message = match error {
            DocumentError::NotStructured => "invalid manifest document: not YAML".to_owned(),
            DocumentError::MissingApiVersion => "invalid manifest document: missing apiVersion".to_owned(),
            DocumentError::MissingKind => "invalid manifest document: missing kind".to_owned(),
            DocumentError::MissingName => "invalid manifest document: missing metadata.name".to_owned(),
        };
        self.record_failure(message);
    }

    /// A document whose resource type discovery could not resolve.
    pub fn record_unresolved(&mut self, header: &DocumentHeader)
        ensures
            final(self).build_name == old(self).build_name,
            text_opt(final(self).failure) == first_failure(text_opt(old(self).failure), unresolved_text(header@)),
    {
        let mut message = "could not resolve kind ".to_owned();
        message.append(header.kind.as_str());
        message.append(" in group '");
        message.append(header.group.as_str());
        message.append("'");
        self.record_failure(message);
    }

    /// A document that the control plane refused to apply.
    pub fn record_apply_error(&mut self, header: &DocumentHeader)
        ensures
            final(self).build_name == old(self).build_name,
            text_opt(final(self).failure) == first_failure(text_opt(old(self).failure), apply_failed_text(header@)),
    {
        let mut message = "failed to apply ".to_owned();
        message.append(header.kind.as_str());
        message.append(" ");
        message.append(header.name.as_str());
        self.record_failure(message);
    }

    /// The status event the batch ends with: Deployed where every document
    /// was applied, else Failed with the first failure.
    pub fn status_message(&self, timestamp: String) -> (r: DeployStatusMessage)
        ensures
            r.build_name@ == self.build_name@,
            r.timestamp == timestamp,
            match text_opt(self.failure) {
                None => r.status@ == "Deployed"@ && r.message@ == "Deployment completed"@,
                Some(m) => r.status@ == "Failed"@ && r.message@ == m,
            },
    {
        match &self.failure {
            None => DeployStatusMessage::new(
                self.build_name.clone(),
                "Deployed".to_owned(),
                "Deployment completed".to_owned(),
                timestamp,
            ),
            Some(m) => DeployStatusMessage::new(self.build_name.clone(), "Failed".to_owned(), m.clone(), timestamp),
        }
    }
}

/// Why a "manifest ready" message is dropped.
#[derive(Clone, Copy, Debug, PartialEq, Eq, Structural)]
pub enum MessageError {
    /// The message is not JSON.
    NotJson,
    /// It has no `manifestB64` text field.
    MissingManifest,
    /// The manifest is not base64.
    BadBase64,
    /// The decoded manifest is not UTF-8 text.
    NotUtf8,
}

/// The build name of a message that names none.
pub const UNKNOWN_BUILD: &'static str = "unknown-build";

/// A decoded "manifest ready" message.
pub struct ReadyManifest {
    pub build_name: String,
    pub manifest: String,
}

/// What base64's standard engine decodes a text to; `None` where it refuses
/// the text.
pub uninterp spec fn base64_decoded(s: Seq<char>) -> Option<Seq<u8>>;

/// Relies on base64's `STANDARD.decode` (padded standard alphabet): the
/// bytes the text encodes, `None` where it is not such an encoding.
#[verifier::external_body]
fn base64_decode(s: &str) -> (r: Option<Vec<u8>>)
    ensures
        match r {
            Some(b) => base64_decoded(s@) == Some(b@),
            None => base64_decoded(s@) is None,
        },
{
    base64::engine::general_purpose::STANDARD.decode(s).ok()
}

/// Relies on `String::from_utf8`: the text the bytes encode where they are
/// valid UTF-8, else `None`.
#[verifier::external_body]
fn utf8_text(b: Vec<u8>) -> (r: Option<String>)
    ensures
        match r {
            Some(t) => valid_utf8(b@) && t@ == decode_utf8(b@),
            None => !valid_utf8(b@),
        },
{
    String::from_utf8(b).ok()
}

/// What serde_json reads from a "manifest ready" message: `None` where the
/// bytes are not JSON; else the texts of its `manifestB64` and `build_name`
/// fields, each `None` where absent or not text.
pub uninterp spec fn json_ready_fields(data: Seq<u8>) -> Option<(Option<Seq<char>>, Option<Seq<char>>)>;

/// Relies on `serde_json::from_slice` into a `Value`, with `Value`'s
/// `Index<&str>` and `as_str` picking the two fields.
#[verifier::external_body]
fn parse_ready_fields(data: &[u8]) -> (r: Option<(Option<String>, Option<String>)>)
    ensures
        match r {
            None => json_ready_fields(data@) is None,
            Some((e, n)) => json_ready_fields(data@) == Some((text_opt(e), text_opt(n))),
        },
{
    let v: serde_json::Value = serde_json::from_slice(data).ok()?;
    let encoded = v["manifestB64"].as_str().map(str::to_owned);
    let build_name = v["build_name"].as_str().map(str::to_owned);
    Some((encoded, build_name))
}

/// The manifest text of what base64 decoding gave.
pub open spec fn decoded_text(decoded: Option<Seq<u8>>) -> Result<Seq<char>, MessageError> {
    match decoded {
        None => Err(MessageError::BadBase64),
        Some(b) => if valid_utf8(b) {
            Ok(decode_utf8(b))
        } else {
            Err(MessageError::NotUtf8)
        },
    }
}

pub open spec fn bytes_view(o: Option<Vec<u8>>) -> Option<Seq<u8>> {
    match o {
        Some(b) => Some(b@),
        None => None,
    }
}

/// The manifest text of what base64 decoding gave (see `decoded_text`).
pub fn text_of_decoded(decoded: Option<Vec<u8>>) -> (r: Result<String, MessageError>)
    ensures
        match r {
            Ok(t) => decoded_text(bytes_view(decoded)) == Ok::<Seq<char>, MessageError>(t@),
            Err(e) => decoded_text(bytes_view(decoded)) == Err::<Seq<char>, MessageError>(e),
        },
{
    match decoded {
        None => Err(MessageError::BadBase64),
        Some(b) => match utf8_text(b) {
            Some(t) => Ok(t),
            None => Err(MessageError::NotUtf8),
        },
    }
}

/// The manifest text of a base64 field.
pub fn manifest_text(encoded: &str) -> (r: Result<String, MessageError>)
    ensures
        match r {
            Ok(t) => decoded_text(base64_decoded(encoded@)) == Ok::<Seq<char>, MessageError>(t@),
            Err(e) => decoded_text(base64_decoded(encoded@)) == Err::<Seq<char>, MessageError>(e),
        },
{
    text_of_decoded(base64_decode(encoded))
}

/// A "manifest ready" message, as its manifest text and build name, from
/// its `manifestB64` and `build_name` fields: the manifest field is
/// required and must decode; the build name defaults to `UNKNOWN_BUILD`.
pub open spec fn ready_spec(manifest_b64: Option<Seq<char>>, build_name: Option<Seq<char>>) -> Result<
    (Seq<char>, Seq<char>),
    MessageError,
> {
    match manifest_b64 {
        None => Err(MessageError::MissingManifest),
        Some(enc) => match decoded_text(base64_decoded(enc)) {
            Ok(t) => Ok(
                (
                    t,
                    match build_name {
                        Some(n) => n,
                        None => UNKNOWN_BUILD@,
                    },
                ),
            ),
            Err(e) => Err(e),
        },
    }
}

pub open spec fn ready_view(r: Result<ReadyManifest, MessageError>) -> Result<(Seq<char>, Seq<char>), MessageError> {
    match r {
        Ok(m) => Ok((m.manifest@, m.build_name@)),
        Err(e) => Err(e),
    }
}

/// A "manifest ready" message from its fields (see `ready_spec`).
pub fn ready_from_fields(manifest_b64: Option<String>, build_name: Option<String>) -> (r: Result<
    ReadyManifest,
    MessageError,
>)
    ensures
        ready_view(r) == ready_spec(text_opt(manifest_b64), text_opt(build_name)),
{
    let encoded = match manifest_b64 {
        Some(e) => e,
        None => return Err(MessageError::MissingManifest),
    };
    let manifest = match manifest_text(encoded.as_str()) {
        Ok(t) => t,
        Err(e) => return Err(e),
    };
    let build_name = match build_name {
        Some(n) => n,
        None => UNKNOWN_BUILD.to_owned(),
    };
    Ok(ReadyManifest { build_name, manifest })
}

/// Reads a "manifest ready" message: `NotJson` where it is not JSON, else
/// the message of its fields (see `ready_spec`).
pub fn decode_ready_message(data: &[u8]) -> (r: Result<ReadyManifest, MessageError>)
    ensures
        ready_view(r) == match json_ready_fields(data@) {
            None => Err(MessageError::NotJson),
            Some((e, n)) => ready_spec(e, n),
        },
{
    match parse_ready_fields(data) {
        None => Err(MessageError::NotJson),
        Some((encoded, build_name)) => ready_from_fields(encoded, build_name),
    }
}

} // verus!
