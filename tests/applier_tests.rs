use base64::Engine;
use build_controller::applier::{
    decode_ready_message, manifest_text, ready_from_fields, text_of_decoded, ApplyBatch,
    DiscoverySnapshot, MessageError, Resolution, ResourceType,
};
use build_controller::manifest::{
    header_from_fields, parse_group_version, read_document, split_documents, trim_text,
    DocumentError,
};

fn rt(group: &str, version: &str, kind: &str, plural: &str, namespaced: bool) -> ResourceType {
    ResourceType {
        group: group.to_string(),
        version: version.to_string(),
        kind: kind.to_string(),
        plural: plural.to_string(),
        namespaced,
    }
}

fn snapshot() -> DiscoverySnapshot {
    DiscoverySnapshot {
        resources: vec![
            rt("", "v1", "Pod", "pods", true),
            rt("", "v1", "Namespace", "namespaces", false),
            rt("apps", "v1", "Deployment", "deployments", true),
        ],
    }
}

fn b64(s: &[u8]) -> String {
    base64::engine::general_purpose::STANDARD.encode(s)
}

const TWO_DOCS: &str = "apiVersion: apps/v1\nkind: Deployment\nmetadata:\n  name: web\n  namespace: prod\n---\napiVersion: v1\nkind: Pod\nmetadata:\n  name: p\n";

#[test]
fn group_version_split() {
    let (g, v) = parse_group_version("apps/v1");
    assert_eq!((g.as_str(), v.as_str()), ("apps", "v1"));
    let (g, v) = parse_group_version("v1");
    assert_eq!((g.as_str(), v.as_str()), ("", "v1"));
    let (g, v) = parse_group_version("a/b/c");
    assert_eq!((g.as_str(), v.as_str()), ("a", "b/c"));
}

#[test]
fn discovery_resolves_core_and_named_groups() {
    let snap = snapshot();
    let (g, _) = parse_group_version("apps/v1");
    let d = snap.resolve(&g, &"Deployment".to_string()).unwrap();
    assert_eq!(d.plural, "deployments");
    assert_eq!(d.group, "apps");
    let (g, _) = parse_group_version("v1");
    let p = snap.resolve(&g, &"Pod".to_string()).unwrap();
    assert_eq!(p.plural, "pods");
    assert_eq!(p.group, "");
    assert!(p.namespaced);
    assert!(snap.resolve(&"apps".to_string(), &"Pod".to_string()).is_none());
}

#[test]
fn split_documents_trims_and_drops_empty() {
    let docs = split_documents("---\n a: 1 \n---\n\n---b: 2");
    assert_eq!(docs, vec!["a: 1".to_string(), "b: 2".to_string()]);
    assert!(split_documents("").is_empty());
    assert!(split_documents(" \n---\n ").is_empty());
    assert_eq!(split_documents("x"), vec!["x".to_string()]);
    assert_eq!(split_documents("a----b"), vec!["a".to_string(), "-b".to_string()]);
    assert_eq!(split_documents(TWO_DOCS).len(), 2);
}

#[test]
fn trim_text_strips_white_space() {
    assert_eq!(trim_text("  abc\n"), "abc");
    assert_eq!(trim_text("\t\n"), "");
    assert_eq!(trim_text("\u{a0}x y\u{3000}\u{2028}"), "x y");
    assert_eq!(split_documents("\u{85}\n---\u{2003}"), Vec::<String>::new());
}

#[test]
fn read_document_needs_text_fields() {
    assert!(matches!(read_document("apiVersion: v1\nkind: 5\nmetadata:\n  name: p"), Err(DocumentError::MissingKind)));
    let d = read_document("apiVersion: v1\nkind: Pod\nmetadata:\n  name: p\n  namespace: 7").unwrap();
    assert_eq!(d.header.namespace, "default");
}

#[test]
fn header_fields_and_defaults() {
    let h = header_from_fields(
        Some("apps/v1".to_string()),
        Some("Deployment".to_string()),
        Some("web".to_string()),
        None,
    )
    .unwrap();
    assert_eq!(h.group, "apps");
    assert_eq!(h.version, "v1");
    assert_eq!(h.namespace, "default");
    let e = header_from_fields(None, Some("K".to_string()), Some("n".to_string()), None);
    assert!(matches!(e, Err(DocumentError::MissingApiVersion)));
    let e = header_from_fields(Some("v1".to_string()), None, Some("n".to_string()), None);
    assert!(matches!(e, Err(DocumentError::MissingKind)));
    let e = header_from_fields(Some("v1".to_string()), Some("K".to_string()), None, None);
    assert!(matches!(e, Err(DocumentError::MissingName)));
}

#[test]
fn read_document_parses_yaml() {
    let docs = split_documents(TWO_DOCS);
    let d = read_document(&docs[0]).unwrap();
    assert_eq!(d.header.api_version, "apps/v1");
    assert_eq!(d.header.group, "apps");
    assert_eq!(d.header.kind, "Deployment");
    assert_eq!(d.header.name, "web");
    assert_eq!(d.header.namespace, "prod");
    assert_eq!(d.body["kind"], "Deployment");
    let d = read_document(&docs[1]).unwrap();
    assert_eq!(d.header.group, "");
    assert_eq!(d.header.namespace, "default");
    assert!(matches!(read_document("kind: Pod\nmetadata:\n  name: p"), Err(DocumentError::MissingApiVersion)));
    assert!(matches!(read_document("apiVersion: v1\nkind: Pod\n"), Err(DocumentError::MissingName)));
    assert!(matches!(read_document("a: [1, 2"), Err(DocumentError::NotStructured)));
}

#[test]
fn resolution_asks_for_rediscovery_once() {
    let snap = snapshot();
    let doc = read_document("apiVersion: example.com/v1\nkind: Widget\nmetadata:\n  name: w").unwrap();
    assert!(matches!(snap.resolve_document(&doc.header, false), Resolution::Rediscover));
    assert!(matches!(snap.resolve_document(&doc.header, true), Resolution::Unresolved));
    let doc = read_document("apiVersion: v1\nkind: Pod\nmetadata:\n  name: p").unwrap();
    assert!(matches!(snap.resolve_document(&doc.header, false), Resolution::Resolved(t) if t.plural == "pods"));
}

#[test]
fn batch_reports_deployed_when_all_apply() {
    let batch = ApplyBatch::new("demo".to_string());
    let ev = batch.status_message("ts".to_string());
    assert_eq!(ev.build_name, "demo");
    assert_eq!(ev.status, "Deployed");
    assert_eq!(ev.message, "Deployment completed");
    assert_eq!(ev.timestamp, "ts");
}

#[test]
fn scenario_failed_discovery_names_kind_and_continues() {
    let manifest = "apiVersion: example.com/v1\nkind: Widget\nmetadata:\n  name: w\n---\napiVersion: apps/v1\nkind: Deployment\nmetadata:\n  name: web\n";
    let snap = snapshot();
    let mut batch = ApplyBatch::new("demo".to_string());
    let mut applied = Vec::new();
    for doc in split_documents(manifest) {
        let d = read_document(&doc).unwrap();
        match snap.resolve_document(&d.header, true) {
            Resolution::Resolved(t) => applied.push(t.plural),
            Resolution::Rediscover | Resolution::Unresolved => batch.record_unresolved(&d.header),
        }
    }
    assert_eq!(applied, vec!["deployments".to_string()]);
    let ev = batch.status_message("ts".to_string());
    assert_eq!(ev.status, "Failed");
    assert!(ev.message.contains("Widget"));
    assert_eq!(ev.message, "could not resolve kind Widget in group 'example.com'");
}

#[test]
fn batch_keeps_first_failure() {
    let mut batch = ApplyBatch::new("demo".to_string());
    batch.record_invalid(DocumentError::MissingKind);
    let h = header_from_fields(Some("v1".to_string()), Some("Pod".to_string()), Some("p".to_string()), None).unwrap();
    batch.record_apply_error(&h);
    let ev = batch.status_message("ts".to_string());
    assert_eq!(ev.status, "Failed");
    assert_eq!(ev.message, "invalid manifest document: missing kind");
    let mut other = ApplyBatch::new("demo".to_string());
    other.record_apply_error(&h);
    assert_eq!(other.status_message("ts".to_string()).message, "failed to apply Pod p");
}

#[test]
fn ready_message_decodes() {
    let body = format!("{{\"manifestB64\": \"{}\", \"build_name\": \"demo\", \"timestamp\": \"t\"}}", b64(TWO_DOCS.as_bytes()));
    let m = decode_ready_message(body.as_bytes()).unwrap();
    assert_eq!(m.build_name, "demo");
    assert_eq!(m.manifest, TWO_DOCS);
    let body = format!("{{\"manifestB64\": \"{}\"}}", b64(b"a: 1"));
    let m = decode_ready_message(body.as_bytes()).unwrap();
    assert_eq!(m.build_name, "unknown-build");
    assert_eq!(m.manifest, "a: 1");
}

#[test]
fn ready_message_errors() {
    assert!(matches!(decode_ready_message(b"not json"), Err(MessageError::NotJson)));
    assert!(matches!(decode_ready_message(b"{\"build_name\": \"x\"}"), Err(MessageError::MissingManifest)));
    assert!(matches!(decode_ready_message(b"{\"manifestB64\": 5}"), Err(MessageError::MissingManifest)));
    assert!(matches!(decode_ready_message(b"{\"manifestB64\": \"%%%\"}"), Err(MessageError::BadBase64)));
    let body = format!("{{\"manifestB64\": \"{}\"}}", b64(&[0xff, 0xfe]));
    assert!(matches!(decode_ready_message(body.as_bytes()), Err(MessageError::NotUtf8)));
}

#[test]
fn manifest_text_decodes_base64() {
    assert_eq!(manifest_text("aGVsbG8=").unwrap(), "hello");
    assert!(matches!(manifest_text("aGVsbG8"), Err(MessageError::BadBase64)));
    assert_eq!(text_of_decoded(Some(b"abc".to_vec())).unwrap(), "abc");
    assert!(matches!(text_of_decoded(None), Err(MessageError::BadBase64)));
    assert!(matches!(text_of_decoded(Some(vec![0xc3])), Err(MessageError::NotUtf8)));
    assert!(matches!(ready_from_fields(None, None), Err(MessageError::MissingManifest)));
    let m = ready_from_fields(Some("eA==".to_string()), Some("b".to_string())).unwrap();
    assert_eq!((m.manifest.as_str(), m.build_name.as_str()), ("x", "b"));
}
