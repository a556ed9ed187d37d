//! Object references and backend references: defaulting, flattening,
//! and round trips.

use k8s_gateway_api::object_reference::{
    BackendObjectReference, LocalObjectReference, SecretObjectReference,
};
use k8s_gateway_api::shared::{BackendRef, ParentReference};
use k8s_gateway_api::wire::{Codec, DecodeError, Json};

fn s(x: &str) -> String {
    x.to_string()
}

fn obj(pairs: Vec<(&str, Json)>) -> Json {
    Json::Obj(pairs.into_iter().map(|(k, v)| (k.to_string(), v)).collect())
}

#[test]
fn backend_reference_kind_defaults_to_service() {
    let bare = BackendObjectReference::decode(&obj(vec![("name", Json::Str(s("web")))])).unwrap();
    assert_eq!(bare.kind, None);
    assert_eq!(bare.effective_kind(), s("Service"));
    let explicit = BackendObjectReference::decode(&obj(vec![
        ("name", Json::Str(s("web"))),
        ("kind", Json::Str(s("Service"))),
    ]))
    .unwrap();
    // Semantically equivalent for selection: same effective kind, and
    // the same identity otherwise.
    assert_eq!(bare.effective_kind(), explicit.effective_kind());
    assert_eq!(bare.group, explicit.group);
    assert_eq!(bare.name, explicit.name);
    assert_eq!(bare.namespace, explicit.namespace);
    assert_eq!(bare.port, explicit.port);
}

#[test]
fn backend_reference_round_trip() {
    let b = BackendObjectReference {
        group: None,
        kind: None,
        name: s("bar-v1"),
        namespace: Some(s("prod")),
        port: Some(8080),
    };
    assert_eq!(BackendObjectReference::decode(&b.encode()).unwrap(), b);
}

#[test]
fn backend_reference_port_range_is_checked() {
    let doc = obj(vec![("name", Json::Str(s("web"))), ("port", Json::Int(70000))]);
    assert_eq!(BackendObjectReference::decode(&doc).unwrap_err(), DecodeError::WrongType(s("port")));
}

#[test]
fn backend_reference_requires_name() {
    let doc = obj(vec![("kind", Json::Str(s("Service")))]);
    assert_eq!(BackendObjectReference::decode(&doc).unwrap_err(), DecodeError::MissingField(s("name")));
}

#[test]
fn weighted_backend_reads_reference_fields_flat() {
    let doc = obj(vec![
        ("weight", Json::Int(90)),
        ("name", Json::Str(s("bar-v1"))),
        ("port", Json::Int(8080)),
    ]);
    let b = BackendRef::decode(&doc).unwrap();
    assert_eq!(b.weight, Some(90));
    assert_eq!(b.inner.name, s("bar-v1"));
    assert_eq!(b.inner.port, Some(8080));
    assert_eq!(BackendRef::decode(&b.encode()).unwrap(), b);
}

#[test]
fn local_reference_requires_all_fields() {
    let doc = obj(vec![("group", Json::Str(s(""))), ("kind", Json::Str(s("HTTPRoute")))]);
    assert_eq!(LocalObjectReference::decode(&doc).unwrap_err(), DecodeError::MissingField(s("name")));
    let full = LocalObjectReference { group: s(""), kind: s("HTTPRoute"), name: s("r") };
    assert_eq!(LocalObjectReference::decode(&full.encode()).unwrap(), full);
}

#[test]
fn secret_reference_round_trip() {
    let r = SecretObjectReference {
        group: None,
        kind: None,
        name: s("admin-controlled-cert"),
        namespace: Some(s("certs")),
    };
    assert_eq!(SecretObjectReference::decode(&r.encode()).unwrap(), r);
}

#[test]
fn parent_reference_round_trip_and_defaults() {
    let p = ParentReference {
        group: None,
        kind: None,
        namespace: None,
        name: s("my-gateway"),
        section_name: Some(s("https")),
        port: None,
    };
    assert_eq!(ParentReference::decode(&p.encode()).unwrap(), p);
    let decoded = ParentReference::decode(&obj(vec![("name", Json::Str(s("gw")))])).unwrap();
    assert_eq!(decoded.group, None);
    assert_eq!(decoded.section_name, None);
}

#[test]
fn encode_omits_absent_optional_fields() {
    let b = BackendObjectReference {
        group: None,
        kind: None,
        name: s("web"),
        namespace: None,
        port: None,
    };
    // Only the present field appears in the document; nothing is
    // emitted as null.
    assert_eq!(b.encode(), obj(vec![("name", Json::Str(s("web")))]));
}
