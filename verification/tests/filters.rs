//! The remaining HTTP filter variants: modifiers, mirror, and
//! extension references, through decode and encode.

use k8s_gateway_api::httproute::{
    HttpHeader, HttpRequestHeaderFilter, HttpRequestMirrorFilter, HttpRouteFilter,
};
use k8s_gateway_api::object_reference::{BackendObjectReference, LocalObjectReference};
use k8s_gateway_api::wire::{Codec, DecodeError, Json};

fn s(x: &str) -> String {
    x.to_string()
}

fn obj(pairs: Vec<(&str, Json)>) -> Json {
    Json::Obj(pairs.into_iter().map(|(k, v)| (k.to_string(), v)).collect())
}

#[test]
fn request_header_modifier_round_trip() {
    let f = HttpRouteFilter::RequestHeaderModifier {
        request_header_modifier: HttpRequestHeaderFilter {
            set: Some(vec![HttpHeader { name: s("my-header"), value: s("bar") }]),
            add: Some(vec![HttpHeader { name: s("my-header"), value: s("extra") }]),
            remove: Some(vec![s("my-header1")]),
        },
    };
    assert_eq!(HttpRouteFilter::decode(&f.encode()).unwrap(), f);
}

#[test]
fn response_header_modifier_round_trip() {
    let f = HttpRouteFilter::ResponseHeaderModifier {
        response_header_modifier: HttpRequestHeaderFilter {
            set: None,
            add: None,
            remove: Some(vec![s("server")]),
        },
    };
    assert_eq!(HttpRouteFilter::decode(&f.encode()).unwrap(), f);
}

#[test]
fn request_mirror_round_trip() {
    let f = HttpRouteFilter::RequestMirror {
        request_mirror: HttpRequestMirrorFilter {
            backend_ref: BackendObjectReference {
                group: None,
                kind: None,
                name: s("shadow"),
                namespace: Some(s("audit")),
                port: Some(8443),
            },
        },
    };
    assert_eq!(HttpRouteFilter::decode(&f.encode()).unwrap(), f);
}

#[test]
fn extension_ref_round_trip() {
    let f = HttpRouteFilter::ExtensionRef {
        extension_ref: LocalObjectReference {
            group: s("networking.example.net"),
            kind: s("myroutefilter"),
            name: s("rate-limit"),
        },
    };
    assert_eq!(HttpRouteFilter::decode(&f.encode()).unwrap(), f);
}

#[test]
fn filter_requires_its_variants_configuration() {
    let doc = obj(vec![("type", Json::Str(s("RequestMirror")))]);
    assert_eq!(
        HttpRouteFilter::decode(&doc).unwrap_err(),
        DecodeError::MissingField(s("requestMirror"))
    );
}

#[test]
fn filter_ignores_other_variants_configuration() {
    // A field belonging to a different variant may be present; it is
    // ignored, not required to be absent.
    let doc = obj(vec![
        ("type", Json::Str(s("ExtensionRef"))),
        (
            "extensionRef",
            obj(vec![
                ("group", Json::Str(s("g"))),
                ("kind", Json::Str(s("k"))),
                ("name", Json::Str(s("n"))),
            ]),
        ),
        ("requestMirror", Json::Null),
    ]);
    assert!(HttpRouteFilter::decode(&doc).is_ok());
}

#[test]
fn filter_unknown_discriminant_lists_all_variants() {
    let doc = obj(vec![("type", Json::Str(s("Retry")))]);
    assert_eq!(
        HttpRouteFilter::decode(&doc).unwrap_err(),
        DecodeError::InvalidDiscriminant(
            s("Retry"),
            vec![
                s("RequestHeaderModifier"),
                s("ResponseHeaderModifier"),
                s("RequestMirror"),
                s("RequestRedirect"),
                s("URLRewrite"),
                s("ExtensionRef"),
            ]
        )
    );
}
