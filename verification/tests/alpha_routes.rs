//! The v1alpha2 schema tree through its codecs: the earlier matcher
//! shapes and route kinds.

use k8s_gateway_api::shared::{BackendRef, CommonRouteSpec, ParentReference};
use k8s_gateway_api::v1alpha2::httproute::{
    HttpBackendRef, HttpPathMatch, HttpRouteFilter, HttpRouteMatch, HttpRouteRule, HttpRouteSpec,
    HttpUrlRewriteFilter, HttpPathModifier,
};
use k8s_gateway_api::v1alpha2::object_reference::BackendObjectReference;
use k8s_gateway_api::v1alpha2::referencepolicy::{ReferencePolicy, ReferencePolicyFrom};
use k8s_gateway_api::v1alpha2::policy::PolicyTargetReference;
use k8s_gateway_api::v1alpha2::udproute::{UdpRouteRule, UdpRouteSpec};
use k8s_gateway_api::wire::{Codec, DecodeError, Json};

fn s(x: &str) -> String {
    x.to_string()
}

fn obj(pairs: Vec<(&str, Json)>) -> Json {
    Json::Obj(pairs.into_iter().map(|(k, v)| (k.to_string(), v)).collect())
}

#[test]
fn alpha_path_match_keeps_type_as_text() {
    // In this tree the discriminant is a plain optional string, not a
    // tagged union.
    let doc = obj(vec![("type", Json::Str(s("Prefix"))), ("value", Json::Str(s("/v1")))]);
    let m = HttpPathMatch::decode(&doc).unwrap();
    assert_eq!(m, HttpPathMatch { type_: Some(s("Prefix")), value: Some(s("/v1")) });
    assert_eq!(m.encode(), doc);
}

#[test]
fn alpha_route_spec_round_trip() {
    let spec = HttpRouteSpec {
        inner: CommonRouteSpec {
            parent_refs: Some(vec![ParentReference {
                group: None,
                kind: None,
                namespace: None,
                name: s("my-gateway"),
                section_name: None,
                port: None,
            }]),
        },
        hostnames: Some(vec![s("example.com")]),
        rules: Some(vec![HttpRouteRule {
            matches: Some(HttpRouteMatch {
                path: Some(HttpPathMatch { type_: None, value: Some(s("/")) }),
                headers: None,
                query_params: None,
                method: None,
            }),
            filters: Some(vec![HttpRouteFilter {
                type_: s("URLRewrite"),
                request_header_modifier: None,
                request_mirror: None,
                request_redirect: None,
                url_rewrite: Some(HttpUrlRewriteFilter {
                    hostname: None,
                    path: Some(HttpPathModifier {
                        type_: s("ReplacePrefixMatch"),
                        replace_full_path: None,
                        replace_prefix_match: Some(s("/")),
                    }),
                }),
                extension_ref: None,
            }]),
            backend_refs: Some(vec![HttpBackendRef {
                backend_ref: BackendObjectReference {
                    group: None,
                    kind: None,
                    name: s("web"),
                    namespace: None,
                    port: Some(80),
                },
                filters: None,
            }]),
        }]),
    };
    assert_eq!(HttpRouteSpec::decode(&spec.encode()).unwrap(), spec);
}

fn shared_backend(name: &str, port: u16) -> BackendRef {
    BackendRef {
        weight: None,
        inner: k8s_gateway_api::object_reference::BackendObjectReference {
            group: None,
            kind: None,
            name: name.to_string(),
            namespace: None,
            port: Some(port),
        },
    }
}

#[test]
fn alpha_udp_route_round_trip_and_requirements() {
    let spec = UdpRouteSpec {
        inner: CommonRouteSpec { parent_refs: None },
        rules: vec![UdpRouteRule {
            backend_refs: vec![shared_backend("dns", 53)],
        }],
    };
    assert_eq!(UdpRouteSpec::decode(&spec.encode()).unwrap(), spec);
    let doc = obj(vec![]);
    assert_eq!(UdpRouteSpec::decode(&doc).unwrap_err(), DecodeError::MissingField(s("rules")));
}

#[test]
fn alpha_reference_policy_round_trip() {
    let p = ReferencePolicy {
        from: vec![ReferencePolicyFrom {
            group: s("gateway.networking.k8s.io"),
            kind: s("HTTPRoute"),
            namespace: s("prod"),
        }],
        to: vec![ReferencePolicyFrom {
            group: s(""),
            kind: s("Service"),
            namespace: s("backend"),
        }],
    };
    assert_eq!(ReferencePolicy::decode(&p.encode()).unwrap(), p);
}

#[test]
fn alpha_policy_target_round_trip() {
    let t = PolicyTargetReference {
        group: s("gateway.networking.k8s.io"),
        kind: s("HTTPRoute"),
        name: s("bar-route"),
        namespace: None,
    };
    assert_eq!(PolicyTargetReference::decode(&t.encode()).unwrap(), t);
}
