//! Gateway, GatewayClass, and status types: construction and field
//! access, with the route spec the gateway serves round-tripped
//! through the codec.

use k8s_gateway_api::gateway::{
    AllowedRoutes, GatewaySpec, GatewayTlsConfig, Listener, RouteGroupKind,
};
use k8s_gateway_api::gatewayclass::{GatewayClassSpec, ParametersReference};
use k8s_gateway_api::httproute::{HttpBackendRef, HttpHeaderMatch, HttpRouteMatch, HttpRouteRule, HttpRouteSpec};
use k8s_gateway_api::object_reference::{BackendObjectReference, SecretObjectReference};
use k8s_gateway_api::shared::{BackendRef, CommonRouteSpec, Condition, RouteParentStatus, RouteStatus, ParentReference};
use k8s_gateway_api::wire::Codec;

fn s(x: &str) -> String {
    x.to_string()
}

fn mk_inner_ref(name: &str, namespace: Option<String>, port: Option<u16>) -> BackendObjectReference {
    BackendObjectReference {
        group: None, // core group inferred
        kind: None,  // defaults to Service when not specified
        name: name.to_string(),
        namespace, // defaults to local namespace when unspecified
        port,
    }
}

#[test]
fn gateway_spec_construction() {
    let gateway = GatewaySpec {
        gateway_class_name: s("acme-lb"),
        infrastructure: None,
        listeners: vec![Listener {
            protocol: s("HTTPS"),
            port: 443,
            allowed_routes: Some(AllowedRoutes {
                namespaces: None,
                kinds: Some(vec![RouteGroupKind {
                    group: Some(s("gateway.networking.k8s.io")),
                    kind: s("HTTPRoute"),
                }]),
            }),
            tls: Some(GatewayTlsConfig {
                certificate_refs: Some(vec![SecretObjectReference {
                    name: s("admin-controlled-cert"),
                    ..SecretObjectReference::default()
                }]),
                ..GatewayTlsConfig::default()
            }),
            name: s("https"),
            hostname: None,
        }],
        addresses: None,
    };
    assert_eq!(gateway.listeners.len(), 1);
    assert_eq!(gateway.listeners[0].port, 443);
    assert!(gateway.listeners[0].tls.is_some());
}

#[test]
fn httproute_spec_local_round_trip() {
    let spec = HttpRouteSpec {
        hostnames: Some(vec![s("bar.example.com")]),
        rules: Some(vec![
            HttpRouteRule {
                backend_refs: Some(vec![
                    HttpBackendRef {
                        backend_ref: Some(BackendRef {
                            inner: mk_inner_ref("bar-v1", None, Some(8080)),
                            weight: Some(90),
                        }),
                        filters: None,
                    },
                    HttpBackendRef {
                        backend_ref: Some(BackendRef {
                            inner: mk_inner_ref("bar-v2", None, Some(8080)),
                            weight: Some(10),
                        }),
                        filters: None,
                    },
                ]),
                filters: None,
                matches: None,
                timeouts: None,
            },
            HttpRouteRule {
                matches: Some(vec![HttpRouteMatch {
                    headers: Some(vec![HttpHeaderMatch::Exact {
                        name: s("env"),
                        value: s("canary"),
                    }]),
                    ..HttpRouteMatch::default()
                }]),
                backend_refs: Some(vec![HttpBackendRef {
                    backend_ref: Some(BackendRef {
                        inner: mk_inner_ref("bar-v2", None, Some(8080)),
                        weight: None,
                    }),
                    filters: None,
                }]),
                filters: None,
                timeouts: None,
            },
        ]),
        ..HttpRouteSpec::default()
    };
    assert_eq!(HttpRouteSpec::decode(&spec.encode()).unwrap(), spec);
}

#[test]
fn gateway_class_and_status_types() {
    let class = GatewayClassSpec {
        controller_name: s("example.net/gateway-controller"),
        paramters_ref: Some(ParametersReference {
            group: s(""),
            kind: s("ConfigMap"),
            name: s("acme-params"),
            namespace: Some(s("infra")),
        }),
        description: None,
    };
    assert_eq!(class.controller_name, s("example.net/gateway-controller"));

    let status = RouteStatus {
        parents: vec![RouteParentStatus {
            parent_ref: ParentReference {
                group: None,
                kind: None,
                namespace: None,
                name: s("prod-web"),
                section_name: None,
                port: None,
            },
            controller_name: s("example.net/gateway-controller"),
            conditions: vec![Condition {
                type_: s("Accepted"),
                status: s("True"),
                observed_generation: Some(1),
                last_transition_time: s("2024-01-01T00:00:00Z"),
                reason: s("Accepted"),
                message: s("attached"),
            }],
        }],
    };
    assert_eq!(status.parents[0].conditions[0].status, s("True"));

    let _common = CommonRouteSpec::default();
}
