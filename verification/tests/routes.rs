//! Route specs and rules: the GRPC rule scenario, filters, and route
//! spec round trips.

use k8s_gateway_api::exp::grpcroute::{
    GrpcMethodMatch, GrpcRouteBackendRef, GrpcRouteFilter, GrpcRouteMatch, GrpcRouteRule,
    GrpcRouteSpec,
};
use k8s_gateway_api::exp::tcproute::{TcpRouteRule, TcpRouteSpec};
use k8s_gateway_api::exp::tlsroute::TlsRouteSpec;
use k8s_gateway_api::httproute::{
    HttpBackendRef, HttpHeader, HttpPathModifier, HttpRequestHeaderFilter,
    HttpRequestRedirectFilter, HttpRouteFilter, HttpRouteRule, HttpRouteSpec, HttpRouteTimeouts,
    HttpUrlRewriteFilter,
};
use k8s_gateway_api::object_reference::BackendObjectReference;
use k8s_gateway_api::referencegrant::{ReferenceGrantFrom, ReferenceGrantSpec};
use k8s_gateway_api::shared::{BackendRef, CommonRouteSpec, ParentReference};
use k8s_gateway_api::wire::{Codec, Json};

fn s(x: &str) -> String {
    x.to_string()
}

fn obj(pairs: Vec<(&str, Json)>) -> Json {
    Json::Obj(pairs.into_iter().map(|(k, v)| (k.to_string(), v)).collect())
}

fn backend(name: &str, port: i64, weight: Option<i64>) -> Json {
    let mut pairs = vec![("name", Json::Str(s(name))), ("port", Json::Int(port))];
    if let Some(w) = weight {
        pairs.push(("weight", Json::Int(w)));
    }
    obj(pairs)
}

#[test]
fn grpc_rule_preserves_weighted_backends_in_order() {
    let doc = obj(vec![(
        "backendRefs",
        Json::Arr(vec![
            backend("bar-v1", 8080, Some(90)),
            backend("bar-v2", 8080, Some(10)),
        ]),
    )]);
    let rule = GrpcRouteRule::decode(&doc).unwrap();
    let backends = rule.backend_refs.as_ref().unwrap();
    assert_eq!(backends.len(), 2);
    assert_eq!(backends[0].inner.name, s("bar-v1"));
    assert_eq!(backends[0].inner.port, Some(8080));
    assert_eq!(backends[0].weight, Some(90));
    assert_eq!(backends[1].inner.name, s("bar-v2"));
    assert_eq!(backends[1].inner.port, Some(8080));
    assert_eq!(backends[1].weight, Some(10));
    // Order survives the round trip too.
    assert_eq!(GrpcRouteRule::decode(&rule.encode()).unwrap(), rule);
}

#[test]
fn grpc_route_spec_round_trip() {
    let spec = GrpcRouteSpec {
        inner: CommonRouteSpec {
            parent_refs: Some(vec![ParentReference {
                group: None,
                kind: None,
                namespace: None,
                name: s("my-gateway"),
                section_name: None,
                port: None,
            }]),
        },
        hostnames: Some(vec![s("example.com")]),
        rules: Some(vec![GrpcRouteRule {
            filters: None,
            matches: Some(vec![GrpcRouteMatch {
                method: Some(GrpcMethodMatch::Exact {
                    method: Some(s("Login")),
                    service: Some(s("com.example.User")),
                }),
                headers: None,
            }]),
            backend_refs: Some(vec![GrpcRouteBackendRef {
                inner: BackendObjectReference {
                    group: None,
                    kind: None,
                    name: s("my-service1"),
                    namespace: None,
                    port: Some(50051),
                },
                filters: None,
                weight: None,
            }]),
        }]),
    };
    assert_eq!(GrpcRouteSpec::decode(&spec.encode()).unwrap(), spec);
}

#[test]
fn grpc_filter_round_trip() {
    let f = GrpcRouteFilter::RequestHeaderModifier {
        request_header_modifier: HttpRequestHeaderFilter {
            set: Some(vec![HttpHeader { name: s("my-header"), value: s("bar") }]),
            add: None,
            remove: Some(vec![s("my-header1"), s("my-header3")]),
        },
    };
    assert_eq!(GrpcRouteFilter::decode(&f.encode()).unwrap(), f);
}

#[test]
fn http_rule_with_redirect_and_timeouts_round_trip() {
    let rule = HttpRouteRule {
        matches: None,
        filters: Some(vec![HttpRouteFilter::RequestRedirect {
            request_redirect: HttpRequestRedirectFilter {
                scheme: Some(s("https")),
                hostname: None,
                path: Some(HttpPathModifier::ReplaceFullPath { replace_full_path: s("/new") }),
                port: Some(443),
                status_code: Some(301),
            },
        }]),
        backend_refs: Some(vec![HttpBackendRef {
            backend_ref: Some(BackendRef {
                weight: None,
                inner: BackendObjectReference {
                    group: None,
                    kind: None,
                    name: s("web"),
                    namespace: None,
                    port: Some(80),
                },
            }),
            filters: None,
        }]),
        timeouts: Some(HttpRouteTimeouts {
            request: Some(s("10s")),
            backend_request: Some(s("2s")),
        }),
    };
    assert_eq!(HttpRouteRule::decode(&rule.encode()).unwrap(), rule);
}

#[test]
fn url_rewrite_filter_exact_wire_form() {
    let f = HttpRouteFilter::URLRewrite {
        url_rewrite: HttpUrlRewriteFilter {
            hostname: None,
            path: Some(HttpPathModifier::ReplacePrefixMatch { replace_prefix_match: s("/") }),
        },
    };
    let expected = obj(vec![
        ("type", Json::Str(s("URLRewrite"))),
        (
            "urlRewrite",
            obj(vec![(
                "path",
                obj(vec![
                    ("type", Json::Str(s("ReplacePrefixMatch"))),
                    ("replacePrefixMatch", Json::Str(s("/"))),
                ]),
            )]),
        ),
    ]);
    assert_eq!(f.encode(), expected);
    assert_eq!(HttpRouteFilter::decode(&expected).unwrap(), f);
}

#[test]
fn http_backend_ref_without_name_has_no_backend() {
    let doc = obj(vec![("filters", Json::Arr(vec![]))]);
    let b = HttpBackendRef::decode(&doc).unwrap();
    assert_eq!(b.backend_ref, None);
    assert_eq!(b.filters, Some(vec![]));
}

#[test]
fn http_route_spec_round_trip() {
    let spec = HttpRouteSpec {
        inner: CommonRouteSpec { parent_refs: None },
        hostnames: Some(vec![s("bar.example.com")]),
        rules: Some(vec![HttpRouteRule {
            matches: None,
            filters: None,
            backend_refs: Some(vec![
                HttpBackendRef {
                    backend_ref: Some(BackendRef {
                        weight: Some(90),
                        inner: BackendObjectReference {
                            group: None,
                            kind: None,
                            name: s("bar-v1"),
                            namespace: None,
                            port: Some(8080),
                        },
                    }),
                    filters: None,
                },
                HttpBackendRef {
                    backend_ref: Some(BackendRef {
                        weight: Some(10),
                        inner: BackendObjectReference {
                            group: None,
                            kind: None,
                            name: s("bar-v2"),
                            namespace: None,
                            port: Some(8080),
                        },
                    }),
                    filters: None,
                },
            ]),
            timeouts: None,
        }]),
    };
    assert_eq!(HttpRouteSpec::decode(&spec.encode()).unwrap(), spec);
}

#[test]
fn tcp_and_tls_route_specs_round_trip() {
    let backend = BackendRef {
        weight: None,
        inner: BackendObjectReference {
            group: None,
            kind: None,
            name: s("db"),
            namespace: None,
            port: Some(5432),
        },
    };
    let tcp = TcpRouteSpec {
        inner: CommonRouteSpec { parent_refs: None },
        rules: vec![TcpRouteRule { backend_refs: vec![backend.clone()] }],
    };
    assert_eq!(TcpRouteSpec::decode(&tcp.encode()).unwrap(), tcp);
    let tls = TlsRouteSpec {
        inner: CommonRouteSpec { parent_refs: None },
        hostnames: Some(vec![s("db.example.com")]),
        rules: vec![k8s_gateway_api::exp::tlsroute::TlsRouteRule {
            backend_refs: vec![backend],
        }],
    };
    assert_eq!(TlsRouteSpec::decode(&tls.encode()).unwrap(), tls);
}

#[test]
fn reference_grant_spec_round_trip() {
    let g = ReferenceGrantSpec {
        from: vec![ReferenceGrantFrom {
            group: s("gateway.networking.k8s.io"),
            kind: s("HTTPRoute"),
            namespace: s("prod"),
        }],
        to: vec![ReferenceGrantFrom {
            group: s(""),
            kind: s("Service"),
            namespace: s("backend"),
        }],
    };
    assert_eq!(ReferenceGrantSpec::decode(&g.encode()).unwrap(), g);
}

#[test]
fn grpc_conversions_preserve_structure() {
    let filter = GrpcRouteFilter::RequestMirror {
        request_mirror: k8s_gateway_api::httproute::HttpRequestMirrorFilter {
            backend_ref: BackendObjectReference {
                group: None,
                kind: None,
                name: s("mirror"),
                namespace: None,
                port: Some(9000),
            },
        },
    };
    let http: HttpRouteFilter = filter.into();
    assert!(matches!(http, HttpRouteFilter::RequestMirror { .. }));

    let backend = GrpcRouteBackendRef {
        inner: BackendObjectReference {
            group: None,
            kind: None,
            name: s("my-service1"),
            namespace: None,
            port: Some(50051),
        },
        filters: Some(vec![GrpcRouteFilter::ExtensionRef {
            extension_ref: k8s_gateway_api::object_reference::LocalObjectReference {
                group: s("networking.example.net"),
                kind: s("myroutefilter"),
                name: s("f"),
            },
        }]),
        weight: Some(7),
    };
    let http: HttpBackendRef = backend.into();
    let inner = http.backend_ref.unwrap();
    assert_eq!(inner.weight, Some(7));
    assert_eq!(inner.inner.name, s("my-service1"));
    assert_eq!(inner.inner.port, Some(50051));
    let fs = http.filters.unwrap();
    assert_eq!(fs.len(), 1);
    assert!(matches!(fs[0], HttpRouteFilter::ExtensionRef { .. }));
}
