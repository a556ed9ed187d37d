//! Gateway, GatewayClass, selector, and status documents through the
//! codec: round trips, required fields, and map handling.

use k8s_gateway_api::gateway::{
    AllowedRoutes, GatewayAddress, GatewayInfrastructure, GatewaySpec, GatewayStatus,
    GatewayTlsConfig, Listener, ListenerStatus, RouteGroupKind, RouteNamespaces,
};
use k8s_gateway_api::gatewayclass::{GatewayClassSpec, GatewayClassStatus, ParametersReference};
use k8s_gateway_api::httproute::HttpRouteStatus;
use k8s_gateway_api::object_reference::SecretObjectReference;
use k8s_gateway_api::shared::{
    Condition, LabelSelector, LabelSelectorRequirement, ParentReference, RouteParentStatus,
    RouteStatus,
};
use k8s_gateway_api::wire::{Codec, DecodeError, Json};

fn s(x: &str) -> String {
    x.to_string()
}

fn obj(pairs: Vec<(&str, Json)>) -> Json {
    Json::Obj(pairs.into_iter().map(|(k, v)| (k.to_string(), v)).collect())
}

fn sample_condition() -> Condition {
    Condition {
        type_: s("Accepted"),
        status: s("True"),
        observed_generation: Some(3),
        last_transition_time: s("2024-01-01T00:00:00Z"),
        reason: s("Accepted"),
        message: s("attached"),
    }
}

#[test]
fn gateway_spec_round_trip() {
    let gateway = GatewaySpec {
        gateway_class_name: s("acme-lb"),
        infrastructure: Some(GatewayInfrastructure {
            labels: Some(vec![(s("team"), s("edge"))]),
            annotations: None,
        }),
        listeners: vec![Listener {
            protocol: s("HTTPS"),
            port: 443,
            allowed_routes: Some(AllowedRoutes {
                namespaces: Some(RouteNamespaces {
                    from: Some(s("Selector")),
                    selector: Some(LabelSelector {
                        match_expressions: Some(vec![LabelSelectorRequirement {
                            key: s("env"),
                            operator: s("In"),
                            values: Some(vec![s("prod")]),
                        }]),
                        match_labels: Some(vec![(s("shared-gateway-access"), s("true"))]),
                    }),
                }),
                kinds: Some(vec![RouteGroupKind {
                    group: Some(s("gateway.networking.k8s.io")),
                    kind: s("HTTPRoute"),
                }]),
            }),
            tls: Some(GatewayTlsConfig {
                mode: Some(s("Terminate")),
                certificate_refs: Some(vec![SecretObjectReference {
                    group: None,
                    kind: None,
                    name: s("admin-controlled-cert"),
                    namespace: None,
                }]),
                options: Some(vec![(s("example.com/min-tls"), s("1.3"))]),
            }),
            name: s("https"),
            hostname: None,
        }],
        addresses: Some(vec![GatewayAddress { type_: Some(s("IPAddress")), value: s("1.2.3.4") }]),
    };
    assert_eq!(GatewaySpec::decode(&gateway.encode()).unwrap(), gateway);
}

#[test]
fn gateway_spec_requires_class_name_and_listeners() {
    let doc = obj(vec![("listeners", Json::Arr(vec![]))]);
    assert_eq!(
        GatewaySpec::decode(&doc).unwrap_err(),
        DecodeError::MissingField(s("gatewayClassName"))
    );
    let doc = obj(vec![("gatewayClassName", Json::Str(s("acme-lb")))]);
    assert_eq!(GatewaySpec::decode(&doc).unwrap_err(), DecodeError::MissingField(s("listeners")));
}

#[test]
fn listener_requires_port_in_range() {
    let doc = obj(vec![
        ("name", Json::Str(s("https"))),
        ("port", Json::Int(123456)),
        ("protocol", Json::Str(s("HTTPS"))),
    ]);
    assert_eq!(Listener::decode(&doc).unwrap_err(), DecodeError::WrongType(s("port")));
}

#[test]
fn tls_options_map_rejects_repeated_keys() {
    let doc = obj(vec![(
        "options",
        obj(vec![
            ("example.com/opt", Json::Str(s("a"))),
            ("example.com/opt", Json::Str(s("b"))),
        ]),
    )]);
    assert_eq!(
        GatewayTlsConfig::decode(&doc).unwrap_err(),
        DecodeError::DuplicateField(s("example.com/opt"))
    );
}

#[test]
fn tls_options_map_keeps_document_order() {
    let doc = obj(vec![(
        "options",
        obj(vec![
            ("z-last", Json::Str(s("1"))),
            ("a-first", Json::Str(s("2"))),
        ]),
    )]);
    let t = GatewayTlsConfig::decode(&doc).unwrap();
    assert_eq!(
        t.options,
        Some(vec![(s("z-last"), s("1")), (s("a-first"), s("2"))])
    );
}

#[test]
fn gateway_class_spec_round_trip() {
    let spec = GatewayClassSpec {
        controller_name: s("example.net/gateway-controller"),
        paramters_ref: Some(ParametersReference {
            group: s(""),
            kind: s("ConfigMap"),
            name: s("acme-params"),
            namespace: Some(s("infra")),
        }),
        description: Some(s("the production class")),
    };
    assert_eq!(GatewayClassSpec::decode(&spec.encode()).unwrap(), spec);
    let status = GatewayClassStatus {
        conditions: Some(vec![sample_condition()]),
        supported_features: Some(vec![s("HTTPRouteQueryParamMatching")]),
    };
    assert_eq!(GatewayClassStatus::decode(&status.encode()).unwrap(), status);
}

#[test]
fn condition_round_trip_and_requirements() {
    let c = sample_condition();
    assert_eq!(Condition::decode(&c.encode()).unwrap(), c);
    let doc = obj(vec![("type", Json::Str(s("Accepted")))]);
    assert_eq!(Condition::decode(&doc).unwrap_err(), DecodeError::MissingField(s("status")));
}

#[test]
fn route_status_round_trip() {
    let status = HttpRouteStatus {
        inner: RouteStatus {
            parents: vec![RouteParentStatus {
                parent_ref: ParentReference {
                    group: None,
                    kind: None,
                    namespace: None,
                    name: s("prod-web"),
                    section_name: Some(s("https")),
                    port: None,
                },
                controller_name: s("example.net/gateway-controller"),
                conditions: vec![sample_condition()],
            }],
        },
    };
    assert_eq!(HttpRouteStatus::decode(&status.encode()).unwrap(), status);
}

#[test]
fn gateway_status_round_trip() {
    let status = GatewayStatus {
        addresses: Some(vec![GatewayAddress { type_: None, value: s("5.6.7.8") }]),
        conditions: Some(vec![sample_condition()]),
        listeners: Some(vec![ListenerStatus {
            name: s("https"),
            supported_kinds: vec![RouteGroupKind { group: None, kind: s("HTTPRoute") }],
            attached_routes: 2,
            conditions: vec![sample_condition()],
        }]),
    };
    assert_eq!(GatewayStatus::decode(&status.encode()).unwrap(), status);
}
