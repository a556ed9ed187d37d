//! Whole route documents, written as JSON text, decoded through the
//! library's document model.

use k8s_gateway_api::exp::grpcroute::GrpcRouteSpec;
use k8s_gateway_api::httproute::HttpRouteSpec;
use k8s_gateway_api::wire::{Codec, Json};

/// Translates a parsed JSON value into the library's document model.
fn to_wire(v: &serde_json::Value) -> Json {
    match v {
        serde_json::Value::Null => Json::Null,
        serde_json::Value::Bool(b) => Json::Bool(*b),
        serde_json::Value::Number(n) => Json::Int(n.as_i64().expect("integer field")),
        serde_json::Value::String(st) => Json::Str(st.clone()),
        serde_json::Value::Array(items) => Json::Arr(items.iter().map(to_wire).collect()),
        serde_json::Value::Object(m) => {
            Json::Obj(m.iter().map(|(k, x)| (k.clone(), to_wire(x))).collect())
        },
    }
}

fn spec_of(data: &str) -> Json {
    let v: serde_json::Value = serde_json::from_str(data).expect("valid JSON");
    to_wire(&v["spec"])
}

#[test]
fn test_grpc_route_deserialization() {
    // Deserialization of the upstream GRPCRoute example.
    let data = r#"{
      "apiVersion": "gateway.networking.k8s.io/v1alpha2",
      "kind": "GRPCRoute",
      "metadata": {
        "name": "grpc-app-1"
      },
      "spec": {
        "parentRefs": [
          {
            "name": "my-gateway"
          }
        ],
        "hostnames": [
          "example.com"
        ],
        "rules": [
          {
            "matches": [
              {
                "method": {
                  "service": "com.example.User",
                  "method": "Login"
                }
              },
              {
                "method": {
                  "service": "com.example.User",
                  "method": "Logout",
                  "type": "Exact"
                }
              },
              {
                "method": {
                  "service": "com.example.User",
                  "method": "UpdateProfile",
                  "type": "RegularExpression"
                }
              }
            ],
            "backendRefs": [
              {
                "name": "my-service1",
                "port": 50051
              }
            ]
          },
          {
            "matches": [
              {
                "headers": [
                  {
                    "type": "Exact",
                    "name": "magic",
                    "value": "foo"
                  }
                ],
                "method": {
                  "service": "com.example.Things",
                  "method": "DoThing"
                }
              }
            ],
            "backendRefs": [
              {
                "name": "my-service2",
                "port": 50051
              }
            ]
          }
        ]
      }
    }"#;
    let route = GrpcRouteSpec::decode(&spec_of(data));
    assert!(route.is_ok());
}

#[test]
fn test_deserialize_http_route() {
    // Test json with a URLRewrote
    let test_json = r#"{
        "apiVersion":"gateway.networking.k8s.io/v1beta1",
        "kind":"HTTPRoute",
        "metadata":{"name":"route_name"},
        "spec":{
            "parentRefs":null,
            "hostnames":null,
            "rules":[{
                "matches":null,
                "filters":[{
                    "type":"URLRewrite",
                    "urlRewrite":{
                        "hostname":null,
                        "path":{
                            "type":"ReplacePrefixMatch",
                            "replacePrefixMatch":"/"
                        }
                    }
                }],
                "backendRefs":null
            }]}}"#;
    let route = HttpRouteSpec::decode(&spec_of(test_json));
    assert!(route.is_ok());
}
