//! The method-match decoder: default variant, normalization, duplicate
//! and unknown-key rejection, and round trips.

use k8s_gateway_api::exp::grpcroute::{
    GrpcMethodMatch, GrpcRouteMatch, decode_opt_method_match, empty_option_strings_are_none,
};
use k8s_gateway_api::wire::{Codec, DecodeError, Json};

fn s(x: &str) -> String {
    x.to_string()
}

fn obj(pairs: Vec<(&str, Json)>) -> Json {
    Json::Obj(pairs.into_iter().map(|(k, v)| (k.to_string(), v)).collect())
}

#[test]
fn type_omitted_defaults_to_exact() {
    let doc = obj(vec![("service", Json::Str(s("com.example.User"))), ("method", Json::Str(s("Login")))]);
    let m = GrpcMethodMatch::decode(&doc).unwrap();
    assert_eq!(
        m,
        GrpcMethodMatch::Exact {
            method: Some(s("Login")),
            service: Some(s("com.example.User")),
        }
    );
}

#[test]
fn type_empty_or_null_defaults_to_exact() {
    let doc = obj(vec![("type", Json::Str(s(""))), ("method", Json::Str(s("Login")))]);
    let m = GrpcMethodMatch::decode(&doc).unwrap();
    assert!(matches!(m, GrpcMethodMatch::Exact { .. }));
    let doc = obj(vec![("type", Json::Null), ("method", Json::Str(s("Login")))]);
    let m = GrpcMethodMatch::decode(&doc).unwrap();
    assert!(matches!(m, GrpcMethodMatch::Exact { .. }));
}

#[test]
fn regular_expression_is_never_folded_to_exact() {
    let doc = obj(vec![
        ("type", Json::Str(s("RegularExpression"))),
        ("service", Json::Str(s("com.example.*"))),
    ]);
    let m = GrpcMethodMatch::decode(&doc).unwrap();
    assert_eq!(
        m,
        GrpcMethodMatch::RegularExpression {
            method: None,
            service: Some(s("com.example.*")),
        }
    );
}

#[test]
fn unknown_discriminant_names_value_and_accepted_variants() {
    let doc = obj(vec![("type", Json::Str(s("Prefix"))), ("service", Json::Str(s("a")))]);
    let e = GrpcMethodMatch::decode(&doc).unwrap_err();
    assert_eq!(
        e,
        DecodeError::InvalidDiscriminant(s("Prefix"), vec![s("Exact"), s("RegularExpression")])
    );
}

#[test]
fn vacuous_matcher_folds_to_none() {
    // Both selectors absent, type present.
    let doc = obj(vec![("type", Json::Str(s("Exact")))]);
    assert_eq!(decode_opt_method_match(Some(&doc)).unwrap(), None);
    // Both selectors empty strings, no type.
    let doc = obj(vec![("service", Json::Str(s(""))), ("method", Json::Str(s("")))]);
    assert_eq!(decode_opt_method_match(Some(&doc)).unwrap(), None);
    // Even under RegularExpression.
    let doc = obj(vec![("type", Json::Str(s("RegularExpression"))), ("service", Json::Str(s("")))]);
    assert_eq!(decode_opt_method_match(Some(&doc)).unwrap(), None);
}

#[test]
fn empty_string_field_equals_absent_field() {
    let with_empty = obj(vec![("service", Json::Str(s(""))), ("method", Json::Str(s("Login")))]);
    let without = obj(vec![("method", Json::Str(s("Login")))]);
    assert_eq!(
        GrpcMethodMatch::decode(&with_empty).unwrap(),
        GrpcMethodMatch::decode(&without).unwrap()
    );
}

#[test]
fn duplicate_type_key_is_rejected() {
    let doc = obj(vec![
        ("type", Json::Str(s("Exact"))),
        ("type", Json::Str(s("RegularExpression"))),
    ]);
    assert_eq!(GrpcMethodMatch::decode(&doc).unwrap_err(), DecodeError::DuplicateField(s("type")));
}

#[test]
fn duplicate_payload_key_is_rejected() {
    let doc = obj(vec![
        ("service", Json::Str(s("a"))),
        ("service", Json::Str(s("b"))),
    ]);
    assert_eq!(
        GrpcMethodMatch::decode(&doc).unwrap_err(),
        DecodeError::DuplicateField(s("service"))
    );
}

#[test]
fn unrecognized_key_is_rejected() {
    let doc = obj(vec![("services", Json::Str(s("a")))]);
    assert_eq!(GrpcMethodMatch::decode(&doc).unwrap_err(), DecodeError::UnknownField(s("services")));
}

#[test]
fn wrong_typed_field_is_rejected() {
    let doc = obj(vec![("service", Json::Int(5))]);
    assert_eq!(GrpcMethodMatch::decode(&doc).unwrap_err(), DecodeError::WrongType(s("service")));
}

#[test]
fn non_object_is_rejected() {
    assert!(matches!(
        GrpcMethodMatch::decode(&Json::Arr(vec![])),
        Err(DecodeError::WrongType(_))
    ));
}

#[test]
fn encode_emits_discriminant_and_omits_absent_fields() {
    let m = GrpcMethodMatch::Exact { method: Some(s("Login")), service: None };
    let j = m.encode();
    assert_eq!(
        j,
        obj(vec![("type", Json::Str(s("Exact"))), ("method", Json::Str(s("Login")))])
    );
}

#[test]
fn method_match_round_trip() {
    let cases = vec![
        GrpcMethodMatch::Exact { method: Some(s("Login")), service: Some(s("com.example.User")) },
        GrpcMethodMatch::Exact { method: None, service: Some(s("a")) },
        GrpcMethodMatch::RegularExpression { method: Some(s(".*")), service: None },
    ];
    for m in cases {
        assert_eq!(GrpcMethodMatch::decode(&m.encode()).unwrap(), m);
    }
}

#[test]
fn is_empty_counts_empty_strings_as_absent() {
    let m = GrpcMethodMatch::Exact { method: Some(s("")), service: None };
    assert!(m.is_empty());
    let m = GrpcMethodMatch::RegularExpression { method: Some(s("")), service: Some(s("")) };
    assert!(m.is_empty());
    let m = GrpcMethodMatch::Exact { method: Some(s("Login")), service: None };
    assert!(!m.is_empty());
}

#[test]
fn empty_option_strings_are_none_behaviour() {
    assert_eq!(empty_option_strings_are_none(Some(s(""))), None);
    assert_eq!(empty_option_strings_are_none(Some(s("x"))), Some(s("x")));
    assert_eq!(empty_option_strings_are_none(None), None);
}

#[test]
fn route_match_folds_vacuous_method() {
    let doc = obj(vec![(
        "method",
        obj(vec![("service", Json::Str(s(""))), ("method", Json::Str(s("")))]),
    )]);
    let m = GrpcRouteMatch::decode(&doc).unwrap();
    assert_eq!(m.method, None);
    assert_eq!(m.headers, None);
}
