//! The HTTP matcher family: header, path, and query-parameter matchers.

use k8s_gateway_api::httproute::{HttpHeaderMatch, HttpPathMatch, HttpQueryParamMatch};
use k8s_gateway_api::wire::{Codec, DecodeError, Json};

fn s(x: &str) -> String {
    x.to_string()
}

fn obj(pairs: Vec<(&str, Json)>) -> Json {
    Json::Obj(pairs.into_iter().map(|(k, v)| (k.to_string(), v)).collect())
}

#[test]
fn header_match_scenario_decodes_and_reencodes_exactly() {
    let doc = obj(vec![
        ("type", Json::Str(s("Exact"))),
        ("name", Json::Str(s("env"))),
        ("value", Json::Str(s("canary"))),
    ]);
    let m = HttpHeaderMatch::decode(&doc).unwrap();
    assert_eq!(m, HttpHeaderMatch::Exact { name: s("env"), value: s("canary") });
    assert_eq!(m.encode(), doc);
}

#[test]
fn header_match_requires_discriminant() {
    let doc = obj(vec![("name", Json::Str(s("env"))), ("value", Json::Str(s("canary")))]);
    assert_eq!(HttpHeaderMatch::decode(&doc).unwrap_err(), DecodeError::MissingField(s("type")));
}

#[test]
fn header_match_requires_value() {
    let doc = obj(vec![("type", Json::Str(s("Exact"))), ("name", Json::Str(s("env")))]);
    assert_eq!(HttpHeaderMatch::decode(&doc).unwrap_err(), DecodeError::MissingField(s("value")));
}

#[test]
fn header_match_unknown_discriminant() {
    let doc = obj(vec![
        ("type", Json::Str(s("Suffix"))),
        ("name", Json::Str(s("env"))),
        ("value", Json::Str(s("canary"))),
    ]);
    assert_eq!(
        HttpHeaderMatch::decode(&doc).unwrap_err(),
        DecodeError::InvalidDiscriminant(s("Suffix"), vec![s("Exact"), s("RegularExpression")])
    );
}

#[test]
fn path_match_all_variants_round_trip() {
    let cases = vec![
        HttpPathMatch::Exact { value: s("/v1/login") },
        HttpPathMatch::PathPrefix { value: s("/v1") },
        HttpPathMatch::RegularExpression { value: s("/v[0-9]+") },
    ];
    for m in cases {
        assert_eq!(HttpPathMatch::decode(&m.encode()).unwrap(), m);
    }
}

#[test]
fn path_match_unknown_discriminant_lists_three_variants() {
    let doc = obj(vec![("type", Json::Str(s("Glob"))), ("value", Json::Str(s("/x")))]);
    assert_eq!(
        HttpPathMatch::decode(&doc).unwrap_err(),
        DecodeError::InvalidDiscriminant(
            s("Glob"),
            vec![s("Exact"), s("PathPrefix"), s("RegularExpression")]
        )
    );
}

#[test]
fn query_param_match_round_trip() {
    let m = HttpQueryParamMatch::RegularExpression { name: s("page"), value: s("[0-9]+") };
    assert_eq!(HttpQueryParamMatch::decode(&m.encode()).unwrap(), m);
}

#[test]
fn matchers_ignore_unrecognized_keys() {
    let doc = obj(vec![
        ("type", Json::Str(s("Exact"))),
        ("name", Json::Str(s("env"))),
        ("value", Json::Str(s("canary"))),
        ("comment", Json::Str(s("ignored"))),
    ]);
    assert!(HttpHeaderMatch::decode(&doc).is_ok());
}
