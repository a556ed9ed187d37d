//! The HTTPRoute resource: path, header, and query matchers, filters,
//! weighted backends, and the route spec that composes them.

use vstd::prelude::*;

use crate::object_reference::{
    BackendObjectReference, BackendObjectReferenceView, LocalObjectReference,
    LocalObjectReferenceView,
};
use crate::shared::{
    BackendRef, BackendRefView, CommonRouteSpec, CommonRouteSpecView, Hostname, ParentReference,
    PortNumber, PreciseHostname, RouteStatus,
};
use crate::wire::{
    Codec, DecodeError, ErrorView, Json, JsonView, encode_vec, fields_distinct, fields_within,
    json_pair_seq_view, keys_distinct, lemma_json_pair_seq_view,
    lemma_obj_of_field_at, lemma_obj_of_scan, lemma_seq_round_trip, list_entry, lookup_fields,
    obj_of, opt_list_field, opt_str_field, opt_u16_field, opt_val_field, req_str_field,
    req_val_field, res_view, slot_value, spec_field,
    spec_opt_list, spec_opt_str, spec_opt_u16, spec_opt_val, spec_req_str, spec_req_val,
    spec_scan, str_entry, u16_entry, val_entry,
};

verus! {

/// HTTPHeaderName is the name of an HTTP header.
pub type HttpHeaderName = String;

/// HTTPMethod describes how to select a route by the HTTP method, in
/// upper case.
pub type HttpMethod = String;

/// How to select a route by the HTTP request path: an exact path, a path
/// prefix, or a regular expression, chosen by the `type` discriminant.
#[derive(Clone, Debug, Eq, PartialEq)]
pub enum HttpPathMatch {
    Exact { value: String },
    PathPrefix { value: String },
    RegularExpression { value: String },
}

/// The mathematical shape of an [`HttpPathMatch`].
pub enum HttpPathMatchView {
    Exact { value: Seq<char> },
    PathPrefix { value: Seq<char> },
    RegularExpression { value: Seq<char> },
}

impl DeepView for HttpPathMatch {
    type V = HttpPathMatchView;

    open spec fn deep_view(&self) -> HttpPathMatchView {
        match self {
            HttpPathMatch::Exact { value } => HttpPathMatchView::Exact { value: value@ },
            HttpPathMatch::PathPrefix { value } => HttpPathMatchView::PathPrefix { value: value@ },
            HttpPathMatch::RegularExpression { value } => HttpPathMatchView::RegularExpression {
                value: value@,
            },
        }
    }
}

pub open spec fn path_match_keys() -> Seq<Seq<char>> {
    seq!["type"@, "value"@]
}

pub open spec fn path_match_variants() -> Seq<Seq<char>> {
    seq!["Exact"@, "PathPrefix"@, "RegularExpression"@]
}

/// What decoding a path-match document yields: `type` and `value` are
/// both required, and `type` must name one of the three variants.
pub open spec fn spec_decode_path_match(v: JsonView) -> Result<HttpPathMatchView, ErrorView> {
    match v {
        JsonView::Obj(pairs) => match spec_scan(pairs, path_match_keys(), false) {
            Some(e) => Err(e),
            None => match spec_req_str(spec_field(pairs, "type"@), "type"@) {
                Err(e) => Err(e),
                Ok(t) => if t == "Exact"@ || t == "PathPrefix"@ || t == "RegularExpression"@ {
                    match spec_req_str(spec_field(pairs, "value"@), "value"@) {
                        Err(e) => Err(e),
                        Ok(value) => if t == "Exact"@ {
                            Ok(HttpPathMatchView::Exact { value })
                        } else if t == "PathPrefix"@ {
                            Ok(HttpPathMatchView::PathPrefix { value })
                        } else {
                            Ok(HttpPathMatchView::RegularExpression { value })
                        },
                    }
                } else {
                    Err(ErrorView::InvalidDiscriminant(t, path_match_variants()))
                },
            },
        },
        _ => Err(ErrorView::WrongType("HttpPathMatch"@)),
    }
}

pub open spec fn path_match_fields(m: HttpPathMatchView) -> Seq<(Seq<char>, Option<JsonView>)> {
    match m {
        HttpPathMatchView::Exact { value } => seq![
            ("type"@, Some(JsonView::Str("Exact"@))),
            ("value"@, Some(JsonView::Str(value))),
        ],
        HttpPathMatchView::PathPrefix { value } => seq![
            ("type"@, Some(JsonView::Str("PathPrefix"@))),
            ("value"@, Some(JsonView::Str(value))),
        ],
        HttpPathMatchView::RegularExpression { value } => seq![
            ("type"@, Some(JsonView::Str("RegularExpression"@))),
            ("value"@, Some(JsonView::Str(value))),
        ],
    }
}

pub open spec fn spec_encode_path_match(m: HttpPathMatchView) -> JsonView {
    JsonView::Obj(obj_of(path_match_fields(m)))
}

proof fn lemma_path_match_literals()
    ensures
        "type"@ != "value"@,
        "Exact"@ != "PathPrefix"@,
        "Exact"@ != "RegularExpression"@,
        "PathPrefix"@ != "RegularExpression"@,
        keys_distinct(path_match_keys()),
{
    reveal_strlit("type");
    reveal_strlit("value");
    reveal_strlit("Exact");
    reveal_strlit("PathPrefix");
    reveal_strlit("RegularExpression");
    assert("Exact"@.len() == 5);
    assert("PathPrefix"@.len() == 10);
    assert("RegularExpression"@.len() == 17);
    let keys = path_match_keys();
    assert(keys[0] == "type"@);
    assert(keys[1] == "value"@);
    assert forall|i: int, j: int| 0 <= i < j < keys.len() implies keys[i] != keys[j] by {
        assert(keys[0] != keys[1]);
    }
}

fn path_match_keys_exec() -> (r: Vec<String>)
    ensures
        r.deep_view() == path_match_keys(),
        keys_distinct(path_match_keys()),
{
    let r = vec![String::from_str("type"), String::from_str("value")];
    proof {
        lemma_path_match_literals();
        assert(r.deep_view() =~= path_match_keys());
    }
    r
}

fn path_match_variants_exec() -> (r: Vec<String>)
    ensures
        r.deep_view() == path_match_variants(),
{
    let r = vec![
        String::from_str("Exact"),
        String::from_str("PathPrefix"),
        String::from_str("RegularExpression"),
    ];
    proof {
        assert(r.deep_view() =~= path_match_variants());
    }
    r
}

impl Codec for HttpPathMatch {
    open spec fn spec_decode(v: JsonView) -> Result<HttpPathMatchView, ErrorView> {
        spec_decode_path_match(v)
    }

    open spec fn spec_encode(m: HttpPathMatchView) -> JsonView {
        spec_encode_path_match(m)
    }

    open spec fn wf(m: HttpPathMatchView) -> bool {
        true
    }

    fn decode(j: &Json) -> (r: Result<Self, DecodeError>)
        ensures
            res_view(r) == spec_decode_path_match(j.deep_view()),
    {
        match j {
            Json::Obj(pairs) => {
                let ghost kv = path_match_keys();
                let keys = path_match_keys_exec();
                let slots = match lookup_fields(pairs, &keys, false) {
                    Ok(s) => s,
                    Err(e) => {
                        return Err(e);
                    },
                };
                proof {
                    assert(kv[0] == "type"@);
                    assert(kv[1] == "value"@);
                }
                let t = match req_str_field(slot_value(pairs, &slots, 0, Ghost(kv)), "type") {
                    Ok(v) => v,
                    Err(e) => {
                        return Err(e);
                    },
                };
                let is_exact = t.eq(&String::from_str("Exact"));
                let is_prefix = t.eq(&String::from_str("PathPrefix"));
                let is_regex = t.eq(&String::from_str("RegularExpression"));
                if is_exact || is_prefix || is_regex {
                    let value = match req_str_field(
                        slot_value(pairs, &slots, 1, Ghost(kv)),
                        "value",
                    ) {
                        Ok(v) => v,
                        Err(e) => {
                            return Err(e);
                        },
                    };
                    if is_exact {
                        Ok(HttpPathMatch::Exact { value })
                    } else if is_prefix {
                        Ok(HttpPathMatch::PathPrefix { value })
                    } else {
                        Ok(HttpPathMatch::RegularExpression { value })
                    }
                } else {
                    Err(DecodeError::InvalidDiscriminant(t, path_match_variants_exec()))
                }
            },
            _ => Err(DecodeError::WrongType(String::from_str("HttpPathMatch"))),
        }
    }

    fn encode(&self) -> (j: Json)
        ensures
            j.deep_view() == spec_encode_path_match(self.deep_view()),
    {
        let mut obj: Vec<(String, Json)> = Vec::new();
        match self {
            HttpPathMatch::Exact { value } => {
                obj.push((String::from_str("type"), Json::Str(String::from_str("Exact"))));
                obj.push((String::from_str("value"), Json::Str(value.clone())));
            },
            HttpPathMatch::PathPrefix { value } => {
                obj.push((String::from_str("type"), Json::Str(String::from_str("PathPrefix"))));
                obj.push((String::from_str("value"), Json::Str(value.clone())));
            },
            HttpPathMatch::RegularExpression { value } => {
                obj.push(
                    (String::from_str("type"), Json::Str(String::from_str("RegularExpression"))),
                );
                obj.push((String::from_str("value"), Json::Str(value.clone())));
            },
        }
        proof {
            broadcast use lemma_json_pair_seq_view;

            reveal_with_fuel(obj_of, 4);
            assert(json_pair_seq_view(obj@) =~= obj_of(path_match_fields(self.deep_view())));
        }
        Json::Obj(obj)
    }

    proof fn lemma_round_trip(m: HttpPathMatchView)
        ensures
            spec_decode_path_match(spec_encode_path_match(m)) == Ok::<
                HttpPathMatchView,
                ErrorView,
            >(m),
    {
        lemma_path_match_literals();
        let fields = path_match_fields(m);
        let keys = path_match_keys();
        assert(fields_distinct(fields));
        assert(fields_within(fields, keys)) by {
            assert forall|i: int| 0 <= i < fields.len() implies keys.contains(
                (#[trigger] fields[i]).0,
            ) by {
                if i == 0 {
                    assert(keys[0] == fields[0].0);
                } else {
                    assert(keys[1] == fields[1].0);
                }
            }
        }
        lemma_obj_of_scan(fields, keys, false);
        lemma_obj_of_field_at(fields, 0);
        lemma_obj_of_field_at(fields, 1);
    }
}

} // verus!

verus! {

/// How to select a route by an HTTP request header: an exact value or a
/// regular expression for the named header.
#[derive(Clone, Debug, Eq, PartialEq)]
pub enum HttpHeaderMatch {
    Exact { name: HttpHeaderName, value: String },
    RegularExpression { name: HttpHeaderName, value: String },
}

/// The mathematical shape of an [`HttpHeaderMatch`].
pub enum HttpHeaderMatchView {
    Exact { name: Seq<char>, value: Seq<char> },
    RegularExpression { name: Seq<char>, value: Seq<char> },
}

impl DeepView for HttpHeaderMatch {
    type V = HttpHeaderMatchView;

    open spec fn deep_view(&self) -> HttpHeaderMatchView {
        match self {
            HttpHeaderMatch::Exact { name, value } => HttpHeaderMatchView::Exact {
                name: name@,
                value: value@,
            },
            HttpHeaderMatch::RegularExpression { name, value } =>
                HttpHeaderMatchView::RegularExpression { name: name@, value: value@ },
        }
    }
}

pub open spec fn header_match_keys() -> Seq<Seq<char>> {
    seq!["type"@, "name"@, "value"@]
}

pub open spec fn name_value_variants() -> Seq<Seq<char>> {
    seq!["Exact"@, "RegularExpression"@]
}

/// What decoding a header-match document yields: `type`, `name`, and
/// `value` are all required, and `type` must name one of the variants.
pub open spec fn spec_decode_header_match(v: JsonView) -> Result<HttpHeaderMatchView, ErrorView> {
    match v {
        JsonView::Obj(pairs) => match spec_scan(pairs, header_match_keys(), false) {
            Some(e) => Err(e),
            None => match spec_req_str(spec_field(pairs, "type"@), "type"@) {
                Err(e) => Err(e),
                Ok(t) => if t == "Exact"@ || t == "RegularExpression"@ {
                    match spec_req_str(spec_field(pairs, "name"@), "name"@) {
                        Err(e) => Err(e),
                        Ok(name) => match spec_req_str(spec_field(pairs, "value"@), "value"@) {
                            Err(e) => Err(e),
                            Ok(value) => if t == "Exact"@ {
                                Ok(HttpHeaderMatchView::Exact { name, value })
                            } else {
                                Ok(HttpHeaderMatchView::RegularExpression { name, value })
                            },
                        },
                    }
                } else {
                    Err(ErrorView::InvalidDiscriminant(t, name_value_variants()))
                },
            },
        },
        _ => Err(ErrorView::WrongType("HttpHeaderMatch"@)),
    }
}

pub open spec fn header_match_fields(m: HttpHeaderMatchView) -> Seq<(Seq<char>, Option<JsonView>)> {
    match m {
        HttpHeaderMatchView::Exact { name, value } => seq![
            ("type"@, Some(JsonView::Str("Exact"@))),
            ("name"@, Some(JsonView::Str(name))),
            ("value"@, Some(JsonView::Str(value))),
        ],
        HttpHeaderMatchView::RegularExpression { name, value } => seq![
            ("type"@, Some(JsonView::Str("RegularExpression"@))),
            ("name"@, Some(JsonView::Str(name))),
            ("value"@, Some(JsonView::Str(value))),
        ],
    }
}

pub open spec fn spec_encode_header_match(m: HttpHeaderMatchView) -> JsonView {
    JsonView::Obj(obj_of(header_match_fields(m)))
}

proof fn lemma_header_match_literals()
    ensures
        "type"@ != "name"@,
        "type"@ != "value"@,
        "name"@ != "value"@,
        "Exact"@ != "RegularExpression"@,
        keys_distinct(header_match_keys()),
{
    reveal_strlit("type");
    reveal_strlit("name");
    reveal_strlit("value");
    reveal_strlit("Exact");
    reveal_strlit("RegularExpression");
    assert("Exact"@.len() == 5);
    assert("RegularExpression"@.len() == 17);
    assert("name"@.len() == 4);
    assert("value"@.len() == 5);
    let keys = header_match_keys();
    assert(keys[0] == "type"@);
    assert(keys[1] == "name"@);
    assert(keys[2] == "value"@);
    assert("type"@[0] != "name"@[0]);
    assert forall|i: int, j: int| 0 <= i < j < keys.len() implies keys[i] != keys[j] by {
        assert(keys[0] != keys[1]);
        assert(keys[0] != keys[2]);
        assert(keys[1] != keys[2]);
    }
}

fn header_match_keys_exec() -> (r: Vec<String>)
    ensures
        r.deep_view() == header_match_keys(),
        keys_distinct(header_match_keys()),
{
    let r = vec![String::from_str("type"), String::from_str("name"), String::from_str("value")];
    proof {
        lemma_header_match_literals();
        assert(r.deep_view() =~= header_match_keys());
    }
    r
}

fn name_value_variants_exec() -> (r: Vec<String>)
    ensures
        r.deep_view() == name_value_variants(),
{
    let r = vec![String::from_str("Exact"), String::from_str("RegularExpression")];
    proof {
        assert(r.deep_view() =~= name_value_variants());
    }
    r
}

impl Codec for HttpHeaderMatch {
    open spec fn spec_decode(v: JsonView) -> Result<HttpHeaderMatchView, ErrorView> {
        spec_decode_header_match(v)
    }

    open spec fn spec_encode(m: HttpHeaderMatchView) -> JsonView {
        spec_encode_header_match(m)
    }

    open spec fn wf(m: HttpHeaderMatchView) -> bool {
        true
    }

    fn decode(j: &Json) -> (r: Result<Self, DecodeError>)
        ensures
            res_view(r) == spec_decode_header_match(j.deep_view()),
    {
        match j {
            Json::Obj(pairs) => {
                let ghost kv = header_match_keys();
                let keys = header_match_keys_exec();
                let slots = match lookup_fields(pairs, &keys, false) {
                    Ok(s) => s,
                    Err(e) => {
                        return Err(e);
                    },
                };
                proof {
                    assert(kv[0] == "type"@);
                    assert(kv[1] == "name"@);
                    assert(kv[2] == "value"@);
                }
                let t = match req_str_field(slot_value(pairs, &slots, 0, Ghost(kv)), "type") {
                    Ok(v) => v,
                    Err(e) => {
                        return Err(e);
                    },
                };
                let is_exact = t.eq(&String::from_str("Exact"));
                let is_regex = t.eq(&String::from_str("RegularExpression"));
                if is_exact || is_regex {
                    let name = match req_str_field(slot_value(pairs, &slots, 1, Ghost(kv)), "name")
                        {
                        Ok(v) => v,
                        Err(e) => {
                            return Err(e);
                        },
                    };
                    let value = match req_str_field(
                        slot_value(pairs, &slots, 2, Ghost(kv)),
                        "value",
                    ) {
                        Ok(v) => v,
                        Err(e) => {
                            return Err(e);
                        },
                    };
                    if is_exact {
                        Ok(HttpHeaderMatch::Exact { name, value })
                    } else {
                        Ok(HttpHeaderMatch::RegularExpression { name, value })
                    }
                } else {
                    Err(DecodeError::InvalidDiscriminant(t, name_value_variants_exec()))
                }
            },
            _ => Err(DecodeError::WrongType(String::from_str("HttpHeaderMatch"))),
        }
    }

    fn encode(&self) -> (j: Json)
        ensures
            j.deep_view() == spec_encode_header_match(self.deep_view()),
    {
        let mut obj: Vec<(String, Json)> = Vec::new();
        match self {
            HttpHeaderMatch::Exact { name, value } => {
                obj.push((String::from_str("type"), Json::Str(String::from_str("Exact"))));
                obj.push((String::from_str("name"), Json::Str(name.clone())));
                obj.push((String::from_str("value"), Json::Str(value.clone())));
            },
            HttpHeaderMatch::RegularExpression { name, value } => {
                obj.push(
                    (String::from_str("type"), Json::Str(String::from_str("RegularExpression"))),
                );
                obj.push((String::from_str("name"), Json::Str(name.clone())));
                obj.push((String::from_str("value"), Json::Str(value.clone())));
            },
        }
        proof {
            broadcast use lemma_json_pair_seq_view;

            reveal_with_fuel(obj_of, 5);
            assert(json_pair_seq_view(obj@) =~= obj_of(header_match_fields(self.deep_view())));
        }
        Json::Obj(obj)
    }

    proof fn lemma_round_trip(m: HttpHeaderMatchView)
        ensures
            spec_decode_header_match(spec_encode_header_match(m)) == Ok::<
                HttpHeaderMatchView,
                ErrorView,
            >(m),
    {
        lemma_header_match_literals();
        let fields = header_match_fields(m);
        let keys = header_match_keys();
        assert(fields_distinct(fields));
        assert(fields_within(fields, keys)) by {
            assert forall|i: int| 0 <= i < fields.len() implies keys.contains(
                (#[trigger] fields[i]).0,
            ) by {
                if i == 0 {
                    assert(keys[0] == fields[0].0);
                } else if i == 1 {
                    assert(keys[1] == fields[1].0);
                } else {
                    assert(keys[2] == fields[2].0);
                }
            }
        }
        lemma_obj_of_scan(fields, keys, false);
        lemma_obj_of_field_at(fields, 0);
        lemma_obj_of_field_at(fields, 1);
        lemma_obj_of_field_at(fields, 2);
    }
}

/// How to select a route by an HTTP query parameter: an exact value or a
/// regular expression for the named parameter.
#[derive(Clone, Debug, Eq, PartialEq)]
pub enum HttpQueryParamMatch {
    Exact { name: String, value: String },
    RegularExpression { name: String, value: String },
}

/// The mathematical shape of an [`HttpQueryParamMatch`].
pub enum HttpQueryParamMatchView {
    Exact { name: Seq<char>, value: Seq<char> },
    RegularExpression { name: Seq<char>, value: Seq<char> },
}

impl DeepView for HttpQueryParamMatch {
    type V = HttpQueryParamMatchView;

    open spec fn deep_view(&self) -> HttpQueryParamMatchView {
        match self {
            HttpQueryParamMatch::Exact { name, value } => HttpQueryParamMatchView::Exact {
                name: name@,
                value: value@,
            },
            HttpQueryParamMatch::RegularExpression { name, value } =>
                HttpQueryParamMatchView::RegularExpression { name: name@, value: value@ },
        }
    }
}

/// What decoding a query-parameter-match document yields; the shape is
/// that of a header match.
pub open spec fn spec_decode_query_param_match(v: JsonView) -> Result<
    HttpQueryParamMatchView,
    ErrorView,
> {
    match v {
        JsonView::Obj(pairs) => match spec_scan(pairs, header_match_keys(), false) {
            Some(e) => Err(e),
            None => match spec_req_str(spec_field(pairs, "type"@), "type"@) {
                Err(e) => Err(e),
                Ok(t) => if t == "Exact"@ || t == "RegularExpression"@ {
                    match spec_req_str(spec_field(pairs, "name"@), "name"@) {
                        Err(e) => Err(e),
                        Ok(name) => match spec_req_str(spec_field(pairs, "value"@), "value"@) {
                            Err(e) => Err(e),
                            Ok(value) => if t == "Exact"@ {
                                Ok(HttpQueryParamMatchView::Exact { name, value })
                            } else {
                                Ok(HttpQueryParamMatchView::RegularExpression { name, value })
                            },
                        },
                    }
                } else {
                    Err(ErrorView::InvalidDiscriminant(t, name_value_variants()))
                },
            },
        },
        _ => Err(ErrorView::WrongType("HttpQueryParamMatch"@)),
    }
}

pub open spec fn query_param_match_fields(m: HttpQueryParamMatchView) -> Seq<
    (Seq<char>, Option<JsonView>),
> {
    match m {
        HttpQueryParamMatchView::Exact { name, value } => seq![
            ("type"@, Some(JsonView::Str("Exact"@))),
            ("name"@, Some(JsonView::Str(name))),
            ("value"@, Some(JsonView::Str(value))),
        ],
        HttpQueryParamMatchView::RegularExpression { name, value } => seq![
            ("type"@, Some(JsonView::Str("RegularExpression"@))),
            ("name"@, Some(JsonView::Str(name))),
            ("value"@, Some(JsonView::Str(value))),
        ],
    }
}

pub open spec fn spec_encode_query_param_match(m: HttpQueryParamMatchView) -> JsonView {
    JsonView::Obj(obj_of(query_param_match_fields(m)))
}

impl Codec for HttpQueryParamMatch {
    open spec fn spec_decode(v: JsonView) -> Result<HttpQueryParamMatchView, ErrorView> {
        spec_decode_query_param_match(v)
    }

    open spec fn spec_encode(m: HttpQueryParamMatchView) -> JsonView {
        spec_encode_query_param_match(m)
    }

    open spec fn wf(m: HttpQueryParamMatchView) -> bool {
        true
    }

    fn decode(j: &Json) -> (r: Result<Self, DecodeError>)
        ensures
            res_view(r) == spec_decode_query_param_match(j.deep_view()),
    {
        match j {
            Json::Obj(pairs) => {
                let ghost kv = header_match_keys();
                let keys = header_match_keys_exec();
                let slots = match lookup_fields(pairs, &keys, false) {
                    Ok(s) => s,
                    Err(e) => {
                        return Err(e);
                    },
                };
                proof {
                    assert(kv[0] == "type"@);
                    assert(kv[1] == "name"@);
                    assert(kv[2] == "value"@);
                }
                let t = match req_str_field(slot_value(pairs, &slots, 0, Ghost(kv)), "type") {
                    Ok(v) => v,
                    Err(e) => {
                        return Err(e);
                    },
                };
                let is_exact = t.eq(&String::from_str("Exact"));
                let is_regex = t.eq(&String::from_str("RegularExpression"));
                if is_exact || is_regex {
                    let name = match req_str_field(slot_value(pairs, &slots, 1, Ghost(kv)), "name")
                        {
                        Ok(v) => v,
                        Err(e) => {
                            return Err(e);
                        },
                    };
                    let value = match req_str_field(
                        slot_value(pairs, &slots, 2, Ghost(kv)),
                        "value",
                    ) {
                        Ok(v) => v,
                        Err(e) => {
                            return Err(e);
                        },
                    };
                    if is_exact {
                        Ok(HttpQueryParamMatch::Exact { name, value })
                    } else {
                        Ok(HttpQueryParamMatch::RegularExpression { name, value })
                    }
                } else {
                    Err(DecodeError::InvalidDiscriminant(t, name_value_variants_exec()))
                }
            },
            _ => Err(DecodeError::WrongType(String::from_str("HttpQueryParamMatch"))),
        }
    }

    fn encode(&self) -> (j: Json)
        ensures
            j.deep_view() == spec_encode_query_param_match(self.deep_view()),
    {
        let mut obj: Vec<(String, Json)> = Vec::new();
        match self {
            HttpQueryParamMatch::Exact { name, value } => {
                obj.push((String::from_str("type"), Json::Str(String::from_str("Exact"))));
                obj.push((String::from_str("name"), Json::Str(name.clone())));
                obj.push((String::from_str("value"), Json::Str(value.clone())));
            },
            HttpQueryParamMatch::RegularExpression { name, value } => {
                obj.push(
                    (String::from_str("type"), Json::Str(String::from_str("RegularExpression"))),
                );
                obj.push((String::from_str("name"), Json::Str(name.clone())));
                obj.push((String::from_str("value"), Json::Str(value.clone())));
            },
        }
        proof {
            broadcast use lemma_json_pair_seq_view;

            reveal_with_fuel(obj_of, 5);
            assert(json_pair_seq_view(obj@) =~= obj_of(
                query_param_match_fields(self.deep_view()),
            ));
        }
        Json::Obj(obj)
    }

    proof fn lemma_round_trip(m: HttpQueryParamMatchView)
        ensures
            spec_decode_query_param_match(spec_encode_query_param_match(m)) == Ok::<
                HttpQueryParamMatchView,
                ErrorView,
            >(m),
    {
        lemma_header_match_literals();
        let fields = query_param_match_fields(m);
        let keys = header_match_keys();
        assert(fields_distinct(fields));
        assert(fields_within(fields, keys)) by {
            assert forall|i: int| 0 <= i < fields.len() implies keys.contains(
                (#[trigger] fields[i]).0,
            ) by {
                if i == 0 {
                    assert(keys[0] == fields[0].0);
                } else if i == 1 {
                    assert(keys[1] == fields[1].0);
                } else {
                    assert(keys[2] == fields[2].0);
                }
            }
        }
        lemma_obj_of_scan(fields, keys, false);
        lemma_obj_of_field_at(fields, 0);
        lemma_obj_of_field_at(fields, 1);
        lemma_obj_of_field_at(fields, 2);
    }
}

} // verus!

verus! {

/// An HTTP header name and value.
#[derive(Clone, Debug, PartialEq)]
pub struct HttpHeader {
    /// Name of the header; matching is case-insensitive.
    pub name: HttpHeaderName,
    /// Value of the header.
    pub value: String,
}

/// The mathematical shape of an [`HttpHeader`].
pub struct HttpHeaderView {
    pub name: Seq<char>,
    pub value: Seq<char>,
}

impl DeepView for HttpHeader {
    type V = HttpHeaderView;

    open spec fn deep_view(&self) -> HttpHeaderView {
        HttpHeaderView { name: self.name@, value: self.value@ }
    }
}

pub open spec fn http_header_keys() -> Seq<Seq<char>> {
    seq!["name"@, "value"@]
}

/// What decoding a header entry yields: both fields required strings.
pub open spec fn spec_decode_http_header(v: JsonView) -> Result<HttpHeaderView, ErrorView> {
    match v {
        JsonView::Obj(pairs) => match spec_scan(pairs, http_header_keys(), false) {
            Some(e) => Err(e),
            None => match spec_req_str(spec_field(pairs, "name"@), "name"@) {
                Err(e) => Err(e),
                Ok(name) => match spec_req_str(spec_field(pairs, "value"@), "value"@) {
                    Err(e) => Err(e),
                    Ok(value) => Ok(HttpHeaderView { name, value }),
                },
            },
        },
        _ => Err(ErrorView::WrongType("HttpHeader"@)),
    }
}

pub open spec fn http_header_fields(h: HttpHeaderView) -> Seq<(Seq<char>, Option<JsonView>)> {
    seq![("name"@, Some(JsonView::Str(h.name))), ("value"@, Some(JsonView::Str(h.value)))]
}

pub open spec fn spec_encode_http_header(h: HttpHeaderView) -> JsonView {
    JsonView::Obj(obj_of(http_header_fields(h)))
}

proof fn lemma_http_header_literals()
    ensures
        keys_distinct(http_header_keys()),
{
    reveal_strlit("name");
    reveal_strlit("value");
    assert("name"@.len() == 4);
    assert("value"@.len() == 5);
    let keys = http_header_keys();
    assert forall|i: int, j: int| 0 <= i < j < keys.len() implies keys[i] != keys[j] by {
        assert(keys[0] != keys[1]);
    }
}

fn http_header_keys_exec() -> (r: Vec<String>)
    ensures
        r.deep_view() == http_header_keys(),
        keys_distinct(http_header_keys()),
{
    let r = vec![String::from_str("name"), String::from_str("value")];
    proof {
        lemma_http_header_literals();
        assert(r.deep_view() =~= http_header_keys());
    }
    r
}

impl Codec for HttpHeader {
    open spec fn spec_decode(v: JsonView) -> Result<HttpHeaderView, ErrorView> {
        spec_decode_http_header(v)
    }

    open spec fn spec_encode(h: HttpHeaderView) -> JsonView {
        spec_encode_http_header(h)
    }

    open spec fn wf(h: HttpHeaderView) -> bool {
        true
    }

    fn decode(j: &Json) -> (r: Result<Self, DecodeError>)
        ensures
            res_view(r) == spec_decode_http_header(j.deep_view()),
    {
        match j {
            Json::Obj(pairs) => {
                let ghost kv = http_header_keys();
                let keys = http_header_keys_exec();
                let slots = match lookup_fields(pairs, &keys, false) {
                    Ok(s) => s,
                    Err(e) => {
                        return Err(e);
                    },
                };
                proof {
                    assert(kv[0] == "name"@);
                    assert(kv[1] == "value"@);
                }
                let name = match req_str_field(slot_value(pairs, &slots, 0, Ghost(kv)), "name") {
                    Ok(v) => v,
                    Err(e) => {
                        return Err(e);
                    },
                };
                let value = match req_str_field(slot_value(pairs, &slots, 1, Ghost(kv)), "value") {
                    Ok(v) => v,
                    Err(e) => {
                        return Err(e);
                    },
                };
                Ok(HttpHeader { name, value })
            },
            _ => Err(DecodeError::WrongType(String::from_str("HttpHeader"))),
        }
    }

    fn encode(&self) -> (j: Json)
        ensures
            j.deep_view() == spec_encode_http_header(self.deep_view()),
    {
        let mut obj: Vec<(String, Json)> = Vec::new();
        obj.push((String::from_str("name"), Json::Str(self.name.clone())));
        obj.push((String::from_str("value"), Json::Str(self.value.clone())));
        proof {
            broadcast use lemma_json_pair_seq_view;

            reveal_with_fuel(obj_of, 4);
            assert(json_pair_seq_view(obj@) =~= obj_of(http_header_fields(self.deep_view())));
        }
        Json::Obj(obj)
    }

    proof fn lemma_round_trip(h: HttpHeaderView)
        ensures
            spec_decode_http_header(spec_encode_http_header(h)) == Ok::<HttpHeaderView, ErrorView>(
                h,
            ),
    {
        lemma_http_header_literals();
        let fields = http_header_fields(h);
        let keys = http_header_keys();
        assert(fields_distinct(fields));
        assert(fields_within(fields, keys)) by {
            assert forall|i: int| 0 <= i < fields.len() implies keys.contains(
                (#[trigger] fields[i]).0,
            ) by {
                if i == 0 {
                    assert(keys[0] == fields[0].0);
                } else {
                    assert(keys[1] == fields[1].0);
                }
            }
        }
        lemma_obj_of_scan(fields, keys, false);
        lemma_obj_of_field_at(fields, 0);
        lemma_obj_of_field_at(fields, 1);
    }
}

/// Configuration for the request- and response-header-modifier filters:
/// headers to set, headers to add, and header names to remove.
#[derive(Clone, Debug, PartialEq)]
pub struct HttpRequestHeaderFilter {
    /// Headers overwritten before the action.
    pub set: Option<Vec<HttpHeader>>,
    /// Headers appended before the action.
    pub add: Option<Vec<HttpHeader>>,
    /// Names of headers removed before the action.
    pub remove: Option<Vec<String>>,
}

/// The mathematical shape of an [`HttpRequestHeaderFilter`].
pub struct HttpRequestHeaderFilterView {
    pub set: Option<Seq<HttpHeaderView>>,
    pub add: Option<Seq<HttpHeaderView>>,
    pub remove: Option<Seq<Seq<char>>>,
}

impl DeepView for HttpRequestHeaderFilter {
    type V = HttpRequestHeaderFilterView;

    open spec fn deep_view(&self) -> HttpRequestHeaderFilterView {
        HttpRequestHeaderFilterView {
            set: self.set.deep_view(),
            add: self.add.deep_view(),
            remove: self.remove.deep_view(),
        }
    }
}

pub open spec fn header_filter_keys() -> Seq<Seq<char>> {
    seq!["set"@, "add"@, "remove"@]
}

/// What decoding a header-modifier document yields: three optional lists.
pub open spec fn spec_decode_header_filter(v: JsonView) -> Result<
    HttpRequestHeaderFilterView,
    ErrorView,
> {
    match v {
        JsonView::Obj(pairs) => match spec_scan(pairs, header_filter_keys(), false) {
            Some(e) => Err(e),
            None => match spec_opt_list::<HttpHeader>(spec_field(pairs, "set"@), "set"@) {
                Err(e) => Err(e),
                Ok(set) => match spec_opt_list::<HttpHeader>(spec_field(pairs, "add"@), "add"@) {
                    Err(e) => Err(e),
                    Ok(add) => match spec_opt_list::<String>(
                        spec_field(pairs, "remove"@),
                        "remove"@,
                    ) {
                        Err(e) => Err(e),
                        Ok(remove) => Ok(HttpRequestHeaderFilterView { set, add, remove }),
                    },
                },
            },
        },
        _ => Err(ErrorView::WrongType("HttpRequestHeaderFilter"@)),
    }
}

pub open spec fn header_filter_fields(f: HttpRequestHeaderFilterView) -> Seq<
    (Seq<char>, Option<JsonView>),
> {
    seq![
        ("set"@, list_entry::<HttpHeader>(f.set)),
        ("add"@, list_entry::<HttpHeader>(f.add)),
        ("remove"@, list_entry::<String>(f.remove)),
    ]
}

pub open spec fn spec_encode_header_filter(f: HttpRequestHeaderFilterView) -> JsonView {
    JsonView::Obj(obj_of(header_filter_fields(f)))
}

proof fn lemma_header_filter_literals()
    ensures
        keys_distinct(header_filter_keys()),
{
    reveal_strlit("set");
    reveal_strlit("add");
    reveal_strlit("remove");
    assert("set"@.len() == 3);
    assert("add"@.len() == 3);
    assert("remove"@.len() == 6);
    assert("set"@[0] != "add"@[0]);
    let keys = header_filter_keys();
    assert forall|i: int, j: int| 0 <= i < j < keys.len() implies keys[i] != keys[j] by {
        assert(keys[0] != keys[1]);
        assert(keys[0] != keys[2]);
        assert(keys[1] != keys[2]);
    }
}

fn header_filter_keys_exec() -> (r: Vec<String>)
    ensures
        r.deep_view() == header_filter_keys(),
        keys_distinct(header_filter_keys()),
{
    let r = vec![String::from_str("set"), String::from_str("add"), String::from_str("remove")];
    proof {
        lemma_header_filter_literals();
        assert(r.deep_view() =~= header_filter_keys());
    }
    r
}

impl Codec for HttpRequestHeaderFilter {
    open spec fn spec_decode(v: JsonView) -> Result<HttpRequestHeaderFilterView, ErrorView> {
        spec_decode_header_filter(v)
    }

    open spec fn spec_encode(f: HttpRequestHeaderFilterView) -> JsonView {
        spec_encode_header_filter(f)
    }

    open spec fn wf(f: HttpRequestHeaderFilterView) -> bool {
        true
    }

    fn decode(j: &Json) -> (r: Result<Self, DecodeError>)
        ensures
            res_view(r) == spec_decode_header_filter(j.deep_view()),
    {
        match j {
            Json::Obj(pairs) => {
                let ghost kv = header_filter_keys();
                let keys = header_filter_keys_exec();
                let slots = match lookup_fields(pairs, &keys, false) {
                    Ok(s) => s,
                    Err(e) => {
                        return Err(e);
                    },
                };
                proof {
                    assert(kv[0] == "set"@);
                    assert(kv[1] == "add"@);
                    assert(kv[2] == "remove"@);
                }
                let set = match opt_list_field::<HttpHeader>(
                    slot_value(pairs, &slots, 0, Ghost(kv)),
                    "set",
                ) {
                    Ok(v) => v,
                    Err(e) => {
                        return Err(e);
                    },
                };
                let add = match opt_list_field::<HttpHeader>(
                    slot_value(pairs, &slots, 1, Ghost(kv)),
                    "add",
                ) {
                    Ok(v) => v,
                    Err(e) => {
                        return Err(e);
                    },
                };
                let remove = match opt_list_field::<String>(
                    slot_value(pairs, &slots, 2, Ghost(kv)),
                    "remove",
                ) {
                    Ok(v) => v,
                    Err(e) => {
                        return Err(e);
                    },
                };
                Ok(HttpRequestHeaderFilter { set, add, remove })
            },
            _ => Err(DecodeError::WrongType(String::from_str("HttpRequestHeaderFilter"))),
        }
    }

    fn encode(&self) -> (j: Json)
        ensures
            j.deep_view() == spec_encode_header_filter(self.deep_view()),
    {
        let mut obj: Vec<(String, Json)> = Vec::new();
        if let Some(set) = &self.set {
            obj.push((String::from_str("set"), Json::Arr(encode_vec::<HttpHeader>(set))));
        }
        if let Some(add) = &self.add {
            obj.push((String::from_str("add"), Json::Arr(encode_vec::<HttpHeader>(add))));
        }
        if let Some(remove) = &self.remove {
            obj.push((String::from_str("remove"), Json::Arr(encode_vec::<String>(remove))));
        }
        proof {
            broadcast use lemma_json_pair_seq_view;

            reveal_with_fuel(obj_of, 5);
            assert(json_pair_seq_view(obj@) =~= obj_of(header_filter_fields(self.deep_view())));
        }
        Json::Obj(obj)
    }

    proof fn lemma_round_trip(f: HttpRequestHeaderFilterView)
        ensures
            spec_decode_header_filter(spec_encode_header_filter(f)) == Ok::<
                HttpRequestHeaderFilterView,
                ErrorView,
            >(f),
    {
        lemma_header_filter_literals();
        let fields = header_filter_fields(f);
        let keys = header_filter_keys();
        assert(fields_distinct(fields));
        assert(fields_within(fields, keys)) by {
            assert forall|i: int| 0 <= i < fields.len() implies keys.contains(
                (#[trigger] fields[i]).0,
            ) by {
                if i == 0 {
                    assert(keys[0] == fields[0].0);
                } else if i == 1 {
                    assert(keys[1] == fields[1].0);
                } else {
                    assert(keys[2] == fields[2].0);
                }
            }
        }
        lemma_obj_of_scan(fields, keys, false);
        lemma_obj_of_field_at(fields, 0);
        lemma_obj_of_field_at(fields, 1);
        lemma_obj_of_field_at(fields, 2);
        if f.set is Some {
            lemma_seq_round_trip::<HttpHeader>(f.set->0);
        }
        if f.add is Some {
            lemma_seq_round_trip::<HttpHeader>(f.add->0);
        }
        if f.remove is Some {
            lemma_seq_round_trip::<String>(f.remove->0);
        }
    }
}

} // verus!

verus! {

/// Configuration for path modifiers: replace the full path, or replace
/// the matched prefix, chosen by the `type` discriminant.
#[derive(Clone, Debug, PartialEq)]
pub enum HttpPathModifier {
    ReplaceFullPath { replace_full_path: String },
    ReplacePrefixMatch { replace_prefix_match: String },
}

/// The mathematical shape of an [`HttpPathModifier`].
pub enum HttpPathModifierView {
    ReplaceFullPath { replace_full_path: Seq<char> },
    ReplacePrefixMatch { replace_prefix_match: Seq<char> },
}

impl DeepView for HttpPathModifier {
    type V = HttpPathModifierView;

    open spec fn deep_view(&self) -> HttpPathModifierView {
        match self {
            HttpPathModifier::ReplaceFullPath { replace_full_path } =>
                HttpPathModifierView::ReplaceFullPath { replace_full_path: replace_full_path@ },
            HttpPathModifier::ReplacePrefixMatch { replace_prefix_match } =>
                HttpPathModifierView::ReplacePrefixMatch {
                replace_prefix_match: replace_prefix_match@,
            },
        }
    }
}

pub open spec fn path_modifier_keys() -> Seq<Seq<char>> {
    seq!["type"@, "replaceFullPath"@, "replacePrefixMatch"@]
}

pub open spec fn path_modifier_variants() -> Seq<Seq<char>> {
    seq!["ReplaceFullPath"@, "ReplacePrefixMatch"@]
}

/// What decoding a path-modifier document yields: the `type` selects the
/// variant, whose payload field is then required.
pub open spec fn spec_decode_path_modifier(v: JsonView) -> Result<HttpPathModifierView, ErrorView> {
    match v {
        JsonView::Obj(pairs) => match spec_scan(pairs, path_modifier_keys(), false) {
            Some(e) => Err(e),
            None => match spec_req_str(spec_field(pairs, "type"@), "type"@) {
                Err(e) => Err(e),
                Ok(t) => if t == "ReplaceFullPath"@ {
                    match spec_req_str(spec_field(pairs, "replaceFullPath"@), "replaceFullPath"@) {
                        Err(e) => Err(e),
                        Ok(replace_full_path) => Ok(
                            HttpPathModifierView::ReplaceFullPath { replace_full_path },
                        ),
                    }
                } else if t == "ReplacePrefixMatch"@ {
                    match spec_req_str(
                        spec_field(pairs, "replacePrefixMatch"@),
                        "replacePrefixMatch"@,
                    ) {
                        Err(e) => Err(e),
                        Ok(replace_prefix_match) => Ok(
                            HttpPathModifierView::ReplacePrefixMatch { replace_prefix_match },
                        ),
                    }
                } else {
                    Err(ErrorView::InvalidDiscriminant(t, path_modifier_variants()))
                },
            },
        },
        _ => Err(ErrorView::WrongType("HttpPathModifier"@)),
    }
}

pub open spec fn path_modifier_fields(m: HttpPathModifierView) -> Seq<
    (Seq<char>, Option<JsonView>),
> {
    match m {
        HttpPathModifierView::ReplaceFullPath { replace_full_path } => seq![
            ("type"@, Some(JsonView::Str("ReplaceFullPath"@))),
            ("replaceFullPath"@, Some(JsonView::Str(replace_full_path))),
        ],
        HttpPathModifierView::ReplacePrefixMatch { replace_prefix_match } => seq![
            ("type"@, Some(JsonView::Str("ReplacePrefixMatch"@))),
            ("replacePrefixMatch"@, Some(JsonView::Str(replace_prefix_match))),
        ],
    }
}

pub open spec fn spec_encode_path_modifier(m: HttpPathModifierView) -> JsonView {
    JsonView::Obj(obj_of(path_modifier_fields(m)))
}

proof fn lemma_path_modifier_literals()
    ensures
        keys_distinct(path_modifier_keys()),
        "ReplaceFullPath"@ != "ReplacePrefixMatch"@,
        "type"@ != "replaceFullPath"@,
        "type"@ != "replacePrefixMatch"@,
        "replaceFullPath"@ != "replacePrefixMatch"@,
{
    reveal_strlit("type");
    reveal_strlit("replaceFullPath");
    reveal_strlit("replacePrefixMatch");
    reveal_strlit("ReplaceFullPath");
    reveal_strlit("ReplacePrefixMatch");
    assert("type"@.len() == 4);
    assert("replaceFullPath"@.len() == 15);
    assert("replacePrefixMatch"@.len() == 18);
    assert("ReplaceFullPath"@.len() == 15);
    assert("ReplacePrefixMatch"@.len() == 18);
    let keys = path_modifier_keys();
    assert forall|i: int, j: int| 0 <= i < j < keys.len() implies keys[i] != keys[j] by {
        assert(keys[0] != keys[1]);
        assert(keys[0] != keys[2]);
        assert(keys[1] != keys[2]);
    }
}

fn path_modifier_keys_exec() -> (r: Vec<String>)
    ensures
        r.deep_view() == path_modifier_keys(),
        keys_distinct(path_modifier_keys()),
{
    let r = vec![
        String::from_str("type"),
        String::from_str("replaceFullPath"),
        String::from_str("replacePrefixMatch"),
    ];
    proof {
        lemma_path_modifier_literals();
        assert(r.deep_view() =~= path_modifier_keys());
    }
    r
}

impl Codec for HttpPathModifier {
    open spec fn spec_decode(v: JsonView) -> Result<HttpPathModifierView, ErrorView> {
        spec_decode_path_modifier(v)
    }

    open spec fn spec_encode(m: HttpPathModifierView) -> JsonView {
        spec_encode_path_modifier(m)
    }

    open spec fn wf(m: HttpPathModifierView) -> bool {
        true
    }

    fn decode(j: &Json) -> (r: Result<Self, DecodeError>)
        ensures
            res_view(r) == spec_decode_path_modifier(j.deep_view()),
    {
        match j {
            Json::Obj(pairs) => {
                let ghost kv = path_modifier_keys();
                let keys = path_modifier_keys_exec();
                let slots = match lookup_fields(pairs, &keys, false) {
                    Ok(s) => s,
                    Err(e) => {
                        return Err(e);
                    },
                };
                proof {
                    assert(kv[0] == "type"@);
                    assert(kv[1] == "replaceFullPath"@);
                    assert(kv[2] == "replacePrefixMatch"@);
                }
                let t = match req_str_field(slot_value(pairs, &slots, 0, Ghost(kv)), "type") {
                    Ok(v) => v,
                    Err(e) => {
                        return Err(e);
                    },
                };
                if t.eq(&String::from_str("ReplaceFullPath")) {
                    let replace_full_path = match req_str_field(
                        slot_value(pairs, &slots, 1, Ghost(kv)),
                        "replaceFullPath",
                    ) {
                        Ok(v) => v,
                        Err(e) => {
                            return Err(e);
                        },
                    };
                    Ok(HttpPathModifier::ReplaceFullPath { replace_full_path })
                } else if t.eq(&String::from_str("ReplacePrefixMatch")) {
                    let replace_prefix_match = match req_str_field(
                        slot_value(pairs, &slots, 2, Ghost(kv)),
                        "replacePrefixMatch",
                    ) {
                        Ok(v) => v,
                        Err(e) => {
                            return Err(e);
                        },
                    };
                    Ok(HttpPathModifier::ReplacePrefixMatch { replace_prefix_match })
                } else {
                    let allowed = vec![
                        String::from_str("ReplaceFullPath"),
                        String::from_str("ReplacePrefixMatch"),
                    ];
                    proof {
                        assert(allowed.deep_view() =~= path_modifier_variants());
                    }
                    Err(DecodeError::InvalidDiscriminant(t, allowed))
                }
            },
            _ => Err(DecodeError::WrongType(String::from_str("HttpPathModifier"))),
        }
    }

    fn encode(&self) -> (j: Json)
        ensures
            j.deep_view() == spec_encode_path_modifier(self.deep_view()),
    {
        let mut obj: Vec<(String, Json)> = Vec::new();
        match self {
            HttpPathModifier::ReplaceFullPath { replace_full_path } => {
                obj.push(
                    (String::from_str("type"), Json::Str(String::from_str("ReplaceFullPath"))),
                );
                obj.push(
                    (String::from_str("replaceFullPath"), Json::Str(replace_full_path.clone())),
                );
            },
            HttpPathModifier::ReplacePrefixMatch { replace_prefix_match } => {
                obj.push(
                    (String::from_str("type"), Json::Str(String::from_str("ReplacePrefixMatch"))),
                );
                obj.push(
                    (
                        String::from_str("replacePrefixMatch"),
                        Json::Str(replace_prefix_match.clone()),
                    ),
                );
            },
        }
        proof {
            broadcast use lemma_json_pair_seq_view;

            reveal_with_fuel(obj_of, 4);
            assert(json_pair_seq_view(obj@) =~= obj_of(path_modifier_fields(self.deep_view())));
        }
        Json::Obj(obj)
    }

    proof fn lemma_round_trip(m: HttpPathModifierView)
        ensures
            spec_decode_path_modifier(spec_encode_path_modifier(m)) == Ok::<
                HttpPathModifierView,
                ErrorView,
            >(m),
    {
        lemma_path_modifier_literals();
        let fields = path_modifier_fields(m);
        let keys = path_modifier_keys();
        assert(fields_distinct(fields));
        assert(fields_within(fields, keys)) by {
            assert forall|i: int| 0 <= i < fields.len() implies keys.contains(
                (#[trigger] fields[i]).0,
            ) by {
                if i == 0 {
                    assert(keys[0] == fields[0].0);
                } else {
                    match m {
                        HttpPathModifierView::ReplaceFullPath { .. } => {
                            assert(keys[1] == fields[1].0);
                        },
                        HttpPathModifierView::ReplacePrefixMatch { .. } => {
                            assert(keys[2] == fields[1].0);
                        },
                    }
                }
            }
        }
        lemma_obj_of_scan(fields, keys, false);
        lemma_obj_of_field_at(fields, 0);
        lemma_obj_of_field_at(fields, 1);
        match m {
            HttpPathModifierView::ReplaceFullPath { .. } => {
                crate::wire::lemma_obj_of_not_key(fields, "replacePrefixMatch"@);
            },
            HttpPathModifierView::ReplacePrefixMatch { .. } => {
                crate::wire::lemma_obj_of_not_key(fields, "replaceFullPath"@);
            },
        }
    }
}

/// Configuration for the request-mirror filter: where mirrored requests
/// are sent.
#[derive(Clone, Debug, PartialEq)]
pub struct HttpRequestMirrorFilter {
    /// The resource mirrored requests are sent to.
    pub backend_ref: BackendObjectReference,
}

/// The mathematical shape of an [`HttpRequestMirrorFilter`].
pub struct HttpRequestMirrorFilterView {
    pub backend_ref: BackendObjectReferenceView,
}

impl DeepView for HttpRequestMirrorFilter {
    type V = HttpRequestMirrorFilterView;

    open spec fn deep_view(&self) -> HttpRequestMirrorFilterView {
        HttpRequestMirrorFilterView { backend_ref: self.backend_ref.deep_view() }
    }
}

pub open spec fn mirror_filter_keys() -> Seq<Seq<char>> {
    seq!["backendRef"@]
}

/// What decoding a mirror filter yields: a required backend reference.
pub open spec fn spec_decode_mirror_filter(v: JsonView) -> Result<
    HttpRequestMirrorFilterView,
    ErrorView,
> {
    match v {
        JsonView::Obj(pairs) => match spec_scan(pairs, mirror_filter_keys(), false) {
            Some(e) => Err(e),
            None => match spec_req_val::<BackendObjectReference>(
                spec_field(pairs, "backendRef"@),
                "backendRef"@,
            ) {
                Err(e) => Err(e),
                Ok(backend_ref) => Ok(HttpRequestMirrorFilterView { backend_ref }),
            },
        },
        _ => Err(ErrorView::WrongType("HttpRequestMirrorFilter"@)),
    }
}

pub open spec fn mirror_filter_fields(f: HttpRequestMirrorFilterView) -> Seq<
    (Seq<char>, Option<JsonView>),
> {
    seq![
        ("backendRef"@, Some(crate::object_reference::spec_encode_backend_obj_ref(f.backend_ref))),
    ]
}

pub open spec fn spec_encode_mirror_filter(f: HttpRequestMirrorFilterView) -> JsonView {
    JsonView::Obj(obj_of(mirror_filter_fields(f)))
}

fn mirror_filter_keys_exec() -> (r: Vec<String>)
    ensures
        r.deep_view() == mirror_filter_keys(),
        keys_distinct(mirror_filter_keys()),
{
    let r = vec![String::from_str("backendRef")];
    proof {
        assert(r.deep_view() =~= mirror_filter_keys());
    }
    r
}

impl Codec for HttpRequestMirrorFilter {
    open spec fn spec_decode(v: JsonView) -> Result<HttpRequestMirrorFilterView, ErrorView> {
        spec_decode_mirror_filter(v)
    }

    open spec fn spec_encode(f: HttpRequestMirrorFilterView) -> JsonView {
        spec_encode_mirror_filter(f)
    }

    open spec fn wf(f: HttpRequestMirrorFilterView) -> bool {
        true
    }

    fn decode(j: &Json) -> (r: Result<Self, DecodeError>)
        ensures
            res_view(r) == spec_decode_mirror_filter(j.deep_view()),
    {
        match j {
            Json::Obj(pairs) => {
                let ghost kv = mirror_filter_keys();
                let keys = mirror_filter_keys_exec();
                let slots = match lookup_fields(pairs, &keys, false) {
                    Ok(s) => s,
                    Err(e) => {
                        return Err(e);
                    },
                };
                proof {
                    assert(kv[0] == "backendRef"@);
                }
                let backend_ref = match req_val_field::<BackendObjectReference>(
                    slot_value(pairs, &slots, 0, Ghost(kv)),
                    "backendRef",
                ) {
                    Ok(v) => v,
                    Err(e) => {
                        return Err(e);
                    },
                };
                Ok(HttpRequestMirrorFilter { backend_ref })
            },
            _ => Err(DecodeError::WrongType(String::from_str("HttpRequestMirrorFilter"))),
        }
    }

    fn encode(&self) -> (j: Json)
        ensures
            j.deep_view() == spec_encode_mirror_filter(self.deep_view()),
    {
        let mut obj: Vec<(String, Json)> = Vec::new();
        obj.push((String::from_str("backendRef"), self.backend_ref.encode()));
        proof {
            broadcast use lemma_json_pair_seq_view;

            reveal_with_fuel(obj_of, 3);
            assert(json_pair_seq_view(obj@) =~= obj_of(mirror_filter_fields(self.deep_view())));
        }
        Json::Obj(obj)
    }

    proof fn lemma_round_trip(f: HttpRequestMirrorFilterView)
        ensures
            spec_decode_mirror_filter(spec_encode_mirror_filter(f)) == Ok::<
                HttpRequestMirrorFilterView,
                ErrorView,
            >(f),
    {
        let fields = mirror_filter_fields(f);
        let keys = mirror_filter_keys();
        assert(fields_distinct(fields));
        assert(fields_within(fields, keys)) by {
            assert forall|i: int| 0 <= i < fields.len() implies keys.contains(
                (#[trigger] fields[i]).0,
            ) by {
                assert(keys[0] == fields[0].0);
            }
        }
        lemma_obj_of_scan(fields, keys, false);
        lemma_obj_of_field_at(fields, 0);
        BackendObjectReference::lemma_round_trip(f.backend_ref);
    }
}

} // verus!

verus! {

/// A filter that answers the request with an HTTP redirection.
#[derive(Clone, Debug, PartialEq)]
pub struct HttpRequestRedirectFilter {
    /// Scheme in the `Location` header; the request's scheme when absent.
    pub scheme: Option<String>,
    /// Hostname in the `Location` header; the request's host when absent.
    pub hostname: Option<PreciseHostname>,
    /// How the request path becomes the `Location` path.
    pub path: Option<HttpPathModifier>,
    /// Port in the `Location` header; derived from the scheme or the
    /// listener when absent.
    pub port: Option<PortNumber>,
    /// HTTP status code of the response.
    pub status_code: Option<u16>,
}

/// The mathematical shape of an [`HttpRequestRedirectFilter`].
pub struct HttpRequestRedirectFilterView {
    pub scheme: Option<Seq<char>>,
    pub hostname: Option<Seq<char>>,
    pub path: Option<HttpPathModifierView>,
    pub port: Option<u16>,
    pub status_code: Option<u16>,
}

impl DeepView for HttpRequestRedirectFilter {
    type V = HttpRequestRedirectFilterView;

    open spec fn deep_view(&self) -> HttpRequestRedirectFilterView {
        HttpRequestRedirectFilterView {
            scheme: self.scheme.deep_view(),
            hostname: self.hostname.deep_view(),
            path: self.path.deep_view(),
            port: self.port,
            status_code: self.status_code,
        }
    }
}

pub open spec fn redirect_filter_keys() -> Seq<Seq<char>> {
    seq!["scheme"@, "hostname"@, "path"@, "port"@, "statusCode"@]
}

/// What decoding a redirect filter yields: every field optional.
pub open spec fn spec_decode_redirect_filter(v: JsonView) -> Result<
    HttpRequestRedirectFilterView,
    ErrorView,
> {
    match v {
        JsonView::Obj(pairs) => match spec_scan(pairs, redirect_filter_keys(), false) {
            Some(e) => Err(e),
            None => match spec_opt_str(spec_field(pairs, "scheme"@), "scheme"@) {
                Err(e) => Err(e),
                Ok(scheme) => match spec_opt_str(spec_field(pairs, "hostname"@), "hostname"@) {
                    Err(e) => Err(e),
                    Ok(hostname) => match spec_opt_val::<HttpPathModifier>(
                        spec_field(pairs, "path"@),
                    ) {
                        Err(e) => Err(e),
                        Ok(path) => match spec_opt_u16(spec_field(pairs, "port"@), "port"@) {
                            Err(e) => Err(e),
                            Ok(port) => match spec_opt_u16(
                                spec_field(pairs, "statusCode"@),
                                "statusCode"@,
                            ) {
                                Err(e) => Err(e),
                                Ok(status_code) => Ok(
                                    HttpRequestRedirectFilterView {
                                        scheme,
                                        hostname,
                                        path,
                                        port,
                                        status_code,
                                    },
                                ),
                            },
                        },
                    },
                },
            },
        },
        _ => Err(ErrorView::WrongType("HttpRequestRedirectFilter"@)),
    }
}

pub open spec fn redirect_filter_fields(f: HttpRequestRedirectFilterView) -> Seq<
    (Seq<char>, Option<JsonView>),
> {
    seq![
        ("scheme"@, str_entry(f.scheme)),
        ("hostname"@, str_entry(f.hostname)),
        ("path"@, val_entry::<HttpPathModifier>(f.path)),
        ("port"@, u16_entry(f.port)),
        ("statusCode"@, u16_entry(f.status_code)),
    ]
}

pub open spec fn spec_encode_redirect_filter(f: HttpRequestRedirectFilterView) -> JsonView {
    JsonView::Obj(obj_of(redirect_filter_fields(f)))
}

proof fn lemma_redirect_filter_literals()
    ensures
        keys_distinct(redirect_filter_keys()),
        keys_distinct(rewrite_filter_keys()),
{
    reveal_strlit("scheme");
    reveal_strlit("hostname");
    reveal_strlit("path");
    reveal_strlit("port");
    reveal_strlit("statusCode");
    assert("scheme"@.len() == 6);
    assert("hostname"@.len() == 8);
    assert("path"@.len() == 4);
    assert("port"@.len() == 4);
    assert("statusCode"@.len() == 10);
    assert("path"@[1] != "port"@[1]);
    let keys = redirect_filter_keys();
    assert forall|i: int, j: int| 0 <= i < j < keys.len() implies keys[i] != keys[j] by {
        assert(keys[0] != keys[1]);
        assert(keys[0] != keys[2]);
        assert(keys[0] != keys[3]);
        assert(keys[0] != keys[4]);
        assert(keys[1] != keys[2]);
        assert(keys[1] != keys[3]);
        assert(keys[1] != keys[4]);
        assert(keys[2] != keys[3]);
        assert(keys[2] != keys[4]);
        assert(keys[3] != keys[4]);
    }
    let k2 = rewrite_filter_keys();
    assert forall|i: int, j: int| 0 <= i < j < k2.len() implies k2[i] != k2[j] by {
        assert(k2[0] != k2[1]);
    }
}

fn redirect_filter_keys_exec() -> (r: Vec<String>)
    ensures
        r.deep_view() == redirect_filter_keys(),
        keys_distinct(redirect_filter_keys()),
{
    let r = vec![
        String::from_str("scheme"),
        String::from_str("hostname"),
        String::from_str("path"),
        String::from_str("port"),
        String::from_str("statusCode"),
    ];
    proof {
        lemma_redirect_filter_literals();
        assert(r.deep_view() =~= redirect_filter_keys());
    }
    r
}

impl Codec for HttpRequestRedirectFilter {
    open spec fn spec_decode(v: JsonView) -> Result<HttpRequestRedirectFilterView, ErrorView> {
        spec_decode_redirect_filter(v)
    }

    open spec fn spec_encode(f: HttpRequestRedirectFilterView) -> JsonView {
        spec_encode_redirect_filter(f)
    }

    open spec fn wf(f: HttpRequestRedirectFilterView) -> bool {
        true
    }

    fn decode(j: &Json) -> (r: Result<Self, DecodeError>)
        ensures
            res_view(r) == spec_decode_redirect_filter(j.deep_view()),
    {
        match j {
            Json::Obj(pairs) => {
                let ghost kv = redirect_filter_keys();
                let keys = redirect_filter_keys_exec();
                let slots = match lookup_fields(pairs, &keys, false) {
                    Ok(s) => s,
                    Err(e) => {
                        return Err(e);
                    },
                };
                proof {
                    assert(kv[0] == "scheme"@);
                    assert(kv[1] == "hostname"@);
                    assert(kv[2] == "path"@);
                    assert(kv[3] == "port"@);
                    assert(kv[4] == "statusCode"@);
                }
                let scheme = match opt_str_field(slot_value(pairs, &slots, 0, Ghost(kv)), "scheme")
                    {
                    Ok(v) => v,
                    Err(e) => {
                        return Err(e);
                    },
                };
                let hostname = match opt_str_field(
                    slot_value(pairs, &slots, 1, Ghost(kv)),
                    "hostname",
                ) {
                    Ok(v) => v,
                    Err(e) => {
                        return Err(e);
                    },
                };
                let path = match opt_val_field::<HttpPathModifier>(
                    slot_value(pairs, &slots, 2, Ghost(kv)),
                ) {
                    Ok(v) => v,
                    Err(e) => {
                        return Err(e);
                    },
                };
                let port = match opt_u16_field(slot_value(pairs, &slots, 3, Ghost(kv)), "port") {
                    Ok(v) => v,
                    Err(e) => {
                        return Err(e);
                    },
                };
                let status_code = match opt_u16_field(
                    slot_value(pairs, &slots, 4, Ghost(kv)),
                    "statusCode",
                ) {
                    Ok(v) => v,
                    Err(e) => {
                        return Err(e);
                    },
                };
                Ok(HttpRequestRedirectFilter { scheme, hostname, path, port, status_code })
            },
            _ => Err(DecodeError::WrongType(String::from_str("HttpRequestRedirectFilter"))),
        }
    }

    fn encode(&self) -> (j: Json)
        ensures
            j.deep_view() == spec_encode_redirect_filter(self.deep_view()),
    {
        let mut obj: Vec<(String, Json)> = Vec::new();
        if let Some(s) = &self.scheme {
            obj.push((String::from_str("scheme"), Json::Str(s.clone())));
        }
        if let Some(h) = &self.hostname {
            obj.push((String::from_str("hostname"), Json::Str(h.clone())));
        }
        if let Some(p) = &self.path {
            obj.push((String::from_str("path"), p.encode()));
        }
        if let Some(p) = &self.port {
            obj.push((String::from_str("port"), Json::Int(*p as i64)));
        }
        if let Some(c) = &self.status_code {
            obj.push((String::from_str("statusCode"), Json::Int(*c as i64)));
        }
        proof {
            broadcast use lemma_json_pair_seq_view;

            reveal_with_fuel(obj_of, 7);
            assert(json_pair_seq_view(obj@) =~= obj_of(redirect_filter_fields(self.deep_view())));
        }
        Json::Obj(obj)
    }

    proof fn lemma_round_trip(f: HttpRequestRedirectFilterView)
        ensures
            spec_decode_redirect_filter(spec_encode_redirect_filter(f)) == Ok::<
                HttpRequestRedirectFilterView,
                ErrorView,
            >(f),
    {
        lemma_redirect_filter_literals();
        let fields = redirect_filter_fields(f);
        let keys = redirect_filter_keys();
        assert(fields_distinct(fields));
        assert(fields_within(fields, keys)) by {
            assert forall|i: int| 0 <= i < fields.len() implies keys.contains(
                (#[trigger] fields[i]).0,
            ) by {
                if i == 0 {
                    assert(keys[0] == fields[0].0);
                } else if i == 1 {
                    assert(keys[1] == fields[1].0);
                } else if i == 2 {
                    assert(keys[2] == fields[2].0);
                } else if i == 3 {
                    assert(keys[3] == fields[3].0);
                } else {
                    assert(keys[4] == fields[4].0);
                }
            }
        }
        lemma_obj_of_scan(fields, keys, false);
        lemma_obj_of_field_at(fields, 0);
        lemma_obj_of_field_at(fields, 1);
        lemma_obj_of_field_at(fields, 2);
        lemma_obj_of_field_at(fields, 3);
        lemma_obj_of_field_at(fields, 4);
        if f.path is Some {
            HttpPathModifier::lemma_round_trip(f.path->0);
        }
    }
}

/// A filter that modifies the request's URL during forwarding.
#[derive(Clone, Debug, PartialEq)]
pub struct HttpUrlRewriteFilter {
    /// Value to replace the `Host` header with during forwarding.
    pub hostname: Option<PreciseHostname>,
    /// A path rewrite.
    pub path: Option<HttpPathModifier>,
}

/// The mathematical shape of an [`HttpUrlRewriteFilter`].
pub struct HttpUrlRewriteFilterView {
    pub hostname: Option<Seq<char>>,
    pub path: Option<HttpPathModifierView>,
}

impl DeepView for HttpUrlRewriteFilter {
    type V = HttpUrlRewriteFilterView;

    open spec fn deep_view(&self) -> HttpUrlRewriteFilterView {
        HttpUrlRewriteFilterView {
            hostname: self.hostname.deep_view(),
            path: self.path.deep_view(),
        }
    }
}

pub open spec fn rewrite_filter_keys() -> Seq<Seq<char>> {
    seq!["hostname"@, "path"@]
}

/// What decoding a URL-rewrite filter yields: both fields optional.
pub open spec fn spec_decode_rewrite_filter(v: JsonView) -> Result<
    HttpUrlRewriteFilterView,
    ErrorView,
> {
    match v {
        JsonView::Obj(pairs) => match spec_scan(pairs, rewrite_filter_keys(), false) {
            Some(e) => Err(e),
            None => match spec_opt_str(spec_field(pairs, "hostname"@), "hostname"@) {
                Err(e) => Err(e),
                Ok(hostname) => match spec_opt_val::<HttpPathModifier>(
                    spec_field(pairs, "path"@),
                ) {
                    Err(e) => Err(e),
                    Ok(path) => Ok(HttpUrlRewriteFilterView { hostname, path }),
                },
            },
        },
        _ => Err(ErrorView::WrongType("HttpUrlRewriteFilter"@)),
    }
}

pub open spec fn rewrite_filter_fields(f: HttpUrlRewriteFilterView) -> Seq<
    (Seq<char>, Option<JsonView>),
> {
    seq![("hostname"@, str_entry(f.hostname)), ("path"@, val_entry::<HttpPathModifier>(f.path))]
}

pub open spec fn spec_encode_rewrite_filter(f: HttpUrlRewriteFilterView) -> JsonView {
    JsonView::Obj(obj_of(rewrite_filter_fields(f)))
}

fn rewrite_filter_keys_exec() -> (r: Vec<String>)
    ensures
        r.deep_view() == rewrite_filter_keys(),
        keys_distinct(rewrite_filter_keys()),
{
    let r = vec![String::from_str("hostname"), String::from_str("path")];
    proof {
        lemma_redirect_filter_literals();
        assert(r.deep_view() =~= rewrite_filter_keys());
    }
    r
}

impl Codec for HttpUrlRewriteFilter {
    open spec fn spec_decode(v: JsonView) -> Result<HttpUrlRewriteFilterView, ErrorView> {
        spec_decode_rewrite_filter(v)
    }

    open spec fn spec_encode(f: HttpUrlRewriteFilterView) -> JsonView {
        spec_encode_rewrite_filter(f)
    }

    open spec fn wf(f: HttpUrlRewriteFilterView) -> bool {
        true
    }

    fn decode(j: &Json) -> (r: Result<Self, DecodeError>)
        ensures
            res_view(r) == spec_decode_rewrite_filter(j.deep_view()),
    {
        match j {
            Json::Obj(pairs) => {
                let ghost kv = rewrite_filter_keys();
                let keys = rewrite_filter_keys_exec();
                let slots = match lookup_fields(pairs, &keys, false) {
                    Ok(s) => s,
                    Err(e) => {
                        return Err(e);
                    },
                };
                proof {
                    assert(kv[0] == "hostname"@);
                    assert(kv[1] == "path"@);
                }
                let hostname = match opt_str_field(
                    slot_value(pairs, &slots, 0, Ghost(kv)),
                    "hostname",
                ) {
                    Ok(v) => v,
                    Err(e) => {
                        return Err(e);
                    },
                };
                let path = match opt_val_field::<HttpPathModifier>(
                    slot_value(pairs, &slots, 1, Ghost(kv)),
                ) {
                    Ok(v) => v,
                    Err(e) => {
                        return Err(e);
                    },
                };
                Ok(HttpUrlRewriteFilter { hostname, path })
            },
            _ => Err(DecodeError::WrongType(String::from_str("HttpUrlRewriteFilter"))),
        }
    }

    fn encode(&self) -> (j: Json)
        ensures
            j.deep_view() == spec_encode_rewrite_filter(self.deep_view()),
    {
        let mut obj: Vec<(String, Json)> = Vec::new();
        if let Some(h) = &self.hostname {
            obj.push((String::from_str("hostname"), Json::Str(h.clone())));
        }
        if let Some(p) = &self.path {
            obj.push((String::from_str("path"), p.encode()));
        }
        proof {
            broadcast use lemma_json_pair_seq_view;

            reveal_with_fuel(obj_of, 4);
            assert(json_pair_seq_view(obj@) =~= obj_of(rewrite_filter_fields(self.deep_view())));
        }
        Json::Obj(obj)
    }

    proof fn lemma_round_trip(f: HttpUrlRewriteFilterView)
        ensures
            spec_decode_rewrite_filter(spec_encode_rewrite_filter(f)) == Ok::<
                HttpUrlRewriteFilterView,
                ErrorView,
            >(f),
    {
        lemma_redirect_filter_literals();
        let fields = rewrite_filter_fields(f);
        let keys = rewrite_filter_keys();
        assert(fields_distinct(fields));
        assert(fields_within(fields, keys)) by {
            assert forall|i: int| 0 <= i < fields.len() implies keys.contains(
                (#[trigger] fields[i]).0,
            ) by {
                if i == 0 {
                    assert(keys[0] == fields[0].0);
                } else {
                    assert(keys[1] == fields[1].0);
                }
            }
        }
        lemma_obj_of_scan(fields, keys, false);
        lemma_obj_of_field_at(fields, 0);
        lemma_obj_of_field_at(fields, 1);
        if f.path is Some {
            HttpPathModifier::lemma_round_trip(f.path->0);
        }
    }
}

} // verus!

verus! {

/// A processing step applied to requests or responses during the
/// request lifecycle: one of a closed set of filters, selected by the
/// `type` discriminant, with the configuration nested under a field
/// named after the variant.
#[derive(Clone, Debug, PartialEq)]
pub enum HttpRouteFilter {
    /// Modifies request headers before forwarding.
    RequestHeaderModifier { request_header_modifier: HttpRequestHeaderFilter },
    /// Modifies response headers before returning.
    ResponseHeaderModifier { response_header_modifier: HttpRequestHeaderFilter },
    /// Mirrors requests to another backend.
    RequestMirror { request_mirror: HttpRequestMirrorFilter },
    /// Answers the request with an HTTP redirection.
    RequestRedirect { request_redirect: HttpRequestRedirectFilter },
    /// Modifies the request's URL during forwarding.
    URLRewrite { url_rewrite: HttpUrlRewriteFilter },
    /// An implementation-specific extension.
    ExtensionRef { extension_ref: LocalObjectReference },
}

/// The mathematical shape of an [`HttpRouteFilter`].
pub enum HttpRouteFilterView {
    RequestHeaderModifier { request_header_modifier: HttpRequestHeaderFilterView },
    ResponseHeaderModifier { response_header_modifier: HttpRequestHeaderFilterView },
    RequestMirror { request_mirror: HttpRequestMirrorFilterView },
    RequestRedirect { request_redirect: HttpRequestRedirectFilterView },
    URLRewrite { url_rewrite: HttpUrlRewriteFilterView },
    ExtensionRef { extension_ref: LocalObjectReferenceView },
}

impl DeepView for HttpRouteFilter {
    type V = HttpRouteFilterView;

    open spec fn deep_view(&self) -> HttpRouteFilterView {
        match self {
            HttpRouteFilter::RequestHeaderModifier { request_header_modifier } =>
                HttpRouteFilterView::RequestHeaderModifier {
                request_header_modifier: request_header_modifier.deep_view(),
            },
            HttpRouteFilter::ResponseHeaderModifier { response_header_modifier } =>
                HttpRouteFilterView::ResponseHeaderModifier {
                response_header_modifier: response_header_modifier.deep_view(),
            },
            HttpRouteFilter::RequestMirror { request_mirror } =>
                HttpRouteFilterView::RequestMirror { request_mirror: request_mirror.deep_view() },
            HttpRouteFilter::RequestRedirect { request_redirect } =>
                HttpRouteFilterView::RequestRedirect {
                request_redirect: request_redirect.deep_view(),
            },
            HttpRouteFilter::URLRewrite { url_rewrite } => HttpRouteFilterView::URLRewrite {
                url_rewrite: url_rewrite.deep_view(),
            },
            HttpRouteFilter::ExtensionRef { extension_ref } => HttpRouteFilterView::ExtensionRef {
                extension_ref: extension_ref.deep_view(),
            },
        }
    }
}

pub open spec fn route_filter_keys() -> Seq<Seq<char>> {
    seq![
        "type"@,
        "requestHeaderModifier"@,
        "responseHeaderModifier"@,
        "requestMirror"@,
        "requestRedirect"@,
        "urlRewrite"@,
        "extensionRef"@,
    ]
}

pub open spec fn route_filter_variants() -> Seq<Seq<char>> {
    seq![
        "RequestHeaderModifier"@,
        "ResponseHeaderModifier"@,
        "RequestMirror"@,
        "RequestRedirect"@,
        "URLRewrite"@,
        "ExtensionRef"@,
    ]
}

/// What decoding a route-filter document yields: `type` is required and
/// selects the variant, whose configuration field is then required;
/// fields belonging to other variants are not read.
pub open spec fn spec_decode_route_filter(v: JsonView) -> Result<HttpRouteFilterView, ErrorView> {
    match v {
        JsonView::Obj(pairs) => match spec_scan(pairs, route_filter_keys(), false) {
            Some(e) => Err(e),
            None => match spec_req_str(spec_field(pairs, "type"@), "type"@) {
                Err(e) => Err(e),
                Ok(t) => if t == "RequestHeaderModifier"@ {
                    match spec_req_val::<HttpRequestHeaderFilter>(
                        spec_field(pairs, "requestHeaderModifier"@),
                        "requestHeaderModifier"@,
                    ) {
                        Err(e) => Err(e),
                        Ok(request_header_modifier) => Ok(
                            HttpRouteFilterView::RequestHeaderModifier { request_header_modifier },
                        ),
                    }
                } else if t == "ResponseHeaderModifier"@ {
                    match spec_req_val::<HttpRequestHeaderFilter>(
                        spec_field(pairs, "responseHeaderModifier"@),
                        "responseHeaderModifier"@,
                    ) {
                        Err(e) => Err(e),
                        Ok(response_header_modifier) => Ok(
                            HttpRouteFilterView::ResponseHeaderModifier {
                                response_header_modifier,
                            },
                        ),
                    }
                } else if t == "RequestMirror"@ {
                    match spec_req_val::<HttpRequestMirrorFilter>(
                        spec_field(pairs, "requestMirror"@),
                        "requestMirror"@,
                    ) {
                        Err(e) => Err(e),
                        Ok(request_mirror) => Ok(
                            HttpRouteFilterView::RequestMirror { request_mirror },
                        ),
                    }
                } else if t == "RequestRedirect"@ {
                    match spec_req_val::<HttpRequestRedirectFilter>(
                        spec_field(pairs, "requestRedirect"@),
                        "requestRedirect"@,
                    ) {
                        Err(e) => Err(e),
                        Ok(request_redirect) => Ok(
                            HttpRouteFilterView::RequestRedirect { request_redirect },
                        ),
                    }
                } else if t == "URLRewrite"@ {
                    match spec_req_val::<HttpUrlRewriteFilter>(
                        spec_field(pairs, "urlRewrite"@),
                        "urlRewrite"@,
                    ) {
                        Err(e) => Err(e),
                        Ok(url_rewrite) => Ok(HttpRouteFilterView::URLRewrite { url_rewrite }),
                    }
                } else if t == "ExtensionRef"@ {
                    match spec_req_val::<LocalObjectReference>(
                        spec_field(pairs, "extensionRef"@),
                        "extensionRef"@,
                    ) {
                        Err(e) => Err(e),
                        Ok(extension_ref) => Ok(HttpRouteFilterView::ExtensionRef { extension_ref }),
                    }
                } else {
                    Err(ErrorView::InvalidDiscriminant(t, route_filter_variants()))
                },
            },
        },
        _ => Err(ErrorView::WrongType("HttpRouteFilter"@)),
    }
}

pub open spec fn route_filter_fields(f: HttpRouteFilterView) -> Seq<(Seq<char>, Option<JsonView>)> {
    match f {
        HttpRouteFilterView::RequestHeaderModifier { request_header_modifier } => seq![
            ("type"@, Some(JsonView::Str("RequestHeaderModifier"@))),
            ("requestHeaderModifier"@, Some(spec_encode_header_filter(request_header_modifier))),
        ],
        HttpRouteFilterView::ResponseHeaderModifier { response_header_modifier } => seq![
            ("type"@, Some(JsonView::Str("ResponseHeaderModifier"@))),
            ("responseHeaderModifier"@, Some(spec_encode_header_filter(response_header_modifier))),
        ],
        HttpRouteFilterView::RequestMirror { request_mirror } => seq![
            ("type"@, Some(JsonView::Str("RequestMirror"@))),
            ("requestMirror"@, Some(spec_encode_mirror_filter(request_mirror))),
        ],
        HttpRouteFilterView::RequestRedirect { request_redirect } => seq![
            ("type"@, Some(JsonView::Str("RequestRedirect"@))),
            ("requestRedirect"@, Some(spec_encode_redirect_filter(request_redirect))),
        ],
        HttpRouteFilterView::URLRewrite { url_rewrite } => seq![
            ("type"@, Some(JsonView::Str("URLRewrite"@))),
            ("urlRewrite"@, Some(spec_encode_rewrite_filter(url_rewrite))),
        ],
        HttpRouteFilterView::ExtensionRef { extension_ref } => seq![
            ("type"@, Some(JsonView::Str("ExtensionRef"@))),
            (
                "extensionRef"@,
                Some(crate::object_reference::spec_encode_local_ref(extension_ref)),
            ),
        ],
    }
}

pub open spec fn spec_encode_route_filter(f: HttpRouteFilterView) -> JsonView {
    JsonView::Obj(obj_of(route_filter_fields(f)))
}

proof fn lemma_route_filter_literals()
    ensures
        keys_distinct(route_filter_keys()),
        "RequestHeaderModifier"@.len() == 21,
        "ResponseHeaderModifier"@.len() == 22,
        "RequestMirror"@.len() == 13,
        "RequestRedirect"@.len() == 15,
        "URLRewrite"@.len() == 10,
        "ExtensionRef"@.len() == 12,
{
    reveal_strlit("type");
    reveal_strlit("requestHeaderModifier");
    reveal_strlit("responseHeaderModifier");
    reveal_strlit("requestMirror");
    reveal_strlit("requestRedirect");
    reveal_strlit("urlRewrite");
    reveal_strlit("extensionRef");
    reveal_strlit("RequestHeaderModifier");
    reveal_strlit("ResponseHeaderModifier");
    reveal_strlit("RequestMirror");
    reveal_strlit("RequestRedirect");
    reveal_strlit("URLRewrite");
    reveal_strlit("ExtensionRef");
    assert("type"@.len() == 4);
    assert("requestHeaderModifier"@.len() == 21);
    assert("responseHeaderModifier"@.len() == 22);
    assert("requestMirror"@.len() == 13);
    assert("requestRedirect"@.len() == 15);
    assert("urlRewrite"@.len() == 10);
    assert("extensionRef"@.len() == 12);
    let keys = route_filter_keys();
    assert forall|i: int, j: int| 0 <= i < j < keys.len() implies keys[i] != keys[j] by {
        assert(keys[0].len() == 4);
        assert(keys[1].len() == 21);
        assert(keys[2].len() == 22);
        assert(keys[3].len() == 13);
        assert(keys[4].len() == 15);
        assert(keys[5].len() == 10);
        assert(keys[6].len() == 12);
    }
}

fn route_filter_keys_exec() -> (r: Vec<String>)
    ensures
        r.deep_view() == route_filter_keys(),
        keys_distinct(route_filter_keys()),
{
    let r = vec![
        String::from_str("type"),
        String::from_str("requestHeaderModifier"),
        String::from_str("responseHeaderModifier"),
        String::from_str("requestMirror"),
        String::from_str("requestRedirect"),
        String::from_str("urlRewrite"),
        String::from_str("extensionRef"),
    ];
    proof {
        lemma_route_filter_literals();
        assert(r.deep_view() =~= route_filter_keys());
    }
    r
}

fn route_filter_variants_exec() -> (r: Vec<String>)
    ensures
        r.deep_view() == route_filter_variants(),
{
    let r = vec![
        String::from_str("RequestHeaderModifier"),
        String::from_str("ResponseHeaderModifier"),
        String::from_str("RequestMirror"),
        String::from_str("RequestRedirect"),
        String::from_str("URLRewrite"),
        String::from_str("ExtensionRef"),
    ];
    proof {
        assert(r.deep_view() =~= route_filter_variants());
    }
    r
}

impl Codec for HttpRouteFilter {
    open spec fn spec_decode(v: JsonView) -> Result<HttpRouteFilterView, ErrorView> {
        spec_decode_route_filter(v)
    }

    open spec fn spec_encode(f: HttpRouteFilterView) -> JsonView {
        spec_encode_route_filter(f)
    }

    open spec fn wf(f: HttpRouteFilterView) -> bool {
        true
    }

    fn decode(j: &Json) -> (r: Result<Self, DecodeError>)
        ensures
            res_view(r) == spec_decode_route_filter(j.deep_view()),
    {
        match j {
            Json::Obj(pairs) => {
                let ghost kv = route_filter_keys();
                let keys = route_filter_keys_exec();
                let slots = match lookup_fields(pairs, &keys, false) {
                    Ok(s) => s,
                    Err(e) => {
                        return Err(e);
                    },
                };
                proof {
                    assert(kv[0] == "type"@);
                    assert(kv[1] == "requestHeaderModifier"@);
                    assert(kv[2] == "responseHeaderModifier"@);
                    assert(kv[3] == "requestMirror"@);
                    assert(kv[4] == "requestRedirect"@);
                    assert(kv[5] == "urlRewrite"@);
                    assert(kv[6] == "extensionRef"@);
                }
                let t = match req_str_field(slot_value(pairs, &slots, 0, Ghost(kv)), "type") {
                    Ok(v) => v,
                    Err(e) => {
                        return Err(e);
                    },
                };
                if t.eq(&String::from_str("RequestHeaderModifier")) {
                    match req_val_field::<HttpRequestHeaderFilter>(
                        slot_value(pairs, &slots, 1, Ghost(kv)),
                        "requestHeaderModifier",
                    ) {
                        Ok(request_header_modifier) => Ok(
                            HttpRouteFilter::RequestHeaderModifier { request_header_modifier },
                        ),
                        Err(e) => Err(e),
                    }
                } else if t.eq(&String::from_str("ResponseHeaderModifier")) {
                    match req_val_field::<HttpRequestHeaderFilter>(
                        slot_value(pairs, &slots, 2, Ghost(kv)),
                        "responseHeaderModifier",
                    ) {
                        Ok(response_header_modifier) => Ok(
                            HttpRouteFilter::ResponseHeaderModifier { response_header_modifier },
                        ),
                        Err(e) => Err(e),
                    }
                } else if t.eq(&String::from_str("RequestMirror")) {
                    match req_val_field::<HttpRequestMirrorFilter>(
                        slot_value(pairs, &slots, 3, Ghost(kv)),
                        "requestMirror",
                    ) {
                        Ok(request_mirror) => Ok(HttpRouteFilter::RequestMirror { request_mirror }),
                        Err(e) => Err(e),
                    }
                } else if t.eq(&String::from_str("RequestRedirect")) {
                    match req_val_field::<HttpRequestRedirectFilter>(
                        slot_value(pairs, &slots, 4, Ghost(kv)),
                        "requestRedirect",
                    ) {
                        Ok(request_redirect) => Ok(
                            HttpRouteFilter::RequestRedirect { request_redirect },
                        ),
                        Err(e) => Err(e),
                    }
                } else if t.eq(&String::from_str("URLRewrite")) {
                    match req_val_field::<HttpUrlRewriteFilter>(
                        slot_value(pairs, &slots, 5, Ghost(kv)),
                        "urlRewrite",
                    ) {
                        Ok(url_rewrite) => Ok(HttpRouteFilter::URLRewrite { url_rewrite }),
                        Err(e) => Err(e),
                    }
                } else if t.eq(&String::from_str("ExtensionRef")) {
                    match req_val_field::<LocalObjectReference>(
                        slot_value(pairs, &slots, 6, Ghost(kv)),
                        "extensionRef",
                    ) {
                        Ok(extension_ref) => Ok(HttpRouteFilter::ExtensionRef { extension_ref }),
                        Err(e) => Err(e),
                    }
                } else {
                    Err(DecodeError::InvalidDiscriminant(t, route_filter_variants_exec()))
                }
            },
            _ => Err(DecodeError::WrongType(String::from_str("HttpRouteFilter"))),
        }
    }

    fn encode(&self) -> (j: Json)
        ensures
            j.deep_view() == spec_encode_route_filter(self.deep_view()),
    {
        let mut obj: Vec<(String, Json)> = Vec::new();
        match self {
            HttpRouteFilter::RequestHeaderModifier { request_header_modifier } => {
                obj.push(
                    (
                        String::from_str("type"),
                        Json::Str(String::from_str("RequestHeaderModifier")),
                    ),
                );
                obj.push(
                    (String::from_str("requestHeaderModifier"), request_header_modifier.encode()),
                );
            },
            HttpRouteFilter::ResponseHeaderModifier { response_header_modifier } => {
                obj.push(
                    (
                        String::from_str("type"),
                        Json::Str(String::from_str("ResponseHeaderModifier")),
                    ),
                );
                obj.push(
                    (
                        String::from_str("responseHeaderModifier"),
                        response_header_modifier.encode(),
                    ),
                );
            },
            HttpRouteFilter::RequestMirror { request_mirror } => {
                obj.push((String::from_str("type"), Json::Str(String::from_str("RequestMirror"))));
                obj.push((String::from_str("requestMirror"), request_mirror.encode()));
            },
            HttpRouteFilter::RequestRedirect { request_redirect } => {
                obj.push(
                    (String::from_str("type"), Json::Str(String::from_str("RequestRedirect"))),
                );
                obj.push((String::from_str("requestRedirect"), request_redirect.encode()));
            },
            HttpRouteFilter::URLRewrite { url_rewrite } => {
                obj.push((String::from_str("type"), Json::Str(String::from_str("URLRewrite"))));
                obj.push((String::from_str("urlRewrite"), url_rewrite.encode()));
            },
            HttpRouteFilter::ExtensionRef { extension_ref } => {
                obj.push((String::from_str("type"), Json::Str(String::from_str("ExtensionRef"))));
                obj.push((String::from_str("extensionRef"), extension_ref.encode()));
            },
        }
        proof {
            broadcast use lemma_json_pair_seq_view;

            reveal_with_fuel(obj_of, 4);
            assert(json_pair_seq_view(obj@) =~= obj_of(route_filter_fields(self.deep_view())));
        }
        Json::Obj(obj)
    }

    proof fn lemma_round_trip(f: HttpRouteFilterView)
        ensures
            spec_decode_route_filter(spec_encode_route_filter(f)) == Ok::<
                HttpRouteFilterView,
                ErrorView,
            >(f),
    {
        lemma_route_filter_literals();
        let fields = route_filter_fields(f);
        let keys = route_filter_keys();
        assert(fields_distinct(fields));
        assert(fields_within(fields, keys)) by {
            assert forall|i: int| 0 <= i < fields.len() implies keys.contains(
                (#[trigger] fields[i]).0,
            ) by {
                if i == 0 {
                    assert(keys[0] == fields[0].0);
                } else {
                    match f {
                        HttpRouteFilterView::RequestHeaderModifier { .. } => {
                            assert(keys[1] == fields[1].0);
                        },
                        HttpRouteFilterView::ResponseHeaderModifier { .. } => {
                            assert(keys[2] == fields[1].0);
                        },
                        HttpRouteFilterView::RequestMirror { .. } => {
                            assert(keys[3] == fields[1].0);
                        },
                        HttpRouteFilterView::RequestRedirect { .. } => {
                            assert(keys[4] == fields[1].0);
                        },
                        HttpRouteFilterView::URLRewrite { .. } => {
                            assert(keys[5] == fields[1].0);
                        },
                        HttpRouteFilterView::ExtensionRef { .. } => {
                            assert(keys[6] == fields[1].0);
                        },
                    }
                }
            }
        }
        lemma_obj_of_scan(fields, keys, false);
        lemma_obj_of_field_at(fields, 0);
        lemma_obj_of_field_at(fields, 1);
        match f {
            HttpRouteFilterView::RequestHeaderModifier { request_header_modifier } => {
                HttpRequestHeaderFilter::lemma_round_trip(request_header_modifier);
            },
            HttpRouteFilterView::ResponseHeaderModifier { response_header_modifier } => {
                HttpRequestHeaderFilter::lemma_round_trip(response_header_modifier);
            },
            HttpRouteFilterView::RequestMirror { request_mirror } => {
                HttpRequestMirrorFilter::lemma_round_trip(request_mirror);
            },
            HttpRouteFilterView::RequestRedirect { request_redirect } => {
                HttpRequestRedirectFilter::lemma_round_trip(request_redirect);
            },
            HttpRouteFilterView::URLRewrite { url_rewrite } => {
                HttpUrlRewriteFilter::lemma_round_trip(url_rewrite);
            },
            HttpRouteFilterView::ExtensionRef { extension_ref } => {
                LocalObjectReference::lemma_round_trip(extension_ref);
            },
        }
    }
}

} // verus!

verus! {

/// A Gateway API duration, carried as its wire text (for example
/// `"10s"`); a zero duration such as `"0s"` means no timeout.
pub type K8sDuration = String;

/// Timeouts for an HTTP route rule.
#[derive(Clone, Debug, PartialEq)]
pub struct HttpRouteTimeouts {
    /// Maximum time for the gateway to respond to the request.
    pub request: Option<K8sDuration>,
    /// Timeout for a single request from the gateway to a backend.
    pub backend_request: Option<K8sDuration>,
}

/// The mathematical shape of an [`HttpRouteTimeouts`].
pub struct HttpRouteTimeoutsView {
    pub request: Option<Seq<char>>,
    pub backend_request: Option<Seq<char>>,
}

impl DeepView for HttpRouteTimeouts {
    type V = HttpRouteTimeoutsView;

    open spec fn deep_view(&self) -> HttpRouteTimeoutsView {
        HttpRouteTimeoutsView {
            request: self.request.deep_view(),
            backend_request: self.backend_request.deep_view(),
        }
    }
}

pub open spec fn timeouts_keys() -> Seq<Seq<char>> {
    seq!["request"@, "backendRequest"@]
}

/// What decoding a timeouts document yields: two optional durations,
/// carried as their wire text.
pub open spec fn spec_decode_timeouts(v: JsonView) -> Result<HttpRouteTimeoutsView, ErrorView> {
    match v {
        JsonView::Obj(pairs) => match spec_scan(pairs, timeouts_keys(), false) {
            Some(e) => Err(e),
            None => match spec_opt_str(spec_field(pairs, "request"@), "request"@) {
                Err(e) => Err(e),
                Ok(request) => match spec_opt_str(
                    spec_field(pairs, "backendRequest"@),
                    "backendRequest"@,
                ) {
                    Err(e) => Err(e),
                    Ok(backend_request) => Ok(HttpRouteTimeoutsView { request, backend_request }),
                },
            },
        },
        _ => Err(ErrorView::WrongType("HttpRouteTimeouts"@)),
    }
}

pub open spec fn timeouts_fields(t: HttpRouteTimeoutsView) -> Seq<(Seq<char>, Option<JsonView>)> {
    seq![("request"@, str_entry(t.request)), ("backendRequest"@, str_entry(t.backend_request))]
}

pub open spec fn spec_encode_timeouts(t: HttpRouteTimeoutsView) -> JsonView {
    JsonView::Obj(obj_of(timeouts_fields(t)))
}

proof fn lemma_timeouts_literals()
    ensures
        keys_distinct(timeouts_keys()),
{
    reveal_strlit("request");
    reveal_strlit("backendRequest");
    assert("request"@.len() == 7);
    assert("backendRequest"@.len() == 14);
    let keys = timeouts_keys();
    assert forall|i: int, j: int| 0 <= i < j < keys.len() implies keys[i] != keys[j] by {
        assert(keys[0] != keys[1]);
    }
}

fn timeouts_keys_exec() -> (r: Vec<String>)
    ensures
        r.deep_view() == timeouts_keys(),
        keys_distinct(timeouts_keys()),
{
    let r = vec![String::from_str("request"), String::from_str("backendRequest")];
    proof {
        lemma_timeouts_literals();
        assert(r.deep_view() =~= timeouts_keys());
    }
    r
}

impl Codec for HttpRouteTimeouts {
    open spec fn spec_decode(v: JsonView) -> Result<HttpRouteTimeoutsView, ErrorView> {
        spec_decode_timeouts(v)
    }

    open spec fn spec_encode(t: HttpRouteTimeoutsView) -> JsonView {
        spec_encode_timeouts(t)
    }

    open spec fn wf(t: HttpRouteTimeoutsView) -> bool {
        true
    }

    fn decode(j: &Json) -> (r: Result<Self, DecodeError>)
        ensures
            res_view(r) == spec_decode_timeouts(j.deep_view()),
    {
        match j {
            Json::Obj(pairs) => {
                let ghost kv = timeouts_keys();
                let keys = timeouts_keys_exec();
                let slots = match lookup_fields(pairs, &keys, false) {
                    Ok(s) => s,
                    Err(e) => {
                        return Err(e);
                    },
                };
                proof {
                    assert(kv[0] == "request"@);
                    assert(kv[1] == "backendRequest"@);
                }
                let request = match opt_str_field(
                    slot_value(pairs, &slots, 0, Ghost(kv)),
                    "request",
                ) {
                    Ok(v) => v,
                    Err(e) => {
                        return Err(e);
                    },
                };
                let backend_request = match opt_str_field(
                    slot_value(pairs, &slots, 1, Ghost(kv)),
                    "backendRequest",
                ) {
                    Ok(v) => v,
                    Err(e) => {
                        return Err(e);
                    },
                };
                Ok(HttpRouteTimeouts { request, backend_request })
            },
            _ => Err(DecodeError::WrongType(String::from_str("HttpRouteTimeouts"))),
        }
    }

    fn encode(&self) -> (j: Json)
        ensures
            j.deep_view() == spec_encode_timeouts(self.deep_view()),
    {
        let mut obj: Vec<(String, Json)> = Vec::new();
        if let Some(r) = &self.request {
            obj.push((String::from_str("request"), Json::Str(r.clone())));
        }
        if let Some(b) = &self.backend_request {
            obj.push((String::from_str("backendRequest"), Json::Str(b.clone())));
        }
        proof {
            broadcast use lemma_json_pair_seq_view;

            reveal_with_fuel(obj_of, 4);
            assert(json_pair_seq_view(obj@) =~= obj_of(timeouts_fields(self.deep_view())));
        }
        Json::Obj(obj)
    }

    proof fn lemma_round_trip(t: HttpRouteTimeoutsView)
        ensures
            spec_decode_timeouts(spec_encode_timeouts(t)) == Ok::<HttpRouteTimeoutsView, ErrorView>(
                t,
            ),
    {
        lemma_timeouts_literals();
        let fields = timeouts_fields(t);
        let keys = timeouts_keys();
        assert(fields_distinct(fields));
        assert(fields_within(fields, keys)) by {
            assert forall|i: int| 0 <= i < fields.len() implies keys.contains(
                (#[trigger] fields[i]).0,
            ) by {
                if i == 0 {
                    assert(keys[0] == fields[0].0);
                } else {
                    assert(keys[1] == fields[1].0);
                }
            }
        }
        lemma_obj_of_scan(fields, keys, false);
        lemma_obj_of_field_at(fields, 0);
        lemma_obj_of_field_at(fields, 1);
    }
}

/// The predicate an HTTP route rule matches requests against; all the
/// conditions given are ANDed together.
#[derive(Clone, Debug, Default, PartialEq)]
pub struct HttpRouteMatch {
    /// The request path matcher.
    pub path: Option<HttpPathMatch>,
    /// Header matchers; a request must match all of them.
    pub headers: Option<Vec<HttpHeaderMatch>>,
    /// Query parameter matchers; a request must match all of them.
    pub query_params: Option<Vec<HttpQueryParamMatch>>,
    /// The HTTP method to match.
    pub method: Option<HttpMethod>,
}

/// The mathematical shape of an [`HttpRouteMatch`].
pub struct HttpRouteMatchView {
    pub path: Option<HttpPathMatchView>,
    pub headers: Option<Seq<HttpHeaderMatchView>>,
    pub query_params: Option<Seq<HttpQueryParamMatchView>>,
    pub method: Option<Seq<char>>,
}

impl DeepView for HttpRouteMatch {
    type V = HttpRouteMatchView;

    open spec fn deep_view(&self) -> HttpRouteMatchView {
        HttpRouteMatchView {
            path: self.path.deep_view(),
            headers: self.headers.deep_view(),
            query_params: self.query_params.deep_view(),
            method: self.method.deep_view(),
        }
    }
}

pub open spec fn route_match_keys() -> Seq<Seq<char>> {
    seq!["path"@, "headers"@, "queryParams"@, "method"@]
}

/// What decoding a route-match document yields: every matcher optional.
pub open spec fn spec_decode_route_match(v: JsonView) -> Result<HttpRouteMatchView, ErrorView> {
    match v {
        JsonView::Obj(pairs) => match spec_scan(pairs, route_match_keys(), false) {
            Some(e) => Err(e),
            None => match spec_opt_val::<HttpPathMatch>(spec_field(pairs, "path"@)) {
                Err(e) => Err(e),
                Ok(path) => match spec_opt_list::<HttpHeaderMatch>(
                    spec_field(pairs, "headers"@),
                    "headers"@,
                ) {
                    Err(e) => Err(e),
                    Ok(headers) => match spec_opt_list::<HttpQueryParamMatch>(
                        spec_field(pairs, "queryParams"@),
                        "queryParams"@,
                    ) {
                        Err(e) => Err(e),
                        Ok(query_params) => match spec_opt_str(
                            spec_field(pairs, "method"@),
                            "method"@,
                        ) {
                            Err(e) => Err(e),
                            Ok(method) => Ok(
                                HttpRouteMatchView { path, headers, query_params, method },
                            ),
                        },
                    },
                },
            },
        },
        _ => Err(ErrorView::WrongType("HttpRouteMatch"@)),
    }
}

pub open spec fn route_match_fields(m: HttpRouteMatchView) -> Seq<(Seq<char>, Option<JsonView>)> {
    seq![
        ("path"@, val_entry::<HttpPathMatch>(m.path)),
        ("headers"@, list_entry::<HttpHeaderMatch>(m.headers)),
        ("queryParams"@, list_entry::<HttpQueryParamMatch>(m.query_params)),
        ("method"@, str_entry(m.method)),
    ]
}

pub open spec fn spec_encode_route_match(m: HttpRouteMatchView) -> JsonView {
    JsonView::Obj(obj_of(route_match_fields(m)))
}

proof fn lemma_route_match_literals()
    ensures
        keys_distinct(route_match_keys()),
{
    reveal_strlit("path");
    reveal_strlit("headers");
    reveal_strlit("queryParams");
    reveal_strlit("method");
    assert("path"@.len() == 4);
    assert("headers"@.len() == 7);
    assert("queryParams"@.len() == 11);
    assert("method"@.len() == 6);
    let keys = route_match_keys();
    assert forall|i: int, j: int| 0 <= i < j < keys.len() implies keys[i] != keys[j] by {
        assert(keys[0] != keys[1]);
        assert(keys[0] != keys[2]);
        assert(keys[0] != keys[3]);
        assert(keys[1] != keys[2]);
        assert(keys[1] != keys[3]);
        assert(keys[2] != keys[3]);
    }
}

fn route_match_keys_exec() -> (r: Vec<String>)
    ensures
        r.deep_view() == route_match_keys(),
        keys_distinct(route_match_keys()),
{
    let r = vec![
        String::from_str("path"),
        String::from_str("headers"),
        String::from_str("queryParams"),
        String::from_str("method"),
    ];
    proof {
        lemma_route_match_literals();
        assert(r.deep_view() =~= route_match_keys());
    }
    r
}

impl Codec for HttpRouteMatch {
    open spec fn spec_decode(v: JsonView) -> Result<HttpRouteMatchView, ErrorView> {
        spec_decode_route_match(v)
    }

    open spec fn spec_encode(m: HttpRouteMatchView) -> JsonView {
        spec_encode_route_match(m)
    }

    open spec fn wf(m: HttpRouteMatchView) -> bool {
        true
    }

    fn decode(j: &Json) -> (r: Result<Self, DecodeError>)
        ensures
            res_view(r) == spec_decode_route_match(j.deep_view()),
    {
        match j {
            Json::Obj(pairs) => {
                let ghost kv = route_match_keys();
                let keys = route_match_keys_exec();
                let slots = match lookup_fields(pairs, &keys, false) {
                    Ok(s) => s,
                    Err(e) => {
                        return Err(e);
                    },
                };
                proof {
                    assert(kv[0] == "path"@);
                    assert(kv[1] == "headers"@);
                    assert(kv[2] == "queryParams"@);
                    assert(kv[3] == "method"@);
                }
                let path = match opt_val_field::<HttpPathMatch>(
                    slot_value(pairs, &slots, 0, Ghost(kv)),
                ) {
                    Ok(v) => v,
                    Err(e) => {
                        return Err(e);
                    },
                };
                let headers = match opt_list_field::<HttpHeaderMatch>(
                    slot_value(pairs, &slots, 1, Ghost(kv)),
                    "headers",
                ) {
                    Ok(v) => v,
                    Err(e) => {
                        return Err(e);
                    },
                };
                let query_params = match opt_list_field::<HttpQueryParamMatch>(
                    slot_value(pairs, &slots, 2, Ghost(kv)),
                    "queryParams",
                ) {
                    Ok(v) => v,
                    Err(e) => {
                        return Err(e);
                    },
                };
                let method = match opt_str_field(slot_value(pairs, &slots, 3, Ghost(kv)), "method")
                    {
                    Ok(v) => v,
                    Err(e) => {
                        return Err(e);
                    },
                };
                Ok(HttpRouteMatch { path, headers, query_params, method })
            },
            _ => Err(DecodeError::WrongType(String::from_str("HttpRouteMatch"))),
        }
    }

    fn encode(&self) -> (j: Json)
        ensures
            j.deep_view() == spec_encode_route_match(self.deep_view()),
    {
        let mut obj: Vec<(String, Json)> = Vec::new();
        if let Some(p) = &self.path {
            obj.push((String::from_str("path"), p.encode()));
        }
        if let Some(hs) = &self.headers {
            obj.push((String::from_str("headers"), Json::Arr(encode_vec::<HttpHeaderMatch>(hs))));
        }
        if let Some(qs) = &self.query_params {
            obj.push(
                (
                    String::from_str("queryParams"),
                    Json::Arr(encode_vec::<HttpQueryParamMatch>(qs)),
                ),
            );
        }
        if let Some(m) = &self.method {
            obj.push((String::from_str("method"), Json::Str(m.clone())));
        }
        proof {
            broadcast use lemma_json_pair_seq_view;

            reveal_with_fuel(obj_of, 6);
            assert(json_pair_seq_view(obj@) =~= obj_of(route_match_fields(self.deep_view())));
        }
        Json::Obj(obj)
    }

    proof fn lemma_round_trip(m: HttpRouteMatchView)
        ensures
            spec_decode_route_match(spec_encode_route_match(m)) == Ok::<
                HttpRouteMatchView,
                ErrorView,
            >(m),
    {
        lemma_route_match_literals();
        let fields = route_match_fields(m);
        let keys = route_match_keys();
        assert(fields_distinct(fields));
        assert(fields_within(fields, keys)) by {
            assert forall|i: int| 0 <= i < fields.len() implies keys.contains(
                (#[trigger] fields[i]).0,
            ) by {
                if i == 0 {
                    assert(keys[0] == fields[0].0);
                } else if i == 1 {
                    assert(keys[1] == fields[1].0);
                } else if i == 2 {
                    assert(keys[2] == fields[2].0);
                } else {
                    assert(keys[3] == fields[3].0);
                }
            }
        }
        lemma_obj_of_scan(fields, keys, false);
        lemma_obj_of_field_at(fields, 0);
        lemma_obj_of_field_at(fields, 1);
        lemma_obj_of_field_at(fields, 2);
        lemma_obj_of_field_at(fields, 3);
        if m.path is Some {
            HttpPathMatch::lemma_round_trip(m.path->0);
        }
        if m.headers is Some {
            lemma_seq_round_trip::<HttpHeaderMatch>(m.headers->0);
        }
        if m.query_params is Some {
            lemma_seq_round_trip::<HttpQueryParamMatch>(m.query_params->0);
        }
    }
}

} // verus!

verus! {

/// How an HTTPRoute forwards a matched request: an optional weighted
/// backend reference, whose fields sit flat in this document, and
/// filters that run only for requests forwarded here. The reference is
/// treated as absent when the document carries no `name`.
#[derive(Clone, Debug, PartialEq)]
pub struct HttpBackendRef {
    /// The backend matched requests are forwarded to.
    pub backend_ref: Option<BackendRef>,
    /// Filters applied only to requests forwarded to this backend.
    pub filters: Option<Vec<HttpRouteFilter>>,
}

/// The mathematical shape of an [`HttpBackendRef`].
pub struct HttpBackendRefView {
    pub backend_ref: Option<BackendRefView>,
    pub filters: Option<Seq<HttpRouteFilterView>>,
}

impl DeepView for HttpBackendRef {
    type V = HttpBackendRefView;

    open spec fn deep_view(&self) -> HttpBackendRefView {
        HttpBackendRefView {
            backend_ref: self.backend_ref.deep_view(),
            filters: self.filters.deep_view(),
        }
    }
}

pub open spec fn http_backend_ref_keys() -> Seq<Seq<char>> {
    seq!["weight"@, "group"@, "kind"@, "name"@, "namespace"@, "port"@, "filters"@]
}

/// What decoding an HTTP backend reference yields: when `name` is
/// present the weighted reference's fields are read flat from this
/// document; when it is absent the reference is not given and only the
/// filters are read.
pub open spec fn spec_decode_http_backend_ref(v: JsonView) -> Result<HttpBackendRefView, ErrorView> {
    match v {
        JsonView::Obj(pairs) => match spec_scan(pairs, http_backend_ref_keys(), false) {
            Some(e) => Err(e),
            None => match (if spec_field(pairs, "name"@) is Some {
                match spec_decode_backend_ref_at(pairs) {
                    Err(e) => Err(e),
                    Ok(b) => Ok(Some(b)),
                }
            } else {
                Ok(None)
            }) {
                Err(e) => Err(e),
                Ok(backend_ref) => match spec_opt_list::<HttpRouteFilter>(
                    spec_field(pairs, "filters"@),
                    "filters"@,
                ) {
                    Err(e) => Err(e),
                    Ok(filters) => Ok(HttpBackendRefView { backend_ref, filters }),
                },
            },
        },
        _ => Err(ErrorView::WrongType("HttpBackendRef"@)),
    }
}

/// The weighted reference read flat from a document's pairs.
pub open spec fn spec_decode_backend_ref_at(pairs: Seq<(Seq<char>, JsonView)>) -> Result<
    BackendRefView,
    ErrorView,
> {
    match spec_opt_u16(spec_field(pairs, "weight"@), "weight"@) {
        Err(e) => Err(e),
        Ok(weight) => match spec_opt_str(spec_field(pairs, "group"@), "group"@) {
            Err(e) => Err(e),
            Ok(group) => match spec_opt_str(spec_field(pairs, "kind"@), "kind"@) {
                Err(e) => Err(e),
                Ok(kind) => match spec_req_str(spec_field(pairs, "name"@), "name"@) {
                    Err(e) => Err(e),
                    Ok(name) => match spec_opt_str(spec_field(pairs, "namespace"@), "namespace"@) {
                        Err(e) => Err(e),
                        Ok(namespace) => match spec_opt_u16(spec_field(pairs, "port"@), "port"@) {
                            Err(e) => Err(e),
                            Ok(port) => Ok(
                                BackendRefView {
                                    weight,
                                    inner: crate::object_reference::BackendObjectReferenceView {
                                        group,
                                        kind,
                                        name,
                                        namespace,
                                        port,
                                    },
                                },
                            ),
                        },
                    },
                },
            },
        },
    }
}

pub open spec fn http_backend_ref_fields(h: HttpBackendRefView) -> Seq<
    (Seq<char>, Option<JsonView>),
> {
    match h.backend_ref {
        Some(b) => seq![
            ("weight"@, u16_entry(b.weight)),
            ("group"@, str_entry(b.inner.group)),
            ("kind"@, str_entry(b.inner.kind)),
            ("name"@, Some(JsonView::Str(b.inner.name))),
            ("namespace"@, str_entry(b.inner.namespace)),
            ("port"@, u16_entry(b.inner.port)),
            ("filters"@, list_entry::<HttpRouteFilter>(h.filters)),
        ],
        None => seq![
            ("weight"@, None),
            ("group"@, None),
            ("kind"@, None),
            ("name"@, None),
            ("namespace"@, None),
            ("port"@, None),
            ("filters"@, list_entry::<HttpRouteFilter>(h.filters)),
        ],
    }
}

pub open spec fn spec_encode_http_backend_ref(h: HttpBackendRefView) -> JsonView {
    JsonView::Obj(obj_of(http_backend_ref_fields(h)))
}

proof fn lemma_http_backend_ref_literals()
    ensures
        keys_distinct(http_backend_ref_keys()),
{
    reveal_strlit("weight");
    reveal_strlit("group");
    reveal_strlit("kind");
    reveal_strlit("name");
    reveal_strlit("namespace");
    reveal_strlit("port");
    reveal_strlit("filters");
    assert("weight"@.len() == 6);
    assert("group"@.len() == 5);
    assert("kind"@.len() == 4);
    assert("name"@.len() == 4);
    assert("namespace"@.len() == 9);
    assert("port"@.len() == 4);
    assert("filters"@.len() == 7);
    assert("kind"@[0] != "name"@[0]);
    assert("kind"@[0] != "port"@[0]);
    assert("name"@[0] != "port"@[0]);
    let keys = http_backend_ref_keys();
    assert forall|i: int, j: int| 0 <= i < j < keys.len() implies keys[i] != keys[j] by {
        assert(keys[0] != keys[6]);
        assert(keys[1] != keys[6]);
        assert(keys[2] != keys[3]);
        assert(keys[2] != keys[5]);
        assert(keys[3] != keys[5]);
    }
}

fn http_backend_ref_keys_exec() -> (r: Vec<String>)
    ensures
        r.deep_view() == http_backend_ref_keys(),
        keys_distinct(http_backend_ref_keys()),
{
    let r = vec![
        String::from_str("weight"),
        String::from_str("group"),
        String::from_str("kind"),
        String::from_str("name"),
        String::from_str("namespace"),
        String::from_str("port"),
        String::from_str("filters"),
    ];
    proof {
        lemma_http_backend_ref_literals();
        assert(r.deep_view() =~= http_backend_ref_keys());
    }
    r
}

impl Codec for HttpBackendRef {
    open spec fn spec_decode(v: JsonView) -> Result<HttpBackendRefView, ErrorView> {
        spec_decode_http_backend_ref(v)
    }

    open spec fn spec_encode(h: HttpBackendRefView) -> JsonView {
        spec_encode_http_backend_ref(h)
    }

    open spec fn wf(h: HttpBackendRefView) -> bool {
        true
    }

    fn decode(j: &Json) -> (r: Result<Self, DecodeError>)
        ensures
            res_view(r) == spec_decode_http_backend_ref(j.deep_view()),
    {
        match j {
            Json::Obj(pairs) => {
                let ghost kv = http_backend_ref_keys();
                let keys = http_backend_ref_keys_exec();
                let slots = match lookup_fields(pairs, &keys, false) {
                    Ok(s) => s,
                    Err(e) => {
                        return Err(e);
                    },
                };
                proof {
                    assert(kv[0] == "weight"@);
                    assert(kv[1] == "group"@);
                    assert(kv[2] == "kind"@);
                    assert(kv[3] == "name"@);
                    assert(kv[4] == "namespace"@);
                    assert(kv[5] == "port"@);
                    assert(kv[6] == "filters"@);
                }
                let backend_ref = if slots[3].is_some() {
                    let weight = match opt_u16_field(
                        slot_value(pairs, &slots, 0, Ghost(kv)),
                        "weight",
                    ) {
                        Ok(v) => v,
                        Err(e) => {
                            return Err(e);
                        },
                    };
                    let group = match opt_str_field(
                        slot_value(pairs, &slots, 1, Ghost(kv)),
                        "group",
                    ) {
                        Ok(v) => v,
                        Err(e) => {
                            return Err(e);
                        },
                    };
                    let kind = match opt_str_field(slot_value(pairs, &slots, 2, Ghost(kv)), "kind")
                        {
                        Ok(v) => v,
                        Err(e) => {
                            return Err(e);
                        },
                    };
                    let name = match req_str_field(slot_value(pairs, &slots, 3, Ghost(kv)), "name")
                        {
                        Ok(v) => v,
                        Err(e) => {
                            return Err(e);
                        },
                    };
                    let namespace = match opt_str_field(
                        slot_value(pairs, &slots, 4, Ghost(kv)),
                        "namespace",
                    ) {
                        Ok(v) => v,
                        Err(e) => {
                            return Err(e);
                        },
                    };
                    let port = match opt_u16_field(slot_value(pairs, &slots, 5, Ghost(kv)), "port")
                        {
                        Ok(v) => v,
                        Err(e) => {
                            return Err(e);
                        },
                    };
                    Some(
                        BackendRef {
                            weight,
                            inner: BackendObjectReference { group, kind, name, namespace, port },
                        },
                    )
                } else {
                    None
                };
                let filters = match opt_list_field::<HttpRouteFilter>(
                    slot_value(pairs, &slots, 6, Ghost(kv)),
                    "filters",
                ) {
                    Ok(v) => v,
                    Err(e) => {
                        return Err(e);
                    },
                };
                Ok(HttpBackendRef { backend_ref, filters })
            },
            _ => Err(DecodeError::WrongType(String::from_str("HttpBackendRef"))),
        }
    }

    fn encode(&self) -> (j: Json)
        ensures
            j.deep_view() == spec_encode_http_backend_ref(self.deep_view()),
    {
        let mut obj: Vec<(String, Json)> = Vec::new();
        if let Some(b) = &self.backend_ref {
            if let Some(w) = &b.weight {
                obj.push((String::from_str("weight"), Json::Int(*w as i64)));
            }
            if let Some(g) = &b.inner.group {
                obj.push((String::from_str("group"), Json::Str(g.clone())));
            }
            if let Some(k) = &b.inner.kind {
                obj.push((String::from_str("kind"), Json::Str(k.clone())));
            }
            obj.push((String::from_str("name"), Json::Str(b.inner.name.clone())));
            if let Some(ns) = &b.inner.namespace {
                obj.push((String::from_str("namespace"), Json::Str(ns.clone())));
            }
            if let Some(p) = &b.inner.port {
                obj.push((String::from_str("port"), Json::Int(*p as i64)));
            }
        }
        if let Some(fs) = &self.filters {
            obj.push((String::from_str("filters"), Json::Arr(encode_vec::<HttpRouteFilter>(fs))));
        }
        proof {
            broadcast use lemma_json_pair_seq_view;

            reveal_with_fuel(obj_of, 9);
            assert(json_pair_seq_view(obj@) =~= obj_of(http_backend_ref_fields(self.deep_view())));
        }
        Json::Obj(obj)
    }

    proof fn lemma_round_trip(h: HttpBackendRefView)
        ensures
            spec_decode_http_backend_ref(spec_encode_http_backend_ref(h)) == Ok::<
                HttpBackendRefView,
                ErrorView,
            >(h),
    {
        lemma_http_backend_ref_literals();
        let fields = http_backend_ref_fields(h);
        let keys = http_backend_ref_keys();
        assert(fields_distinct(fields));
        assert(fields_within(fields, keys)) by {
            assert forall|i: int| 0 <= i < fields.len() implies keys.contains(
                (#[trigger] fields[i]).0,
            ) by {
                if i == 0 {
                    assert(keys[0] == fields[0].0);
                } else if i == 1 {
                    assert(keys[1] == fields[1].0);
                } else if i == 2 {
                    assert(keys[2] == fields[2].0);
                } else if i == 3 {
                    assert(keys[3] == fields[3].0);
                } else if i == 4 {
                    assert(keys[4] == fields[4].0);
                } else if i == 5 {
                    assert(keys[5] == fields[5].0);
                } else {
                    assert(keys[6] == fields[6].0);
                }
            }
        }
        lemma_obj_of_scan(fields, keys, false);
        lemma_obj_of_field_at(fields, 0);
        lemma_obj_of_field_at(fields, 1);
        lemma_obj_of_field_at(fields, 2);
        lemma_obj_of_field_at(fields, 3);
        lemma_obj_of_field_at(fields, 4);
        lemma_obj_of_field_at(fields, 5);
        lemma_obj_of_field_at(fields, 6);
        if h.filters is Some {
            lemma_seq_round_trip::<HttpRouteFilter>(h.filters->0);
        }
    }
}

} // verus!

verus! {

/// One rule of an HTTPRoute: the matches that select requests, the
/// filters applied to them, the backends they are forwarded to, and the
/// rule's timeouts.
#[derive(Clone, Debug, PartialEq)]
pub struct HttpRouteRule {
    /// Conditions for matching requests; the rule matches when any one
    /// of them is satisfied. No matches means every request matches.
    pub matches: Option<Vec<HttpRouteMatch>>,
    /// Filters applied to matching requests.
    pub filters: Option<Vec<HttpRouteFilter>>,
    /// Where matching requests are sent.
    pub backend_refs: Option<Vec<HttpBackendRef>>,
    /// Timeouts for requests matching this rule.
    pub timeouts: Option<HttpRouteTimeouts>,
}

/// The mathematical shape of an [`HttpRouteRule`].
pub struct HttpRouteRuleView {
    pub matches: Option<Seq<HttpRouteMatchView>>,
    pub filters: Option<Seq<HttpRouteFilterView>>,
    pub backend_refs: Option<Seq<HttpBackendRefView>>,
    pub timeouts: Option<HttpRouteTimeoutsView>,
}

impl DeepView for HttpRouteRule {
    type V = HttpRouteRuleView;

    open spec fn deep_view(&self) -> HttpRouteRuleView {
        HttpRouteRuleView {
            matches: self.matches.deep_view(),
            filters: self.filters.deep_view(),
            backend_refs: self.backend_refs.deep_view(),
            timeouts: self.timeouts.deep_view(),
        }
    }
}

pub open spec fn http_rule_keys() -> Seq<Seq<char>> {
    seq!["matches"@, "filters"@, "backendRefs"@, "timeouts"@]
}

/// What decoding an HTTP route rule yields: every field optional.
pub open spec fn spec_decode_http_rule(v: JsonView) -> Result<HttpRouteRuleView, ErrorView> {
    match v {
        JsonView::Obj(pairs) => match spec_scan(pairs, http_rule_keys(), false) {
            Some(e) => Err(e),
            None => match spec_opt_list::<HttpRouteMatch>(
                spec_field(pairs, "matches"@),
                "matches"@,
            ) {
                Err(e) => Err(e),
                Ok(matches) => match spec_opt_list::<HttpRouteFilter>(
                    spec_field(pairs, "filters"@),
                    "filters"@,
                ) {
                    Err(e) => Err(e),
                    Ok(filters) => match spec_opt_list::<HttpBackendRef>(
                        spec_field(pairs, "backendRefs"@),
                        "backendRefs"@,
                    ) {
                        Err(e) => Err(e),
                        Ok(backend_refs) => match spec_opt_val::<HttpRouteTimeouts>(
                            spec_field(pairs, "timeouts"@),
                        ) {
                            Err(e) => Err(e),
                            Ok(timeouts) => Ok(
                                HttpRouteRuleView { matches, filters, backend_refs, timeouts },
                            ),
                        },
                    },
                },
            },
        },
        _ => Err(ErrorView::WrongType("HttpRouteRule"@)),
    }
}

pub open spec fn http_rule_fields(r: HttpRouteRuleView) -> Seq<(Seq<char>, Option<JsonView>)> {
    seq![
        ("matches"@, list_entry::<HttpRouteMatch>(r.matches)),
        ("filters"@, list_entry::<HttpRouteFilter>(r.filters)),
        ("backendRefs"@, list_entry::<HttpBackendRef>(r.backend_refs)),
        ("timeouts"@, val_entry::<HttpRouteTimeouts>(r.timeouts)),
    ]
}

pub open spec fn spec_encode_http_rule(r: HttpRouteRuleView) -> JsonView {
    JsonView::Obj(obj_of(http_rule_fields(r)))
}

proof fn lemma_http_rule_literals()
    ensures
        keys_distinct(http_rule_keys()),
{
    reveal_strlit("matches");
    reveal_strlit("filters");
    reveal_strlit("backendRefs");
    reveal_strlit("timeouts");
    assert("matches"@.len() == 7);
    assert("filters"@.len() == 7);
    assert("backendRefs"@.len() == 11);
    assert("timeouts"@.len() == 8);
    assert("matches"@[0] != "filters"@[0]);
    let keys = http_rule_keys();
    assert forall|i: int, j: int| 0 <= i < j < keys.len() implies keys[i] != keys[j] by {
        assert(keys[0] != keys[1]);
        assert(keys[0] != keys[2]);
        assert(keys[0] != keys[3]);
        assert(keys[1] != keys[2]);
        assert(keys[1] != keys[3]);
        assert(keys[2] != keys[3]);
    }
}

fn http_rule_keys_exec() -> (r: Vec<String>)
    ensures
        r.deep_view() == http_rule_keys(),
        keys_distinct(http_rule_keys()),
{
    let r = vec![
        String::from_str("matches"),
        String::from_str("filters"),
        String::from_str("backendRefs"),
        String::from_str("timeouts"),
    ];
    proof {
        lemma_http_rule_literals();
        assert(r.deep_view() =~= http_rule_keys());
    }
    r
}

impl Codec for HttpRouteRule {
    open spec fn spec_decode(v: JsonView) -> Result<HttpRouteRuleView, ErrorView> {
        spec_decode_http_rule(v)
    }

    open spec fn spec_encode(r: HttpRouteRuleView) -> JsonView {
        spec_encode_http_rule(r)
    }

    open spec fn wf(r: HttpRouteRuleView) -> bool {
        true
    }

    fn decode(j: &Json) -> (r: Result<Self, DecodeError>)
        ensures
            res_view(r) == spec_decode_http_rule(j.deep_view()),
    {
        match j {
            Json::Obj(pairs) => {
                let ghost kv = http_rule_keys();
                let keys = http_rule_keys_exec();
                let slots = match lookup_fields(pairs, &keys, false) {
                    Ok(s) => s,
                    Err(e) => {
                        return Err(e);
                    },
                };
                proof {
                    assert(kv[0] == "matches"@);
                    assert(kv[1] == "filters"@);
                    assert(kv[2] == "backendRefs"@);
                    assert(kv[3] == "timeouts"@);
                }
                let matches = match opt_list_field::<HttpRouteMatch>(
                    slot_value(pairs, &slots, 0, Ghost(kv)),
                    "matches",
                ) {
                    Ok(v) => v,
                    Err(e) => {
                        return Err(e);
                    },
                };
                let filters = match opt_list_field::<HttpRouteFilter>(
                    slot_value(pairs, &slots, 1, Ghost(kv)),
                    "filters",
                ) {
                    Ok(v) => v,
                    Err(e) => {
                        return Err(e);
                    },
                };
                let backend_refs = match opt_list_field::<HttpBackendRef>(
                    slot_value(pairs, &slots, 2, Ghost(kv)),
                    "backendRefs",
                ) {
                    Ok(v) => v,
                    Err(e) => {
                        return Err(e);
                    },
                };
                let timeouts = match opt_val_field::<HttpRouteTimeouts>(
                    slot_value(pairs, &slots, 3, Ghost(kv)),
                ) {
                    Ok(v) => v,
                    Err(e) => {
                        return Err(e);
                    },
                };
                Ok(HttpRouteRule { matches, filters, backend_refs, timeouts })
            },
            _ => Err(DecodeError::WrongType(String::from_str("HttpRouteRule"))),
        }
    }

    fn encode(&self) -> (j: Json)
        ensures
            j.deep_view() == spec_encode_http_rule(self.deep_view()),
    {
        let mut obj: Vec<(String, Json)> = Vec::new();
        if let Some(ms) = &self.matches {
            obj.push((String::from_str("matches"), Json::Arr(encode_vec::<HttpRouteMatch>(ms))));
        }
        if let Some(fs) = &self.filters {
            obj.push((String::from_str("filters"), Json::Arr(encode_vec::<HttpRouteFilter>(fs))));
        }
        if let Some(bs) = &self.backend_refs {
            obj.push(
                (String::from_str("backendRefs"), Json::Arr(encode_vec::<HttpBackendRef>(bs))),
            );
        }
        if let Some(t) = &self.timeouts {
            obj.push((String::from_str("timeouts"), t.encode()));
        }
        proof {
            broadcast use lemma_json_pair_seq_view;

            reveal_with_fuel(obj_of, 6);
            assert(json_pair_seq_view(obj@) =~= obj_of(http_rule_fields(self.deep_view())));
        }
        Json::Obj(obj)
    }

    proof fn lemma_round_trip(r: HttpRouteRuleView)
        ensures
            spec_decode_http_rule(spec_encode_http_rule(r)) == Ok::<HttpRouteRuleView, ErrorView>(
                r,
            ),
    {
        lemma_http_rule_literals();
        let fields = http_rule_fields(r);
        let keys = http_rule_keys();
        assert(fields_distinct(fields));
        assert(fields_within(fields, keys)) by {
            assert forall|i: int| 0 <= i < fields.len() implies keys.contains(
                (#[trigger] fields[i]).0,
            ) by {
                if i == 0 {
                    assert(keys[0] == fields[0].0);
                } else if i == 1 {
                    assert(keys[1] == fields[1].0);
                } else if i == 2 {
                    assert(keys[2] == fields[2].0);
                } else {
                    assert(keys[3] == fields[3].0);
                }
            }
        }
        lemma_obj_of_scan(fields, keys, false);
        lemma_obj_of_field_at(fields, 0);
        lemma_obj_of_field_at(fields, 1);
        lemma_obj_of_field_at(fields, 2);
        lemma_obj_of_field_at(fields, 3);
        if r.matches is Some {
            lemma_seq_round_trip::<HttpRouteMatch>(r.matches->0);
        }
        if r.filters is Some {
            lemma_seq_round_trip::<HttpRouteFilter>(r.filters->0);
        }
        if r.backend_refs is Some {
            lemma_seq_round_trip::<HttpBackendRef>(r.backend_refs->0);
        }
        if r.timeouts is Some {
            HttpRouteTimeouts::lemma_round_trip(r.timeouts->0);
        }
    }
}

/// The desired state of an HTTPRoute: the parents it attaches to, the
/// hostnames it serves, and its rules. On the wire the common route
/// fields sit flat in this document.
#[derive(Clone, Debug, Default, PartialEq)]
pub struct HttpRouteSpec {
    /// Common route information: the parents this route attaches to.
    pub inner: CommonRouteSpec,
    /// Hostnames matched against the HTTP Host header.
    pub hostnames: Option<Vec<Hostname>>,
    /// The route's rules.
    pub rules: Option<Vec<HttpRouteRule>>,
}

/// The mathematical shape of an [`HttpRouteSpec`].
pub struct HttpRouteSpecView {
    pub inner: CommonRouteSpecView,
    pub hostnames: Option<Seq<Seq<char>>>,
    pub rules: Option<Seq<HttpRouteRuleView>>,
}

impl DeepView for HttpRouteSpec {
    type V = HttpRouteSpecView;

    open spec fn deep_view(&self) -> HttpRouteSpecView {
        HttpRouteSpecView {
            inner: self.inner.deep_view(),
            hostnames: self.hostnames.deep_view(),
            rules: self.rules.deep_view(),
        }
    }
}

pub open spec fn http_route_spec_keys() -> Seq<Seq<char>> {
    seq!["parentRefs"@, "hostnames"@, "rules"@]
}

/// What decoding an HTTPRoute spec yields: every field optional, with
/// the common route fields read flat.
pub open spec fn spec_decode_http_route_spec(v: JsonView) -> Result<HttpRouteSpecView, ErrorView> {
    match v {
        JsonView::Obj(pairs) => match spec_scan(pairs, http_route_spec_keys(), false) {
            Some(e) => Err(e),
            None => match spec_opt_list::<ParentReference>(
                spec_field(pairs, "parentRefs"@),
                "parentRefs"@,
            ) {
                Err(e) => Err(e),
                Ok(parent_refs) => match spec_opt_list::<String>(
                    spec_field(pairs, "hostnames"@),
                    "hostnames"@,
                ) {
                    Err(e) => Err(e),
                    Ok(hostnames) => match spec_opt_list::<HttpRouteRule>(
                        spec_field(pairs, "rules"@),
                        "rules"@,
                    ) {
                        Err(e) => Err(e),
                        Ok(rules) => Ok(
                            HttpRouteSpecView {
                                inner: CommonRouteSpecView { parent_refs },
                                hostnames,
                                rules,
                            },
                        ),
                    },
                },
            },
        },
        _ => Err(ErrorView::WrongType("HttpRouteSpec"@)),
    }
}

pub open spec fn http_route_spec_fields(s: HttpRouteSpecView) -> Seq<
    (Seq<char>, Option<JsonView>),
> {
    seq![
        ("parentRefs"@, list_entry::<ParentReference>(s.inner.parent_refs)),
        ("hostnames"@, list_entry::<String>(s.hostnames)),
        ("rules"@, list_entry::<HttpRouteRule>(s.rules)),
    ]
}

pub open spec fn spec_encode_http_route_spec(s: HttpRouteSpecView) -> JsonView {
    JsonView::Obj(obj_of(http_route_spec_fields(s)))
}

proof fn lemma_http_route_spec_literals()
    ensures
        keys_distinct(http_route_spec_keys()),
{
    reveal_strlit("parentRefs");
    reveal_strlit("hostnames");
    reveal_strlit("rules");
    assert("parentRefs"@.len() == 10);
    assert("hostnames"@.len() == 9);
    assert("rules"@.len() == 5);
    let keys = http_route_spec_keys();
    assert forall|i: int, j: int| 0 <= i < j < keys.len() implies keys[i] != keys[j] by {
        assert(keys[0] != keys[1]);
        assert(keys[0] != keys[2]);
        assert(keys[1] != keys[2]);
    }
}

fn http_route_spec_keys_exec() -> (r: Vec<String>)
    ensures
        r.deep_view() == http_route_spec_keys(),
        keys_distinct(http_route_spec_keys()),
{
    let r = vec![
        String::from_str("parentRefs"),
        String::from_str("hostnames"),
        String::from_str("rules"),
    ];
    proof {
        lemma_http_route_spec_literals();
        assert(r.deep_view() =~= http_route_spec_keys());
    }
    r
}

impl Codec for HttpRouteSpec {
    open spec fn spec_decode(v: JsonView) -> Result<HttpRouteSpecView, ErrorView> {
        spec_decode_http_route_spec(v)
    }

    open spec fn spec_encode(s: HttpRouteSpecView) -> JsonView {
        spec_encode_http_route_spec(s)
    }

    open spec fn wf(s: HttpRouteSpecView) -> bool {
        true
    }

    fn decode(j: &Json) -> (r: Result<Self, DecodeError>)
        ensures
            res_view(r) == spec_decode_http_route_spec(j.deep_view()),
    {
        match j {
            Json::Obj(pairs) => {
                let ghost kv = http_route_spec_keys();
                let keys = http_route_spec_keys_exec();
                let slots = match lookup_fields(pairs, &keys, false) {
                    Ok(s) => s,
                    Err(e) => {
                        return Err(e);
                    },
                };
                proof {
                    assert(kv[0] == "parentRefs"@);
                    assert(kv[1] == "hostnames"@);
                    assert(kv[2] == "rules"@);
                }
                let parent_refs = match opt_list_field::<ParentReference>(
                    slot_value(pairs, &slots, 0, Ghost(kv)),
                    "parentRefs",
                ) {
                    Ok(v) => v,
                    Err(e) => {
                        return Err(e);
                    },
                };
                let hostnames = match opt_list_field::<String>(
                    slot_value(pairs, &slots, 1, Ghost(kv)),
                    "hostnames",
                ) {
                    Ok(v) => v,
                    Err(e) => {
                        return Err(e);
                    },
                };
                let rules = match opt_list_field::<HttpRouteRule>(
                    slot_value(pairs, &slots, 2, Ghost(kv)),
                    "rules",
                ) {
                    Ok(v) => v,
                    Err(e) => {
                        return Err(e);
                    },
                };
                Ok(HttpRouteSpec { inner: CommonRouteSpec { parent_refs }, hostnames, rules })
            },
            _ => Err(DecodeError::WrongType(String::from_str("HttpRouteSpec"))),
        }
    }

    fn encode(&self) -> (j: Json)
        ensures
            j.deep_view() == spec_encode_http_route_spec(self.deep_view()),
    {
        let mut obj: Vec<(String, Json)> = Vec::new();
        if let Some(ps) = &self.inner.parent_refs {
            obj.push(
                (String::from_str("parentRefs"), Json::Arr(encode_vec::<ParentReference>(ps))),
            );
        }
        if let Some(hs) = &self.hostnames {
            obj.push((String::from_str("hostnames"), Json::Arr(encode_vec::<String>(hs))));
        }
        if let Some(rs) = &self.rules {
            obj.push((String::from_str("rules"), Json::Arr(encode_vec::<HttpRouteRule>(rs))));
        }
        proof {
            broadcast use lemma_json_pair_seq_view;

            reveal_with_fuel(obj_of, 5);
            assert(json_pair_seq_view(obj@) =~= obj_of(http_route_spec_fields(self.deep_view())));
        }
        Json::Obj(obj)
    }

    proof fn lemma_round_trip(s: HttpRouteSpecView)
        ensures
            spec_decode_http_route_spec(spec_encode_http_route_spec(s)) == Ok::<
                HttpRouteSpecView,
                ErrorView,
            >(s),
    {
        lemma_http_route_spec_literals();
        let fields = http_route_spec_fields(s);
        let keys = http_route_spec_keys();
        assert(fields_distinct(fields));
        assert(fields_within(fields, keys)) by {
            assert forall|i: int| 0 <= i < fields.len() implies keys.contains(
                (#[trigger] fields[i]).0,
            ) by {
                if i == 0 {
                    assert(keys[0] == fields[0].0);
                } else if i == 1 {
                    assert(keys[1] == fields[1].0);
                } else {
                    assert(keys[2] == fields[2].0);
                }
            }
        }
        lemma_obj_of_scan(fields, keys, false);
        lemma_obj_of_field_at(fields, 0);
        lemma_obj_of_field_at(fields, 1);
        lemma_obj_of_field_at(fields, 2);
        if s.inner.parent_refs is Some {
            lemma_seq_round_trip::<ParentReference>(s.inner.parent_refs->0);
        }
        if s.hostnames is Some {
            lemma_seq_round_trip::<String>(s.hostnames->0);
        }
        if s.rules is Some {
            lemma_seq_round_trip::<HttpRouteRule>(s.rules->0);
        }
    }
}

/// The observed state of an HTTPRoute.
#[derive(Clone, Debug, PartialEq)]
pub struct HttpRouteStatus {
    /// Common route status information.
    pub inner: RouteStatus,
}

} // verus!

verus! {

/// The mathematical shape of an [`HttpRouteStatus`].
pub struct HttpRouteStatusView {
    pub inner: crate::shared::RouteStatusView,
}

impl DeepView for HttpRouteStatus {
    type V = HttpRouteStatusView;

    open spec fn deep_view(&self) -> HttpRouteStatusView {
        HttpRouteStatusView { inner: self.inner.deep_view() }
    }
}

impl Codec for HttpRouteStatus {
    open spec fn spec_decode(v: JsonView) -> Result<HttpRouteStatusView, ErrorView> {
        match crate::shared::spec_decode_route_status(v) {
            Ok(inner) => Ok(HttpRouteStatusView { inner }),
            Err(e) => Err(e),
        }
    }

    open spec fn spec_encode(s: HttpRouteStatusView) -> JsonView {
        crate::shared::spec_encode_route_status(s.inner)
    }

    open spec fn wf(s: HttpRouteStatusView) -> bool {
        true
    }

    fn decode(j: &Json) -> (r: Result<Self, DecodeError>)
        ensures
            res_view(r) == Self::spec_decode(j.deep_view()),
    {
        match RouteStatus::decode(j) {
            Ok(inner) => Ok(HttpRouteStatus { inner }),
            Err(e) => Err(e),
        }
    }

    fn encode(&self) -> (j: Json)
        ensures
            j.deep_view() == Self::spec_encode(self.deep_view()),
    {
        self.inner.encode()
    }

    proof fn lemma_round_trip(s: HttpRouteStatusView)
        ensures
            Self::spec_decode(Self::spec_encode(s)) == Ok::<HttpRouteStatusView, ErrorView>(s),
    {
        RouteStatus::lemma_round_trip(s.inner);
    }
}

} // verus!
