//! The GRPCRoute resource: method and header matchers, filters, weighted
//! backends, and the route spec that composes them.

use vstd::prelude::*;

use crate::httproute::{
    HttpBackendRef, HttpBackendRefView, HttpHeaderMatch, HttpHeaderMatchView,
    HttpRequestHeaderFilter, HttpRequestHeaderFilterView, HttpRequestMirrorFilter,
    HttpRequestMirrorFilterView, HttpRouteFilter, HttpRouteFilterView, HttpRouteStatus,
};
use crate::object_reference::{
    BackendObjectReference, BackendObjectReferenceView, LocalObjectReference,
    LocalObjectReferenceView,
};
use crate::shared::{BackendRef, BackendRefView, CommonRouteSpec, CommonRouteSpecView, RouteStatus};
use crate::wire::{
    Codec, DecodeError, ErrorView, Json, JsonView, encode_vec, json_pair_seq_view, keys_distinct,
    lemma_json_pair_seq_view, lemma_obj_of_field_at, lemma_obj_of_scan, lemma_seq_round_trip,
    list_entry, lookup_fields, obj_of, opt_list_field, opt_str_field, opt_u16_field,
    req_str_field, req_val_field, res_view, slot_value, spec_field, spec_opt_list, spec_opt_str,
    spec_opt_u16, spec_req_str, spec_req_val, spec_scan, spec_scan_from, str_entry,
    u16_entry, fields_distinct, fields_within,
};

verus! {

/// A gRPC request service/method matcher. The wire form is a flat tagged
/// union: a `type` discriminant (`"Exact"` by default) beside optional
/// `method` and `service` fields.
#[derive(Clone, Debug, Eq, PartialEq)]
pub enum GrpcMethodMatch {
    Exact { method: Option<String>, service: Option<String> },
    RegularExpression { method: Option<String>, service: Option<String> },
}

/// The mathematical shape of a [`GrpcMethodMatch`].
pub enum GrpcMethodMatchView {
    Exact { method: Option<Seq<char>>, service: Option<Seq<char>> },
    RegularExpression { method: Option<Seq<char>>, service: Option<Seq<char>> },
}

impl DeepView for GrpcMethodMatch {
    type V = GrpcMethodMatchView;

    open spec fn deep_view(&self) -> GrpcMethodMatchView {
        match self {
            GrpcMethodMatch::Exact { method, service } => GrpcMethodMatchView::Exact {
                method: method.deep_view(),
                service: service.deep_view(),
            },
            GrpcMethodMatch::RegularExpression { method, service } =>
                GrpcMethodMatchView::RegularExpression {
                method: method.deep_view(),
                service: service.deep_view(),
            },
        }
    }
}

/// A present-but-empty string is treated as not given at all.
pub open spec fn spec_norm(v: Option<Seq<char>>) -> Option<Seq<char>> {
    match v {
        Some(s) => if s.len() == 0 {
            None
        } else {
            Some(s)
        },
        None => None,
    }
}

/// The keys a method-match document may carry, and nothing else.
pub open spec fn method_match_keys() -> Seq<Seq<char>> {
    seq!["type"@, "method"@, "service"@]
}

/// What decoding a method-match document yields. The scan rejects repeated
/// or unrecognized keys; every payload string is normalized; an absent,
/// `null`, or empty `type` selects `Exact`; an unrecognized `type` is an
/// error naming it and the accepted variants.
pub open spec fn spec_decode_method_match(v: JsonView) -> Result<GrpcMethodMatchView, ErrorView> {
    match v {
        JsonView::Obj(pairs) => match spec_scan(pairs, method_match_keys(), true) {
            Some(e) => Err(e),
            None => match spec_opt_str(spec_field(pairs, "type"@), "type"@) {
                Err(e) => Err(e),
                Ok(t_raw) => match spec_opt_str(spec_field(pairs, "method"@), "method"@) {
                    Err(e) => Err(e),
                    Ok(m_raw) => match spec_opt_str(spec_field(pairs, "service"@), "service"@) {
                        Err(e) => Err(e),
                        Ok(s_raw) => {
                            let t = spec_norm(t_raw);
                            let method = spec_norm(m_raw);
                            let service = spec_norm(s_raw);
                            if t is None || t == Some("Exact"@) {
                                Ok(GrpcMethodMatchView::Exact { method, service })
                            } else if t == Some("RegularExpression"@) {
                                Ok(GrpcMethodMatchView::RegularExpression { method, service })
                            } else {
                                Err(ErrorView::InvalidDiscriminant(
                                    t->0,
                                    seq!["Exact"@, "RegularExpression"@],
                                ))
                            }
                        },
                    },
                },
            },
        },
        _ => Err(ErrorView::WrongType("GrpcMethodMatch"@)),
    }
}

/// The fields a method matcher encodes to: the discriminant always
/// explicit, then `method` and `service` when present.
pub open spec fn method_match_fields(m: GrpcMethodMatchView) -> Seq<(Seq<char>, Option<JsonView>)> {
    match m {
        GrpcMethodMatchView::Exact { method, service } => seq![
            ("type"@, Some(JsonView::Str("Exact"@))),
            ("method"@, str_entry(method)),
            ("service"@, str_entry(service)),
        ],
        GrpcMethodMatchView::RegularExpression { method, service } => seq![
            ("type"@, Some(JsonView::Str("RegularExpression"@))),
            ("method"@, str_entry(method)),
            ("service"@, str_entry(service)),
        ],
    }
}

pub open spec fn spec_encode_method_match(m: GrpcMethodMatchView) -> JsonView {
    JsonView::Obj(obj_of(method_match_fields(m)))
}

proof fn lemma_method_match_literals()
    ensures
        "type"@ != "method"@,
        "type"@ != "service"@,
        "method"@ != "service"@,
        "Exact"@.len() == 5,
        "RegularExpression"@.len() == 17,
        "Exact"@ != "RegularExpression"@,
        keys_distinct(method_match_keys()),
{
    reveal_strlit("type");
    reveal_strlit("method");
    reveal_strlit("service");
    reveal_strlit("Exact");
    reveal_strlit("RegularExpression");
    let keys = method_match_keys();
    assert(keys[0] == "type"@);
    assert(keys[1] == "method"@);
    assert(keys[2] == "service"@);
    assert forall|i: int, j: int| 0 <= i < j < keys.len() implies keys[i] != keys[j] by {
        assert(keys[0] != keys[1]);
        assert(keys[0] != keys[2]);
        assert(keys[1] != keys[2]);
    }
}

fn method_match_keys_exec() -> (r: Vec<String>)
    ensures
        r.deep_view() == method_match_keys(),
        keys_distinct(method_match_keys()),
{
    let r = vec![
        String::from_str("type"),
        String::from_str("method"),
        String::from_str("service"),
    ];
    proof {
        lemma_method_match_literals();
        assert(r.deep_view() =~= method_match_keys());
    }
    r
}

/// Maps an empty string to "not given", as the matcher decoders require.
pub fn empty_option_strings_are_none(value: Option<String>) -> (r: Option<String>)
    ensures
        r.deep_view() == spec_norm(value.deep_view()),
{
    match value {
        Some(s) => if s.as_str().is_empty() {
            None
        } else {
            Some(s)
        },
        None => None,
    }
}

impl Codec for GrpcMethodMatch {
    open spec fn spec_decode(v: JsonView) -> Result<GrpcMethodMatchView, ErrorView> {
        spec_decode_method_match(v)
    }

    open spec fn spec_encode(m: GrpcMethodMatchView) -> JsonView {
        spec_encode_method_match(m)
    }

    open spec fn wf(m: GrpcMethodMatchView) -> bool {
        match m {
            GrpcMethodMatchView::Exact { method, service } => spec_norm(method) == method
                && spec_norm(service) == service,
            GrpcMethodMatchView::RegularExpression { method, service } => spec_norm(method)
                == method && spec_norm(service) == service,
        }
    }

    fn decode(j: &Json) -> (r: Result<Self, DecodeError>)
        ensures
            res_view(r) == spec_decode_method_match(j.deep_view()),
    {
        match j {
            Json::Obj(pairs) => {
                broadcast use lemma_json_pair_seq_view;

                let ghost pv = json_pair_seq_view(pairs@);
                let ghost kv = method_match_keys();
                let keys = method_match_keys_exec();
                let slots = match lookup_fields(pairs, &keys, true) {
                    Ok(s) => s,
                    Err(e) => {
                        return Err(e);
                    },
                };
                proof {
                    assert(kv[0] == "type"@);
                    assert(kv[1] == "method"@);
                    assert(kv[2] == "service"@);
                }
                let t_raw = match opt_str_field(slot_value(pairs, &slots, 0, Ghost(kv)), "type") {
                    Ok(v) => v,
                    Err(e) => {
                        return Err(e);
                    },
                };
                let m_raw = match opt_str_field(
                    slot_value(pairs, &slots, 1, Ghost(kv)),
                    "method",
                ) {
                    Ok(v) => v,
                    Err(e) => {
                        return Err(e);
                    },
                };
                let s_raw = match opt_str_field(
                    slot_value(pairs, &slots, 2, Ghost(kv)),
                    "service",
                ) {
                    Ok(v) => v,
                    Err(e) => {
                        return Err(e);
                    },
                };
                let t = empty_option_strings_are_none(t_raw);
                let method = empty_option_strings_are_none(m_raw);
                let service = empty_option_strings_are_none(s_raw);
                match t {
                    None => Ok(GrpcMethodMatch::Exact { method, service }),
                    Some(name) => {
                        if name.eq(&String::from_str("Exact")) {
                            proof {
                                assert(name@ == "Exact"@);
                            }
                            Ok(GrpcMethodMatch::Exact { method, service })
                        } else if name.eq(&String::from_str("RegularExpression")) {
                            proof {
                                assert(name@ == "RegularExpression"@);
                            }
                            Ok(GrpcMethodMatch::RegularExpression { method, service })
                        } else {
                            let allowed = vec![
                                String::from_str("Exact"),
                                String::from_str("RegularExpression"),
                            ];
                            proof {
                                assert(allowed.deep_view() =~= seq![
                                    "Exact"@,
                                    "RegularExpression"@,
                                ]);
                            }
                            Err(DecodeError::InvalidDiscriminant(name, allowed))
                        }
                    },
                }
            },
            _ => Err(DecodeError::WrongType(String::from_str("GrpcMethodMatch"))),
        }
    }

    fn encode(&self) -> (j: Json)
        ensures
            j.deep_view() == spec_encode_method_match(self.deep_view()),
    {
        let mut obj: Vec<(String, Json)> = Vec::new();
        match self {
            GrpcMethodMatch::Exact { method, service } => {
                obj.push((String::from_str("type"), Json::Str(String::from_str("Exact"))));
                if let Some(m) = method {
                    obj.push((String::from_str("method"), Json::Str(m.clone())));
                }
                if let Some(s) = service {
                    obj.push((String::from_str("service"), Json::Str(s.clone())));
                }
            },
            GrpcMethodMatch::RegularExpression { method, service } => {
                obj.push(
                    (String::from_str("type"), Json::Str(String::from_str("RegularExpression"))),
                );
                if let Some(m) = method {
                    obj.push((String::from_str("method"), Json::Str(m.clone())));
                }
                if let Some(s) = service {
                    obj.push((String::from_str("service"), Json::Str(s.clone())));
                }
            },
        }
        proof {
            broadcast use lemma_json_pair_seq_view;

            reveal_with_fuel(obj_of, 5);
            assert(json_pair_seq_view(obj@) =~= obj_of(method_match_fields(self.deep_view())));
        }
        Json::Obj(obj)
    }

    proof fn lemma_round_trip(m: GrpcMethodMatchView)
        ensures
            spec_decode_method_match(spec_encode_method_match(m)) == Ok::<
                GrpcMethodMatchView,
                ErrorView,
            >(m),
    {
        lemma_method_match_literals();
        let fields = method_match_fields(m);
        let keys = method_match_keys();
        let pairs = obj_of(fields);
        assert(fields_distinct(fields));
        assert(fields_within(fields, keys)) by {
            assert(keys[0] == "type"@);
            assert(keys[1] == "method"@);
            assert(keys[2] == "service"@);
            assert forall|i: int| 0 <= i < fields.len() implies keys.contains(
                (#[trigger] fields[i]).0,
            ) by {
                if i == 0 {
                    assert(keys[0] == fields[0].0);
                } else if i == 1 {
                    assert(keys[1] == fields[1].0);
                } else {
                    assert(keys[2] == fields[2].0);
                }
            }
        }
        lemma_obj_of_scan(fields, keys, true);
        lemma_obj_of_field_at(fields, 0);
        lemma_obj_of_field_at(fields, 1);
        lemma_obj_of_field_at(fields, 2);
    }
}

} // verus!

verus! {

/// Whether a matcher selects nothing: both fields absent or empty.
pub open spec fn spec_is_empty(m: GrpcMethodMatchView) -> bool {
    match m {
        GrpcMethodMatchView::Exact { method, service } => spec_norm(method) is None && spec_norm(
            service,
        ) is None,
        GrpcMethodMatchView::RegularExpression { method, service } => spec_norm(method) is None
            && spec_norm(service) is None,
    }
}

impl GrpcMethodMatch {
    /// True when neither a service nor a method is given, counting an
    /// empty string as not given.
    pub fn is_empty(&self) -> (r: bool)
        ensures
            r == spec_is_empty(self.deep_view()),
    {
        let (method, service) = match self {
            GrpcMethodMatch::Exact { method, service } => (method, service),
            GrpcMethodMatch::RegularExpression { method, service } => (method, service),
        };
        (match method {
            Some(s) => s.as_str().is_empty(),
            None => true,
        }) && (match service {
            Some(s) => s.as_str().is_empty(),
            None => true,
        })
    }
}

/// A route match's `method` field: a vacuous matcher, one whose selector
/// fields are all absent or empty, folds to "not specified".
pub open spec fn spec_opt_method_match(v: Option<JsonView>) -> Result<
    Option<GrpcMethodMatchView>,
    ErrorView,
> {
    match v {
        None => Ok(None),
        Some(JsonView::Null) => Ok(None),
        Some(o) => match spec_decode_method_match(o) {
            Err(e) => Err(e),
            Ok(m) => Ok(
                if spec_is_empty(m) {
                    None
                } else {
                    Some(m)
                },
            ),
        },
    }
}

/// Decodes an optional method matcher, folding a vacuous one to `None`.
pub fn decode_opt_method_match(v: Option<&Json>) -> (r: Result<
    Option<GrpcMethodMatch>,
    DecodeError,
>)
    ensures
        res_view(r) == spec_opt_method_match(v.deep_view()),
{
    match v {
        None => Ok(None),
        Some(Json::Null) => Ok(None),
        Some(o) => match GrpcMethodMatch::decode(o) {
            Err(e) => Err(e),
            Ok(m) => if m.is_empty() {
                Ok(None)
            } else {
                Ok(Some(m))
            },
        },
    }
}

/// A method-match document without a `type` key decodes to the `Exact`
/// variant whenever it decodes at all.
pub proof fn lemma_method_match_default_variant(pairs: Seq<(Seq<char>, JsonView)>)
    requires
        spec_field(pairs, "type"@) is None,
        spec_decode_method_match(JsonView::Obj(pairs)) is Ok,
    ensures
        spec_decode_method_match(JsonView::Obj(pairs))->Ok_0 is Exact,
{
}

/// A method-match document with `type: "RegularExpression"` decodes to
/// the `RegularExpression` variant whenever it decodes at all: it is
/// never folded back to the default.
pub proof fn lemma_method_match_regular_expression(pairs: Seq<(Seq<char>, JsonView)>)
    requires
        spec_field(pairs, "type"@) == Some(JsonView::Str("RegularExpression"@)),
        spec_decode_method_match(JsonView::Obj(pairs)) is Ok,
    ensures
        spec_decode_method_match(JsonView::Obj(pairs))->Ok_0 is RegularExpression,
{
    lemma_method_match_literals();
}

/// A method-match document whose `type` names no known variant fails with
/// an error carrying the offending value and exactly the accepted names.
pub proof fn lemma_method_match_unknown_discriminant(
    pairs: Seq<(Seq<char>, JsonView)>,
    t: Seq<char>,
)
    requires
        spec_scan(pairs, method_match_keys(), true) is None,
        spec_field(pairs, "type"@) == Some(JsonView::Str(t)),
        t.len() > 0,
        t != "Exact"@,
        t != "RegularExpression"@,
        spec_opt_str(spec_field(pairs, "method"@), "method"@) is Ok,
        spec_opt_str(spec_field(pairs, "service"@), "service"@) is Ok,
    ensures
        spec_decode_method_match(JsonView::Obj(pairs)) == Err::<GrpcMethodMatchView, ErrorView>(
            ErrorView::InvalidDiscriminant(t, seq!["Exact"@, "RegularExpression"@]),
        ),
{
}

/// A matcher whose `service` and `method` are both absent or empty folds
/// to "not specified", whether or not `type` was given.
pub proof fn lemma_vacuous_matcher_not_specified(pairs: Seq<(Seq<char>, JsonView)>)
    requires
        spec_decode_method_match(JsonView::Obj(pairs)) is Ok,
        spec_norm_field(pairs, "method"@) is None,
        spec_norm_field(pairs, "service"@) is None,
    ensures
        spec_opt_method_match(Some(JsonView::Obj(pairs))) == Ok::<
            Option<GrpcMethodMatchView>,
            ErrorView,
        >(None),
{
}

/// The normalized string a document gives for a key, where it gives one.
pub open spec fn spec_norm_field(pairs: Seq<(Seq<char>, JsonView)>, key: Seq<char>) -> Option<
    Seq<char>,
> {
    match spec_field(pairs, key) {
        Some(JsonView::Str(s)) => spec_norm(Some(s)),
        _ => None,
    }
}

/// Decoding sees only the normalized fields: a document carrying
/// `service: ""` decodes exactly as the same document without `service`.
pub proof fn lemma_empty_string_equals_absent(
    pairs1: Seq<(Seq<char>, JsonView)>,
    pairs2: Seq<(Seq<char>, JsonView)>,
)
    requires
        spec_scan(pairs1, method_match_keys(), true) == spec_scan(
            pairs2,
            method_match_keys(),
            true,
        ),
        spec_field(pairs1, "service"@) == Some(JsonView::Str(Seq::<char>::empty())),
        spec_field(pairs2, "service"@) is None,
        spec_field(pairs1, "type"@) == spec_field(pairs2, "type"@),
        spec_field(pairs1, "method"@) == spec_field(pairs2, "method"@),
    ensures
        spec_decode_method_match(JsonView::Obj(pairs1)) == spec_decode_method_match(
            JsonView::Obj(pairs2),
        ),
{
}

proof fn lemma_scan_hits_duplicate(
    pairs: Seq<(Seq<char>, JsonView)>,
    keys: Seq<Seq<char>>,
    strict: bool,
    seen: Set<Seq<char>>,
    i: int,
    j: int,
)
    requires
        forall|t: int| 0 <= t < pairs.len() ==> keys.contains((#[trigger] pairs[t]).0),
        0 <= i < j < pairs.len(),
        pairs[i].0 == pairs[j].0,
    ensures
        spec_scan_from(pairs, keys, strict, seen) matches Some(ErrorView::DuplicateField(_)),
    decreases pairs.len(),
{
    let k = pairs[0].0;
    let rest = pairs.subrange(1, pairs.len() as int);
    assert(forall|t: int| 0 <= t < rest.len() ==> rest[t] == pairs[t + 1]);
    assert(keys.contains(k));
    if seen.contains(k) {
    } else if i == 0 {
        lemma_scan_sees_key(rest, keys, strict, seen.insert(k), j - 1);
    } else {
        lemma_scan_hits_duplicate(rest, keys, strict, seen.insert(k), i - 1, j - 1);
    }
}

proof fn lemma_scan_sees_key(
    pairs: Seq<(Seq<char>, JsonView)>,
    keys: Seq<Seq<char>>,
    strict: bool,
    seen: Set<Seq<char>>,
    i: int,
)
    requires
        forall|t: int| 0 <= t < pairs.len() ==> keys.contains((#[trigger] pairs[t]).0),
        0 <= i < pairs.len(),
        seen.contains(pairs[i].0),
    ensures
        spec_scan_from(pairs, keys, strict, seen) matches Some(ErrorView::DuplicateField(_)),
    decreases pairs.len(),
{
    let k = pairs[0].0;
    let rest = pairs.subrange(1, pairs.len() as int);
    assert(forall|t: int| 0 <= t < rest.len() ==> rest[t] == pairs[t + 1]);
    assert(keys.contains(k));
    if seen.contains(k) {
    } else {
        lemma_scan_sees_key(rest, keys, strict, seen.insert(k), i - 1);
    }
}

/// A document that repeats a recognized key never decodes: last write
/// never wins.
pub proof fn lemma_duplicate_field_rejected(pairs: Seq<(Seq<char>, JsonView)>, i: int, j: int)
    requires
        forall|t: int|
            0 <= t < pairs.len() ==> method_match_keys().contains((#[trigger] pairs[t]).0),
        0 <= i < j < pairs.len(),
        pairs[i].0 == pairs[j].0,
    ensures
        spec_decode_method_match(JsonView::Obj(pairs)) matches Err(ErrorView::DuplicateField(_)),
{
    lemma_scan_hits_duplicate(pairs, method_match_keys(), true, Set::empty(), i, j);
}

} // verus!

verus! {

/// A gRPC header matcher has the shape of an HTTP header matcher.
pub type GrpcHeaderMatch = HttpHeaderMatch;

/// The predicate a GRPCRoute rule matches requests against: an optional
/// method matcher and header matchers, ANDed together.
#[derive(Clone, Debug, Default, PartialEq)]
pub struct GrpcRouteMatch {
    /// The service/method matcher. A vacuous matcher, one whose
    /// selector fields are all absent or empty, decodes to not given.
    pub method: Option<GrpcMethodMatch>,
    /// Header matchers; a request must match all of them.
    pub headers: Option<Vec<GrpcHeaderMatch>>,
}

/// The mathematical shape of a [`GrpcRouteMatch`].
pub struct GrpcRouteMatchView {
    pub method: Option<GrpcMethodMatchView>,
    pub headers: Option<Seq<HttpHeaderMatchView>>,
}

impl DeepView for GrpcRouteMatch {
    type V = GrpcRouteMatchView;

    open spec fn deep_view(&self) -> GrpcRouteMatchView {
        GrpcRouteMatchView {
            method: self.method.deep_view(),
            headers: self.headers.deep_view(),
        }
    }
}

pub open spec fn grpc_match_keys() -> Seq<Seq<char>> {
    seq!["method"@, "headers"@]
}

/// What decoding a GRPC route match yields: the method matcher decodes
/// with its folding rule, the headers as a list.
pub open spec fn spec_decode_grpc_match(v: JsonView) -> Result<GrpcRouteMatchView, ErrorView> {
    match v {
        JsonView::Obj(pairs) => match spec_scan(pairs, grpc_match_keys(), false) {
            Some(e) => Err(e),
            None => match spec_opt_method_match(spec_field(pairs, "method"@)) {
                Err(e) => Err(e),
                Ok(method) => match spec_opt_list::<HttpHeaderMatch>(
                    spec_field(pairs, "headers"@),
                    "headers"@,
                ) {
                    Err(e) => Err(e),
                    Ok(headers) => Ok(GrpcRouteMatchView { method, headers }),
                },
            },
        },
        _ => Err(ErrorView::WrongType("GrpcRouteMatch"@)),
    }
}

pub open spec fn grpc_match_fields(m: GrpcRouteMatchView) -> Seq<(Seq<char>, Option<JsonView>)> {
    seq![
        (
            "method"@,
            match m.method {
                Some(mm) => Some(spec_encode_method_match(mm)),
                None => None,
            },
        ),
        ("headers"@, list_entry::<HttpHeaderMatch>(m.headers)),
    ]
}

pub open spec fn spec_encode_grpc_match(m: GrpcRouteMatchView) -> JsonView {
    JsonView::Obj(obj_of(grpc_match_fields(m)))
}

proof fn lemma_grpc_match_literals()
    ensures
        keys_distinct(grpc_match_keys()),
{
    reveal_strlit("method");
    reveal_strlit("headers");
    assert("method"@.len() == 6);
    assert("headers"@.len() == 7);
    let keys = grpc_match_keys();
    assert forall|i: int, j: int| 0 <= i < j < keys.len() implies keys[i] != keys[j] by {
        assert(keys[0] != keys[1]);
    }
}

fn grpc_match_keys_exec() -> (r: Vec<String>)
    ensures
        r.deep_view() == grpc_match_keys(),
        keys_distinct(grpc_match_keys()),
{
    let r = vec![String::from_str("method"), String::from_str("headers")];
    proof {
        lemma_grpc_match_literals();
        assert(r.deep_view() =~= grpc_match_keys());
    }
    r
}

impl Codec for GrpcRouteMatch {
    open spec fn spec_decode(v: JsonView) -> Result<GrpcRouteMatchView, ErrorView> {
        spec_decode_grpc_match(v)
    }

    open spec fn spec_encode(m: GrpcRouteMatchView) -> JsonView {
        spec_encode_grpc_match(m)
    }

    open spec fn wf(m: GrpcRouteMatchView) -> bool {
        match m.method {
            Some(mm) => GrpcMethodMatch::wf(mm) && !spec_is_empty(mm),
            None => true,
        }
    }

    fn decode(j: &Json) -> (r: Result<Self, DecodeError>)
        ensures
            res_view(r) == spec_decode_grpc_match(j.deep_view()),
    {
        match j {
            Json::Obj(pairs) => {
                let ghost kv = grpc_match_keys();
                let keys = grpc_match_keys_exec();
                let slots = match lookup_fields(pairs, &keys, false) {
                    Ok(s) => s,
                    Err(e) => {
                        return Err(e);
                    },
                };
                proof {
                    assert(kv[0] == "method"@);
                    assert(kv[1] == "headers"@);
                }
                let method = match decode_opt_method_match(slot_value(pairs, &slots, 0, Ghost(kv)))
                    {
                    Ok(v) => v,
                    Err(e) => {
                        return Err(e);
                    },
                };
                let headers = match opt_list_field::<HttpHeaderMatch>(
                    slot_value(pairs, &slots, 1, Ghost(kv)),
                    "headers",
                ) {
                    Ok(v) => v,
                    Err(e) => {
                        return Err(e);
                    },
                };
                Ok(GrpcRouteMatch { method, headers })
            },
            _ => Err(DecodeError::WrongType(String::from_str("GrpcRouteMatch"))),
        }
    }

    fn encode(&self) -> (j: Json)
        ensures
            j.deep_view() == spec_encode_grpc_match(self.deep_view()),
    {
        let mut obj: Vec<(String, Json)> = Vec::new();
        if let Some(m) = &self.method {
            obj.push((String::from_str("method"), m.encode()));
        }
        if let Some(hs) = &self.headers {
            obj.push((String::from_str("headers"), Json::Arr(encode_vec::<HttpHeaderMatch>(hs))));
        }
        proof {
            broadcast use lemma_json_pair_seq_view;

            reveal_with_fuel(obj_of, 4);
            assert(json_pair_seq_view(obj@) =~= obj_of(grpc_match_fields(self.deep_view())));
        }
        Json::Obj(obj)
    }

    proof fn lemma_round_trip(m: GrpcRouteMatchView)
        ensures
            spec_decode_grpc_match(spec_encode_grpc_match(m)) == Ok::<GrpcRouteMatchView, ErrorView>(
                m,
            ),
    {
        lemma_grpc_match_literals();
        let fields = grpc_match_fields(m);
        let keys = grpc_match_keys();
        assert(fields_distinct(fields));
        assert(fields_within(fields, keys)) by {
            assert forall|i: int| 0 <= i < fields.len() implies keys.contains(
                (#[trigger] fields[i]).0,
            ) by {
                if i == 0 {
                    assert(keys[0] == fields[0].0);
                } else {
                    assert(keys[1] == fields[1].0);
                }
            }
        }
        lemma_obj_of_scan(fields, keys, false);
        lemma_obj_of_field_at(fields, 0);
        lemma_obj_of_field_at(fields, 1);
        if m.method is Some {
            GrpcMethodMatch::lemma_round_trip(m.method->0);
        }
        if m.headers is Some {
            lemma_seq_round_trip::<HttpHeaderMatch>(m.headers->0);
        }
    }
}

/// A processing step applied during the request or response lifecycle
/// of a GRPCRoute.
#[derive(Clone, Debug, PartialEq)]
pub enum GrpcRouteFilter {
    /// An implementation-specific extension.
    ExtensionRef { extension_ref: LocalObjectReference },
    /// Mirrors requests to another backend.
    RequestMirror { request_mirror: HttpRequestMirrorFilter },
    /// Modifies request headers before forwarding.
    RequestHeaderModifier { request_header_modifier: HttpRequestHeaderFilter },
    /// Modifies response headers before returning.
    ResponseHeaderModifier { response_header_modifier: HttpRequestHeaderFilter },
}

/// The mathematical shape of a [`GrpcRouteFilter`].
pub enum GrpcRouteFilterView {
    ExtensionRef { extension_ref: LocalObjectReferenceView },
    RequestMirror { request_mirror: HttpRequestMirrorFilterView },
    RequestHeaderModifier { request_header_modifier: HttpRequestHeaderFilterView },
    ResponseHeaderModifier { response_header_modifier: HttpRequestHeaderFilterView },
}

impl DeepView for GrpcRouteFilter {
    type V = GrpcRouteFilterView;

    open spec fn deep_view(&self) -> GrpcRouteFilterView {
        match self {
            GrpcRouteFilter::ExtensionRef { extension_ref } => GrpcRouteFilterView::ExtensionRef {
                extension_ref: extension_ref.deep_view(),
            },
            GrpcRouteFilter::RequestMirror { request_mirror } =>
                GrpcRouteFilterView::RequestMirror { request_mirror: request_mirror.deep_view() },
            GrpcRouteFilter::RequestHeaderModifier { request_header_modifier } =>
                GrpcRouteFilterView::RequestHeaderModifier {
                request_header_modifier: request_header_modifier.deep_view(),
            },
            GrpcRouteFilter::ResponseHeaderModifier { response_header_modifier } =>
                GrpcRouteFilterView::ResponseHeaderModifier {
                response_header_modifier: response_header_modifier.deep_view(),
            },
        }
    }
}

pub open spec fn grpc_filter_keys() -> Seq<Seq<char>> {
    seq![
        "type"@,
        "extensionRef"@,
        "requestMirror"@,
        "requestHeaderModifier"@,
        "responseHeaderModifier"@,
    ]
}

pub open spec fn grpc_filter_variants() -> Seq<Seq<char>> {
    seq!["ExtensionRef"@, "RequestMirror"@, "RequestHeaderModifier"@, "ResponseHeaderModifier"@]
}

/// What decoding a GRPC route filter yields: `type` is required and
/// selects the variant, whose configuration field is then required.
pub open spec fn spec_decode_grpc_filter(v: JsonView) -> Result<GrpcRouteFilterView, ErrorView> {
    match v {
        JsonView::Obj(pairs) => match spec_scan(pairs, grpc_filter_keys(), false) {
            Some(e) => Err(e),
            None => match spec_req_str(spec_field(pairs, "type"@), "type"@) {
                Err(e) => Err(e),
                Ok(t) => if t == "ExtensionRef"@ {
                    match spec_req_val::<LocalObjectReference>(
                        spec_field(pairs, "extensionRef"@),
                        "extensionRef"@,
                    ) {
                        Err(e) => Err(e),
                        Ok(extension_ref) => Ok(GrpcRouteFilterView::ExtensionRef { extension_ref }),
                    }
                } else if t == "RequestMirror"@ {
                    match spec_req_val::<HttpRequestMirrorFilter>(
                        spec_field(pairs, "requestMirror"@),
                        "requestMirror"@,
                    ) {
                        Err(e) => Err(e),
                        Ok(request_mirror) => Ok(
                            GrpcRouteFilterView::RequestMirror { request_mirror },
                        ),
                    }
                } else if t == "RequestHeaderModifier"@ {
                    match spec_req_val::<HttpRequestHeaderFilter>(
                        spec_field(pairs, "requestHeaderModifier"@),
                        "requestHeaderModifier"@,
                    ) {
                        Err(e) => Err(e),
                        Ok(request_header_modifier) => Ok(
                            GrpcRouteFilterView::RequestHeaderModifier { request_header_modifier },
                        ),
                    }
                } else if t == "ResponseHeaderModifier"@ {
                    match spec_req_val::<HttpRequestHeaderFilter>(
                        spec_field(pairs, "responseHeaderModifier"@),
                        "responseHeaderModifier"@,
                    ) {
                        Err(e) => Err(e),
                        Ok(response_header_modifier) => Ok(
                            GrpcRouteFilterView::ResponseHeaderModifier {
                                response_header_modifier,
                            },
                        ),
                    }
                } else {
                    Err(ErrorView::InvalidDiscriminant(t, grpc_filter_variants()))
                },
            },
        },
        _ => Err(ErrorView::WrongType("GrpcRouteFilter"@)),
    }
}

pub open spec fn grpc_filter_fields(f: GrpcRouteFilterView) -> Seq<(Seq<char>, Option<JsonView>)> {
    match f {
        GrpcRouteFilterView::ExtensionRef { extension_ref } => seq![
            ("type"@, Some(JsonView::Str("ExtensionRef"@))),
            (
                "extensionRef"@,
                Some(crate::object_reference::spec_encode_local_ref(extension_ref)),
            ),
        ],
        GrpcRouteFilterView::RequestMirror { request_mirror } => seq![
            ("type"@, Some(JsonView::Str("RequestMirror"@))),
            ("requestMirror"@, Some(crate::httproute::spec_encode_mirror_filter(request_mirror))),
        ],
        GrpcRouteFilterView::RequestHeaderModifier { request_header_modifier } => seq![
            ("type"@, Some(JsonView::Str("RequestHeaderModifier"@))),
            (
                "requestHeaderModifier"@,
                Some(crate::httproute::spec_encode_header_filter(request_header_modifier)),
            ),
        ],
        GrpcRouteFilterView::ResponseHeaderModifier { response_header_modifier } => seq![
            ("type"@, Some(JsonView::Str("ResponseHeaderModifier"@))),
            (
                "responseHeaderModifier"@,
                Some(crate::httproute::spec_encode_header_filter(response_header_modifier)),
            ),
        ],
    }
}

pub open spec fn spec_encode_grpc_filter(f: GrpcRouteFilterView) -> JsonView {
    JsonView::Obj(obj_of(grpc_filter_fields(f)))
}

proof fn lemma_grpc_filter_literals()
    ensures
        keys_distinct(grpc_filter_keys()),
        "ExtensionRef"@.len() == 12,
        "RequestMirror"@.len() == 13,
        "RequestHeaderModifier"@.len() == 21,
        "ResponseHeaderModifier"@.len() == 22,
{
    reveal_strlit("type");
    reveal_strlit("extensionRef");
    reveal_strlit("requestMirror");
    reveal_strlit("requestHeaderModifier");
    reveal_strlit("responseHeaderModifier");
    reveal_strlit("ExtensionRef");
    reveal_strlit("RequestMirror");
    reveal_strlit("RequestHeaderModifier");
    reveal_strlit("ResponseHeaderModifier");
    assert("type"@.len() == 4);
    assert("extensionRef"@.len() == 12);
    assert("requestMirror"@.len() == 13);
    assert("requestHeaderModifier"@.len() == 21);
    assert("responseHeaderModifier"@.len() == 22);
    let keys = grpc_filter_keys();
    assert forall|i: int, j: int| 0 <= i < j < keys.len() implies keys[i] != keys[j] by {
        assert(keys[0].len() == 4);
        assert(keys[1].len() == 12);
        assert(keys[2].len() == 13);
        assert(keys[3].len() == 21);
        assert(keys[4].len() == 22);
    }
}

fn grpc_filter_keys_exec() -> (r: Vec<String>)
    ensures
        r.deep_view() == grpc_filter_keys(),
        keys_distinct(grpc_filter_keys()),
{
    let r = vec![
        String::from_str("type"),
        String::from_str("extensionRef"),
        String::from_str("requestMirror"),
        String::from_str("requestHeaderModifier"),
        String::from_str("responseHeaderModifier"),
    ];
    proof {
        lemma_grpc_filter_literals();
        assert(r.deep_view() =~= grpc_filter_keys());
    }
    r
}

fn grpc_filter_variants_exec() -> (r: Vec<String>)
    ensures
        r.deep_view() == grpc_filter_variants(),
{
    let r = vec![
        String::from_str("ExtensionRef"),
        String::from_str("RequestMirror"),
        String::from_str("RequestHeaderModifier"),
        String::from_str("ResponseHeaderModifier"),
    ];
    proof {
        assert(r.deep_view() =~= grpc_filter_variants());
    }
    r
}

impl Codec for GrpcRouteFilter {
    open spec fn spec_decode(v: JsonView) -> Result<GrpcRouteFilterView, ErrorView> {
        spec_decode_grpc_filter(v)
    }

    open spec fn spec_encode(f: GrpcRouteFilterView) -> JsonView {
        spec_encode_grpc_filter(f)
    }

    open spec fn wf(f: GrpcRouteFilterView) -> bool {
        true
    }

    fn decode(j: &Json) -> (r: Result<Self, DecodeError>)
        ensures
            res_view(r) == spec_decode_grpc_filter(j.deep_view()),
    {
        match j {
            Json::Obj(pairs) => {
                let ghost kv = grpc_filter_keys();
                let keys = grpc_filter_keys_exec();
                let slots = match lookup_fields(pairs, &keys, false) {
                    Ok(s) => s,
                    Err(e) => {
                        return Err(e);
                    },
                };
                proof {
                    assert(kv[0] == "type"@);
                    assert(kv[1] == "extensionRef"@);
                    assert(kv[2] == "requestMirror"@);
                    assert(kv[3] == "requestHeaderModifier"@);
                    assert(kv[4] == "responseHeaderModifier"@);
                }
                let t = match req_str_field(slot_value(pairs, &slots, 0, Ghost(kv)), "type") {
                    Ok(v) => v,
                    Err(e) => {
                        return Err(e);
                    },
                };
                if t.eq(&String::from_str("ExtensionRef")) {
                    match req_val_field::<LocalObjectReference>(
                        slot_value(pairs, &slots, 1, Ghost(kv)),
                        "extensionRef",
                    ) {
                        Ok(extension_ref) => Ok(GrpcRouteFilter::ExtensionRef { extension_ref }),
                        Err(e) => Err(e),
                    }
                } else if t.eq(&String::from_str("RequestMirror")) {
                    match req_val_field::<HttpRequestMirrorFilter>(
                        slot_value(pairs, &slots, 2, Ghost(kv)),
                        "requestMirror",
                    ) {
                        Ok(request_mirror) => Ok(GrpcRouteFilter::RequestMirror { request_mirror }),
                        Err(e) => Err(e),
                    }
                } else if t.eq(&String::from_str("RequestHeaderModifier")) {
                    match req_val_field::<HttpRequestHeaderFilter>(
                        slot_value(pairs, &slots, 3, Ghost(kv)),
                        "requestHeaderModifier",
                    ) {
                        Ok(request_header_modifier) => Ok(
                            GrpcRouteFilter::RequestHeaderModifier { request_header_modifier },
                        ),
                        Err(e) => Err(e),
                    }
                } else if t.eq(&String::from_str("ResponseHeaderModifier")) {
                    match req_val_field::<HttpRequestHeaderFilter>(
                        slot_value(pairs, &slots, 4, Ghost(kv)),
                        "responseHeaderModifier",
                    ) {
                        Ok(response_header_modifier) => Ok(
                            GrpcRouteFilter::ResponseHeaderModifier { response_header_modifier },
                        ),
                        Err(e) => Err(e),
                    }
                } else {
                    Err(DecodeError::InvalidDiscriminant(t, grpc_filter_variants_exec()))
                }
            },
            _ => Err(DecodeError::WrongType(String::from_str("GrpcRouteFilter"))),
        }
    }

    fn encode(&self) -> (j: Json)
        ensures
            j.deep_view() == spec_encode_grpc_filter(self.deep_view()),
    {
        let mut obj: Vec<(String, Json)> = Vec::new();
        match self {
            GrpcRouteFilter::ExtensionRef { extension_ref } => {
                obj.push((String::from_str("type"), Json::Str(String::from_str("ExtensionRef"))));
                obj.push((String::from_str("extensionRef"), extension_ref.encode()));
            },
            GrpcRouteFilter::RequestMirror { request_mirror } => {
                obj.push((String::from_str("type"), Json::Str(String::from_str("RequestMirror"))));
                obj.push((String::from_str("requestMirror"), request_mirror.encode()));
            },
            GrpcRouteFilter::RequestHeaderModifier { request_header_modifier } => {
                obj.push(
                    (
                        String::from_str("type"),
                        Json::Str(String::from_str("RequestHeaderModifier")),
                    ),
                );
                obj.push(
                    (String::from_str("requestHeaderModifier"), request_header_modifier.encode()),
                );
            },
            GrpcRouteFilter::ResponseHeaderModifier { response_header_modifier } => {
                obj.push(
                    (
                        String::from_str("type"),
                        Json::Str(String::from_str("ResponseHeaderModifier")),
                    ),
                );
                obj.push(
                    (
                        String::from_str("responseHeaderModifier"),
                        response_header_modifier.encode(),
                    ),
                );
            },
        }
        proof {
            broadcast use lemma_json_pair_seq_view;

            reveal_with_fuel(obj_of, 4);
            assert(json_pair_seq_view(obj@) =~= obj_of(grpc_filter_fields(self.deep_view())));
        }
        Json::Obj(obj)
    }

    proof fn lemma_round_trip(f: GrpcRouteFilterView)
        ensures
            spec_decode_grpc_filter(spec_encode_grpc_filter(f)) == Ok::<
                GrpcRouteFilterView,
                ErrorView,
            >(f),
    {
        lemma_grpc_filter_literals();
        let fields = grpc_filter_fields(f);
        let keys = grpc_filter_keys();
        assert(fields_distinct(fields));
        assert(fields_within(fields, keys)) by {
            assert forall|i: int| 0 <= i < fields.len() implies keys.contains(
                (#[trigger] fields[i]).0,
            ) by {
                if i == 0 {
                    assert(keys[0] == fields[0].0);
                } else {
                    match f {
                        GrpcRouteFilterView::ExtensionRef { .. } => {
                            assert(keys[1] == fields[1].0);
                        },
                        GrpcRouteFilterView::RequestMirror { .. } => {
                            assert(keys[2] == fields[1].0);
                        },
                        GrpcRouteFilterView::RequestHeaderModifier { .. } => {
                            assert(keys[3] == fields[1].0);
                        },
                        GrpcRouteFilterView::ResponseHeaderModifier { .. } => {
                            assert(keys[4] == fields[1].0);
                        },
                    }
                }
            }
        }
        lemma_obj_of_scan(fields, keys, false);
        lemma_obj_of_field_at(fields, 0);
        lemma_obj_of_field_at(fields, 1);
        match f {
            GrpcRouteFilterView::ExtensionRef { extension_ref } => {
                LocalObjectReference::lemma_round_trip(extension_ref);
            },
            GrpcRouteFilterView::RequestMirror { request_mirror } => {
                HttpRequestMirrorFilter::lemma_round_trip(request_mirror);
            },
            GrpcRouteFilterView::RequestHeaderModifier { request_header_modifier } => {
                HttpRequestHeaderFilter::lemma_round_trip(request_header_modifier);
            },
            GrpcRouteFilterView::ResponseHeaderModifier { response_header_modifier } => {
                HttpRequestHeaderFilter::lemma_round_trip(response_header_modifier);
            },
        }
    }
}

} // verus!

verus! {

/// How a GRPCRoute forwards a matched request: a backend object
/// reference whose fields sit flat in this document, with per-backend
/// filters and an optional weight.
#[derive(Clone, Debug, PartialEq)]
pub struct GrpcRouteBackendRef {
    /// The object referred to.
    pub inner: BackendObjectReference,
    /// Filters run only for requests forwarded to this backend.
    pub filters: Option<Vec<GrpcRouteFilter>>,
    /// The proportion of requests sent here; absent means 1, zero means
    /// none.
    pub weight: Option<u16>,
}

/// The mathematical shape of a [`GrpcRouteBackendRef`].
pub struct GrpcRouteBackendRefView {
    pub inner: BackendObjectReferenceView,
    pub filters: Option<Seq<GrpcRouteFilterView>>,
    pub weight: Option<u16>,
}

impl DeepView for GrpcRouteBackendRef {
    type V = GrpcRouteBackendRefView;

    open spec fn deep_view(&self) -> GrpcRouteBackendRefView {
        GrpcRouteBackendRefView {
            inner: self.inner.deep_view(),
            filters: self.filters.deep_view(),
            weight: self.weight,
        }
    }
}

pub open spec fn grpc_backend_ref_keys() -> Seq<Seq<char>> {
    seq!["group"@, "kind"@, "name"@, "namespace"@, "port"@, "filters"@, "weight"@]
}

/// What decoding a GRPC backend reference yields: the object
/// reference's fields flat beside `filters` and `weight`; only `name`
/// is required.
pub open spec fn spec_decode_grpc_backend_ref(v: JsonView) -> Result<
    GrpcRouteBackendRefView,
    ErrorView,
> {
    match v {
        JsonView::Obj(pairs) => match spec_scan(pairs, grpc_backend_ref_keys(), false) {
            Some(e) => Err(e),
            None => match spec_opt_str(spec_field(pairs, "group"@), "group"@) {
                Err(e) => Err(e),
                Ok(group) => match spec_opt_str(spec_field(pairs, "kind"@), "kind"@) {
                    Err(e) => Err(e),
                    Ok(kind) => match spec_req_str(spec_field(pairs, "name"@), "name"@) {
                        Err(e) => Err(e),
                        Ok(name) => match spec_opt_str(
                            spec_field(pairs, "namespace"@),
                            "namespace"@,
                        ) {
                            Err(e) => Err(e),
                            Ok(namespace) => match spec_opt_u16(
                                spec_field(pairs, "port"@),
                                "port"@,
                            ) {
                                Err(e) => Err(e),
                                Ok(port) => match spec_opt_list::<GrpcRouteFilter>(
                                    spec_field(pairs, "filters"@),
                                    "filters"@,
                                ) {
                                    Err(e) => Err(e),
                                    Ok(filters) => match spec_opt_u16(
                                        spec_field(pairs, "weight"@),
                                        "weight"@,
                                    ) {
                                        Err(e) => Err(e),
                                        Ok(weight) => Ok(
                                            GrpcRouteBackendRefView {
                                                inner: BackendObjectReferenceView {
                                                    group,
                                                    kind,
                                                    name,
                                                    namespace,
                                                    port,
                                                },
                                                filters,
                                                weight,
                                            },
                                        ),
                                    },
                                },
                            },
                        },
                    },
                },
            },
        },
        _ => Err(ErrorView::WrongType("GrpcRouteBackendRef"@)),
    }
}

pub open spec fn grpc_backend_ref_fields(b: GrpcRouteBackendRefView) -> Seq<
    (Seq<char>, Option<JsonView>),
> {
    seq![
        ("group"@, str_entry(b.inner.group)),
        ("kind"@, str_entry(b.inner.kind)),
        ("name"@, Some(JsonView::Str(b.inner.name))),
        ("namespace"@, str_entry(b.inner.namespace)),
        ("port"@, u16_entry(b.inner.port)),
        ("filters"@, list_entry::<GrpcRouteFilter>(b.filters)),
        ("weight"@, u16_entry(b.weight)),
    ]
}

pub open spec fn spec_encode_grpc_backend_ref(b: GrpcRouteBackendRefView) -> JsonView {
    JsonView::Obj(obj_of(grpc_backend_ref_fields(b)))
}

proof fn lemma_grpc_backend_ref_literals()
    ensures
        keys_distinct(grpc_backend_ref_keys()),
{
    reveal_strlit("group");
    reveal_strlit("kind");
    reveal_strlit("name");
    reveal_strlit("namespace");
    reveal_strlit("port");
    reveal_strlit("filters");
    reveal_strlit("weight");
    assert("group"@.len() == 5);
    assert("kind"@.len() == 4);
    assert("name"@.len() == 4);
    assert("namespace"@.len() == 9);
    assert("port"@.len() == 4);
    assert("filters"@.len() == 7);
    assert("weight"@.len() == 6);
    assert("kind"@[0] != "name"@[0]);
    assert("kind"@[0] != "port"@[0]);
    assert("name"@[0] != "port"@[0]);
    let keys = grpc_backend_ref_keys();
    assert forall|i: int, j: int| 0 <= i < j < keys.len() implies keys[i] != keys[j] by {
        assert(keys[0] != keys[6]);
        assert(keys[1] != keys[2]);
        assert(keys[1] != keys[4]);
        assert(keys[2] != keys[4]);
    }
}

fn grpc_backend_ref_keys_exec() -> (r: Vec<String>)
    ensures
        r.deep_view() == grpc_backend_ref_keys(),
        keys_distinct(grpc_backend_ref_keys()),
{
    let r = vec![
        String::from_str("group"),
        String::from_str("kind"),
        String::from_str("name"),
        String::from_str("namespace"),
        String::from_str("port"),
        String::from_str("filters"),
        String::from_str("weight"),
    ];
    proof {
        lemma_grpc_backend_ref_literals();
        assert(r.deep_view() =~= grpc_backend_ref_keys());
    }
    r
}

impl Codec for GrpcRouteBackendRef {
    open spec fn spec_decode(v: JsonView) -> Result<GrpcRouteBackendRefView, ErrorView> {
        spec_decode_grpc_backend_ref(v)
    }

    open spec fn spec_encode(b: GrpcRouteBackendRefView) -> JsonView {
        spec_encode_grpc_backend_ref(b)
    }

    open spec fn wf(b: GrpcRouteBackendRefView) -> bool {
        true
    }

    fn decode(j: &Json) -> (r: Result<Self, DecodeError>)
        ensures
            res_view(r) == spec_decode_grpc_backend_ref(j.deep_view()),
    {
        match j {
            Json::Obj(pairs) => {
                let ghost kv = grpc_backend_ref_keys();
                let keys = grpc_backend_ref_keys_exec();
                let slots = match lookup_fields(pairs, &keys, false) {
                    Ok(s) => s,
                    Err(e) => {
                        return Err(e);
                    },
                };
                proof {
                    assert(kv[0] == "group"@);
                    assert(kv[1] == "kind"@);
                    assert(kv[2] == "name"@);
                    assert(kv[3] == "namespace"@);
                    assert(kv[4] == "port"@);
                    assert(kv[5] == "filters"@);
                    assert(kv[6] == "weight"@);
                }
                let group = match opt_str_field(slot_value(pairs, &slots, 0, Ghost(kv)), "group") {
                    Ok(v) => v,
                    Err(e) => {
                        return Err(e);
                    },
                };
                let kind = match opt_str_field(slot_value(pairs, &slots, 1, Ghost(kv)), "kind") {
                    Ok(v) => v,
                    Err(e) => {
                        return Err(e);
                    },
                };
                let name = match req_str_field(slot_value(pairs, &slots, 2, Ghost(kv)), "name") {
                    Ok(v) => v,
                    Err(e) => {
                        return Err(e);
                    },
                };
                let namespace = match opt_str_field(
                    slot_value(pairs, &slots, 3, Ghost(kv)),
                    "namespace",
                ) {
                    Ok(v) => v,
                    Err(e) => {
                        return Err(e);
                    },
                };
                let port = match opt_u16_field(slot_value(pairs, &slots, 4, Ghost(kv)), "port") {
                    Ok(v) => v,
                    Err(e) => {
                        return Err(e);
                    },
                };
                let filters = match opt_list_field::<GrpcRouteFilter>(
                    slot_value(pairs, &slots, 5, Ghost(kv)),
                    "filters",
                ) {
                    Ok(v) => v,
                    Err(e) => {
                        return Err(e);
                    },
                };
                let weight = match opt_u16_field(slot_value(pairs, &slots, 6, Ghost(kv)), "weight")
                    {
                    Ok(v) => v,
                    Err(e) => {
                        return Err(e);
                    },
                };
                Ok(
                    GrpcRouteBackendRef {
                        inner: BackendObjectReference { group, kind, name, namespace, port },
                        filters,
                        weight,
                    },
                )
            },
            _ => Err(DecodeError::WrongType(String::from_str("GrpcRouteBackendRef"))),
        }
    }

    #[verifier::rlimit(50)]
    fn encode(&self) -> (j: Json)
        ensures
            j.deep_view() == spec_encode_grpc_backend_ref(self.deep_view()),
    {
        let mut obj: Vec<(String, Json)> = Vec::new();
        if let Some(g) = &self.inner.group {
            obj.push((String::from_str("group"), Json::Str(g.clone())));
        }
        if let Some(k) = &self.inner.kind {
            obj.push((String::from_str("kind"), Json::Str(k.clone())));
        }
        obj.push((String::from_str("name"), Json::Str(self.inner.name.clone())));
        if let Some(ns) = &self.inner.namespace {
            obj.push((String::from_str("namespace"), Json::Str(ns.clone())));
        }
        if let Some(p) = &self.inner.port {
            obj.push((String::from_str("port"), Json::Int(*p as i64)));
        }
        if let Some(fs) = &self.filters {
            obj.push((String::from_str("filters"), Json::Arr(encode_vec::<GrpcRouteFilter>(fs))));
        }
        if let Some(w) = &self.weight {
            obj.push((String::from_str("weight"), Json::Int(*w as i64)));
        }
        proof {
            broadcast use lemma_json_pair_seq_view;

            reveal_with_fuel(obj_of, 9);
            assert(json_pair_seq_view(obj@) =~= obj_of(grpc_backend_ref_fields(self.deep_view())));
        }
        Json::Obj(obj)
    }

    proof fn lemma_round_trip(b: GrpcRouteBackendRefView)
        ensures
            spec_decode_grpc_backend_ref(spec_encode_grpc_backend_ref(b)) == Ok::<
                GrpcRouteBackendRefView,
                ErrorView,
            >(b),
    {
        lemma_grpc_backend_ref_literals();
        let fields = grpc_backend_ref_fields(b);
        let keys = grpc_backend_ref_keys();
        assert(fields_distinct(fields));
        assert(fields_within(fields, keys)) by {
            assert forall|i: int| 0 <= i < fields.len() implies keys.contains(
                (#[trigger] fields[i]).0,
            ) by {
                if i == 0 {
                    assert(keys[0] == fields[0].0);
                } else if i == 1 {
                    assert(keys[1] == fields[1].0);
                } else if i == 2 {
                    assert(keys[2] == fields[2].0);
                } else if i == 3 {
                    assert(keys[3] == fields[3].0);
                } else if i == 4 {
                    assert(keys[4] == fields[4].0);
                } else if i == 5 {
                    assert(keys[5] == fields[5].0);
                } else {
                    assert(keys[6] == fields[6].0);
                }
            }
        }
        lemma_obj_of_scan(fields, keys, false);
        lemma_obj_of_field_at(fields, 0);
        lemma_obj_of_field_at(fields, 1);
        lemma_obj_of_field_at(fields, 2);
        lemma_obj_of_field_at(fields, 3);
        lemma_obj_of_field_at(fields, 4);
        lemma_obj_of_field_at(fields, 5);
        lemma_obj_of_field_at(fields, 6);
        if b.filters is Some {
            lemma_seq_round_trip::<GrpcRouteFilter>(b.filters->0);
        }
    }
}

/// One rule of a GRPCRoute: its filters, the matches that select
/// requests, and the backends they are forwarded to.
#[derive(Clone, Debug, Default, PartialEq)]
pub struct GrpcRouteRule {
    /// Filters applied to matching requests.
    pub filters: Option<Vec<GrpcRouteFilter>>,
    /// Conditions for matching requests; the rule matches when any one
    /// of them is satisfied.
    pub matches: Option<Vec<GrpcRouteMatch>>,
    /// Where matching requests are sent.
    pub backend_refs: Option<Vec<GrpcRouteBackendRef>>,
}

/// The mathematical shape of a [`GrpcRouteRule`].
pub struct GrpcRouteRuleView {
    pub filters: Option<Seq<GrpcRouteFilterView>>,
    pub matches: Option<Seq<GrpcRouteMatchView>>,
    pub backend_refs: Option<Seq<GrpcRouteBackendRefView>>,
}

impl DeepView for GrpcRouteRule {
    type V = GrpcRouteRuleView;

    open spec fn deep_view(&self) -> GrpcRouteRuleView {
        GrpcRouteRuleView {
            filters: self.filters.deep_view(),
            matches: self.matches.deep_view(),
            backend_refs: self.backend_refs.deep_view(),
        }
    }
}

pub open spec fn grpc_rule_keys() -> Seq<Seq<char>> {
    seq!["filters"@, "matches"@, "backendRefs"@]
}

/// What decoding a GRPC route rule yields: every field optional.
pub open spec fn spec_decode_grpc_rule(v: JsonView) -> Result<GrpcRouteRuleView, ErrorView> {
    match v {
        JsonView::Obj(pairs) => match spec_scan(pairs, grpc_rule_keys(), false) {
            Some(e) => Err(e),
            None => match spec_opt_list::<GrpcRouteFilter>(
                spec_field(pairs, "filters"@),
                "filters"@,
            ) {
                Err(e) => Err(e),
                Ok(filters) => match spec_opt_list::<GrpcRouteMatch>(
                    spec_field(pairs, "matches"@),
                    "matches"@,
                ) {
                    Err(e) => Err(e),
                    Ok(matches) => match spec_opt_list::<GrpcRouteBackendRef>(
                        spec_field(pairs, "backendRefs"@),
                        "backendRefs"@,
                    ) {
                        Err(e) => Err(e),
                        Ok(backend_refs) => Ok(GrpcRouteRuleView { filters, matches, backend_refs }),
                    },
                },
            },
        },
        _ => Err(ErrorView::WrongType("GrpcRouteRule"@)),
    }
}

pub open spec fn grpc_rule_fields(r: GrpcRouteRuleView) -> Seq<(Seq<char>, Option<JsonView>)> {
    seq![
        ("filters"@, list_entry::<GrpcRouteFilter>(r.filters)),
        ("matches"@, list_entry::<GrpcRouteMatch>(r.matches)),
        ("backendRefs"@, list_entry::<GrpcRouteBackendRef>(r.backend_refs)),
    ]
}

pub open spec fn spec_encode_grpc_rule(r: GrpcRouteRuleView) -> JsonView {
    JsonView::Obj(obj_of(grpc_rule_fields(r)))
}

proof fn lemma_grpc_rule_literals()
    ensures
        keys_distinct(grpc_rule_keys()),
{
    reveal_strlit("filters");
    reveal_strlit("matches");
    reveal_strlit("backendRefs");
    assert("filters"@.len() == 7);
    assert("matches"@.len() == 7);
    assert("backendRefs"@.len() == 11);
    assert("filters"@[0] != "matches"@[0]);
    let keys = grpc_rule_keys();
    assert forall|i: int, j: int| 0 <= i < j < keys.len() implies keys[i] != keys[j] by {
        assert(keys[0] != keys[1]);
        assert(keys[0] != keys[2]);
        assert(keys[1] != keys[2]);
    }
}

fn grpc_rule_keys_exec() -> (r: Vec<String>)
    ensures
        r.deep_view() == grpc_rule_keys(),
        keys_distinct(grpc_rule_keys()),
{
    let r = vec![
        String::from_str("filters"),
        String::from_str("matches"),
        String::from_str("backendRefs"),
    ];
    proof {
        lemma_grpc_rule_literals();
        assert(r.deep_view() =~= grpc_rule_keys());
    }
    r
}

impl Codec for GrpcRouteRule {
    open spec fn spec_decode(v: JsonView) -> Result<GrpcRouteRuleView, ErrorView> {
        spec_decode_grpc_rule(v)
    }

    open spec fn spec_encode(r: GrpcRouteRuleView) -> JsonView {
        spec_encode_grpc_rule(r)
    }

    open spec fn wf(r: GrpcRouteRuleView) -> bool {
        match r.matches {
            Some(ms) => forall|i: int| 0 <= i < ms.len() ==> GrpcRouteMatch::wf(#[trigger] ms[i]),
            None => true,
        }
    }

    fn decode(j: &Json) -> (r: Result<Self, DecodeError>)
        ensures
            res_view(r) == spec_decode_grpc_rule(j.deep_view()),
    {
        match j {
            Json::Obj(pairs) => {
                let ghost kv = grpc_rule_keys();
                let keys = grpc_rule_keys_exec();
                let slots = match lookup_fields(pairs, &keys, false) {
                    Ok(s) => s,
                    Err(e) => {
                        return Err(e);
                    },
                };
                proof {
                    assert(kv[0] == "filters"@);
                    assert(kv[1] == "matches"@);
                    assert(kv[2] == "backendRefs"@);
                }
                let filters = match opt_list_field::<GrpcRouteFilter>(
                    slot_value(pairs, &slots, 0, Ghost(kv)),
                    "filters",
                ) {
                    Ok(v) => v,
                    Err(e) => {
                        return Err(e);
                    },
                };
                let matches = match opt_list_field::<GrpcRouteMatch>(
                    slot_value(pairs, &slots, 1, Ghost(kv)),
                    "matches",
                ) {
                    Ok(v) => v,
                    Err(e) => {
                        return Err(e);
                    },
                };
                let backend_refs = match opt_list_field::<GrpcRouteBackendRef>(
                    slot_value(pairs, &slots, 2, Ghost(kv)),
                    "backendRefs",
                ) {
                    Ok(v) => v,
                    Err(e) => {
                        return Err(e);
                    },
                };
                Ok(GrpcRouteRule { filters, matches, backend_refs })
            },
            _ => Err(DecodeError::WrongType(String::from_str("GrpcRouteRule"))),
        }
    }

    fn encode(&self) -> (j: Json)
        ensures
            j.deep_view() == spec_encode_grpc_rule(self.deep_view()),
    {
        let mut obj: Vec<(String, Json)> = Vec::new();
        if let Some(fs) = &self.filters {
            obj.push((String::from_str("filters"), Json::Arr(encode_vec::<GrpcRouteFilter>(fs))));
        }
        if let Some(ms) = &self.matches {
            obj.push((String::from_str("matches"), Json::Arr(encode_vec::<GrpcRouteMatch>(ms))));
        }
        if let Some(bs) = &self.backend_refs {
            obj.push(
                (String::from_str("backendRefs"), Json::Arr(encode_vec::<GrpcRouteBackendRef>(bs))),
            );
        }
        proof {
            broadcast use lemma_json_pair_seq_view;

            reveal_with_fuel(obj_of, 5);
            assert(json_pair_seq_view(obj@) =~= obj_of(grpc_rule_fields(self.deep_view())));
        }
        Json::Obj(obj)
    }

    proof fn lemma_round_trip(r: GrpcRouteRuleView)
        ensures
            spec_decode_grpc_rule(spec_encode_grpc_rule(r)) == Ok::<GrpcRouteRuleView, ErrorView>(
                r,
            ),
    {
        lemma_grpc_rule_literals();
        let fields = grpc_rule_fields(r);
        let keys = grpc_rule_keys();
        assert(fields_distinct(fields));
        assert(fields_within(fields, keys)) by {
            assert forall|i: int| 0 <= i < fields.len() implies keys.contains(
                (#[trigger] fields[i]).0,
            ) by {
                if i == 0 {
                    assert(keys[0] == fields[0].0);
                } else if i == 1 {
                    assert(keys[1] == fields[1].0);
                } else {
                    assert(keys[2] == fields[2].0);
                }
            }
        }
        lemma_obj_of_scan(fields, keys, false);
        lemma_obj_of_field_at(fields, 0);
        lemma_obj_of_field_at(fields, 1);
        lemma_obj_of_field_at(fields, 2);
        if r.filters is Some {
            lemma_seq_round_trip::<GrpcRouteFilter>(r.filters->0);
        }
        if r.matches is Some {
            lemma_seq_round_trip::<GrpcRouteMatch>(r.matches->0);
        }
        if r.backend_refs is Some {
            lemma_seq_round_trip::<GrpcRouteBackendRef>(r.backend_refs->0);
        }
    }
}

/// The desired state of a GRPCRoute: the parents it attaches to, the
/// hostnames it serves, and its rules. On the wire the common route
/// fields sit flat in this document.
#[derive(Clone, Debug, Default, PartialEq)]
pub struct GrpcRouteSpec {
    /// Common route information: the parents this route attaches to.
    pub inner: CommonRouteSpec,
    /// Hostnames matched against the gRPC Host header.
    pub hostnames: Option<Vec<String>>,
    /// The route's rules.
    pub rules: Option<Vec<GrpcRouteRule>>,
}

/// The mathematical shape of a [`GrpcRouteSpec`].
pub struct GrpcRouteSpecView {
    pub inner: CommonRouteSpecView,
    pub hostnames: Option<Seq<Seq<char>>>,
    pub rules: Option<Seq<GrpcRouteRuleView>>,
}

impl DeepView for GrpcRouteSpec {
    type V = GrpcRouteSpecView;

    open spec fn deep_view(&self) -> GrpcRouteSpecView {
        GrpcRouteSpecView {
            inner: self.inner.deep_view(),
            hostnames: self.hostnames.deep_view(),
            rules: self.rules.deep_view(),
        }
    }
}

pub open spec fn grpc_route_spec_keys() -> Seq<Seq<char>> {
    seq!["parentRefs"@, "hostnames"@, "rules"@]
}

/// What decoding a GRPCRoute spec yields: every field optional, with
/// the common route fields read flat.
pub open spec fn spec_decode_grpc_route_spec(v: JsonView) -> Result<GrpcRouteSpecView, ErrorView> {
    match v {
        JsonView::Obj(pairs) => match spec_scan(pairs, grpc_route_spec_keys(), false) {
            Some(e) => Err(e),
            None => match spec_opt_list::<crate::shared::ParentReference>(
                spec_field(pairs, "parentRefs"@),
                "parentRefs"@,
            ) {
                Err(e) => Err(e),
                Ok(parent_refs) => match spec_opt_list::<String>(
                    spec_field(pairs, "hostnames"@),
                    "hostnames"@,
                ) {
                    Err(e) => Err(e),
                    Ok(hostnames) => match spec_opt_list::<GrpcRouteRule>(
                        spec_field(pairs, "rules"@),
                        "rules"@,
                    ) {
                        Err(e) => Err(e),
                        Ok(rules) => Ok(
                            GrpcRouteSpecView {
                                inner: CommonRouteSpecView { parent_refs },
                                hostnames,
                                rules,
                            },
                        ),
                    },
                },
            },
        },
        _ => Err(ErrorView::WrongType("GrpcRouteSpec"@)),
    }
}

pub open spec fn grpc_route_spec_fields(s: GrpcRouteSpecView) -> Seq<
    (Seq<char>, Option<JsonView>),
> {
    seq![
        ("parentRefs"@, list_entry::<crate::shared::ParentReference>(s.inner.parent_refs)),
        ("hostnames"@, list_entry::<String>(s.hostnames)),
        ("rules"@, list_entry::<GrpcRouteRule>(s.rules)),
    ]
}

pub open spec fn spec_encode_grpc_route_spec(s: GrpcRouteSpecView) -> JsonView {
    JsonView::Obj(obj_of(grpc_route_spec_fields(s)))
}

proof fn lemma_grpc_route_spec_literals()
    ensures
        keys_distinct(grpc_route_spec_keys()),
{
    reveal_strlit("parentRefs");
    reveal_strlit("hostnames");
    reveal_strlit("rules");
    assert("parentRefs"@.len() == 10);
    assert("hostnames"@.len() == 9);
    assert("rules"@.len() == 5);
    let keys = grpc_route_spec_keys();
    assert forall|i: int, j: int| 0 <= i < j < keys.len() implies keys[i] != keys[j] by {
        assert(keys[0] != keys[1]);
        assert(keys[0] != keys[2]);
        assert(keys[1] != keys[2]);
    }
}

fn grpc_route_spec_keys_exec() -> (r: Vec<String>)
    ensures
        r.deep_view() == grpc_route_spec_keys(),
        keys_distinct(grpc_route_spec_keys()),
{
    let r = vec![
        String::from_str("parentRefs"),
        String::from_str("hostnames"),
        String::from_str("rules"),
    ];
    proof {
        lemma_grpc_route_spec_literals();
        assert(r.deep_view() =~= grpc_route_spec_keys());
    }
    r
}

impl Codec for GrpcRouteSpec {
    open spec fn spec_decode(v: JsonView) -> Result<GrpcRouteSpecView, ErrorView> {
        spec_decode_grpc_route_spec(v)
    }

    open spec fn spec_encode(s: GrpcRouteSpecView) -> JsonView {
        spec_encode_grpc_route_spec(s)
    }

    open spec fn wf(s: GrpcRouteSpecView) -> bool {
        match s.rules {
            Some(rs) => forall|i: int| 0 <= i < rs.len() ==> GrpcRouteRule::wf(#[trigger] rs[i]),
            None => true,
        }
    }

    fn decode(j: &Json) -> (r: Result<Self, DecodeError>)
        ensures
            res_view(r) == spec_decode_grpc_route_spec(j.deep_view()),
    {
        match j {
            Json::Obj(pairs) => {
                let ghost kv = grpc_route_spec_keys();
                let keys = grpc_route_spec_keys_exec();
                let slots = match lookup_fields(pairs, &keys, false) {
                    Ok(s) => s,
                    Err(e) => {
                        return Err(e);
                    },
                };
                proof {
                    assert(kv[0] == "parentRefs"@);
                    assert(kv[1] == "hostnames"@);
                    assert(kv[2] == "rules"@);
                }
                let parent_refs = match opt_list_field::<crate::shared::ParentReference>(
                    slot_value(pairs, &slots, 0, Ghost(kv)),
                    "parentRefs",
                ) {
                    Ok(v) => v,
                    Err(e) => {
                        return Err(e);
                    },
                };
                let hostnames = match opt_list_field::<String>(
                    slot_value(pairs, &slots, 1, Ghost(kv)),
                    "hostnames",
                ) {
                    Ok(v) => v,
                    Err(e) => {
                        return Err(e);
                    },
                };
                let rules = match opt_list_field::<GrpcRouteRule>(
                    slot_value(pairs, &slots, 2, Ghost(kv)),
                    "rules",
                ) {
                    Ok(v) => v,
                    Err(e) => {
                        return Err(e);
                    },
                };
                Ok(GrpcRouteSpec { inner: CommonRouteSpec { parent_refs }, hostnames, rules })
            },
            _ => Err(DecodeError::WrongType(String::from_str("GrpcRouteSpec"))),
        }
    }

    fn encode(&self) -> (j: Json)
        ensures
            j.deep_view() == spec_encode_grpc_route_spec(self.deep_view()),
    {
        let mut obj: Vec<(String, Json)> = Vec::new();
        if let Some(ps) = &self.inner.parent_refs {
            obj.push(
                (
                    String::from_str("parentRefs"),
                    Json::Arr(encode_vec::<crate::shared::ParentReference>(ps)),
                ),
            );
        }
        if let Some(hs) = &self.hostnames {
            obj.push((String::from_str("hostnames"), Json::Arr(encode_vec::<String>(hs))));
        }
        if let Some(rs) = &self.rules {
            obj.push((String::from_str("rules"), Json::Arr(encode_vec::<GrpcRouteRule>(rs))));
        }
        proof {
            broadcast use lemma_json_pair_seq_view;

            reveal_with_fuel(obj_of, 5);
            assert(json_pair_seq_view(obj@) =~= obj_of(grpc_route_spec_fields(self.deep_view())));
        }
        Json::Obj(obj)
    }

    proof fn lemma_round_trip(s: GrpcRouteSpecView)
        ensures
            spec_decode_grpc_route_spec(spec_encode_grpc_route_spec(s)) == Ok::<
                GrpcRouteSpecView,
                ErrorView,
            >(s),
    {
        lemma_grpc_route_spec_literals();
        let fields = grpc_route_spec_fields(s);
        let keys = grpc_route_spec_keys();
        assert(fields_distinct(fields));
        assert(fields_within(fields, keys)) by {
            assert forall|i: int| 0 <= i < fields.len() implies keys.contains(
                (#[trigger] fields[i]).0,
            ) by {
                if i == 0 {
                    assert(keys[0] == fields[0].0);
                } else if i == 1 {
                    assert(keys[1] == fields[1].0);
                } else {
                    assert(keys[2] == fields[2].0);
                }
            }
        }
        lemma_obj_of_scan(fields, keys, false);
        lemma_obj_of_field_at(fields, 0);
        lemma_obj_of_field_at(fields, 1);
        lemma_obj_of_field_at(fields, 2);
        if s.inner.parent_refs is Some {
            lemma_seq_round_trip::<crate::shared::ParentReference>(s.inner.parent_refs->0);
        }
        if s.hostnames is Some {
            lemma_seq_round_trip::<String>(s.hostnames->0);
        }
        if s.rules is Some {
            lemma_seq_round_trip::<GrpcRouteRule>(s.rules->0);
        }
    }
}

/// The observed state of a GRPCRoute.
#[derive(Clone, Debug, PartialEq)]
pub struct GrpcRouteStatus {
    /// Common route status information.
    pub inner: RouteStatus,
}

} // verus!

verus! {

impl From<GrpcRouteStatus> for HttpRouteStatus {
    /// A GRPC route status is an HTTP route status: the conversion
    /// re-wraps the shared status without loss, for every value.
    fn from(route: GrpcRouteStatus) -> (r: HttpRouteStatus) {
        HttpRouteStatus { inner: route.inner }
    }
}

impl vstd::std_specs::convert::FromSpecImpl<GrpcRouteStatus> for HttpRouteStatus {
    open spec fn obeys_from_spec() -> bool {
        true
    }

    open spec fn from_spec(route: GrpcRouteStatus) -> HttpRouteStatus {
        HttpRouteStatus { inner: route.inner }
    }
}

/// The HTTP shape of a GRPC route filter: the same payload under the
/// same discriminant. Total: defined for every constructible filter.
pub open spec fn spec_grpc_filter_to_http(f: GrpcRouteFilterView) -> HttpRouteFilterView {
    match f {
        GrpcRouteFilterView::ExtensionRef { extension_ref } => HttpRouteFilterView::ExtensionRef {
            extension_ref,
        },
        GrpcRouteFilterView::RequestMirror { request_mirror } => HttpRouteFilterView::RequestMirror {
            request_mirror,
        },
        GrpcRouteFilterView::RequestHeaderModifier { request_header_modifier } =>
            HttpRouteFilterView::RequestHeaderModifier { request_header_modifier },
        GrpcRouteFilterView::ResponseHeaderModifier { response_header_modifier } =>
            HttpRouteFilterView::ResponseHeaderModifier { response_header_modifier },
    }
}

impl From<GrpcRouteFilter> for HttpRouteFilter {
    /// Re-tags a GRPC route filter as the generic HTTP route filter,
    /// variant for variant, without loss, for every value.
    fn from(filter: GrpcRouteFilter) -> (r: HttpRouteFilter)
        ensures
            r.deep_view() == spec_grpc_filter_to_http(filter.deep_view()),
    {
        match filter {
            GrpcRouteFilter::ExtensionRef { extension_ref } => HttpRouteFilter::ExtensionRef {
                extension_ref,
            },
            GrpcRouteFilter::RequestMirror { request_mirror } => HttpRouteFilter::RequestMirror {
                request_mirror,
            },
            GrpcRouteFilter::RequestHeaderModifier { request_header_modifier } =>
                HttpRouteFilter::RequestHeaderModifier { request_header_modifier },
            GrpcRouteFilter::ResponseHeaderModifier { response_header_modifier } =>
                HttpRouteFilter::ResponseHeaderModifier { response_header_modifier },
        }
    }
}

impl vstd::std_specs::convert::FromSpecImpl<GrpcRouteFilter> for HttpRouteFilter {
    open spec fn obeys_from_spec() -> bool {
        true
    }

    open spec fn from_spec(filter: GrpcRouteFilter) -> HttpRouteFilter {
        match filter {
            GrpcRouteFilter::ExtensionRef { extension_ref } => HttpRouteFilter::ExtensionRef {
                extension_ref,
            },
            GrpcRouteFilter::RequestMirror { request_mirror } => HttpRouteFilter::RequestMirror {
                request_mirror,
            },
            GrpcRouteFilter::RequestHeaderModifier { request_header_modifier } =>
                HttpRouteFilter::RequestHeaderModifier { request_header_modifier },
            GrpcRouteFilter::ResponseHeaderModifier { response_header_modifier } =>
                HttpRouteFilter::ResponseHeaderModifier { response_header_modifier },
        }
    }
}

/// The HTTP shape of a GRPC backend reference: the same object
/// reference and weight behind an always-present weighted reference,
/// with each filter re-tagged. Total: defined for every value.
pub open spec fn spec_grpc_backend_to_http(b: GrpcRouteBackendRefView) -> HttpBackendRefView {
    HttpBackendRefView {
        backend_ref: Some(BackendRefView { weight: b.weight, inner: b.inner }),
        filters: match b.filters {
            Some(fs) => Some(fs.map_values(|f: GrpcRouteFilterView| spec_grpc_filter_to_http(f))),
            None => None,
        },
    }
}

impl From<GrpcRouteBackendRef> for HttpBackendRef {
    /// Re-wraps a GRPC backend reference as the generic HTTP backend
    /// reference, keeping the object reference, the weight, and every
    /// filter in order, for every value.
    fn from(backend: GrpcRouteBackendRef) -> (r: HttpBackendRef)
        ensures
            r.deep_view() == spec_grpc_backend_to_http(backend.deep_view()),
    {
        let ghost bv = backend.deep_view();
        let GrpcRouteBackendRef { inner, filters, weight } = backend;
        let filters = match filters {
            Some(fs) => {
                let ghost fs0 = fs@;
                let ghost fsv = fs.deep_view();
                let mut rest = fs;
                let mut out: Vec<HttpRouteFilter> = Vec::new();
                while rest.len() > 0
                    invariant
                        out@.len() + rest@.len() == fs0.len(),
                        forall|t: int|
                            0 <= t < rest@.len() ==> #[trigger] rest@[t] == fs0[out@.len() + t],
                        forall|t: int|
                            0 <= t < out@.len() ==> (#[trigger] out@[t]).deep_view()
                                == spec_grpc_filter_to_http(fs0[t].deep_view()),
                    decreases rest@.len(),
                {
                    let g = rest.remove(0);
                    let f = match g {
                        GrpcRouteFilter::ExtensionRef { extension_ref } =>
                            HttpRouteFilter::ExtensionRef { extension_ref },
                        GrpcRouteFilter::RequestMirror { request_mirror } =>
                            HttpRouteFilter::RequestMirror { request_mirror },
                        GrpcRouteFilter::RequestHeaderModifier { request_header_modifier } =>
                            HttpRouteFilter::RequestHeaderModifier { request_header_modifier },
                        GrpcRouteFilter::ResponseHeaderModifier { response_header_modifier } =>
                            HttpRouteFilter::ResponseHeaderModifier { response_header_modifier },
                    };
                    out.push(f);
                }
                proof {
                    assert(out.deep_view() =~= fsv.map_values(
                        |f: GrpcRouteFilterView| spec_grpc_filter_to_http(f),
                    ));
                }
                Some(out)
            },
            None => None,
        };
        HttpBackendRef { filters, backend_ref: Some(BackendRef { inner, weight }) }
    }
}

impl vstd::std_specs::convert::FromSpecImpl<GrpcRouteBackendRef> for HttpBackendRef {
    // The exact filter list this conversion builds has no closed spec
    // form at the level of executable values, so `from` carries its
    // contract over deep views instead.
    open spec fn obeys_from_spec() -> bool {
        false
    }

    open spec fn from_spec(backend: GrpcRouteBackendRef) -> HttpBackendRef {
        arbitrary()
    }
}

} // verus!

verus! {

/// The mathematical shape of a [`GrpcRouteStatus`].
pub struct GrpcRouteStatusView {
    pub inner: crate::shared::RouteStatusView,
}

impl DeepView for GrpcRouteStatus {
    type V = GrpcRouteStatusView;

    open spec fn deep_view(&self) -> GrpcRouteStatusView {
        GrpcRouteStatusView { inner: self.inner.deep_view() }
    }
}

impl Codec for GrpcRouteStatus {
    open spec fn spec_decode(v: JsonView) -> Result<GrpcRouteStatusView, ErrorView> {
        match crate::shared::spec_decode_route_status(v) {
            Ok(inner) => Ok(GrpcRouteStatusView { inner }),
            Err(e) => Err(e),
        }
    }

    open spec fn spec_encode(s: GrpcRouteStatusView) -> JsonView {
        crate::shared::spec_encode_route_status(s.inner)
    }

    open spec fn wf(s: GrpcRouteStatusView) -> bool {
        true
    }

    fn decode(j: &Json) -> (r: Result<Self, DecodeError>)
        ensures
            res_view(r) == Self::spec_decode(j.deep_view()),
    {
        match RouteStatus::decode(j) {
            Ok(inner) => Ok(GrpcRouteStatus { inner }),
            Err(e) => Err(e),
        }
    }

    fn encode(&self) -> (j: Json)
        ensures
            j.deep_view() == Self::spec_encode(self.deep_view()),
    {
        self.inner.encode()
    }

    proof fn lemma_round_trip(s: GrpcRouteStatusView)
        ensures
            Self::spec_decode(Self::spec_encode(s)) == Ok::<GrpcRouteStatusView, ErrorView>(s),
    {
        RouteStatus::lemma_round_trip(s.inner);
    }
}

} // verus!
