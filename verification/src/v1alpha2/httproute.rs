//! v1alpha2 HTTPRoute: the earlier shape of the HTTP route schema, with
//! matchers written as plain records with a string `type` field.

use vstd::prelude::*;

use crate::shared::{
    CommonRouteSpec, CommonRouteSpecView, Hostname, ParentReference, PortNumber, PreciseHostname,
    RouteStatus,
};
use crate::v1alpha2::object_reference::{
    BackendObjectReference, BackendObjectReferenceView, LocalObjectReference,
    LocalObjectReferenceView,
};
use crate::wire::{
    Codec, DecodeError, ErrorView, Json, JsonView, encode_vec, fields_distinct, fields_within,
    json_pair_seq_view, keys_distinct, lemma_json_pair_seq_view, lemma_obj_of_field_at,
    lemma_obj_of_scan, lemma_seq_round_trip, list_entry, lookup_fields, obj_of, opt_list_field,
    opt_str_field, opt_u16_field, opt_val_field, req_str_field, req_val_field, res_view,
    slot_value, spec_field, spec_opt_list, spec_opt_str, spec_opt_u16, spec_opt_val,
    spec_req_str, spec_req_val, spec_scan, str_entry, u16_entry, val_entry,
};

verus! {

/// PathMatchType names how paths are compared.
pub type PathMatchType = String;

/// HeaderMatchType names how header values are compared.
pub type HeaderMatchType = String;

/// HTTPHeaderName is the name of an HTTP header.
pub type HttpHeaderName = String;

/// QueryParamMatchType names how query parameter values are compared.
pub type QueryParamMatchType = String;

/// HTTPMethod describes how to select a route by the HTTP method.
pub type HttpMethod = String;

/// HTTPRouteFilterType names a filter's kind.
pub type HttpRouteFilterType = String;

/// HTTPPathModifierType names a path modifier's kind.
pub type HttpPathModifierType = String;

/// How to select a route by the request path.
#[derive(Clone, Debug, PartialEq)]
pub struct HttpPathMatch {
    /// How the path is compared.
    pub type_: Option<PathMatchType>,
    /// The value compared against.
    pub value: Option<String>,
    }

/// How to select a route by a request header.
#[derive(Clone, Debug, PartialEq)]
pub struct HttpHeaderMatch {
    /// How the value is compared.
    pub type_: HeaderMatchType,
    /// Name of the header.
    pub name: HttpHeaderName,
    /// The value compared against.
    pub value: String,
    }

/// How to select a route by a query parameter.
#[derive(Clone, Debug, PartialEq)]
pub struct HttpQueryParamMatch {
    /// How the value is compared.
    pub type_: QueryParamMatchType,
    /// Name of the parameter.
    pub name: String,
    /// The value compared against.
    pub value: String,
    }

/// The predicate a rule matches requests against.
#[derive(Clone, Debug, PartialEq)]
pub struct HttpRouteMatch {
    /// The request path matcher.
    pub path: Option<HttpPathMatch>,
    /// Header matchers; a request must match all of them.
    pub headers: Option<Vec<HttpHeaderMatch>>,
    /// Query parameter matchers; a request must match all of them.
    pub query_params: Option<Vec<HttpQueryParamMatch>>,
    /// The HTTP method to match.
    pub method: Option<HttpMethod>,
    }

/// An HTTP header name and value.
#[derive(Clone, Debug, PartialEq)]
pub struct HttpHeader {
    /// Name of the header.
    pub name: HttpHeaderName,
    /// Value of the header.
    pub value: String,
    }

/// Configuration for the header-modifier filter.
#[derive(Clone, Debug, PartialEq)]
pub struct HttpRequestHeaderFilter {
    /// Headers overwritten before the action.
    pub set: Option<Vec<HttpHeader>>,
    /// Headers appended before the action.
    pub add: Option<Vec<HttpHeader>>,
    /// Names of headers removed before the action.
    pub remove: Option<Vec<String>>,
    }

/// Configuration for path modifiers.
#[derive(Clone, Debug, PartialEq)]
pub struct HttpPathModifier {
    /// Which modification applies.
    pub type_: HttpPathModifierType,
    /// Value replacing the full path.
    pub replace_full_path: Option<String>,
    /// Value replacing the matched prefix.
    pub replace_prefix_match: Option<String>,
    }

/// A filter that answers the request with an HTTP redirection.
#[derive(Clone, Debug, PartialEq)]
pub struct HttpRequestRedirectFilter {
    /// Which modification applies.
    pub type_: HttpPathModifierType,
    /// Scheme in the `Location` header.
    pub scheme: Option<String>,
    /// Hostname in the `Location` header.
    pub hostname: Option<PreciseHostname>,
    /// How the request path becomes the `Location` path.
    pub path: Option<HttpPathModifier>,
    /// Port in the `Location` header.
    pub port: Option<PortNumber>,
    /// HTTP status code of the response.
    pub status_code: Option<u16>,
    }

/// A filter that modifies the request's URL during forwarding.
#[derive(Clone, Debug, PartialEq)]
pub struct HttpUrlRewriteFilter {
    /// Value replacing the `Host` header during forwarding.
    pub hostname: Option<PreciseHostname>,
    /// A path rewrite.
    pub path: Option<HttpPathModifier>,
    }

/// Configuration for the request-mirror filter.
#[derive(Clone, Debug, PartialEq)]
pub struct HttpRequestMirrorFilter {
    /// The resource mirrored requests are sent to.
    pub backend_ref: BackendObjectReference,
    }

/// A processing step applied during the request lifecycle; the `type`
/// field says which configuration applies.
#[derive(Clone, Debug, PartialEq)]
pub struct HttpRouteFilter {
    /// Which filter applies.
    pub type_: HttpRouteFilterType,
    /// Configuration for modifying request headers.
    pub request_header_modifier: Option<HttpRequestHeaderFilter>,
    /// Configuration for mirroring requests.
    pub request_mirror: Option<HttpRequestMirrorFilter>,
    /// Configuration for redirecting requests.
    pub request_redirect: Option<HttpRequestRedirectFilter>,
    /// Configuration for rewriting URLs.
    pub url_rewrite: Option<HttpUrlRewriteFilter>,
    /// An implementation-specific extension.
    pub extension_ref: Option<LocalObjectReference>,
    }

/// How an HTTPRoute forwards a matched request.
#[derive(Clone, Debug, PartialEq)]
pub struct HttpBackendRef {
    /// The backend matched requests are forwarded to.
    pub backend_ref: BackendObjectReference,
    /// Filters applied only to requests forwarded to this backend.
    pub filters: Option<Vec<HttpRouteFilter>>,
    }

/// One rule of an HTTPRoute.
#[derive(Clone, Debug, PartialEq)]
pub struct HttpRouteRule {
    /// The condition for matching requests.
    pub matches: Option<HttpRouteMatch>,
    /// Filters applied to matching requests.
    pub filters: Option<Vec<HttpRouteFilter>>,
    /// Where matching requests are sent.
    pub backend_refs: Option<Vec<HttpBackendRef>>,
    }

/// The desired state of an HTTPRoute.
#[derive(Clone, Debug, PartialEq)]
pub struct HttpRouteSpec {
    /// Common route information: the parents this route attaches to.
    pub inner: CommonRouteSpec,
    /// Hostnames matched against the HTTP Host header.
    pub hostnames: Option<Vec<Hostname>>,
    /// The route's rules.
    pub rules: Option<Vec<HttpRouteRule>>,
    }

/// The observed state of an HTTPRoute.
#[derive(Clone, Debug, PartialEq)]
pub struct HttpRouteStatus {
    /// Common route status information.
    pub inner: RouteStatus,
    }

} // verus!

verus! {

proof fn lemma_alpha_route_literals()
    ensures
        "type"@ != "value"@,
        "type"@ != "name"@,
        "name"@ != "value"@,
        keys_distinct(alpha_path_match_keys()),
        keys_distinct(alpha_header_match_keys()),
        keys_distinct(alpha_route_match_keys()),
        keys_distinct(alpha_http_header_keys()),
        keys_distinct(alpha_header_filter_keys()),
        keys_distinct(alpha_path_modifier_keys()),
        keys_distinct(alpha_redirect_keys()),
        keys_distinct(alpha_rewrite_keys()),
        keys_distinct(alpha_mirror_keys()),
        keys_distinct(alpha_filter_keys()),
        keys_distinct(alpha_backend_ref_keys()),
        keys_distinct(alpha_rule_keys()),
        keys_distinct(alpha_spec_keys()),
{
    reveal_strlit("type");
    reveal_strlit("value");
    reveal_strlit("name");
    reveal_strlit("path");
    reveal_strlit("headers");
    reveal_strlit("queryParams");
    reveal_strlit("method");
    reveal_strlit("set");
    reveal_strlit("add");
    reveal_strlit("remove");
    reveal_strlit("replaceFullPath");
    reveal_strlit("replacePrefixMatch");
    reveal_strlit("scheme");
    reveal_strlit("hostname");
    reveal_strlit("port");
    reveal_strlit("statusCode");
    reveal_strlit("backendRef");
    reveal_strlit("requestHeaderModifier");
    reveal_strlit("requestMirror");
    reveal_strlit("requestRedirect");
    reveal_strlit("urlRewrite");
    reveal_strlit("extensionRef");
    reveal_strlit("filters");
    reveal_strlit("matches");
    reveal_strlit("backendRefs");
    reveal_strlit("parentRefs");
    reveal_strlit("hostnames");
    reveal_strlit("rules");
    assert("type"@.len() == 4);
    assert("value"@.len() == 5);
    assert("name"@.len() == 4);
    assert("path"@.len() == 4);
    assert("headers"@.len() == 7);
    assert("queryParams"@.len() == 11);
    assert("method"@.len() == 6);
    assert("set"@.len() == 3);
    assert("add"@.len() == 3);
    assert("remove"@.len() == 6);
    assert("replaceFullPath"@.len() == 15);
    assert("replacePrefixMatch"@.len() == 18);
    assert("scheme"@.len() == 6);
    assert("hostname"@.len() == 8);
    assert("port"@.len() == 4);
    assert("statusCode"@.len() == 10);
    assert("backendRef"@.len() == 10);
    assert("requestHeaderModifier"@.len() == 21);
    assert("requestMirror"@.len() == 13);
    assert("requestRedirect"@.len() == 15);
    assert("urlRewrite"@.len() == 10);
    assert("extensionRef"@.len() == 12);
    assert("filters"@.len() == 7);
    assert("matches"@.len() == 7);
    assert("backendRefs"@.len() == 11);
    assert("parentRefs"@.len() == 10);
    assert("hostnames"@.len() == 9);
    assert("rules"@.len() == 5);
    assert("type"@[0] != "name"@[0]);
    assert("type"@[0] != "path"@[0]);
    assert("type"@[0] != "port"@[0]);
    assert("name"@[0] != "path"@[0]);
    assert("name"@[0] != "port"@[0]);
    assert("path"@[1] != "port"@[1]);
    assert("set"@[0] != "add"@[0]);
    assert("matches"@[0] != "filters"@[0]);
    assert("statusCode"@[0] != "backendRef"@[0]);
    assert("statusCode"@[0] != "urlRewrite"@[0]);
    assert("backendRef"@[0] != "urlRewrite"@[0]);
    let k1 = alpha_path_match_keys();
    assert forall|i: int, j: int| 0 <= i < j < k1.len() implies k1[i] != k1[j] by {
        assert(k1[0] != k1[1]);
    }
    let k2 = alpha_header_match_keys();
    assert forall|i: int, j: int| 0 <= i < j < k2.len() implies k2[i] != k2[j] by {
        assert(k2[0] != k2[1]);
        assert(k2[0] != k2[2]);
        assert(k2[1] != k2[2]);
    }
    let k3 = alpha_route_match_keys();
    assert forall|i: int, j: int| 0 <= i < j < k3.len() implies k3[i] != k3[j] by {
        assert(k3[0] != k3[1]);
        assert(k3[0] != k3[2]);
        assert(k3[0] != k3[3]);
        assert(k3[1] != k3[2]);
        assert(k3[1] != k3[3]);
        assert(k3[2] != k3[3]);
    }
    let k4 = alpha_http_header_keys();
    assert forall|i: int, j: int| 0 <= i < j < k4.len() implies k4[i] != k4[j] by {
        assert(k4[0] != k4[1]);
    }
    let k5 = alpha_header_filter_keys();
    assert forall|i: int, j: int| 0 <= i < j < k5.len() implies k5[i] != k5[j] by {
        assert(k5[0] != k5[1]);
        assert(k5[0] != k5[2]);
        assert(k5[1] != k5[2]);
    }
    let k6 = alpha_path_modifier_keys();
    assert forall|i: int, j: int| 0 <= i < j < k6.len() implies k6[i] != k6[j] by {
        assert(k6[0] != k6[1]);
        assert(k6[0] != k6[2]);
        assert(k6[1] != k6[2]);
    }
    let k7 = alpha_redirect_keys();
    assert forall|i: int, j: int| 0 <= i < j < k7.len() implies k7[i] != k7[j] by {
        assert(k7[0] != k7[1]);
        assert(k7[0] != k7[2]);
        assert(k7[0] != k7[3]);
        assert(k7[0] != k7[4]);
        assert(k7[0] != k7[5]);
        assert(k7[1] != k7[2]);
        assert(k7[1] != k7[3]);
        assert(k7[1] != k7[4]);
        assert(k7[1] != k7[5]);
        assert(k7[2] != k7[3]);
        assert(k7[2] != k7[4]);
        assert(k7[2] != k7[5]);
        assert(k7[3] != k7[4]);
        assert(k7[3] != k7[5]);
        assert(k7[4] != k7[5]);
    }
    let k8 = alpha_rewrite_keys();
    assert forall|i: int, j: int| 0 <= i < j < k8.len() implies k8[i] != k8[j] by {
        assert(k8[0] != k8[1]);
    }
    let k9 = alpha_mirror_keys();
    assert(k9.len() == 1);
    let k10 = alpha_filter_keys();
    assert forall|i: int, j: int| 0 <= i < j < k10.len() implies k10[i] != k10[j] by {
        assert(k10[0].len() == 4);
        assert(k10[1].len() == 21);
        assert(k10[2].len() == 13);
        assert(k10[3].len() == 15);
        assert(k10[4].len() == 10);
        assert(k10[5].len() == 12);
    }
    let k11 = alpha_backend_ref_keys();
    assert forall|i: int, j: int| 0 <= i < j < k11.len() implies k11[i] != k11[j] by {
        assert(k11[0] != k11[1]);
    }
    let k12 = alpha_rule_keys();
    assert forall|i: int, j: int| 0 <= i < j < k12.len() implies k12[i] != k12[j] by {
        assert(k12[0] != k12[1]);
        assert(k12[0] != k12[2]);
        assert(k12[1] != k12[2]);
    }
    let k13 = alpha_spec_keys();
    assert forall|i: int, j: int| 0 <= i < j < k13.len() implies k13[i] != k13[j] by {
        assert(k13[0] != k13[1]);
        assert(k13[0] != k13[2]);
        assert(k13[1] != k13[2]);
    }
    }

} // verus!


verus! {

/// The mathematical shape of a [`HttpPathMatch`].
pub struct HttpPathMatchView {
    pub type_: Option<Seq<char>>,
    pub value: Option<Seq<char>>,
    }

impl DeepView for HttpPathMatch {
    type V = HttpPathMatchView;

    open spec fn deep_view(&self) -> HttpPathMatchView {
        HttpPathMatchView {
            type_: self.type_.deep_view(),
            value: self.value.deep_view(),
        }
    }
    }

pub open spec fn alpha_path_match_keys() -> Seq<Seq<char>> {
    seq!["type"@, "value"@]
    }

/// What decoding a path match yields: both fields optional strings.
pub open spec fn spec_decode_alpha_path_match(v: JsonView) -> Result<HttpPathMatchView, ErrorView> {
    match v {
        JsonView::Obj(pairs) => match spec_scan(pairs, alpha_path_match_keys(), false) {
            Some(e) => Err(e),
            None => match spec_opt_str(spec_field(pairs, "type"@), "type"@) {
                    Err(e) => Err(e),
                    Ok(type_) => match spec_opt_str(spec_field(pairs, "value"@), "value"@) {
                        Err(e) => Err(e),
                        Ok(value) => Ok(HttpPathMatchView { type_, value }),
                    },
                },
        },
        _ => Err(ErrorView::WrongType("HttpPathMatch"@)),
    }
    }

pub open spec fn alpha_path_match_fields(b: HttpPathMatchView) -> Seq<(Seq<char>, Option<JsonView>)> {
    seq![
        ("type"@, str_entry(b.type_)),
        ("value"@, str_entry(b.value)),
    ]
    }

pub open spec fn spec_encode_alpha_path_match(b: HttpPathMatchView) -> JsonView {
    JsonView::Obj(obj_of(alpha_path_match_fields(b)))
    }

fn alpha_path_match_keys_exec() -> (r: Vec<String>)
    ensures
        r.deep_view() == alpha_path_match_keys(),
        keys_distinct(alpha_path_match_keys()),
{
    let r = vec![String::from_str("type"), String::from_str("value")];
    proof {
        lemma_alpha_route_literals();
        assert(r.deep_view() =~= alpha_path_match_keys());
    }
    r
    }

impl Codec for HttpPathMatch {
    open spec fn spec_decode(v: JsonView) -> Result<HttpPathMatchView, ErrorView> {
        spec_decode_alpha_path_match(v)
    }

    open spec fn spec_encode(b: HttpPathMatchView) -> JsonView {
        spec_encode_alpha_path_match(b)
    }

    open spec fn wf(b: HttpPathMatchView) -> bool {
        true
    }

    fn decode(j: &Json) -> (r: Result<Self, DecodeError>)
        ensures
            res_view(r) == spec_decode_alpha_path_match(j.deep_view()),
    {
        match j {
            Json::Obj(pairs) => {
                let ghost kv = alpha_path_match_keys();
                let keys = alpha_path_match_keys_exec();
                let slots = match lookup_fields(pairs, &keys, false) {
                    Ok(s) => s,
                    Err(e) => {
                        return Err(e);
                    },
                };
                proof {
                    assert(kv[0] == "type"@);
                    assert(kv[1] == "value"@);
                }
                let type_ = match opt_str_field(slot_value(pairs, &slots, 0, Ghost(kv)), "type") {
                    Ok(v) => v,
                    Err(e) => {
                        return Err(e);
                    },
                };
                let value = match opt_str_field(slot_value(pairs, &slots, 1, Ghost(kv)), "value") {
                    Ok(v) => v,
                    Err(e) => {
                        return Err(e);
                    },
                };
                Ok(HttpPathMatch { type_, value })
            },
            _ => Err(DecodeError::WrongType(String::from_str("HttpPathMatch"))),
        }
    }

    #[verifier::rlimit(50)]
    fn encode(&self) -> (j: Json)
        ensures
            j.deep_view() == spec_encode_alpha_path_match(self.deep_view()),
    {
        let mut obj: Vec<(String, Json)> = Vec::new();
        if let Some(x) = &self.type_ {
            obj.push((String::from_str("type"), Json::Str(x.clone())));
        }
        if let Some(x) = &self.value {
            obj.push((String::from_str("value"), Json::Str(x.clone())));
        }
        proof {
            broadcast use lemma_json_pair_seq_view;

            reveal_with_fuel(obj_of, 4);
            assert(json_pair_seq_view(obj@) =~= obj_of(alpha_path_match_fields(self.deep_view())));
        }
        Json::Obj(obj)
    }

    proof fn lemma_round_trip(b: HttpPathMatchView)
        ensures
            spec_decode_alpha_path_match(spec_encode_alpha_path_match(b)) == Ok::<HttpPathMatchView, ErrorView>(b),
    {
        lemma_alpha_route_literals();
        let fields = alpha_path_match_fields(b);
        let keys = alpha_path_match_keys();
        assert(fields_distinct(fields));
        assert(fields_within(fields, keys)) by {
            assert forall|i: int| 0 <= i < fields.len() implies keys.contains(
                (#[trigger] fields[i]).0,
            ) by {
                if i == 0 {
                    assert(keys[0] == fields[0].0);
                }                 else {
                    assert(keys[1] == fields[1].0);
                }
            }
        }
        lemma_obj_of_scan(fields, keys, false);
        lemma_obj_of_field_at(fields, 0);
        lemma_obj_of_field_at(fields, 1);

    }
    }

} // verus!


verus! {

/// The mathematical shape of a [`HttpHeaderMatch`].
pub struct HttpHeaderMatchView {
    pub type_: Seq<char>,
    pub name: Seq<char>,
    pub value: Seq<char>,
    }

impl DeepView for HttpHeaderMatch {
    type V = HttpHeaderMatchView;

    open spec fn deep_view(&self) -> HttpHeaderMatchView {
        HttpHeaderMatchView {
            type_: self.type_@,
            name: self.name@,
            value: self.value@,
        }
    }
    }

pub open spec fn alpha_header_match_keys() -> Seq<Seq<char>> {
    seq!["type"@, "name"@, "value"@]
    }

/// What decoding a header match yields: all three fields required.
pub open spec fn spec_decode_alpha_header_match(v: JsonView) -> Result<HttpHeaderMatchView, ErrorView> {
    match v {
        JsonView::Obj(pairs) => match spec_scan(pairs, alpha_header_match_keys(), false) {
            Some(e) => Err(e),
            None => match spec_req_str(spec_field(pairs, "type"@), "type"@) {
                    Err(e) => Err(e),
                    Ok(type_) => match spec_req_str(spec_field(pairs, "name"@), "name"@) {
                        Err(e) => Err(e),
                        Ok(name) => match spec_req_str(spec_field(pairs, "value"@), "value"@) {
                            Err(e) => Err(e),
                            Ok(value) => Ok(HttpHeaderMatchView { type_, name, value }),
                        },
                    },
                },
        },
        _ => Err(ErrorView::WrongType("HttpHeaderMatch"@)),
    }
    }

pub open spec fn alpha_header_match_fields(b: HttpHeaderMatchView) -> Seq<(Seq<char>, Option<JsonView>)> {
    seq![
        ("type"@, Some(JsonView::Str(b.type_))),
        ("name"@, Some(JsonView::Str(b.name))),
        ("value"@, Some(JsonView::Str(b.value))),
    ]
    }

pub open spec fn spec_encode_alpha_header_match(b: HttpHeaderMatchView) -> JsonView {
    JsonView::Obj(obj_of(alpha_header_match_fields(b)))
    }

fn alpha_header_match_keys_exec() -> (r: Vec<String>)
    ensures
        r.deep_view() == alpha_header_match_keys(),
        keys_distinct(alpha_header_match_keys()),
{
    let r = vec![String::from_str("type"), String::from_str("name"), String::from_str("value")];
    proof {
        lemma_alpha_route_literals();
        assert(r.deep_view() =~= alpha_header_match_keys());
    }
    r
    }

impl Codec for HttpHeaderMatch {
    open spec fn spec_decode(v: JsonView) -> Result<HttpHeaderMatchView, ErrorView> {
        spec_decode_alpha_header_match(v)
    }

    open spec fn spec_encode(b: HttpHeaderMatchView) -> JsonView {
        spec_encode_alpha_header_match(b)
    }

    open spec fn wf(b: HttpHeaderMatchView) -> bool {
        true
    }

    fn decode(j: &Json) -> (r: Result<Self, DecodeError>)
        ensures
            res_view(r) == spec_decode_alpha_header_match(j.deep_view()),
    {
        match j {
            Json::Obj(pairs) => {
                let ghost kv = alpha_header_match_keys();
                let keys = alpha_header_match_keys_exec();
                let slots = match lookup_fields(pairs, &keys, false) {
                    Ok(s) => s,
                    Err(e) => {
                        return Err(e);
                    },
                };
                proof {
                    assert(kv[0] == "type"@);
                    assert(kv[1] == "name"@);
                    assert(kv[2] == "value"@);
                }
                let type_ = match req_str_field(slot_value(pairs, &slots, 0, Ghost(kv)), "type") {
                    Ok(v) => v,
                    Err(e) => {
                        return Err(e);
                    },
                };
                let name = match req_str_field(slot_value(pairs, &slots, 1, Ghost(kv)), "name") {
                    Ok(v) => v,
                    Err(e) => {
                        return Err(e);
                    },
                };
                let value = match req_str_field(slot_value(pairs, &slots, 2, Ghost(kv)), "value") {
                    Ok(v) => v,
                    Err(e) => {
                        return Err(e);
                    },
                };
                Ok(HttpHeaderMatch { type_, name, value })
            },
            _ => Err(DecodeError::WrongType(String::from_str("HttpHeaderMatch"))),
        }
    }

    #[verifier::rlimit(50)]
    fn encode(&self) -> (j: Json)
        ensures
            j.deep_view() == spec_encode_alpha_header_match(self.deep_view()),
    {
        let mut obj: Vec<(String, Json)> = Vec::new();
        obj.push((String::from_str("type"), Json::Str(self.type_.clone())));
        obj.push((String::from_str("name"), Json::Str(self.name.clone())));
        obj.push((String::from_str("value"), Json::Str(self.value.clone())));
        proof {
            broadcast use lemma_json_pair_seq_view;

            reveal_with_fuel(obj_of, 5);
            assert(json_pair_seq_view(obj@) =~= obj_of(alpha_header_match_fields(self.deep_view())));
        }
        Json::Obj(obj)
    }

    proof fn lemma_round_trip(b: HttpHeaderMatchView)
        ensures
            spec_decode_alpha_header_match(spec_encode_alpha_header_match(b)) == Ok::<HttpHeaderMatchView, ErrorView>(b),
    {
        lemma_alpha_route_literals();
        let fields = alpha_header_match_fields(b);
        let keys = alpha_header_match_keys();
        assert(fields_distinct(fields));
        assert(fields_within(fields, keys)) by {
            assert forall|i: int| 0 <= i < fields.len() implies keys.contains(
                (#[trigger] fields[i]).0,
            ) by {
                if i == 0 {
                    assert(keys[0] == fields[0].0);
                }                 else if i == 1 {
                    assert(keys[1] == fields[1].0);
                }                 else {
                    assert(keys[2] == fields[2].0);
                }
            }
        }
        lemma_obj_of_scan(fields, keys, false);
        lemma_obj_of_field_at(fields, 0);
        lemma_obj_of_field_at(fields, 1);
        lemma_obj_of_field_at(fields, 2);

    }
    }

} // verus!

verus! {

/// The mathematical shape of a [`HttpQueryParamMatch`].
pub struct HttpQueryParamMatchView {
    pub type_: Seq<char>,
    pub name: Seq<char>,
    pub value: Seq<char>,
    }

impl DeepView for HttpQueryParamMatch {
    type V = HttpQueryParamMatchView;

    open spec fn deep_view(&self) -> HttpQueryParamMatchView {
        HttpQueryParamMatchView {
            type_: self.type_@,
            name: self.name@,
            value: self.value@,
        }
    }
    }

/// What decoding a query-parameter match yields: all three fields
/// required.
pub open spec fn spec_decode_alpha_qp_match(v: JsonView) -> Result<HttpQueryParamMatchView, ErrorView> {
    match v {
        JsonView::Obj(pairs) => match spec_scan(pairs, alpha_header_match_keys(), false) {
            Some(e) => Err(e),
            None => match spec_req_str(spec_field(pairs, "type"@), "type"@) {
                    Err(e) => Err(e),
                    Ok(type_) => match spec_req_str(spec_field(pairs, "name"@), "name"@) {
                        Err(e) => Err(e),
                        Ok(name) => match spec_req_str(spec_field(pairs, "value"@), "value"@) {
                            Err(e) => Err(e),
                            Ok(value) => Ok(HttpQueryParamMatchView { type_, name, value }),
                        },
                    },
                },
        },
        _ => Err(ErrorView::WrongType("HttpQueryParamMatch"@)),
    }
    }

pub open spec fn alpha_qp_match_fields(b: HttpQueryParamMatchView) -> Seq<(Seq<char>, Option<JsonView>)> {
    seq![
        ("type"@, Some(JsonView::Str(b.type_))),
        ("name"@, Some(JsonView::Str(b.name))),
        ("value"@, Some(JsonView::Str(b.value))),
    ]
    }

pub open spec fn spec_encode_alpha_qp_match(b: HttpQueryParamMatchView) -> JsonView {
    JsonView::Obj(obj_of(alpha_qp_match_fields(b)))
    }



impl Codec for HttpQueryParamMatch {
    open spec fn spec_decode(v: JsonView) -> Result<HttpQueryParamMatchView, ErrorView> {
        spec_decode_alpha_qp_match(v)
    }

    open spec fn spec_encode(b: HttpQueryParamMatchView) -> JsonView {
        spec_encode_alpha_qp_match(b)
    }

    open spec fn wf(b: HttpQueryParamMatchView) -> bool {
        true
    }

    fn decode(j: &Json) -> (r: Result<Self, DecodeError>)
        ensures
            res_view(r) == spec_decode_alpha_qp_match(j.deep_view()),
    {
        match j {
            Json::Obj(pairs) => {
                let ghost kv = alpha_header_match_keys();
                let keys = alpha_header_match_keys_exec();
                let slots = match lookup_fields(pairs, &keys, false) {
                    Ok(s) => s,
                    Err(e) => {
                        return Err(e);
                    },
                };
                proof {
                    assert(kv[0] == "type"@);
                    assert(kv[1] == "name"@);
                    assert(kv[2] == "value"@);
                }
                let type_ = match req_str_field(slot_value(pairs, &slots, 0, Ghost(kv)), "type") {
                    Ok(v) => v,
                    Err(e) => {
                        return Err(e);
                    },
                };
                let name = match req_str_field(slot_value(pairs, &slots, 1, Ghost(kv)), "name") {
                    Ok(v) => v,
                    Err(e) => {
                        return Err(e);
                    },
                };
                let value = match req_str_field(slot_value(pairs, &slots, 2, Ghost(kv)), "value") {
                    Ok(v) => v,
                    Err(e) => {
                        return Err(e);
                    },
                };
                Ok(HttpQueryParamMatch { type_, name, value })
            },
            _ => Err(DecodeError::WrongType(String::from_str("HttpQueryParamMatch"))),
        }
    }

    #[verifier::rlimit(50)]
    fn encode(&self) -> (j: Json)
        ensures
            j.deep_view() == spec_encode_alpha_qp_match(self.deep_view()),
    {
        let mut obj: Vec<(String, Json)> = Vec::new();
        obj.push((String::from_str("type"), Json::Str(self.type_.clone())));
        obj.push((String::from_str("name"), Json::Str(self.name.clone())));
        obj.push((String::from_str("value"), Json::Str(self.value.clone())));
        proof {
            broadcast use lemma_json_pair_seq_view;

            reveal_with_fuel(obj_of, 5);
            assert(json_pair_seq_view(obj@) =~= obj_of(alpha_qp_match_fields(self.deep_view())));
        }
        Json::Obj(obj)
    }

    proof fn lemma_round_trip(b: HttpQueryParamMatchView)
        ensures
            spec_decode_alpha_qp_match(spec_encode_alpha_qp_match(b)) == Ok::<HttpQueryParamMatchView, ErrorView>(b),
    {
        lemma_alpha_route_literals();
        let fields = alpha_qp_match_fields(b);
        let keys = alpha_header_match_keys();
        assert(fields_distinct(fields));
        assert(fields_within(fields, keys)) by {
            assert forall|i: int| 0 <= i < fields.len() implies keys.contains(
                (#[trigger] fields[i]).0,
            ) by {
                if i == 0 {
                    assert(keys[0] == fields[0].0);
                } else if i == 1 {
                    assert(keys[1] == fields[1].0);
                } else {
                    assert(keys[2] == fields[2].0);
                }
            }
        }
        lemma_obj_of_scan(fields, keys, false);
        lemma_obj_of_field_at(fields, 0);
        lemma_obj_of_field_at(fields, 1);
        lemma_obj_of_field_at(fields, 2);

    }
    }

} // verus!


verus! {

/// The mathematical shape of a [`HttpHeader`].
pub struct HttpHeaderView {
    pub name: Seq<char>,
    pub value: Seq<char>,
    }

impl DeepView for HttpHeader {
    type V = HttpHeaderView;

    open spec fn deep_view(&self) -> HttpHeaderView {
        HttpHeaderView {
            name: self.name@,
            value: self.value@,
        }
    }
    }

pub open spec fn alpha_http_header_keys() -> Seq<Seq<char>> {
    seq!["name"@, "value"@]
    }

/// What decoding a header entry yields: both fields required.
pub open spec fn spec_decode_alpha_http_header(v: JsonView) -> Result<HttpHeaderView, ErrorView> {
    match v {
        JsonView::Obj(pairs) => match spec_scan(pairs, alpha_http_header_keys(), false) {
            Some(e) => Err(e),
            None => match spec_req_str(spec_field(pairs, "name"@), "name"@) {
                    Err(e) => Err(e),
                    Ok(name) => match spec_req_str(spec_field(pairs, "value"@), "value"@) {
                        Err(e) => Err(e),
                        Ok(value) => Ok(HttpHeaderView { name, value }),
                    },
                },
        },
        _ => Err(ErrorView::WrongType("HttpHeader"@)),
    }
    }

pub open spec fn alpha_http_header_fields(b: HttpHeaderView) -> Seq<(Seq<char>, Option<JsonView>)> {
    seq![
        ("name"@, Some(JsonView::Str(b.name))),
        ("value"@, Some(JsonView::Str(b.value))),
    ]
    }

pub open spec fn spec_encode_alpha_http_header(b: HttpHeaderView) -> JsonView {
    JsonView::Obj(obj_of(alpha_http_header_fields(b)))
    }

fn alpha_http_header_keys_exec() -> (r: Vec<String>)
    ensures
        r.deep_view() == alpha_http_header_keys(),
        keys_distinct(alpha_http_header_keys()),
{
    let r = vec![String::from_str("name"), String::from_str("value")];
    proof {
        lemma_alpha_route_literals();
        assert(r.deep_view() =~= alpha_http_header_keys());
    }
    r
    }

impl Codec for HttpHeader {
    open spec fn spec_decode(v: JsonView) -> Result<HttpHeaderView, ErrorView> {
        spec_decode_alpha_http_header(v)
    }

    open spec fn spec_encode(b: HttpHeaderView) -> JsonView {
        spec_encode_alpha_http_header(b)
    }

    open spec fn wf(b: HttpHeaderView) -> bool {
        true
    }

    fn decode(j: &Json) -> (r: Result<Self, DecodeError>)
        ensures
            res_view(r) == spec_decode_alpha_http_header(j.deep_view()),
    {
        match j {
            Json::Obj(pairs) => {
                let ghost kv = alpha_http_header_keys();
                let keys = alpha_http_header_keys_exec();
                let slots = match lookup_fields(pairs, &keys, false) {
                    Ok(s) => s,
                    Err(e) => {
                        return Err(e);
                    },
                };
                proof {
                    assert(kv[0] == "name"@);
                    assert(kv[1] == "value"@);
                }
                let name = match req_str_field(slot_value(pairs, &slots, 0, Ghost(kv)), "name") {
                    Ok(v) => v,
                    Err(e) => {
                        return Err(e);
                    },
                };
                let value = match req_str_field(slot_value(pairs, &slots, 1, Ghost(kv)), "value") {
                    Ok(v) => v,
                    Err(e) => {
                        return Err(e);
                    },
                };
                Ok(HttpHeader { name, value })
            },
            _ => Err(DecodeError::WrongType(String::from_str("HttpHeader"))),
        }
    }

    #[verifier::rlimit(50)]
    fn encode(&self) -> (j: Json)
        ensures
            j.deep_view() == spec_encode_alpha_http_header(self.deep_view()),
    {
        let mut obj: Vec<(String, Json)> = Vec::new();
        obj.push((String::from_str("name"), Json::Str(self.name.clone())));
        obj.push((String::from_str("value"), Json::Str(self.value.clone())));
        proof {
            broadcast use lemma_json_pair_seq_view;

            reveal_with_fuel(obj_of, 4);
            assert(json_pair_seq_view(obj@) =~= obj_of(alpha_http_header_fields(self.deep_view())));
        }
        Json::Obj(obj)
    }

    proof fn lemma_round_trip(b: HttpHeaderView)
        ensures
            spec_decode_alpha_http_header(spec_encode_alpha_http_header(b)) == Ok::<HttpHeaderView, ErrorView>(b),
    {
        lemma_alpha_route_literals();
        let fields = alpha_http_header_fields(b);
        let keys = alpha_http_header_keys();
        assert(fields_distinct(fields));
        assert(fields_within(fields, keys)) by {
            assert forall|i: int| 0 <= i < fields.len() implies keys.contains(
                (#[trigger] fields[i]).0,
            ) by {
                if i == 0 {
                    assert(keys[0] == fields[0].0);
                } else {
                    assert(keys[1] == fields[1].0);
                }
            }
        }
        lemma_obj_of_scan(fields, keys, false);
        lemma_obj_of_field_at(fields, 0);
        lemma_obj_of_field_at(fields, 1);

    }
    }

} // verus!


verus! {

/// The mathematical shape of a [`HttpRequestHeaderFilter`].
pub struct HttpRequestHeaderFilterView {
    pub set: Option<Seq<HttpHeaderView>>,
    pub add: Option<Seq<HttpHeaderView>>,
    pub remove: Option<Seq<Seq<char>>>,
    }

impl DeepView for HttpRequestHeaderFilter {
    type V = HttpRequestHeaderFilterView;

    open spec fn deep_view(&self) -> HttpRequestHeaderFilterView {
        HttpRequestHeaderFilterView {
            set: self.set.deep_view(),
            add: self.add.deep_view(),
            remove: self.remove.deep_view(),
        }
    }
    }

pub open spec fn alpha_header_filter_keys() -> Seq<Seq<char>> {
    seq!["set"@, "add"@, "remove"@]
    }

/// What decoding a header-modifier document yields: three optional
/// lists.
pub open spec fn spec_decode_alpha_header_filter(v: JsonView) -> Result<HttpRequestHeaderFilterView, ErrorView> {
    match v {
        JsonView::Obj(pairs) => match spec_scan(pairs, alpha_header_filter_keys(), false) {
            Some(e) => Err(e),
            None => match spec_opt_list::<HttpHeader>(spec_field(pairs, "set"@), "set"@) {
                    Err(e) => Err(e),
                    Ok(set) => match spec_opt_list::<HttpHeader>(spec_field(pairs, "add"@), "add"@) {
                        Err(e) => Err(e),
                        Ok(add) => match spec_opt_list::<String>(spec_field(pairs, "remove"@), "remove"@) {
                            Err(e) => Err(e),
                            Ok(remove) => Ok(HttpRequestHeaderFilterView { set, add, remove }),
                        },
                    },
                },
        },
        _ => Err(ErrorView::WrongType("HttpRequestHeaderFilter"@)),
    }
    }

pub open spec fn alpha_header_filter_fields(b: HttpRequestHeaderFilterView) -> Seq<(Seq<char>, Option<JsonView>)> {
    seq![
        ("set"@, list_entry::<HttpHeader>(b.set)),
        ("add"@, list_entry::<HttpHeader>(b.add)),
        ("remove"@, list_entry::<String>(b.remove)),
    ]
    }

pub open spec fn spec_encode_alpha_header_filter(b: HttpRequestHeaderFilterView) -> JsonView {
    JsonView::Obj(obj_of(alpha_header_filter_fields(b)))
    }

fn alpha_header_filter_keys_exec() -> (r: Vec<String>)
    ensures
        r.deep_view() == alpha_header_filter_keys(),
        keys_distinct(alpha_header_filter_keys()),
{
    let r = vec![String::from_str("set"), String::from_str("add"), String::from_str("remove")];
    proof {
        lemma_alpha_route_literals();
        assert(r.deep_view() =~= alpha_header_filter_keys());
    }
    r
    }

impl Codec for HttpRequestHeaderFilter {
    open spec fn spec_decode(v: JsonView) -> Result<HttpRequestHeaderFilterView, ErrorView> {
        spec_decode_alpha_header_filter(v)
    }

    open spec fn spec_encode(b: HttpRequestHeaderFilterView) -> JsonView {
        spec_encode_alpha_header_filter(b)
    }

    open spec fn wf(b: HttpRequestHeaderFilterView) -> bool {
        true
    }

    fn decode(j: &Json) -> (r: Result<Self, DecodeError>)
        ensures
            res_view(r) == spec_decode_alpha_header_filter(j.deep_view()),
    {
        match j {
            Json::Obj(pairs) => {
                let ghost kv = alpha_header_filter_keys();
                let keys = alpha_header_filter_keys_exec();
                let slots = match lookup_fields(pairs, &keys, false) {
                    Ok(s) => s,
                    Err(e) => {
                        return Err(e);
                    },
                };
                proof {
                    assert(kv[0] == "set"@);
                    assert(kv[1] == "add"@);
                    assert(kv[2] == "remove"@);
                }
                let set = match opt_list_field::<HttpHeader>(slot_value(pairs, &slots, 0, Ghost(kv)), "set") {
                    Ok(v) => v,
                    Err(e) => {
                        return Err(e);
                    },
                };
                let add = match opt_list_field::<HttpHeader>(slot_value(pairs, &slots, 1, Ghost(kv)), "add") {
                    Ok(v) => v,
                    Err(e) => {
                        return Err(e);
                    },
                };
                let remove = match opt_list_field::<String>(slot_value(pairs, &slots, 2, Ghost(kv)), "remove") {
                    Ok(v) => v,
                    Err(e) => {
                        return Err(e);
                    },
                };
                Ok(HttpRequestHeaderFilter { set, add, remove })
            },
            _ => Err(DecodeError::WrongType(String::from_str("HttpRequestHeaderFilter"))),
        }
    }

    #[verifier::rlimit(50)]
    fn encode(&self) -> (j: Json)
        ensures
            j.deep_view() == spec_encode_alpha_header_filter(self.deep_view()),
    {
        let mut obj: Vec<(String, Json)> = Vec::new();
        if let Some(xs) = &self.set {
            obj.push((String::from_str("set"), Json::Arr(encode_vec::<HttpHeader>(xs))));
        }
        if let Some(xs) = &self.add {
            obj.push((String::from_str("add"), Json::Arr(encode_vec::<HttpHeader>(xs))));
        }
        if let Some(xs) = &self.remove {
            obj.push((String::from_str("remove"), Json::Arr(encode_vec::<String>(xs))));
        }
        proof {
            broadcast use lemma_json_pair_seq_view;

            reveal_with_fuel(obj_of, 5);
            assert(json_pair_seq_view(obj@) =~= obj_of(alpha_header_filter_fields(self.deep_view())));
        }
        Json::Obj(obj)
    }

    proof fn lemma_round_trip(b: HttpRequestHeaderFilterView)
        ensures
            spec_decode_alpha_header_filter(spec_encode_alpha_header_filter(b)) == Ok::<HttpRequestHeaderFilterView, ErrorView>(b),
    {
        lemma_alpha_route_literals();
        let fields = alpha_header_filter_fields(b);
        let keys = alpha_header_filter_keys();
        assert(fields_distinct(fields));
        assert(fields_within(fields, keys)) by {
            assert forall|i: int| 0 <= i < fields.len() implies keys.contains(
                (#[trigger] fields[i]).0,
            ) by {
                if i == 0 {
                    assert(keys[0] == fields[0].0);
                } else if i == 1 {
                    assert(keys[1] == fields[1].0);
                } else {
                    assert(keys[2] == fields[2].0);
                }
            }
        }
        lemma_obj_of_scan(fields, keys, false);
        lemma_obj_of_field_at(fields, 0);
        lemma_obj_of_field_at(fields, 1);
        lemma_obj_of_field_at(fields, 2);
        if b.set is Some {
            lemma_seq_round_trip::<HttpHeader>(b.set->0);
        }
        if b.add is Some {
            lemma_seq_round_trip::<HttpHeader>(b.add->0);
        }
        if b.remove is Some {
            lemma_seq_round_trip::<String>(b.remove->0);
        }
    }
    }

} // verus!


verus! {

/// The mathematical shape of a [`HttpPathModifier`].
pub struct HttpPathModifierView {
    pub type_: Seq<char>,
    pub replace_full_path: Option<Seq<char>>,
    pub replace_prefix_match: Option<Seq<char>>,
    }

impl DeepView for HttpPathModifier {
    type V = HttpPathModifierView;

    open spec fn deep_view(&self) -> HttpPathModifierView {
        HttpPathModifierView {
            type_: self.type_@,
            replace_full_path: self.replace_full_path.deep_view(),
            replace_prefix_match: self.replace_prefix_match.deep_view(),
        }
    }
    }

pub open spec fn alpha_path_modifier_keys() -> Seq<Seq<char>> {
    seq!["type"@, "replaceFullPath"@, "replacePrefixMatch"@]
    }

/// What decoding a path modifier yields: the kind is required, the
/// replacement values optional.
pub open spec fn spec_decode_alpha_path_modifier(v: JsonView) -> Result<HttpPathModifierView, ErrorView> {
    match v {
        JsonView::Obj(pairs) => match spec_scan(pairs, alpha_path_modifier_keys(), false) {
            Some(e) => Err(e),
            None => match spec_req_str(spec_field(pairs, "type"@), "type"@) {
                    Err(e) => Err(e),
                    Ok(type_) => match spec_opt_str(spec_field(pairs, "replaceFullPath"@), "replaceFullPath"@) {
                        Err(e) => Err(e),
                        Ok(replace_full_path) => match spec_opt_str(spec_field(pairs, "replacePrefixMatch"@), "replacePrefixMatch"@) {
                            Err(e) => Err(e),
                            Ok(replace_prefix_match) => Ok(HttpPathModifierView { type_, replace_full_path, replace_prefix_match }),
                        },
                    },
                },
        },
        _ => Err(ErrorView::WrongType("HttpPathModifier"@)),
    }
    }

pub open spec fn alpha_path_modifier_fields(b: HttpPathModifierView) -> Seq<(Seq<char>, Option<JsonView>)> {
    seq![
        ("type"@, Some(JsonView::Str(b.type_))),
        ("replaceFullPath"@, str_entry(b.replace_full_path)),
        ("replacePrefixMatch"@, str_entry(b.replace_prefix_match)),
    ]
    }

pub open spec fn spec_encode_alpha_path_modifier(b: HttpPathModifierView) -> JsonView {
    JsonView::Obj(obj_of(alpha_path_modifier_fields(b)))
    }

fn alpha_path_modifier_keys_exec() -> (r: Vec<String>)
    ensures
        r.deep_view() == alpha_path_modifier_keys(),
        keys_distinct(alpha_path_modifier_keys()),
{
    let r = vec![String::from_str("type"), String::from_str("replaceFullPath"), String::from_str("replacePrefixMatch")];
    proof {
        lemma_alpha_route_literals();
        assert(r.deep_view() =~= alpha_path_modifier_keys());
    }
    r
    }

impl Codec for HttpPathModifier {
    open spec fn spec_decode(v: JsonView) -> Result<HttpPathModifierView, ErrorView> {
        spec_decode_alpha_path_modifier(v)
    }

    open spec fn spec_encode(b: HttpPathModifierView) -> JsonView {
        spec_encode_alpha_path_modifier(b)
    }

    open spec fn wf(b: HttpPathModifierView) -> bool {
        true
    }

    fn decode(j: &Json) -> (r: Result<Self, DecodeError>)
        ensures
            res_view(r) == spec_decode_alpha_path_modifier(j.deep_view()),
    {
        match j {
            Json::Obj(pairs) => {
                let ghost kv = alpha_path_modifier_keys();
                let keys = alpha_path_modifier_keys_exec();
                let slots = match lookup_fields(pairs, &keys, false) {
                    Ok(s) => s,
                    Err(e) => {
                        return Err(e);
                    },
                };
                proof {
                    assert(kv[0] == "type"@);
                    assert(kv[1] == "replaceFullPath"@);
                    assert(kv[2] == "replacePrefixMatch"@);
                }
                let type_ = match req_str_field(slot_value(pairs, &slots, 0, Ghost(kv)), "type") {
                    Ok(v) => v,
                    Err(e) => {
                        return Err(e);
                    },
                };
                let replace_full_path = match opt_str_field(slot_value(pairs, &slots, 1, Ghost(kv)), "replaceFullPath") {
                    Ok(v) => v,
                    Err(e) => {
                        return Err(e);
                    },
                };
                let replace_prefix_match = match opt_str_field(slot_value(pairs, &slots, 2, Ghost(kv)), "replacePrefixMatch") {
                    Ok(v) => v,
                    Err(e) => {
                        return Err(e);
                    },
                };
                Ok(HttpPathModifier { type_, replace_full_path, replace_prefix_match })
            },
            _ => Err(DecodeError::WrongType(String::from_str("HttpPathModifier"))),
        }
    }

    #[verifier::rlimit(50)]
    fn encode(&self) -> (j: Json)
        ensures
            j.deep_view() == spec_encode_alpha_path_modifier(self.deep_view()),
    {
        let mut obj: Vec<(String, Json)> = Vec::new();
        obj.push((String::from_str("type"), Json::Str(self.type_.clone())));
        if let Some(x) = &self.replace_full_path {
            obj.push((String::from_str("replaceFullPath"), Json::Str(x.clone())));
        }
        if let Some(x) = &self.replace_prefix_match {
            obj.push((String::from_str("replacePrefixMatch"), Json::Str(x.clone())));
        }
        proof {
            broadcast use lemma_json_pair_seq_view;

            reveal_with_fuel(obj_of, 5);
            assert(json_pair_seq_view(obj@) =~= obj_of(alpha_path_modifier_fields(self.deep_view())));
        }
        Json::Obj(obj)
    }

    proof fn lemma_round_trip(b: HttpPathModifierView)
        ensures
            spec_decode_alpha_path_modifier(spec_encode_alpha_path_modifier(b)) == Ok::<HttpPathModifierView, ErrorView>(b),
    {
        lemma_alpha_route_literals();
        let fields = alpha_path_modifier_fields(b);
        let keys = alpha_path_modifier_keys();
        assert(fields_distinct(fields));
        assert(fields_within(fields, keys)) by {
            assert forall|i: int| 0 <= i < fields.len() implies keys.contains(
                (#[trigger] fields[i]).0,
            ) by {
                if i == 0 {
                    assert(keys[0] == fields[0].0);
                } else if i == 1 {
                    assert(keys[1] == fields[1].0);
                } else {
                    assert(keys[2] == fields[2].0);
                }
            }
        }
        lemma_obj_of_scan(fields, keys, false);
        lemma_obj_of_field_at(fields, 0);
        lemma_obj_of_field_at(fields, 1);
        lemma_obj_of_field_at(fields, 2);

    }
    }

} // verus!


verus! {

/// The mathematical shape of a [`HttpRequestRedirectFilter`].
pub struct HttpRequestRedirectFilterView {
    pub type_: Seq<char>,
    pub scheme: Option<Seq<char>>,
    pub hostname: Option<Seq<char>>,
    pub path: Option<HttpPathModifierView>,
    pub port: Option<u16>,
    pub status_code: Option<u16>,
    }

impl DeepView for HttpRequestRedirectFilter {
    type V = HttpRequestRedirectFilterView;

    open spec fn deep_view(&self) -> HttpRequestRedirectFilterView {
        HttpRequestRedirectFilterView {
            type_: self.type_@,
            scheme: self.scheme.deep_view(),
            hostname: self.hostname.deep_view(),
            path: self.path.deep_view(),
            port: self.port,
            status_code: self.status_code,
        }
    }
    }

pub open spec fn alpha_redirect_keys() -> Seq<Seq<char>> {
    seq!["type"@, "scheme"@, "hostname"@, "path"@, "port"@, "statusCode"@]
    }

/// What decoding a redirect filter yields: the kind is required,
/// everything else optional.
pub open spec fn spec_decode_alpha_redirect(v: JsonView) -> Result<HttpRequestRedirectFilterView, ErrorView> {
    match v {
        JsonView::Obj(pairs) => match spec_scan(pairs, alpha_redirect_keys(), false) {
            Some(e) => Err(e),
            None => match spec_req_str(spec_field(pairs, "type"@), "type"@) {
                    Err(e) => Err(e),
                    Ok(type_) => match spec_opt_str(spec_field(pairs, "scheme"@), "scheme"@) {
                        Err(e) => Err(e),
                        Ok(scheme) => match spec_opt_str(spec_field(pairs, "hostname"@), "hostname"@) {
                            Err(e) => Err(e),
                            Ok(hostname) => match spec_opt_val::<HttpPathModifier>(spec_field(pairs, "path"@)) {
                                Err(e) => Err(e),
                                Ok(path) => match spec_opt_u16(spec_field(pairs, "port"@), "port"@) {
                                    Err(e) => Err(e),
                                    Ok(port) => match spec_opt_u16(spec_field(pairs, "statusCode"@), "statusCode"@) {
                                        Err(e) => Err(e),
                                        Ok(status_code) => Ok(HttpRequestRedirectFilterView { type_, scheme, hostname, path, port, status_code }),
                                    },
                                },
                            },
                        },
                    },
                },
        },
        _ => Err(ErrorView::WrongType("HttpRequestRedirectFilter"@)),
    }
    }

pub open spec fn alpha_redirect_fields(b: HttpRequestRedirectFilterView) -> Seq<(Seq<char>, Option<JsonView>)> {
    seq![
        ("type"@, Some(JsonView::Str(b.type_))),
        ("scheme"@, str_entry(b.scheme)),
        ("hostname"@, str_entry(b.hostname)),
        ("path"@, val_entry::<HttpPathModifier>(b.path)),
        ("port"@, u16_entry(b.port)),
        ("statusCode"@, u16_entry(b.status_code)),
    ]
    }

pub open spec fn spec_encode_alpha_redirect(b: HttpRequestRedirectFilterView) -> JsonView {
    JsonView::Obj(obj_of(alpha_redirect_fields(b)))
    }

fn alpha_redirect_keys_exec() -> (r: Vec<String>)
    ensures
        r.deep_view() == alpha_redirect_keys(),
        keys_distinct(alpha_redirect_keys()),
{
    let r = vec![String::from_str("type"), String::from_str("scheme"), String::from_str("hostname"), String::from_str("path"), String::from_str("port"), String::from_str("statusCode")];
    proof {
        lemma_alpha_route_literals();
        assert(r.deep_view() =~= alpha_redirect_keys());
    }
    r
    }

impl Codec for HttpRequestRedirectFilter {
    open spec fn spec_decode(v: JsonView) -> Result<HttpRequestRedirectFilterView, ErrorView> {
        spec_decode_alpha_redirect(v)
    }

    open spec fn spec_encode(b: HttpRequestRedirectFilterView) -> JsonView {
        spec_encode_alpha_redirect(b)
    }

    open spec fn wf(b: HttpRequestRedirectFilterView) -> bool {
        true
    }

    fn decode(j: &Json) -> (r: Result<Self, DecodeError>)
        ensures
            res_view(r) == spec_decode_alpha_redirect(j.deep_view()),
    {
        match j {
            Json::Obj(pairs) => {
                let ghost kv = alpha_redirect_keys();
                let keys = alpha_redirect_keys_exec();
                let slots = match lookup_fields(pairs, &keys, false) {
                    Ok(s) => s,
                    Err(e) => {
                        return Err(e);
                    },
                };
                proof {
                    assert(kv[0] == "type"@);
                    assert(kv[1] == "scheme"@);
                    assert(kv[2] == "hostname"@);
                    assert(kv[3] == "path"@);
                    assert(kv[4] == "port"@);
                    assert(kv[5] == "statusCode"@);
                }
                let type_ = match req_str_field(slot_value(pairs, &slots, 0, Ghost(kv)), "type") {
                    Ok(v) => v,
                    Err(e) => {
                        return Err(e);
                    },
                };
                let scheme = match opt_str_field(slot_value(pairs, &slots, 1, Ghost(kv)), "scheme") {
                    Ok(v) => v,
                    Err(e) => {
                        return Err(e);
                    },
                };
                let hostname = match opt_str_field(slot_value(pairs, &slots, 2, Ghost(kv)), "hostname") {
                    Ok(v) => v,
                    Err(e) => {
                        return Err(e);
                    },
                };
                let path = match opt_val_field::<HttpPathModifier>(slot_value(pairs, &slots, 3, Ghost(kv))) {
                    Ok(v) => v,
                    Err(e) => {
                        return Err(e);
                    },
                };
                let port = match opt_u16_field(slot_value(pairs, &slots, 4, Ghost(kv)), "port") {
                    Ok(v) => v,
                    Err(e) => {
                        return Err(e);
                    },
                };
                let status_code = match opt_u16_field(slot_value(pairs, &slots, 5, Ghost(kv)), "statusCode") {
                    Ok(v) => v,
                    Err(e) => {
                        return Err(e);
                    },
                };
                Ok(HttpRequestRedirectFilter { type_, scheme, hostname, path, port, status_code })
            },
            _ => Err(DecodeError::WrongType(String::from_str("HttpRequestRedirectFilter"))),
        }
    }

    #[verifier::rlimit(50)]
    fn encode(&self) -> (j: Json)
        ensures
            j.deep_view() == spec_encode_alpha_redirect(self.deep_view()),
    {
        let mut obj: Vec<(String, Json)> = Vec::new();
        obj.push((String::from_str("type"), Json::Str(self.type_.clone())));
        if let Some(x) = &self.scheme {
            obj.push((String::from_str("scheme"), Json::Str(x.clone())));
        }
        if let Some(x) = &self.hostname {
            obj.push((String::from_str("hostname"), Json::Str(x.clone())));
        }
        if let Some(x) = &self.path {
            obj.push((String::from_str("path"), x.encode()));
        }
        if let Some(x) = &self.port {
            obj.push((String::from_str("port"), Json::Int(*x as i64)));
        }
        if let Some(x) = &self.status_code {
            obj.push((String::from_str("statusCode"), Json::Int(*x as i64)));
        }
        proof {
            broadcast use lemma_json_pair_seq_view;

            reveal_with_fuel(obj_of, 8);
            assert(json_pair_seq_view(obj@) =~= obj_of(alpha_redirect_fields(self.deep_view())));
        }
        Json::Obj(obj)
    }

    proof fn lemma_round_trip(b: HttpRequestRedirectFilterView)
        ensures
            spec_decode_alpha_redirect(spec_encode_alpha_redirect(b)) == Ok::<HttpRequestRedirectFilterView, ErrorView>(b),
    {
        lemma_alpha_route_literals();
        let fields = alpha_redirect_fields(b);
        let keys = alpha_redirect_keys();
        assert(fields_distinct(fields));
        assert(fields_within(fields, keys)) by {
            assert forall|i: int| 0 <= i < fields.len() implies keys.contains(
                (#[trigger] fields[i]).0,
            ) by {
                if i == 0 {
                    assert(keys[0] == fields[0].0);
                } else if i == 1 {
                    assert(keys[1] == fields[1].0);
                } else if i == 2 {
                    assert(keys[2] == fields[2].0);
                } else if i == 3 {
                    assert(keys[3] == fields[3].0);
                } else if i == 4 {
                    assert(keys[4] == fields[4].0);
                } else {
                    assert(keys[5] == fields[5].0);
                }
            }
        }
        lemma_obj_of_scan(fields, keys, false);
        lemma_obj_of_field_at(fields, 0);
        lemma_obj_of_field_at(fields, 1);
        lemma_obj_of_field_at(fields, 2);
        lemma_obj_of_field_at(fields, 3);
        lemma_obj_of_field_at(fields, 4);
        lemma_obj_of_field_at(fields, 5);
        if b.path is Some {
            HttpPathModifier::lemma_round_trip(b.path->0);
        }
    }
    }

} // verus!


verus! {

/// The mathematical shape of a [`HttpUrlRewriteFilter`].
pub struct HttpUrlRewriteFilterView {
    pub hostname: Option<Seq<char>>,
    pub path: Option<HttpPathModifierView>,
    }

impl DeepView for HttpUrlRewriteFilter {
    type V = HttpUrlRewriteFilterView;

    open spec fn deep_view(&self) -> HttpUrlRewriteFilterView {
        HttpUrlRewriteFilterView {
            hostname: self.hostname.deep_view(),
            path: self.path.deep_view(),
        }
    }
    }

pub open spec fn alpha_rewrite_keys() -> Seq<Seq<char>> {
    seq!["hostname"@, "path"@]
    }

/// What decoding a URL-rewrite filter yields: both fields optional.
pub open spec fn spec_decode_alpha_rewrite(v: JsonView) -> Result<HttpUrlRewriteFilterView, ErrorView> {
    match v {
        JsonView::Obj(pairs) => match spec_scan(pairs, alpha_rewrite_keys(), false) {
            Some(e) => Err(e),
            None => match spec_opt_str(spec_field(pairs, "hostname"@), "hostname"@) {
                    Err(e) => Err(e),
                    Ok(hostname) => match spec_opt_val::<HttpPathModifier>(spec_field(pairs, "path"@)) {
                        Err(e) => Err(e),
                        Ok(path) => Ok(HttpUrlRewriteFilterView { hostname, path }),
                    },
                },
        },
        _ => Err(ErrorView::WrongType("HttpUrlRewriteFilter"@)),
    }
    }

pub open spec fn alpha_rewrite_fields(b: HttpUrlRewriteFilterView) -> Seq<(Seq<char>, Option<JsonView>)> {
    seq![
        ("hostname"@, str_entry(b.hostname)),
        ("path"@, val_entry::<HttpPathModifier>(b.path)),
    ]
    }

pub open spec fn spec_encode_alpha_rewrite(b: HttpUrlRewriteFilterView) -> JsonView {
    JsonView::Obj(obj_of(alpha_rewrite_fields(b)))
    }

fn alpha_rewrite_keys_exec() -> (r: Vec<String>)
    ensures
        r.deep_view() == alpha_rewrite_keys(),
        keys_distinct(alpha_rewrite_keys()),
{
    let r = vec![String::from_str("hostname"), String::from_str("path")];
    proof {
        lemma_alpha_route_literals();
        assert(r.deep_view() =~= alpha_rewrite_keys());
    }
    r
    }

impl Codec for HttpUrlRewriteFilter {
    open spec fn spec_decode(v: JsonView) -> Result<HttpUrlRewriteFilterView, ErrorView> {
        spec_decode_alpha_rewrite(v)
    }

    open spec fn spec_encode(b: HttpUrlRewriteFilterView) -> JsonView {
        spec_encode_alpha_rewrite(b)
    }

    open spec fn wf(b: HttpUrlRewriteFilterView) -> bool {
        true
    }

    fn decode(j: &Json) -> (r: Result<Self, DecodeError>)
        ensures
            res_view(r) == spec_decode_alpha_rewrite(j.deep_view()),
    {
        match j {
            Json::Obj(pairs) => {
                let ghost kv = alpha_rewrite_keys();
                let keys = alpha_rewrite_keys_exec();
                let slots = match lookup_fields(pairs, &keys, false) {
                    Ok(s) => s,
                    Err(e) => {
                        return Err(e);
                    },
                };
                proof {
                    assert(kv[0] == "hostname"@);
                    assert(kv[1] == "path"@);
                }
                let hostname = match opt_str_field(slot_value(pairs, &slots, 0, Ghost(kv)), "hostname") {
                    Ok(v) => v,
                    Err(e) => {
                        return Err(e);
                    },
                };
                let path = match opt_val_field::<HttpPathModifier>(slot_value(pairs, &slots, 1, Ghost(kv))) {
                    Ok(v) => v,
                    Err(e) => {
                        return Err(e);
                    },
                };
                Ok(HttpUrlRewriteFilter { hostname, path })
            },
            _ => Err(DecodeError::WrongType(String::from_str("HttpUrlRewriteFilter"))),
        }
    }

    #[verifier::rlimit(50)]
    fn encode(&self) -> (j: Json)
        ensures
            j.deep_view() == spec_encode_alpha_rewrite(self.deep_view()),
    {
        let mut obj: Vec<(String, Json)> = Vec::new();
        if let Some(x) = &self.hostname {
            obj.push((String::from_str("hostname"), Json::Str(x.clone())));
        }
        if let Some(x) = &self.path {
            obj.push((String::from_str("path"), x.encode()));
        }
        proof {
            broadcast use lemma_json_pair_seq_view;

            reveal_with_fuel(obj_of, 4);
            assert(json_pair_seq_view(obj@) =~= obj_of(alpha_rewrite_fields(self.deep_view())));
        }
        Json::Obj(obj)
    }

    proof fn lemma_round_trip(b: HttpUrlRewriteFilterView)
        ensures
            spec_decode_alpha_rewrite(spec_encode_alpha_rewrite(b)) == Ok::<HttpUrlRewriteFilterView, ErrorView>(b),
    {
        lemma_alpha_route_literals();
        let fields = alpha_rewrite_fields(b);
        let keys = alpha_rewrite_keys();
        assert(fields_distinct(fields));
        assert(fields_within(fields, keys)) by {
            assert forall|i: int| 0 <= i < fields.len() implies keys.contains(
                (#[trigger] fields[i]).0,
            ) by {
                if i == 0 {
                    assert(keys[0] == fields[0].0);
                } else {
                    assert(keys[1] == fields[1].0);
                }
            }
        }
        lemma_obj_of_scan(fields, keys, false);
        lemma_obj_of_field_at(fields, 0);
        lemma_obj_of_field_at(fields, 1);
        if b.path is Some {
            HttpPathModifier::lemma_round_trip(b.path->0);
        }
    }
    }

} // verus!


verus! {

/// The mathematical shape of a [`HttpRequestMirrorFilter`].
pub struct HttpRequestMirrorFilterView {
    pub backend_ref: BackendObjectReferenceView,
    }

impl DeepView for HttpRequestMirrorFilter {
    type V = HttpRequestMirrorFilterView;

    open spec fn deep_view(&self) -> HttpRequestMirrorFilterView {
        HttpRequestMirrorFilterView {
            backend_ref: self.backend_ref.deep_view(),
        }
    }
    }

pub open spec fn alpha_mirror_keys() -> Seq<Seq<char>> {
    seq!["backendRef"@]
    }

/// What decoding a mirror filter yields: a required backend reference.
pub open spec fn spec_decode_alpha_mirror(v: JsonView) -> Result<HttpRequestMirrorFilterView, ErrorView> {
    match v {
        JsonView::Obj(pairs) => match spec_scan(pairs, alpha_mirror_keys(), false) {
            Some(e) => Err(e),
            None => match spec_req_val::<BackendObjectReference>(spec_field(pairs, "backendRef"@), "backendRef"@) {
                    Err(e) => Err(e),
                    Ok(backend_ref) => Ok(HttpRequestMirrorFilterView { backend_ref }),
                },
        },
        _ => Err(ErrorView::WrongType("HttpRequestMirrorFilter"@)),
    }
    }

pub open spec fn alpha_mirror_fields(b: HttpRequestMirrorFilterView) -> Seq<(Seq<char>, Option<JsonView>)> {
    seq![
        ("backendRef"@, Some(BackendObjectReference::spec_encode(b.backend_ref))),
    ]
    }

pub open spec fn spec_encode_alpha_mirror(b: HttpRequestMirrorFilterView) -> JsonView {
    JsonView::Obj(obj_of(alpha_mirror_fields(b)))
    }

fn alpha_mirror_keys_exec() -> (r: Vec<String>)
    ensures
        r.deep_view() == alpha_mirror_keys(),
        keys_distinct(alpha_mirror_keys()),
{
    let r = vec![String::from_str("backendRef")];
    proof {
        lemma_alpha_route_literals();
        assert(r.deep_view() =~= alpha_mirror_keys());
    }
    r
    }

impl Codec for HttpRequestMirrorFilter {
    open spec fn spec_decode(v: JsonView) -> Result<HttpRequestMirrorFilterView, ErrorView> {
        spec_decode_alpha_mirror(v)
    }

    open spec fn spec_encode(b: HttpRequestMirrorFilterView) -> JsonView {
        spec_encode_alpha_mirror(b)
    }

    open spec fn wf(b: HttpRequestMirrorFilterView) -> bool {
        true
    }

    fn decode(j: &Json) -> (r: Result<Self, DecodeError>)
        ensures
            res_view(r) == spec_decode_alpha_mirror(j.deep_view()),
    {
        match j {
            Json::Obj(pairs) => {
                let ghost kv = alpha_mirror_keys();
                let keys = alpha_mirror_keys_exec();
                let slots = match lookup_fields(pairs, &keys, false) {
                    Ok(s) => s,
                    Err(e) => {
                        return Err(e);
                    },
                };
                proof {
                    assert(kv[0] == "backendRef"@);
                }
                let backend_ref = match req_val_field::<BackendObjectReference>(slot_value(pairs, &slots, 0, Ghost(kv)), "backendRef") {
                    Ok(v) => v,
                    Err(e) => {
                        return Err(e);
                    },
                };
                Ok(HttpRequestMirrorFilter { backend_ref })
            },
            _ => Err(DecodeError::WrongType(String::from_str("HttpRequestMirrorFilter"))),
        }
    }

    #[verifier::rlimit(50)]
    fn encode(&self) -> (j: Json)
        ensures
            j.deep_view() == spec_encode_alpha_mirror(self.deep_view()),
    {
        let mut obj: Vec<(String, Json)> = Vec::new();
        obj.push((String::from_str("backendRef"), self.backend_ref.encode()));
        proof {
            broadcast use lemma_json_pair_seq_view;

            reveal_with_fuel(obj_of, 3);
            assert(json_pair_seq_view(obj@) =~= obj_of(alpha_mirror_fields(self.deep_view())));
        }
        Json::Obj(obj)
    }

    proof fn lemma_round_trip(b: HttpRequestMirrorFilterView)
        ensures
            spec_decode_alpha_mirror(spec_encode_alpha_mirror(b)) == Ok::<HttpRequestMirrorFilterView, ErrorView>(b),
    {
        lemma_alpha_route_literals();
        let fields = alpha_mirror_fields(b);
        let keys = alpha_mirror_keys();
        assert(fields_distinct(fields));
        assert(fields_within(fields, keys)) by {
            assert forall|i: int| 0 <= i < fields.len() implies keys.contains(
                (#[trigger] fields[i]).0,
            ) by {
                assert(keys[0] == fields[0].0);
            }
        }
        lemma_obj_of_scan(fields, keys, false);
        lemma_obj_of_field_at(fields, 0);
        BackendObjectReference::lemma_round_trip(b.backend_ref);
    }
    }

} // verus!


verus! {

/// The mathematical shape of a [`HttpRouteFilter`].
pub struct HttpRouteFilterView {
    pub type_: Seq<char>,
    pub request_header_modifier: Option<HttpRequestHeaderFilterView>,
    pub request_mirror: Option<HttpRequestMirrorFilterView>,
    pub request_redirect: Option<HttpRequestRedirectFilterView>,
    pub url_rewrite: Option<HttpUrlRewriteFilterView>,
    pub extension_ref: Option<LocalObjectReferenceView>,
    }

impl DeepView for HttpRouteFilter {
    type V = HttpRouteFilterView;

    open spec fn deep_view(&self) -> HttpRouteFilterView {
        HttpRouteFilterView {
            type_: self.type_@,
            request_header_modifier: self.request_header_modifier.deep_view(),
            request_mirror: self.request_mirror.deep_view(),
            request_redirect: self.request_redirect.deep_view(),
            url_rewrite: self.url_rewrite.deep_view(),
            extension_ref: self.extension_ref.deep_view(),
        }
    }
    }

pub open spec fn alpha_filter_keys() -> Seq<Seq<char>> {
    seq!["type"@, "requestHeaderModifier"@, "requestMirror"@, "requestRedirect"@, "urlRewrite"@, "extensionRef"@]
    }

/// What decoding a route filter yields: the kind is required and each
/// configuration optional.
pub open spec fn spec_decode_alpha_filter(v: JsonView) -> Result<HttpRouteFilterView, ErrorView> {
    match v {
        JsonView::Obj(pairs) => match spec_scan(pairs, alpha_filter_keys(), false) {
            Some(e) => Err(e),
            None => match spec_req_str(spec_field(pairs, "type"@), "type"@) {
                    Err(e) => Err(e),
                    Ok(type_) => match spec_opt_val::<HttpRequestHeaderFilter>(spec_field(pairs, "requestHeaderModifier"@)) {
                        Err(e) => Err(e),
                        Ok(request_header_modifier) => match spec_opt_val::<HttpRequestMirrorFilter>(spec_field(pairs, "requestMirror"@)) {
                            Err(e) => Err(e),
                            Ok(request_mirror) => match spec_opt_val::<HttpRequestRedirectFilter>(spec_field(pairs, "requestRedirect"@)) {
                                Err(e) => Err(e),
                                Ok(request_redirect) => match spec_opt_val::<HttpUrlRewriteFilter>(spec_field(pairs, "urlRewrite"@)) {
                                    Err(e) => Err(e),
                                    Ok(url_rewrite) => match spec_opt_val::<LocalObjectReference>(spec_field(pairs, "extensionRef"@)) {
                                        Err(e) => Err(e),
                                        Ok(extension_ref) => Ok(HttpRouteFilterView { type_, request_header_modifier, request_mirror, request_redirect, url_rewrite, extension_ref }),
                                    },
                                },
                            },
                        },
                    },
                },
        },
        _ => Err(ErrorView::WrongType("HttpRouteFilter"@)),
    }
    }

pub open spec fn alpha_filter_fields(b: HttpRouteFilterView) -> Seq<(Seq<char>, Option<JsonView>)> {
    seq![
        ("type"@, Some(JsonView::Str(b.type_))),
        ("requestHeaderModifier"@, val_entry::<HttpRequestHeaderFilter>(b.request_header_modifier)),
        ("requestMirror"@, val_entry::<HttpRequestMirrorFilter>(b.request_mirror)),
        ("requestRedirect"@, val_entry::<HttpRequestRedirectFilter>(b.request_redirect)),
        ("urlRewrite"@, val_entry::<HttpUrlRewriteFilter>(b.url_rewrite)),
        ("extensionRef"@, val_entry::<LocalObjectReference>(b.extension_ref)),
    ]
    }

pub open spec fn spec_encode_alpha_filter(b: HttpRouteFilterView) -> JsonView {
    JsonView::Obj(obj_of(alpha_filter_fields(b)))
    }

fn alpha_filter_keys_exec() -> (r: Vec<String>)
    ensures
        r.deep_view() == alpha_filter_keys(),
        keys_distinct(alpha_filter_keys()),
{
    let r = vec![String::from_str("type"), String::from_str("requestHeaderModifier"), String::from_str("requestMirror"), String::from_str("requestRedirect"), String::from_str("urlRewrite"), String::from_str("extensionRef")];
    proof {
        lemma_alpha_route_literals();
        assert(r.deep_view() =~= alpha_filter_keys());
    }
    r
    }

impl Codec for HttpRouteFilter {
    open spec fn spec_decode(v: JsonView) -> Result<HttpRouteFilterView, ErrorView> {
        spec_decode_alpha_filter(v)
    }

    open spec fn spec_encode(b: HttpRouteFilterView) -> JsonView {
        spec_encode_alpha_filter(b)
    }

    open spec fn wf(b: HttpRouteFilterView) -> bool {
        true
    }

    fn decode(j: &Json) -> (r: Result<Self, DecodeError>)
        ensures
            res_view(r) == spec_decode_alpha_filter(j.deep_view()),
    {
        match j {
            Json::Obj(pairs) => {
                let ghost kv = alpha_filter_keys();
                let keys = alpha_filter_keys_exec();
                let slots = match lookup_fields(pairs, &keys, false) {
                    Ok(s) => s,
                    Err(e) => {
                        return Err(e);
                    },
                };
                proof {
                    assert(kv[0] == "type"@);
                    assert(kv[1] == "requestHeaderModifier"@);
                    assert(kv[2] == "requestMirror"@);
                    assert(kv[3] == "requestRedirect"@);
                    assert(kv[4] == "urlRewrite"@);
                    assert(kv[5] == "extensionRef"@);
                }
                let type_ = match req_str_field(slot_value(pairs, &slots, 0, Ghost(kv)), "type") {
                    Ok(v) => v,
                    Err(e) => {
                        return Err(e);
                    },
                };
                let request_header_modifier = match opt_val_field::<HttpRequestHeaderFilter>(slot_value(pairs, &slots, 1, Ghost(kv))) {
                    Ok(v) => v,
                    Err(e) => {
                        return Err(e);
                    },
                };
                let request_mirror = match opt_val_field::<HttpRequestMirrorFilter>(slot_value(pairs, &slots, 2, Ghost(kv))) {
                    Ok(v) => v,
                    Err(e) => {
                        return Err(e);
                    },
                };
                let request_redirect = match opt_val_field::<HttpRequestRedirectFilter>(slot_value(pairs, &slots, 3, Ghost(kv))) {
                    Ok(v) => v,
                    Err(e) => {
                        return Err(e);
                    },
                };
                let url_rewrite = match opt_val_field::<HttpUrlRewriteFilter>(slot_value(pairs, &slots, 4, Ghost(kv))) {
                    Ok(v) => v,
                    Err(e) => {
                        return Err(e);
                    },
                };
                let extension_ref = match opt_val_field::<LocalObjectReference>(slot_value(pairs, &slots, 5, Ghost(kv))) {
                    Ok(v) => v,
                    Err(e) => {
                        return Err(e);
                    },
                };
                Ok(HttpRouteFilter { type_, request_header_modifier, request_mirror, request_redirect, url_rewrite, extension_ref })
            },
            _ => Err(DecodeError::WrongType(String::from_str("HttpRouteFilter"))),
        }
    }

    #[verifier::rlimit(50)]
    fn encode(&self) -> (j: Json)
        ensures
            j.deep_view() == spec_encode_alpha_filter(self.deep_view()),
    {
        let mut obj: Vec<(String, Json)> = Vec::new();
        obj.push((String::from_str("type"), Json::Str(self.type_.clone())));
        if let Some(x) = &self.request_header_modifier {
            obj.push((String::from_str("requestHeaderModifier"), x.encode()));
        }
        if let Some(x) = &self.request_mirror {
            obj.push((String::from_str("requestMirror"), x.encode()));
        }
        if let Some(x) = &self.request_redirect {
            obj.push((String::from_str("requestRedirect"), x.encode()));
        }
        if let Some(x) = &self.url_rewrite {
            obj.push((String::from_str("urlRewrite"), x.encode()));
        }
        if let Some(x) = &self.extension_ref {
            obj.push((String::from_str("extensionRef"), x.encode()));
        }
        proof {
            broadcast use lemma_json_pair_seq_view;

            reveal_with_fuel(obj_of, 8);
            assert(json_pair_seq_view(obj@) =~= obj_of(alpha_filter_fields(self.deep_view())));
        }
        Json::Obj(obj)
    }

    proof fn lemma_round_trip(b: HttpRouteFilterView)
        ensures
            spec_decode_alpha_filter(spec_encode_alpha_filter(b)) == Ok::<HttpRouteFilterView, ErrorView>(b),
    {
        lemma_alpha_route_literals();
        let fields = alpha_filter_fields(b);
        let keys = alpha_filter_keys();
        assert(fields_distinct(fields));
        assert(fields_within(fields, keys)) by {
            assert forall|i: int| 0 <= i < fields.len() implies keys.contains(
                (#[trigger] fields[i]).0,
            ) by {
                if i == 0 {
                    assert(keys[0] == fields[0].0);
                } else if i == 1 {
                    assert(keys[1] == fields[1].0);
                } else if i == 2 {
                    assert(keys[2] == fields[2].0);
                } else if i == 3 {
                    assert(keys[3] == fields[3].0);
                } else if i == 4 {
                    assert(keys[4] == fields[4].0);
                } else {
                    assert(keys[5] == fields[5].0);
                }
            }
        }
        lemma_obj_of_scan(fields, keys, false);
        lemma_obj_of_field_at(fields, 0);
        lemma_obj_of_field_at(fields, 1);
        lemma_obj_of_field_at(fields, 2);
        lemma_obj_of_field_at(fields, 3);
        lemma_obj_of_field_at(fields, 4);
        lemma_obj_of_field_at(fields, 5);
        if b.request_header_modifier is Some {
            HttpRequestHeaderFilter::lemma_round_trip(b.request_header_modifier->0);
        }
        if b.request_mirror is Some {
            HttpRequestMirrorFilter::lemma_round_trip(b.request_mirror->0);
        }
        if b.request_redirect is Some {
            HttpRequestRedirectFilter::lemma_round_trip(b.request_redirect->0);
        }
        if b.url_rewrite is Some {
            HttpUrlRewriteFilter::lemma_round_trip(b.url_rewrite->0);
        }
        if b.extension_ref is Some {
            LocalObjectReference::lemma_round_trip(b.extension_ref->0);
        }
    }
    }

} // verus!


verus! {

/// The mathematical shape of a [`HttpRouteMatch`].
pub struct HttpRouteMatchView {
    pub path: Option<HttpPathMatchView>,
    pub headers: Option<Seq<HttpHeaderMatchView>>,
    pub query_params: Option<Seq<HttpQueryParamMatchView>>,
    pub method: Option<Seq<char>>,
    }

impl DeepView for HttpRouteMatch {
    type V = HttpRouteMatchView;

    open spec fn deep_view(&self) -> HttpRouteMatchView {
        HttpRouteMatchView {
            path: self.path.deep_view(),
            headers: self.headers.deep_view(),
            query_params: self.query_params.deep_view(),
            method: self.method.deep_view(),
        }
    }
    }

pub open spec fn alpha_route_match_keys() -> Seq<Seq<char>> {
    seq!["path"@, "headers"@, "queryParams"@, "method"@]
    }

/// What decoding a route match yields: every matcher optional.
pub open spec fn spec_decode_alpha_route_match(v: JsonView) -> Result<HttpRouteMatchView, ErrorView> {
    match v {
        JsonView::Obj(pairs) => match spec_scan(pairs, alpha_route_match_keys(), false) {
            Some(e) => Err(e),
            None => match spec_opt_val::<HttpPathMatch>(spec_field(pairs, "path"@)) {
                    Err(e) => Err(e),
                    Ok(path) => match spec_opt_list::<HttpHeaderMatch>(spec_field(pairs, "headers"@), "headers"@) {
                        Err(e) => Err(e),
                        Ok(headers) => match spec_opt_list::<HttpQueryParamMatch>(spec_field(pairs, "queryParams"@), "queryParams"@) {
                            Err(e) => Err(e),
                            Ok(query_params) => match spec_opt_str(spec_field(pairs, "method"@), "method"@) {
                                Err(e) => Err(e),
                                Ok(method) => Ok(HttpRouteMatchView { path, headers, query_params, method }),
                            },
                        },
                    },
                },
        },
        _ => Err(ErrorView::WrongType("HttpRouteMatch"@)),
    }
    }

pub open spec fn alpha_route_match_fields(b: HttpRouteMatchView) -> Seq<(Seq<char>, Option<JsonView>)> {
    seq![
        ("path"@, val_entry::<HttpPathMatch>(b.path)),
        ("headers"@, list_entry::<HttpHeaderMatch>(b.headers)),
        ("queryParams"@, list_entry::<HttpQueryParamMatch>(b.query_params)),
        ("method"@, str_entry(b.method)),
    ]
    }

pub open spec fn spec_encode_alpha_route_match(b: HttpRouteMatchView) -> JsonView {
    JsonView::Obj(obj_of(alpha_route_match_fields(b)))
    }

fn alpha_route_match_keys_exec() -> (r: Vec<String>)
    ensures
        r.deep_view() == alpha_route_match_keys(),
        keys_distinct(alpha_route_match_keys()),
{
    let r = vec![String::from_str("path"), String::from_str("headers"), String::from_str("queryParams"), String::from_str("method")];
    proof {
        lemma_alpha_route_literals();
        assert(r.deep_view() =~= alpha_route_match_keys());
    }
    r
    }

impl Codec for HttpRouteMatch {
    open spec fn spec_decode(v: JsonView) -> Result<HttpRouteMatchView, ErrorView> {
        spec_decode_alpha_route_match(v)
    }

    open spec fn spec_encode(b: HttpRouteMatchView) -> JsonView {
        spec_encode_alpha_route_match(b)
    }

    open spec fn wf(b: HttpRouteMatchView) -> bool {
        true
    }

    fn decode(j: &Json) -> (r: Result<Self, DecodeError>)
        ensures
            res_view(r) == spec_decode_alpha_route_match(j.deep_view()),
    {
        match j {
            Json::Obj(pairs) => {
                let ghost kv = alpha_route_match_keys();
                let keys = alpha_route_match_keys_exec();
                let slots = match lookup_fields(pairs, &keys, false) {
                    Ok(s) => s,
                    Err(e) => {
                        return Err(e);
                    },
                };
                proof {
                    assert(kv[0] == "path"@);
                    assert(kv[1] == "headers"@);
                    assert(kv[2] == "queryParams"@);
                    assert(kv[3] == "method"@);
                }
                let path = match opt_val_field::<HttpPathMatch>(slot_value(pairs, &slots, 0, Ghost(kv))) {
                    Ok(v) => v,
                    Err(e) => {
                        return Err(e);
                    },
                };
                let headers = match opt_list_field::<HttpHeaderMatch>(slot_value(pairs, &slots, 1, Ghost(kv)), "headers") {
                    Ok(v) => v,
                    Err(e) => {
                        return Err(e);
                    },
                };
                let query_params = match opt_list_field::<HttpQueryParamMatch>(slot_value(pairs, &slots, 2, Ghost(kv)), "queryParams") {
                    Ok(v) => v,
                    Err(e) => {
                        return Err(e);
                    },
                };
                let method = match opt_str_field(slot_value(pairs, &slots, 3, Ghost(kv)), "method") {
                    Ok(v) => v,
                    Err(e) => {
                        return Err(e);
                    },
                };
                Ok(HttpRouteMatch { path, headers, query_params, method })
            },
            _ => Err(DecodeError::WrongType(String::from_str("HttpRouteMatch"))),
        }
    }

    #[verifier::rlimit(50)]
    fn encode(&self) -> (j: Json)
        ensures
            j.deep_view() == spec_encode_alpha_route_match(self.deep_view()),
    {
        let mut obj: Vec<(String, Json)> = Vec::new();
        if let Some(x) = &self.path {
            obj.push((String::from_str("path"), x.encode()));
        }
        if let Some(xs) = &self.headers {
            obj.push((String::from_str("headers"), Json::Arr(encode_vec::<HttpHeaderMatch>(xs))));
        }
        if let Some(xs) = &self.query_params {
            obj.push((String::from_str("queryParams"), Json::Arr(encode_vec::<HttpQueryParamMatch>(xs))));
        }
        if let Some(x) = &self.method {
            obj.push((String::from_str("method"), Json::Str(x.clone())));
        }
        proof {
            broadcast use lemma_json_pair_seq_view;

            reveal_with_fuel(obj_of, 6);
            assert(json_pair_seq_view(obj@) =~= obj_of(alpha_route_match_fields(self.deep_view())));
        }
        Json::Obj(obj)
    }

    proof fn lemma_round_trip(b: HttpRouteMatchView)
        ensures
            spec_decode_alpha_route_match(spec_encode_alpha_route_match(b)) == Ok::<HttpRouteMatchView, ErrorView>(b),
    {
        lemma_alpha_route_literals();
        let fields = alpha_route_match_fields(b);
        let keys = alpha_route_match_keys();
        assert(fields_distinct(fields));
        assert(fields_within(fields, keys)) by {
            assert forall|i: int| 0 <= i < fields.len() implies keys.contains(
                (#[trigger] fields[i]).0,
            ) by {
                if i == 0 {
                    assert(keys[0] == fields[0].0);
                } else if i == 1 {
                    assert(keys[1] == fields[1].0);
                } else if i == 2 {
                    assert(keys[2] == fields[2].0);
                } else {
                    assert(keys[3] == fields[3].0);
                }
            }
        }
        lemma_obj_of_scan(fields, keys, false);
        lemma_obj_of_field_at(fields, 0);
        lemma_obj_of_field_at(fields, 1);
        lemma_obj_of_field_at(fields, 2);
        lemma_obj_of_field_at(fields, 3);
        if b.path is Some {
            HttpPathMatch::lemma_round_trip(b.path->0);
        }
        if b.headers is Some {
            lemma_seq_round_trip::<HttpHeaderMatch>(b.headers->0);
        }
        if b.query_params is Some {
            lemma_seq_round_trip::<HttpQueryParamMatch>(b.query_params->0);
        }
    }
    }

} // verus!


verus! {

/// The mathematical shape of a [`HttpBackendRef`].
pub struct HttpBackendRefView {
    pub backend_ref: BackendObjectReferenceView,
    pub filters: Option<Seq<HttpRouteFilterView>>,
    }

impl DeepView for HttpBackendRef {
    type V = HttpBackendRefView;

    open spec fn deep_view(&self) -> HttpBackendRefView {
        HttpBackendRefView {
            backend_ref: self.backend_ref.deep_view(),
            filters: self.filters.deep_view(),
        }
    }
    }

pub open spec fn alpha_backend_ref_keys() -> Seq<Seq<char>> {
    seq!["backendRef"@, "filters"@]
    }

/// What decoding a backend reference yields: the referent is required.
pub open spec fn spec_decode_alpha_backend_ref(v: JsonView) -> Result<HttpBackendRefView, ErrorView> {
    match v {
        JsonView::Obj(pairs) => match spec_scan(pairs, alpha_backend_ref_keys(), false) {
            Some(e) => Err(e),
            None => match spec_req_val::<BackendObjectReference>(spec_field(pairs, "backendRef"@), "backendRef"@) {
                    Err(e) => Err(e),
                    Ok(backend_ref) => match spec_opt_list::<HttpRouteFilter>(spec_field(pairs, "filters"@), "filters"@) {
                        Err(e) => Err(e),
                        Ok(filters) => Ok(HttpBackendRefView { backend_ref, filters }),
                    },
                },
        },
        _ => Err(ErrorView::WrongType("HttpBackendRef"@)),
    }
    }

pub open spec fn alpha_backend_ref_fields(b: HttpBackendRefView) -> Seq<(Seq<char>, Option<JsonView>)> {
    seq![
        ("backendRef"@, Some(BackendObjectReference::spec_encode(b.backend_ref))),
        ("filters"@, list_entry::<HttpRouteFilter>(b.filters)),
    ]
    }

pub open spec fn spec_encode_alpha_backend_ref(b: HttpBackendRefView) -> JsonView {
    JsonView::Obj(obj_of(alpha_backend_ref_fields(b)))
    }

fn alpha_backend_ref_keys_exec() -> (r: Vec<String>)
    ensures
        r.deep_view() == alpha_backend_ref_keys(),
        keys_distinct(alpha_backend_ref_keys()),
{
    let r = vec![String::from_str("backendRef"), String::from_str("filters")];
    proof {
        lemma_alpha_route_literals();
        assert(r.deep_view() =~= alpha_backend_ref_keys());
    }
    r
    }

impl Codec for HttpBackendRef {
    open spec fn spec_decode(v: JsonView) -> Result<HttpBackendRefView, ErrorView> {
        spec_decode_alpha_backend_ref(v)
    }

    open spec fn spec_encode(b: HttpBackendRefView) -> JsonView {
        spec_encode_alpha_backend_ref(b)
    }

    open spec fn wf(b: HttpBackendRefView) -> bool {
        true
    }

    fn decode(j: &Json) -> (r: Result<Self, DecodeError>)
        ensures
            res_view(r) == spec_decode_alpha_backend_ref(j.deep_view()),
    {
        match j {
            Json::Obj(pairs) => {
                let ghost kv = alpha_backend_ref_keys();
                let keys = alpha_backend_ref_keys_exec();
                let slots = match lookup_fields(pairs, &keys, false) {
                    Ok(s) => s,
                    Err(e) => {
                        return Err(e);
                    },
                };
                proof {
                    assert(kv[0] == "backendRef"@);
                    assert(kv[1] == "filters"@);
                }
                let backend_ref = match req_val_field::<BackendObjectReference>(slot_value(pairs, &slots, 0, Ghost(kv)), "backendRef") {
                    Ok(v) => v,
                    Err(e) => {
                        return Err(e);
                    },
                };
                let filters = match opt_list_field::<HttpRouteFilter>(slot_value(pairs, &slots, 1, Ghost(kv)), "filters") {
                    Ok(v) => v,
                    Err(e) => {
                        return Err(e);
                    },
                };
                Ok(HttpBackendRef { backend_ref, filters })
            },
            _ => Err(DecodeError::WrongType(String::from_str("HttpBackendRef"))),
        }
    }

    #[verifier::rlimit(50)]
    fn encode(&self) -> (j: Json)
        ensures
            j.deep_view() == spec_encode_alpha_backend_ref(self.deep_view()),
    {
        let mut obj: Vec<(String, Json)> = Vec::new();
        obj.push((String::from_str("backendRef"), self.backend_ref.encode()));
        if let Some(xs) = &self.filters {
            obj.push((String::from_str("filters"), Json::Arr(encode_vec::<HttpRouteFilter>(xs))));
        }
        proof {
            broadcast use lemma_json_pair_seq_view;

            reveal_with_fuel(obj_of, 4);
            assert(json_pair_seq_view(obj@) =~= obj_of(alpha_backend_ref_fields(self.deep_view())));
        }
        Json::Obj(obj)
    }

    proof fn lemma_round_trip(b: HttpBackendRefView)
        ensures
            spec_decode_alpha_backend_ref(spec_encode_alpha_backend_ref(b)) == Ok::<HttpBackendRefView, ErrorView>(b),
    {
        lemma_alpha_route_literals();
        let fields = alpha_backend_ref_fields(b);
        let keys = alpha_backend_ref_keys();
        assert(fields_distinct(fields));
        assert(fields_within(fields, keys)) by {
            assert forall|i: int| 0 <= i < fields.len() implies keys.contains(
                (#[trigger] fields[i]).0,
            ) by {
                if i == 0 {
                    assert(keys[0] == fields[0].0);
                } else {
                    assert(keys[1] == fields[1].0);
                }
            }
        }
        lemma_obj_of_scan(fields, keys, false);
        lemma_obj_of_field_at(fields, 0);
        lemma_obj_of_field_at(fields, 1);
        BackendObjectReference::lemma_round_trip(b.backend_ref);
        if b.filters is Some {
            lemma_seq_round_trip::<HttpRouteFilter>(b.filters->0);
        }
    }
    }

} // verus!


verus! {

/// The mathematical shape of a [`HttpRouteRule`].
pub struct HttpRouteRuleView {
    pub matches: Option<HttpRouteMatchView>,
    pub filters: Option<Seq<HttpRouteFilterView>>,
    pub backend_refs: Option<Seq<HttpBackendRefView>>,
    }

impl DeepView for HttpRouteRule {
    type V = HttpRouteRuleView;

    open spec fn deep_view(&self) -> HttpRouteRuleView {
        HttpRouteRuleView {
            matches: self.matches.deep_view(),
            filters: self.filters.deep_view(),
            backend_refs: self.backend_refs.deep_view(),
        }
    }
    }

pub open spec fn alpha_rule_keys() -> Seq<Seq<char>> {
    seq!["matches"@, "filters"@, "backendRefs"@]
    }

/// What decoding a route rule yields: every field optional.
pub open spec fn spec_decode_alpha_rule(v: JsonView) -> Result<HttpRouteRuleView, ErrorView> {
    match v {
        JsonView::Obj(pairs) => match spec_scan(pairs, alpha_rule_keys(), false) {
            Some(e) => Err(e),
            None => match spec_opt_val::<HttpRouteMatch>(spec_field(pairs, "matches"@)) {
                    Err(e) => Err(e),
                    Ok(matches) => match spec_opt_list::<HttpRouteFilter>(spec_field(pairs, "filters"@), "filters"@) {
                        Err(e) => Err(e),
                        Ok(filters) => match spec_opt_list::<HttpBackendRef>(spec_field(pairs, "backendRefs"@), "backendRefs"@) {
                            Err(e) => Err(e),
                            Ok(backend_refs) => Ok(HttpRouteRuleView { matches, filters, backend_refs }),
                        },
                    },
                },
        },
        _ => Err(ErrorView::WrongType("HttpRouteRule"@)),
    }
    }

pub open spec fn alpha_rule_fields(b: HttpRouteRuleView) -> Seq<(Seq<char>, Option<JsonView>)> {
    seq![
        ("matches"@, val_entry::<HttpRouteMatch>(b.matches)),
        ("filters"@, list_entry::<HttpRouteFilter>(b.filters)),
        ("backendRefs"@, list_entry::<HttpBackendRef>(b.backend_refs)),
    ]
    }

pub open spec fn spec_encode_alpha_rule(b: HttpRouteRuleView) -> JsonView {
    JsonView::Obj(obj_of(alpha_rule_fields(b)))
    }

fn alpha_rule_keys_exec() -> (r: Vec<String>)
    ensures
        r.deep_view() == alpha_rule_keys(),
        keys_distinct(alpha_rule_keys()),
{
    let r = vec![String::from_str("matches"), String::from_str("filters"), String::from_str("backendRefs")];
    proof {
        lemma_alpha_route_literals();
        assert(r.deep_view() =~= alpha_rule_keys());
    }
    r
    }

impl Codec for HttpRouteRule {
    open spec fn spec_decode(v: JsonView) -> Result<HttpRouteRuleView, ErrorView> {
        spec_decode_alpha_rule(v)
    }

    open spec fn spec_encode(b: HttpRouteRuleView) -> JsonView {
        spec_encode_alpha_rule(b)
    }

    open spec fn wf(b: HttpRouteRuleView) -> bool {
        true
    }

    fn decode(j: &Json) -> (r: Result<Self, DecodeError>)
        ensures
            res_view(r) == spec_decode_alpha_rule(j.deep_view()),
    {
        match j {
            Json::Obj(pairs) => {
                let ghost kv = alpha_rule_keys();
                let keys = alpha_rule_keys_exec();
                let slots = match lookup_fields(pairs, &keys, false) {
                    Ok(s) => s,
                    Err(e) => {
                        return Err(e);
                    },
                };
                proof {
                    assert(kv[0] == "matches"@);
                    assert(kv[1] == "filters"@);
                    assert(kv[2] == "backendRefs"@);
                }
                let matches = match opt_val_field::<HttpRouteMatch>(slot_value(pairs, &slots, 0, Ghost(kv))) {
                    Ok(v) => v,
                    Err(e) => {
                        return Err(e);
                    },
                };
                let filters = match opt_list_field::<HttpRouteFilter>(slot_value(pairs, &slots, 1, Ghost(kv)), "filters") {
                    Ok(v) => v,
                    Err(e) => {
                        return Err(e);
                    },
                };
                let backend_refs = match opt_list_field::<HttpBackendRef>(slot_value(pairs, &slots, 2, Ghost(kv)), "backendRefs") {
                    Ok(v) => v,
                    Err(e) => {
                        return Err(e);
                    },
                };
                Ok(HttpRouteRule { matches, filters, backend_refs })
            },
            _ => Err(DecodeError::WrongType(String::from_str("HttpRouteRule"))),
        }
    }

    #[verifier::rlimit(50)]
    fn encode(&self) -> (j: Json)
        ensures
            j.deep_view() == spec_encode_alpha_rule(self.deep_view()),
    {
        let mut obj: Vec<(String, Json)> = Vec::new();
        if let Some(x) = &self.matches {
            obj.push((String::from_str("matches"), x.encode()));
        }
        if let Some(xs) = &self.filters {
            obj.push((String::from_str("filters"), Json::Arr(encode_vec::<HttpRouteFilter>(xs))));
        }
        if let Some(xs) = &self.backend_refs {
            obj.push((String::from_str("backendRefs"), Json::Arr(encode_vec::<HttpBackendRef>(xs))));
        }
        proof {
            broadcast use lemma_json_pair_seq_view;

            reveal_with_fuel(obj_of, 5);
            assert(json_pair_seq_view(obj@) =~= obj_of(alpha_rule_fields(self.deep_view())));
        }
        Json::Obj(obj)
    }

    proof fn lemma_round_trip(b: HttpRouteRuleView)
        ensures
            spec_decode_alpha_rule(spec_encode_alpha_rule(b)) == Ok::<HttpRouteRuleView, ErrorView>(b),
    {
        lemma_alpha_route_literals();
        let fields = alpha_rule_fields(b);
        let keys = alpha_rule_keys();
        assert(fields_distinct(fields));
        assert(fields_within(fields, keys)) by {
            assert forall|i: int| 0 <= i < fields.len() implies keys.contains(
                (#[trigger] fields[i]).0,
            ) by {
                if i == 0 {
                    assert(keys[0] == fields[0].0);
                } else if i == 1 {
                    assert(keys[1] == fields[1].0);
                } else {
                    assert(keys[2] == fields[2].0);
                }
            }
        }
        lemma_obj_of_scan(fields, keys, false);
        lemma_obj_of_field_at(fields, 0);
        lemma_obj_of_field_at(fields, 1);
        lemma_obj_of_field_at(fields, 2);
        if b.matches is Some {
            HttpRouteMatch::lemma_round_trip(b.matches->0);
        }
        if b.filters is Some {
            lemma_seq_round_trip::<HttpRouteFilter>(b.filters->0);
        }
        if b.backend_refs is Some {
            lemma_seq_round_trip::<HttpBackendRef>(b.backend_refs->0);
        }
    }
    }

} // verus!

verus! {

/// The mathematical shape of an [`HttpRouteSpec`].
pub struct HttpRouteSpecView {
    pub inner: CommonRouteSpecView,
    pub hostnames: Option<Seq<Seq<char>>>,
    pub rules: Option<Seq<HttpRouteRuleView>>,
    }

impl DeepView for HttpRouteSpec {
    type V = HttpRouteSpecView;

    open spec fn deep_view(&self) -> HttpRouteSpecView {
        HttpRouteSpecView {
            inner: self.inner.deep_view(),
            hostnames: self.hostnames.deep_view(),
            rules: self.rules.deep_view(),
        }
    }
    }

pub open spec fn alpha_spec_keys() -> Seq<Seq<char>> {
    seq!["parentRefs"@, "hostnames"@, "rules"@]
    }

/// What decoding an HTTPRoute spec yields: every field optional, with
/// the common route fields read flat.
pub open spec fn spec_decode_alpha_spec(v: JsonView) -> Result<HttpRouteSpecView, ErrorView> {
    match v {
        JsonView::Obj(pairs) => match spec_scan(pairs, alpha_spec_keys(), false) {
            Some(e) => Err(e),
            None => match spec_opt_list::<ParentReference>(
                spec_field(pairs, "parentRefs"@),
                "parentRefs"@,
            ) {
                Err(e) => Err(e),
                Ok(parent_refs) => match spec_opt_list::<String>(
                    spec_field(pairs, "hostnames"@),
                    "hostnames"@,
                ) {
                    Err(e) => Err(e),
                    Ok(hostnames) => match spec_opt_list::<HttpRouteRule>(
                        spec_field(pairs, "rules"@),
                        "rules"@,
                    ) {
                        Err(e) => Err(e),
                        Ok(rules) => Ok(
                            HttpRouteSpecView {
                                inner: CommonRouteSpecView { parent_refs },
                                hostnames,
                                rules,
                            },
                        ),
                    },
                },
            },
        },
        _ => Err(ErrorView::WrongType("HttpRouteSpec"@)),
    }
    }

pub open spec fn alpha_spec_fields(s: HttpRouteSpecView) -> Seq<(Seq<char>, Option<JsonView>)> {
    seq![
        ("parentRefs"@, list_entry::<ParentReference>(s.inner.parent_refs)),
        ("hostnames"@, list_entry::<String>(s.hostnames)),
        ("rules"@, list_entry::<HttpRouteRule>(s.rules)),
    ]
    }

pub open spec fn spec_encode_alpha_spec(s: HttpRouteSpecView) -> JsonView {
    JsonView::Obj(obj_of(alpha_spec_fields(s)))
    }

fn alpha_spec_keys_exec() -> (r: Vec<String>)
    ensures
        r.deep_view() == alpha_spec_keys(),
        keys_distinct(alpha_spec_keys()),
{
    let r = vec![
        String::from_str("parentRefs"),
        String::from_str("hostnames"),
        String::from_str("rules"),
    ];
    proof {
        lemma_alpha_route_literals();
        assert(r.deep_view() =~= alpha_spec_keys());
    }
    r
    }

impl Codec for HttpRouteSpec {
    open spec fn spec_decode(v: JsonView) -> Result<HttpRouteSpecView, ErrorView> {
        spec_decode_alpha_spec(v)
    }

    open spec fn spec_encode(s: HttpRouteSpecView) -> JsonView {
        spec_encode_alpha_spec(s)
    }

    open spec fn wf(s: HttpRouteSpecView) -> bool {
        true
    }

    fn decode(j: &Json) -> (r: Result<Self, DecodeError>)
        ensures
            res_view(r) == spec_decode_alpha_spec(j.deep_view()),
    {
        match j {
            Json::Obj(pairs) => {
                let ghost kv = alpha_spec_keys();
                let keys = alpha_spec_keys_exec();
                let slots = match lookup_fields(pairs, &keys, false) {
                    Ok(s) => s,
                    Err(e) => {
                        return Err(e);
                    },
                };
                proof {
                    assert(kv[0] == "parentRefs"@);
                    assert(kv[1] == "hostnames"@);
                    assert(kv[2] == "rules"@);
                }
                let parent_refs = match opt_list_field::<ParentReference>(
                    slot_value(pairs, &slots, 0, Ghost(kv)),
                    "parentRefs",
                ) {
                    Ok(v) => v,
                    Err(e) => {
                        return Err(e);
                    },
                };
                let hostnames = match opt_list_field::<String>(
                    slot_value(pairs, &slots, 1, Ghost(kv)),
                    "hostnames",
                ) {
                    Ok(v) => v,
                    Err(e) => {
                        return Err(e);
                    },
                };
                let rules = match opt_list_field::<HttpRouteRule>(
                    slot_value(pairs, &slots, 2, Ghost(kv)),
                    "rules",
                ) {
                    Ok(v) => v,
                    Err(e) => {
                        return Err(e);
                    },
                };
                Ok(HttpRouteSpec { inner: CommonRouteSpec { parent_refs }, hostnames, rules })
            },
            _ => Err(DecodeError::WrongType(String::from_str("HttpRouteSpec"))),
        }
    }

    fn encode(&self) -> (j: Json)
        ensures
            j.deep_view() == spec_encode_alpha_spec(self.deep_view()),
    {
        let mut obj: Vec<(String, Json)> = Vec::new();
        if let Some(ps) = &self.inner.parent_refs {
            obj.push(
                (String::from_str("parentRefs"), Json::Arr(encode_vec::<ParentReference>(ps))),
            );
        }
        if let Some(hs) = &self.hostnames {
            obj.push((String::from_str("hostnames"), Json::Arr(encode_vec::<String>(hs))));
        }
        if let Some(rs) = &self.rules {
            obj.push((String::from_str("rules"), Json::Arr(encode_vec::<HttpRouteRule>(rs))));
        }
        proof {
            broadcast use lemma_json_pair_seq_view;

            reveal_with_fuel(obj_of, 5);
            assert(json_pair_seq_view(obj@) =~= obj_of(alpha_spec_fields(self.deep_view())));
        }
        Json::Obj(obj)
    }

    proof fn lemma_round_trip(s: HttpRouteSpecView)
        ensures
            spec_decode_alpha_spec(spec_encode_alpha_spec(s)) == Ok::<HttpRouteSpecView, ErrorView>(
                s,
            ),
    {
        lemma_alpha_route_literals();
        let fields = alpha_spec_fields(s);
        let keys = alpha_spec_keys();
        assert(fields_distinct(fields));
        assert(fields_within(fields, keys)) by {
            assert forall|i: int| 0 <= i < fields.len() implies keys.contains(
                (#[trigger] fields[i]).0,
            ) by {
                if i == 0 {
                    assert(keys[0] == fields[0].0);
                } else if i == 1 {
                    assert(keys[1] == fields[1].0);
                } else {
                    assert(keys[2] == fields[2].0);
                }
            }
        }
        lemma_obj_of_scan(fields, keys, false);
        lemma_obj_of_field_at(fields, 0);
        lemma_obj_of_field_at(fields, 1);
        lemma_obj_of_field_at(fields, 2);
        if s.inner.parent_refs is Some {
            lemma_seq_round_trip::<ParentReference>(s.inner.parent_refs->0);
        }
        if s.hostnames is Some {
            lemma_seq_round_trip::<String>(s.hostnames->0);
        }
        if s.rules is Some {
            lemma_seq_round_trip::<HttpRouteRule>(s.rules->0);
        }
    }
    }

/// The mathematical shape of an [`HttpRouteStatus`].
pub struct HttpRouteStatusView {
    pub inner: crate::shared::RouteStatusView,
    }

impl DeepView for HttpRouteStatus {
    type V = HttpRouteStatusView;

    open spec fn deep_view(&self) -> HttpRouteStatusView {
        HttpRouteStatusView { inner: self.inner.deep_view() }
    }
    }

impl Codec for HttpRouteStatus {
    open spec fn spec_decode(v: JsonView) -> Result<HttpRouteStatusView, ErrorView> {
        match crate::shared::spec_decode_route_status(v) {
            Ok(inner) => Ok(HttpRouteStatusView { inner }),
            Err(e) => Err(e),
        }
    }

    open spec fn spec_encode(s: HttpRouteStatusView) -> JsonView {
        crate::shared::spec_encode_route_status(s.inner)
    }

    open spec fn wf(s: HttpRouteStatusView) -> bool {
        true
    }

    fn decode(j: &Json) -> (r: Result<Self, DecodeError>)
        ensures
            res_view(r) == Self::spec_decode(j.deep_view()),
    {
        match RouteStatus::decode(j) {
            Ok(inner) => Ok(HttpRouteStatus { inner }),
            Err(e) => Err(e),
        }
    }

    fn encode(&self) -> (j: Json)
        ensures
            j.deep_view() == Self::spec_encode(self.deep_view()),
    {
        self.inner.encode()
    }

    proof fn lemma_round_trip(s: HttpRouteStatusView)
        ensures
            Self::spec_decode(Self::spec_encode(s)) == Ok::<HttpRouteStatusView, ErrorView>(s),
    {
        RouteStatus::lemma_round_trip(s.inner);
    }
    }

} // verus!
