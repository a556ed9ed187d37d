//! v1alpha2 TLSRoute.

use vstd::prelude::*;

use crate::shared::{
    BackendRef, BackendRefView, CommonRouteSpec, CommonRouteSpecView, ParentReference,
    RouteStatus,
};
use crate::wire::{
    Codec, DecodeError, ErrorView, Json, JsonView, encode_vec, fields_distinct, fields_within,
    json_pair_seq_view, keys_distinct, lemma_json_pair_seq_view, lemma_obj_of_field_at,
    lemma_obj_of_scan, lemma_seq_round_trip, list_entry, lookup_fields, obj_of, opt_list_field,
    req_list_field, res_view, slot_value, spec_field, spec_opt_list, spec_req_list, spec_scan,
};

verus! {

/// One rule of a TLSRoute: where matching streams are forwarded.
#[derive(Clone, Debug, PartialEq)]
pub struct TlsRouteRule {
    /// The backends streams are forwarded to.
    pub backend_refs: Vec<BackendRef>,
}

/// The mathematical shape of a [`TlsRouteRule`].
pub struct TlsRouteRuleView {
    pub backend_refs: Seq<BackendRefView>,
}

impl DeepView for TlsRouteRule {
    type V = TlsRouteRuleView;

    open spec fn deep_view(&self) -> TlsRouteRuleView {
        TlsRouteRuleView { backend_refs: self.backend_refs.deep_view() }
    }
}

pub open spec fn tls_rule_keys() -> Seq<Seq<char>> {
    seq!["backendRefs"@]
}

/// What decoding a TLS route rule yields: a required backend list.
pub open spec fn spec_decode_tls_rule(v: JsonView) -> Result<TlsRouteRuleView, ErrorView> {
    match v {
        JsonView::Obj(pairs) => match spec_scan(pairs, tls_rule_keys(), false) {
            Some(e) => Err(e),
            None => match spec_req_list::<BackendRef>(
                spec_field(pairs, "backendRefs"@),
                "backendRefs"@,
            ) {
                Err(e) => Err(e),
                Ok(backend_refs) => Ok(TlsRouteRuleView { backend_refs }),
            },
        },
        _ => Err(ErrorView::WrongType("TlsRouteRule"@)),
    }
}

pub open spec fn tls_rule_fields(r: TlsRouteRuleView) -> Seq<(Seq<char>, Option<JsonView>)> {
    seq![
        (
            "backendRefs"@,
            Some(JsonView::Arr(crate::wire::spec_encode_seq::<BackendRef>(r.backend_refs))),
        ),
    ]
}

pub open spec fn spec_encode_tls_rule(r: TlsRouteRuleView) -> JsonView {
    JsonView::Obj(obj_of(tls_rule_fields(r)))
}

fn tls_rule_keys_exec() -> (r: Vec<String>)
    ensures
        r.deep_view() == tls_rule_keys(),
        keys_distinct(tls_rule_keys()),
{
    let r = vec![String::from_str("backendRefs")];
    proof {
        assert(r.deep_view() =~= tls_rule_keys());
    }
    r
}

impl Codec for TlsRouteRule {
    open spec fn spec_decode(v: JsonView) -> Result<TlsRouteRuleView, ErrorView> {
        spec_decode_tls_rule(v)
    }

    open spec fn spec_encode(r: TlsRouteRuleView) -> JsonView {
        spec_encode_tls_rule(r)
    }

    open spec fn wf(r: TlsRouteRuleView) -> bool {
        true
    }

    fn decode(j: &Json) -> (r: Result<Self, DecodeError>)
        ensures
            res_view(r) == spec_decode_tls_rule(j.deep_view()),
    {
        match j {
            Json::Obj(pairs) => {
                let ghost kv = tls_rule_keys();
                let keys = tls_rule_keys_exec();
                let slots = match lookup_fields(pairs, &keys, false) {
                    Ok(s) => s,
                    Err(e) => {
                        return Err(e);
                    },
                };
                proof {
                    assert(kv[0] == "backendRefs"@);
                }
                let backend_refs = match req_list_field::<BackendRef>(
                    slot_value(pairs, &slots, 0, Ghost(kv)),
                    "backendRefs",
                ) {
                    Ok(v) => v,
                    Err(e) => {
                        return Err(e);
                    },
                };
                Ok(TlsRouteRule { backend_refs })
            },
            _ => Err(DecodeError::WrongType(String::from_str("TlsRouteRule"))),
        }
    }

    fn encode(&self) -> (j: Json)
        ensures
            j.deep_view() == spec_encode_tls_rule(self.deep_view()),
    {
        let mut obj: Vec<(String, Json)> = Vec::new();
        obj.push(
            (String::from_str("backendRefs"), Json::Arr(encode_vec::<BackendRef>(&self.backend_refs))),
        );
        proof {
            broadcast use lemma_json_pair_seq_view;

            reveal_with_fuel(obj_of, 3);
            assert(json_pair_seq_view(obj@) =~= obj_of(tls_rule_fields(self.deep_view())));
        }
        Json::Obj(obj)
    }

    proof fn lemma_round_trip(r: TlsRouteRuleView)
        ensures
            spec_decode_tls_rule(spec_encode_tls_rule(r)) == Ok::<TlsRouteRuleView, ErrorView>(r),
    {
        let fields = tls_rule_fields(r);
        let keys = tls_rule_keys();
        assert(fields_distinct(fields));
        assert(fields_within(fields, keys)) by {
            assert forall|i: int| 0 <= i < fields.len() implies keys.contains(
                (#[trigger] fields[i]).0,
            ) by {
                assert(keys[0] == fields[0].0);
            }
        }
        lemma_obj_of_scan(fields, keys, false);
        lemma_obj_of_field_at(fields, 0);
        lemma_seq_round_trip::<BackendRef>(r.backend_refs);
    }
}

/// The desired state of a TLSRoute: the parents it attaches to, the
/// SNI names it serves, and its rules. On the wire the common route
/// fields sit flat in this document.
#[derive(Clone, Debug, PartialEq)]
pub struct TlsRouteSpec {
    /// Common route information: the parents this route attaches to.
    pub inner: CommonRouteSpec,
    /// SNI names matched against the TLS ClientHello.
    pub hostnames: Vec<crate::shared::Hostname>,
    /// The route's rules.
    pub rules: Vec<TlsRouteRule>,
}

/// The mathematical shape of a [`TlsRouteSpec`].
pub struct TlsRouteSpecView {
    pub inner: CommonRouteSpecView,
    pub hostnames: Seq<Seq<char>>,
    pub rules: Seq<TlsRouteRuleView>,
}

impl DeepView for TlsRouteSpec {
    type V = TlsRouteSpecView;

    open spec fn deep_view(&self) -> TlsRouteSpecView {
        TlsRouteSpecView {
            inner: self.inner.deep_view(),
            hostnames: self.hostnames.deep_view(),
            rules: self.rules.deep_view(),
        }
    }
}

pub open spec fn tls_route_spec_keys() -> Seq<Seq<char>> {
    seq!["parentRefs"@, "hostnames"@, "rules"@]
}

/// What decoding a TLSRoute spec yields: optional parents read flat,
/// and a required rule list.
pub open spec fn spec_decode_tls_route_spec(v: JsonView) -> Result<TlsRouteSpecView, ErrorView> {
    match v {
        JsonView::Obj(pairs) => match spec_scan(pairs, tls_route_spec_keys(), false) {
            Some(e) => Err(e),
            None => match spec_opt_list::<ParentReference>(
                spec_field(pairs, "parentRefs"@),
                "parentRefs"@,
            ) {
                Err(e) => Err(e),
                Ok(parent_refs) => match spec_req_list::<String>(
                    spec_field(pairs, "hostnames"@),
                    "hostnames"@,
                ) {
                    Err(e) => Err(e),
                    Ok(hostnames) => match spec_req_list::<TlsRouteRule>(
                        spec_field(pairs, "rules"@),
                        "rules"@,
                    ) {
                        Err(e) => Err(e),
                        Ok(rules) => Ok(
                            TlsRouteSpecView {
                                inner: CommonRouteSpecView { parent_refs },
                                hostnames,
                                rules,
                            },
                        ),
                    },
                },
            },
        },
        _ => Err(ErrorView::WrongType("TlsRouteSpec"@)),
    }
}

pub open spec fn tls_route_spec_fields(s: TlsRouteSpecView) -> Seq<(Seq<char>, Option<JsonView>)> {
    seq![
        ("parentRefs"@, list_entry::<ParentReference>(s.inner.parent_refs)),
        ("hostnames"@, Some(JsonView::Arr(crate::wire::spec_encode_seq::<String>(s.hostnames)))),
        ("rules"@, Some(JsonView::Arr(crate::wire::spec_encode_seq::<TlsRouteRule>(s.rules)))),
    ]
}

pub open spec fn spec_encode_tls_route_spec(s: TlsRouteSpecView) -> JsonView {
    JsonView::Obj(obj_of(tls_route_spec_fields(s)))
}

proof fn lemma_tls_route_spec_literals()
    ensures
        keys_distinct(tls_route_spec_keys()),
{
    reveal_strlit("parentRefs");
    reveal_strlit("hostnames");
    reveal_strlit("rules");
    assert("parentRefs"@.len() == 10);
    assert("hostnames"@.len() == 9);
    assert("rules"@.len() == 5);
    let keys = tls_route_spec_keys();
    assert forall|i: int, j: int| 0 <= i < j < keys.len() implies keys[i] != keys[j] by {
        assert(keys[0] != keys[1]);
        assert(keys[0] != keys[2]);
        assert(keys[1] != keys[2]);
    }
}

fn tls_route_spec_keys_exec() -> (r: Vec<String>)
    ensures
        r.deep_view() == tls_route_spec_keys(),
        keys_distinct(tls_route_spec_keys()),
{
    let r = vec![
        String::from_str("parentRefs"),
        String::from_str("hostnames"),
        String::from_str("rules"),
    ];
    proof {
        lemma_tls_route_spec_literals();
        assert(r.deep_view() =~= tls_route_spec_keys());
    }
    r
}

impl Codec for TlsRouteSpec {
    open spec fn spec_decode(v: JsonView) -> Result<TlsRouteSpecView, ErrorView> {
        spec_decode_tls_route_spec(v)
    }

    open spec fn spec_encode(s: TlsRouteSpecView) -> JsonView {
        spec_encode_tls_route_spec(s)
    }

    open spec fn wf(s: TlsRouteSpecView) -> bool {
        true
    }

    fn decode(j: &Json) -> (r: Result<Self, DecodeError>)
        ensures
            res_view(r) == spec_decode_tls_route_spec(j.deep_view()),
    {
        match j {
            Json::Obj(pairs) => {
                let ghost kv = tls_route_spec_keys();
                let keys = tls_route_spec_keys_exec();
                let slots = match lookup_fields(pairs, &keys, false) {
                    Ok(s) => s,
                    Err(e) => {
                        return Err(e);
                    },
                };
                proof {
                    assert(kv[0] == "parentRefs"@);
                    assert(kv[1] == "hostnames"@);
                    assert(kv[2] == "rules"@);
                }
                let parent_refs = match opt_list_field::<ParentReference>(
                    slot_value(pairs, &slots, 0, Ghost(kv)),
                    "parentRefs",
                ) {
                    Ok(v) => v,
                    Err(e) => {
                        return Err(e);
                    },
                };
                let hostnames = match req_list_field::<String>(
                    slot_value(pairs, &slots, 1, Ghost(kv)),
                    "hostnames",
                ) {
                    Ok(v) => v,
                    Err(e) => {
                        return Err(e);
                    },
                };
                let rules = match req_list_field::<TlsRouteRule>(
                    slot_value(pairs, &slots, 2, Ghost(kv)),
                    "rules",
                ) {
                    Ok(v) => v,
                    Err(e) => {
                        return Err(e);
                    },
                };
                Ok(TlsRouteSpec { inner: CommonRouteSpec { parent_refs }, hostnames, rules })
            },
            _ => Err(DecodeError::WrongType(String::from_str("TlsRouteSpec"))),
        }
    }

    fn encode(&self) -> (j: Json)
        ensures
            j.deep_view() == spec_encode_tls_route_spec(self.deep_view()),
    {
        let mut obj: Vec<(String, Json)> = Vec::new();
        if let Some(ps) = &self.inner.parent_refs {
            obj.push(
                (String::from_str("parentRefs"), Json::Arr(encode_vec::<ParentReference>(ps))),
            );
        }
        obj.push(
            (String::from_str("hostnames"), Json::Arr(encode_vec::<String>(&self.hostnames))),
        );
        obj.push((String::from_str("rules"), Json::Arr(encode_vec::<TlsRouteRule>(&self.rules))));
        proof {
            broadcast use lemma_json_pair_seq_view;

            reveal_with_fuel(obj_of, 5);
            assert(json_pair_seq_view(obj@) =~= obj_of(tls_route_spec_fields(self.deep_view())));
        }
        Json::Obj(obj)
    }

    proof fn lemma_round_trip(s: TlsRouteSpecView)
        ensures
            spec_decode_tls_route_spec(spec_encode_tls_route_spec(s)) == Ok::<
                TlsRouteSpecView,
                ErrorView,
            >(s),
    {
        lemma_tls_route_spec_literals();
        let fields = tls_route_spec_fields(s);
        let keys = tls_route_spec_keys();
        assert(fields_distinct(fields));
        assert(fields_within(fields, keys)) by {
            assert forall|i: int| 0 <= i < fields.len() implies keys.contains(
                (#[trigger] fields[i]).0,
            ) by {
                if i == 0 {
                    assert(keys[0] == fields[0].0);
                } else if i == 1 {
                    assert(keys[1] == fields[1].0);
                } else {
                    assert(keys[2] == fields[2].0);
                }
            }
        }
        lemma_obj_of_scan(fields, keys, false);
        lemma_obj_of_field_at(fields, 0);
        lemma_obj_of_field_at(fields, 1);
        lemma_obj_of_field_at(fields, 2);
        if s.inner.parent_refs is Some {
            lemma_seq_round_trip::<ParentReference>(s.inner.parent_refs->0);
        }
        lemma_seq_round_trip::<String>(s.hostnames);
        lemma_seq_round_trip::<TlsRouteRule>(s.rules);
    }
}

/// The observed state of a TLSRoute.
#[derive(Clone, Debug, PartialEq)]
pub struct TlsRouteStatus {
    /// Common route status information.
    pub inner: RouteStatus,
}

} // verus!

verus! {

/// The mathematical shape of a [`TlsRouteStatus`].
pub struct TlsRouteStatusView {
    pub inner: crate::shared::RouteStatusView,
}

impl DeepView for TlsRouteStatus {
    type V = TlsRouteStatusView;

    open spec fn deep_view(&self) -> TlsRouteStatusView {
        TlsRouteStatusView { inner: self.inner.deep_view() }
    }
}

impl Codec for TlsRouteStatus {
    open spec fn spec_decode(v: JsonView) -> Result<TlsRouteStatusView, ErrorView> {
        match crate::shared::spec_decode_route_status(v) {
            Ok(inner) => Ok(TlsRouteStatusView { inner }),
            Err(e) => Err(e),
        }
    }

    open spec fn spec_encode(s: TlsRouteStatusView) -> JsonView {
        crate::shared::spec_encode_route_status(s.inner)
    }

    open spec fn wf(s: TlsRouteStatusView) -> bool {
        true
    }

    fn decode(j: &Json) -> (r: Result<Self, DecodeError>)
        ensures
            res_view(r) == Self::spec_decode(j.deep_view()),
    {
        match RouteStatus::decode(j) {
            Ok(inner) => Ok(TlsRouteStatus { inner }),
            Err(e) => Err(e),
        }
    }

    fn encode(&self) -> (j: Json)
        ensures
            j.deep_view() == Self::spec_encode(self.deep_view()),
    {
        self.inner.encode()
    }

    proof fn lemma_round_trip(s: TlsRouteStatusView)
        ensures
            Self::spec_decode(Self::spec_encode(s)) == Ok::<TlsRouteStatusView, ErrorView>(s),
    {
        RouteStatus::lemma_round_trip(s.inner);
    }
}

} // verus!
