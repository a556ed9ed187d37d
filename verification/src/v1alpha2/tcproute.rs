//! v1alpha2 TCPRoute.

use vstd::prelude::*;

use crate::shared::{
    BackendRef, BackendRefView, CommonRouteSpec, CommonRouteSpecView, ParentReference,
    RouteStatus,
};
use crate::wire::{
    Codec, DecodeError, ErrorView, Json, JsonView, encode_vec, fields_distinct, fields_within,
    json_pair_seq_view, keys_distinct, lemma_json_pair_seq_view, lemma_obj_of_field_at,
    lemma_obj_of_scan, lemma_seq_round_trip, list_entry, lookup_fields, obj_of, opt_list_field,
    req_list_field, res_view, slot_value, spec_field, spec_opt_list, spec_req_list, spec_scan,
};

verus! {

/// One rule of a TCPRoute: where matching connections are forwarded.
#[derive(Clone, Debug, PartialEq)]
pub struct TcpRouteRule {
    /// The backends connections are forwarded to.
    pub backend_refs: Vec<BackendRef>,
}

/// The mathematical shape of a [`TcpRouteRule`].
pub struct TcpRouteRuleView {
    pub backend_refs: Seq<BackendRefView>,
}

impl DeepView for TcpRouteRule {
    type V = TcpRouteRuleView;

    open spec fn deep_view(&self) -> TcpRouteRuleView {
        TcpRouteRuleView { backend_refs: self.backend_refs.deep_view() }
    }
}

pub open spec fn tcp_rule_keys() -> Seq<Seq<char>> {
    seq!["backendRefs"@]
}

/// What decoding a TCP route rule yields: a required backend list.
pub open spec fn spec_decode_tcp_rule(v: JsonView) -> Result<TcpRouteRuleView, ErrorView> {
    match v {
        JsonView::Obj(pairs) => match spec_scan(pairs, tcp_rule_keys(), false) {
            Some(e) => Err(e),
            None => match spec_req_list::<BackendRef>(
                spec_field(pairs, "backendRefs"@),
                "backendRefs"@,
            ) {
                Err(e) => Err(e),
                Ok(backend_refs) => Ok(TcpRouteRuleView { backend_refs }),
            },
        },
        _ => Err(ErrorView::WrongType("TcpRouteRule"@)),
    }
}

pub open spec fn tcp_rule_fields(r: TcpRouteRuleView) -> Seq<(Seq<char>, Option<JsonView>)> {
    seq![
        (
            "backendRefs"@,
            Some(JsonView::Arr(crate::wire::spec_encode_seq::<BackendRef>(r.backend_refs))),
        ),
    ]
}

pub open spec fn spec_encode_tcp_rule(r: TcpRouteRuleView) -> JsonView {
    JsonView::Obj(obj_of(tcp_rule_fields(r)))
}

fn tcp_rule_keys_exec() -> (r: Vec<String>)
    ensures
        r.deep_view() == tcp_rule_keys(),
        keys_distinct(tcp_rule_keys()),
{
    let r = vec![String::from_str("backendRefs")];
    proof {
        assert(r.deep_view() =~= tcp_rule_keys());
    }
    r
}

impl Codec for TcpRouteRule {
    open spec fn spec_decode(v: JsonView) -> Result<TcpRouteRuleView, ErrorView> {
        spec_decode_tcp_rule(v)
    }

    open spec fn spec_encode(r: TcpRouteRuleView) -> JsonView {
        spec_encode_tcp_rule(r)
    }

    open spec fn wf(r: TcpRouteRuleView) -> bool {
        true
    }

    fn decode(j: &Json) -> (r: Result<Self, DecodeError>)
        ensures
            res_view(r) == spec_decode_tcp_rule(j.deep_view()),
    {
        match j {
            Json::Obj(pairs) => {
                let ghost kv = tcp_rule_keys();
                let keys = tcp_rule_keys_exec();
                let slots = match lookup_fields(pairs, &keys, false) {
                    Ok(s) => s,
                    Err(e) => {
                        return Err(e);
                    },
                };
                proof {
                    assert(kv[0] == "backendRefs"@);
                }
                let backend_refs = match req_list_field::<BackendRef>(
                    slot_value(pairs, &slots, 0, Ghost(kv)),
                    "backendRefs",
                ) {
                    Ok(v) => v,
                    Err(e) => {
                        return Err(e);
                    },
                };
                Ok(TcpRouteRule { backend_refs })
            },
            _ => Err(DecodeError::WrongType(String::from_str("TcpRouteRule"))),
        }
    }

    fn encode(&self) -> (j: Json)
        ensures
            j.deep_view() == spec_encode_tcp_rule(self.deep_view()),
    {
        let mut obj: Vec<(String, Json)> = Vec::new();
        obj.push(
            (String::from_str("backendRefs"), Json::Arr(encode_vec::<BackendRef>(&self.backend_refs))),
        );
        proof {
            broadcast use lemma_json_pair_seq_view;

            reveal_with_fuel(obj_of, 3);
            assert(json_pair_seq_view(obj@) =~= obj_of(tcp_rule_fields(self.deep_view())));
        }
        Json::Obj(obj)
    }

    proof fn lemma_round_trip(r: TcpRouteRuleView)
        ensures
            spec_decode_tcp_rule(spec_encode_tcp_rule(r)) == Ok::<TcpRouteRuleView, ErrorView>(r),
    {
        let fields = tcp_rule_fields(r);
        let keys = tcp_rule_keys();
        assert(fields_distinct(fields));
        assert(fields_within(fields, keys)) by {
            assert forall|i: int| 0 <= i < fields.len() implies keys.contains(
                (#[trigger] fields[i]).0,
            ) by {
                assert(keys[0] == fields[0].0);
            }
        }
        lemma_obj_of_scan(fields, keys, false);
        lemma_obj_of_field_at(fields, 0);
        lemma_seq_round_trip::<BackendRef>(r.backend_refs);
    }
}

/// The desired state of a TCPRoute: the parents it attaches to and its
/// rules. On the wire the common route fields sit flat in this
/// document.
#[derive(Clone, Debug, PartialEq)]
pub struct TcpRouteSpec {
    /// Common route information: the parents this route attaches to.
    pub inner: CommonRouteSpec,
    /// The route's rules.
    pub rules: Vec<TcpRouteRule>,
}

/// The mathematical shape of a [`TcpRouteSpec`].
pub struct TcpRouteSpecView {
    pub inner: CommonRouteSpecView,
    pub rules: Seq<TcpRouteRuleView>,
}

impl DeepView for TcpRouteSpec {
    type V = TcpRouteSpecView;

    open spec fn deep_view(&self) -> TcpRouteSpecView {
        TcpRouteSpecView { inner: self.inner.deep_view(), rules: self.rules.deep_view() }
    }
}

pub open spec fn tcp_route_spec_keys() -> Seq<Seq<char>> {
    seq!["parentRefs"@, "rules"@]
}

/// What decoding a TCPRoute spec yields: optional parents read flat,
/// and a required rule list.
pub open spec fn spec_decode_tcp_route_spec(v: JsonView) -> Result<TcpRouteSpecView, ErrorView> {
    match v {
        JsonView::Obj(pairs) => match spec_scan(pairs, tcp_route_spec_keys(), false) {
            Some(e) => Err(e),
            None => match spec_opt_list::<ParentReference>(
                spec_field(pairs, "parentRefs"@),
                "parentRefs"@,
            ) {
                Err(e) => Err(e),
                Ok(parent_refs) => match spec_req_list::<TcpRouteRule>(
                    spec_field(pairs, "rules"@),
                    "rules"@,
                ) {
                    Err(e) => Err(e),
                    Ok(rules) => Ok(
                        TcpRouteSpecView { inner: CommonRouteSpecView { parent_refs }, rules },
                    ),
                },
            },
        },
        _ => Err(ErrorView::WrongType("TcpRouteSpec"@)),
    }
}

pub open spec fn tcp_route_spec_fields(s: TcpRouteSpecView) -> Seq<(Seq<char>, Option<JsonView>)> {
    seq![
        ("parentRefs"@, list_entry::<ParentReference>(s.inner.parent_refs)),
        ("rules"@, Some(JsonView::Arr(crate::wire::spec_encode_seq::<TcpRouteRule>(s.rules)))),
    ]
}

pub open spec fn spec_encode_tcp_route_spec(s: TcpRouteSpecView) -> JsonView {
    JsonView::Obj(obj_of(tcp_route_spec_fields(s)))
}

proof fn lemma_tcp_route_spec_literals()
    ensures
        keys_distinct(tcp_route_spec_keys()),
{
    reveal_strlit("parentRefs");
    reveal_strlit("rules");
    assert("parentRefs"@.len() == 10);
    assert("rules"@.len() == 5);
    let keys = tcp_route_spec_keys();
    assert forall|i: int, j: int| 0 <= i < j < keys.len() implies keys[i] != keys[j] by {
        assert(keys[0] != keys[1]);
    }
}

fn tcp_route_spec_keys_exec() -> (r: Vec<String>)
    ensures
        r.deep_view() == tcp_route_spec_keys(),
        keys_distinct(tcp_route_spec_keys()),
{
    let r = vec![String::from_str("parentRefs"), String::from_str("rules")];
    proof {
        lemma_tcp_route_spec_literals();
        assert(r.deep_view() =~= tcp_route_spec_keys());
    }
    r
}

impl Codec for TcpRouteSpec {
    open spec fn spec_decode(v: JsonView) -> Result<TcpRouteSpecView, ErrorView> {
        spec_decode_tcp_route_spec(v)
    }

    open spec fn spec_encode(s: TcpRouteSpecView) -> JsonView {
        spec_encode_tcp_route_spec(s)
    }

    open spec fn wf(s: TcpRouteSpecView) -> bool {
        true
    }

    fn decode(j: &Json) -> (r: Result<Self, DecodeError>)
        ensures
            res_view(r) == spec_decode_tcp_route_spec(j.deep_view()),
    {
        match j {
            Json::Obj(pairs) => {
                let ghost kv = tcp_route_spec_keys();
                let keys = tcp_route_spec_keys_exec();
                let slots = match lookup_fields(pairs, &keys, false) {
                    Ok(s) => s,
                    Err(e) => {
                        return Err(e);
                    },
                };
                proof {
                    assert(kv[0] == "parentRefs"@);
                    assert(kv[1] == "rules"@);
                }
                let parent_refs = match opt_list_field::<ParentReference>(
                    slot_value(pairs, &slots, 0, Ghost(kv)),
                    "parentRefs",
                ) {
                    Ok(v) => v,
                    Err(e) => {
                        return Err(e);
                    },
                };
                let rules = match req_list_field::<TcpRouteRule>(
                    slot_value(pairs, &slots, 1, Ghost(kv)),
                    "rules",
                ) {
                    Ok(v) => v,
                    Err(e) => {
                        return Err(e);
                    },
                };
                Ok(TcpRouteSpec { inner: CommonRouteSpec { parent_refs }, rules })
            },
            _ => Err(DecodeError::WrongType(String::from_str("TcpRouteSpec"))),
        }
    }

    fn encode(&self) -> (j: Json)
        ensures
            j.deep_view() == spec_encode_tcp_route_spec(self.deep_view()),
    {
        let mut obj: Vec<(String, Json)> = Vec::new();
        if let Some(ps) = &self.inner.parent_refs {
            obj.push(
                (String::from_str("parentRefs"), Json::Arr(encode_vec::<ParentReference>(ps))),
            );
        }
        obj.push((String::from_str("rules"), Json::Arr(encode_vec::<TcpRouteRule>(&self.rules))));
        proof {
            broadcast use lemma_json_pair_seq_view;

            reveal_with_fuel(obj_of, 4);
            assert(json_pair_seq_view(obj@) =~= obj_of(tcp_route_spec_fields(self.deep_view())));
        }
        Json::Obj(obj)
    }

    proof fn lemma_round_trip(s: TcpRouteSpecView)
        ensures
            spec_decode_tcp_route_spec(spec_encode_tcp_route_spec(s)) == Ok::<
                TcpRouteSpecView,
                ErrorView,
            >(s),
    {
        lemma_tcp_route_spec_literals();
        let fields = tcp_route_spec_fields(s);
        let keys = tcp_route_spec_keys();
        assert(fields_distinct(fields));
        assert(fields_within(fields, keys)) by {
            assert forall|i: int| 0 <= i < fields.len() implies keys.contains(
                (#[trigger] fields[i]).0,
            ) by {
                if i == 0 {
                    assert(keys[0] == fields[0].0);
                } else {
                    assert(keys[1] == fields[1].0);
                }
            }
        }
        lemma_obj_of_scan(fields, keys, false);
        lemma_obj_of_field_at(fields, 0);
        lemma_obj_of_field_at(fields, 1);
        if s.inner.parent_refs is Some {
            lemma_seq_round_trip::<ParentReference>(s.inner.parent_refs->0);
        }
        lemma_seq_round_trip::<TcpRouteRule>(s.rules);
    }
}

/// The observed state of a TCPRoute.
#[derive(Clone, Debug, PartialEq)]
pub struct TcpRouteStatus {
    /// Common route status information.
    pub inner: RouteStatus,
}

} // verus!

verus! {

/// The mathematical shape of a [`TcpRouteStatus`].
pub struct TcpRouteStatusView {
    pub inner: crate::shared::RouteStatusView,
}

impl DeepView for TcpRouteStatus {
    type V = TcpRouteStatusView;

    open spec fn deep_view(&self) -> TcpRouteStatusView {
        TcpRouteStatusView { inner: self.inner.deep_view() }
    }
}

impl Codec for TcpRouteStatus {
    open spec fn spec_decode(v: JsonView) -> Result<TcpRouteStatusView, ErrorView> {
        match crate::shared::spec_decode_route_status(v) {
            Ok(inner) => Ok(TcpRouteStatusView { inner }),
            Err(e) => Err(e),
        }
    }

    open spec fn spec_encode(s: TcpRouteStatusView) -> JsonView {
        crate::shared::spec_encode_route_status(s.inner)
    }

    open spec fn wf(s: TcpRouteStatusView) -> bool {
        true
    }

    fn decode(j: &Json) -> (r: Result<Self, DecodeError>)
        ensures
            res_view(r) == Self::spec_decode(j.deep_view()),
    {
        match RouteStatus::decode(j) {
            Ok(inner) => Ok(TcpRouteStatus { inner }),
            Err(e) => Err(e),
        }
    }

    fn encode(&self) -> (j: Json)
        ensures
            j.deep_view() == Self::spec_encode(self.deep_view()),
    {
        self.inner.encode()
    }

    proof fn lemma_round_trip(s: TcpRouteStatusView)
        ensures
            Self::spec_decode(Self::spec_encode(s)) == Ok::<TcpRouteStatusView, ErrorView>(s),
    {
        RouteStatus::lemma_round_trip(s.inner);
    }
}

} // verus!
