//! The Gateway resource: listeners bound to addresses, the entry point
//! for traffic.

use vstd::prelude::*;

use crate::object_reference::{SecretObjectReference, SecretObjectReferenceView};
use crate::shared::{
    AddressType, AnnotationKey, AnnotationValue, Condition, ConditionView, Hostname,
    LabelSelector, LabelSelectorView, ObjectName, PortNumber, SectionName,
};
use crate::wire::{
    Codec, DecodeError, ErrorView, Json, JsonView, encode_str_map, encode_vec, fields_distinct,
    fields_within, json_pair_seq_view, keys_distinct, lemma_json_pair_seq_view,
    lemma_obj_of_field_at, lemma_obj_of_scan, lemma_seq_round_trip, lemma_str_map_round_trip,
    list_entry, lookup_fields, obj_of, opt_list_field, opt_str_field, opt_str_map_field,
    opt_val_field, req_list_field, req_str_field, req_u16_field, res_view,
    slot_value, spec_encode_seq, spec_field, spec_opt_list, spec_opt_str, spec_opt_str_map,
    spec_opt_val, spec_req_list, spec_req_str, spec_req_u16, spec_scan, str_entry, str_map_entry,
    val_entry,
};

verus! {

/// ProtocolType defines the application protocol a listener accepts,
/// such as `"HTTP"` or a domain-prefixed implementation-specific name.
pub type ProtocolType = String;

/// TLSModeType defines how a Gateway handles TLS sessions:
/// `"Terminate"` or `"Passthrough"`.
pub type TlsModeType = String;

/// FromNamespaces says which namespaces routes may be attached from:
/// `"All"`, `"Selector"`, or `"Same"`.
pub type FromNamespaces = String;

/// GatewayConditionType is a type of condition for a Gateway.
pub type GatewayConditionType = String;

/// GatewayConditionReason is a reason for a Gateway condition.
pub type GatewayConditionReason = String;

/// ListenerConditionType is a type of condition for a listener.
pub type ListenerConditionType = String;

/// ListenerConditionReason is a reason for a listener condition.
pub type ListenerConditionReason = String;

/// GatewayTLSConfig describes a listener's TLS configuration. The
/// options pairs are a key-unique map written as a list.
#[derive(Clone, Debug, Default, PartialEq)]
pub struct GatewayTlsConfig {
    /// TLS behavior for sessions: terminate here or pass through.
    pub mode: Option<TlsModeType>,
    /// Certificates for terminating the handshake; at least one is
    /// required when the mode is `"Terminate"`.
    pub certificate_refs: Option<Vec<SecretObjectReference>>,
    /// Implementation-specific TLS options, each key given once.
    pub options: Option<Vec<(AnnotationKey, AnnotationValue)>>,
}

/// RouteNamespaces indicates which namespaces routes are selected from.
#[derive(Clone, Debug, PartialEq)]
pub struct RouteNamespaces {
    /// Where routes are selected from.
    pub from: Option<FromNamespaces>,
    /// The namespace selector, read when `from` is `"Selector"`.
    pub selector: Option<LabelSelector>,
}

/// RouteGroupKind names the group and kind of a route resource.
#[derive(Clone, Debug, PartialEq)]
pub struct RouteGroupKind {
    /// Group of the route.
    pub group: Option<String>,
    /// Kind of the route.
    pub kind: String,
}

/// AllowedRoutes defines which routes may be attached to a listener.
#[derive(Clone, Debug, PartialEq)]
pub struct AllowedRoutes {
    /// Namespaces routes may be attached from; this Gateway's namespace
    /// by default.
    pub namespaces: Option<RouteNamespaces>,
    /// The kinds of routes allowed to bind; derived from the protocol
    /// when unspecified.
    pub kinds: Option<Vec<RouteGroupKind>>,
}

/// Listener embodies a logical endpoint where a Gateway accepts
/// network connections.
#[derive(Clone, Debug, PartialEq)]
pub struct Listener {
    /// Name of the listener, unique within the Gateway.
    pub name: String,
    /// The virtual hostname to match, for protocols that define one.
    pub hostname: Option<Hostname>,
    /// The network port.
    pub port: PortNumber,
    /// The protocol this listener expects.
    pub protocol: ProtocolType,
    /// TLS configuration; required for `"HTTPS"` and `"TLS"`, invalid
    /// for `"HTTP"`, `"TCP"`, and `"UDP"`.
    pub tls: Option<GatewayTlsConfig>,
    /// The routes that may be attached to this listener.
    pub allowed_routes: Option<AllowedRoutes>,
}

impl Listener {
    /// A TLS-terminating protocol must carry a TLS configuration.
    pub open spec fn tls_present_when_needed(&self) -> bool {
        (self.protocol@ == "HTTPS"@ || self.protocol@ == "TLS"@) ==> self.tls is Some
    }
}

/// GatewayAddress describes an address bound to a Gateway.
#[derive(Clone, Debug, PartialEq)]
pub struct GatewayAddress {
    /// Type of the address.
    pub type_: Option<AddressType>,
    /// Value of the address, such as an IP address or hostname.
    pub value: String,
}

/// GatewayInfrastructure defines infrastructure-level attributes of a
/// Gateway. The pairs of each list are a key-unique map written as a
/// list.
#[derive(Clone, Debug, PartialEq)]
pub struct GatewayInfrastructure {
    /// Labels applied to resources created for this Gateway.
    pub labels: Option<Vec<(AnnotationKey, AnnotationValue)>>,
    /// Annotations applied to resources created for this Gateway.
    pub annotations: Option<Vec<(AnnotationKey, AnnotationValue)>>,
}

/// The desired state of a Gateway.
#[derive(Clone, Debug, PartialEq)]
pub struct GatewaySpec {
    /// Name of the GatewayClass this Gateway is created from.
    pub gateway_class_name: ObjectName,
    /// The listeners bound on this Gateway's addresses; at least one,
    /// each distinct in port, protocol, and hostname.
    pub listeners: Vec<Listener>,
    /// Addresses requested for this Gateway.
    pub addresses: Option<Vec<GatewayAddress>>,
    /// Infrastructure attributes of this Gateway.
    pub infrastructure: Option<GatewayInfrastructure>,
}

impl GatewaySpec {
    /// At least one listener, each uniquely named within the Gateway.
    pub open spec fn listeners_well_formed(&self) -> bool {
        &&& self.listeners@.len() > 0
        &&& forall|i: int, j: int|
            0 <= i < j < self.listeners@.len() ==> self.listeners@[i].name@
                != self.listeners@[j].name@
    }
}

/// ListenerStatus is the status of one listener.
#[derive(Clone, Debug, PartialEq)]
pub struct ListenerStatus {
    /// Name of the listener this status is for.
    pub name: SectionName,
    /// The route kinds this listener supports.
    pub supported_kinds: Vec<RouteGroupKind>,
    /// How many routes are attached to this listener.
    pub attached_routes: u16,
    /// Conditions of this listener.
    pub conditions: Vec<Condition>,
}

/// The observed state of a Gateway.
#[derive(Clone, Debug, PartialEq)]
pub struct GatewayStatus {
    /// The addresses bound to the Gateway.
    pub addresses: Option<Vec<GatewayAddress>>,
    /// Conditions of the Gateway.
    pub conditions: Option<Vec<Condition>>,
    /// Status of each unique listener.
    pub listeners: Option<Vec<ListenerStatus>>,
}

} // verus!

verus! {

/// The mathematical shape of a [`GatewayAddress`].
pub struct GatewayAddressView {
    pub type_: Option<Seq<char>>,
    pub value: Seq<char>,
}

impl DeepView for GatewayAddress {
    type V = GatewayAddressView;

    open spec fn deep_view(&self) -> GatewayAddressView {
        GatewayAddressView { type_: self.type_.deep_view(), value: self.value@ }
    }
}

pub open spec fn address_keys() -> Seq<Seq<char>> {
    seq!["type"@, "value"@]
}

/// What decoding a gateway address yields: `value` is required.
pub open spec fn spec_decode_address(v: JsonView) -> Result<GatewayAddressView, ErrorView> {
    match v {
        JsonView::Obj(pairs) => match spec_scan(pairs, address_keys(), false) {
            Some(e) => Err(e),
            None => match spec_opt_str(spec_field(pairs, "type"@), "type"@) {
                Err(e) => Err(e),
                Ok(type_) => match spec_req_str(spec_field(pairs, "value"@), "value"@) {
                    Err(e) => Err(e),
                    Ok(value) => Ok(GatewayAddressView { type_, value }),
                },
            },
        },
        _ => Err(ErrorView::WrongType("GatewayAddress"@)),
    }
}

pub open spec fn address_fields(a: GatewayAddressView) -> Seq<(Seq<char>, Option<JsonView>)> {
    seq![("type"@, str_entry(a.type_)), ("value"@, Some(JsonView::Str(a.value)))]
}

pub open spec fn spec_encode_address(a: GatewayAddressView) -> JsonView {
    JsonView::Obj(obj_of(address_fields(a)))
}

proof fn lemma_gateway_literals()
    ensures
        keys_distinct(address_keys()),
        keys_distinct(group_kind_keys()),
        keys_distinct(route_namespaces_keys()),
        keys_distinct(allowed_routes_keys()),
        keys_distinct(tls_config_keys()),
        keys_distinct(listener_keys()),
        keys_distinct(infrastructure_keys()),
        keys_distinct(gateway_spec_keys()),
        keys_distinct(listener_status_keys()),
        keys_distinct(gateway_status_keys()),
{
    reveal_strlit("type");
    reveal_strlit("value");
    reveal_strlit("group");
    reveal_strlit("kind");
    reveal_strlit("from");
    reveal_strlit("selector");
    reveal_strlit("namespaces");
    reveal_strlit("kinds");
    reveal_strlit("mode");
    reveal_strlit("certificateRefs");
    reveal_strlit("options");
    reveal_strlit("name");
    reveal_strlit("hostname");
    reveal_strlit("port");
    reveal_strlit("protocol");
    reveal_strlit("tls");
    reveal_strlit("allowedRoutes");
    reveal_strlit("labels");
    reveal_strlit("annotations");
    reveal_strlit("gatewayClassName");
    reveal_strlit("listeners");
    reveal_strlit("addresses");
    reveal_strlit("infrastructure");
    reveal_strlit("supportedKinds");
    reveal_strlit("attachedRoutes");
    reveal_strlit("conditions");
    assert("type"@.len() == 4);
    assert("value"@.len() == 5);
    assert("group"@.len() == 5);
    assert("kind"@.len() == 4);
    assert("from"@.len() == 4);
    assert("selector"@.len() == 8);
    assert("namespaces"@.len() == 10);
    assert("kinds"@.len() == 5);
    assert("mode"@.len() == 4);
    assert("certificateRefs"@.len() == 15);
    assert("options"@.len() == 7);
    assert("name"@.len() == 4);
    assert("hostname"@.len() == 8);
    assert("port"@.len() == 4);
    assert("protocol"@.len() == 8);
    assert("tls"@.len() == 3);
    assert("allowedRoutes"@.len() == 13);
    assert("labels"@.len() == 6);
    assert("annotations"@.len() == 11);
    assert("gatewayClassName"@.len() == 16);
    assert("listeners"@.len() == 9);
    assert("addresses"@.len() == 9);
    assert("infrastructure"@.len() == 14);
    assert("supportedKinds"@.len() == 14);
    assert("attachedRoutes"@.len() == 14);
    assert("conditions"@.len() == 10);
    assert("type"@[0] != "kind"@[0]);
    assert("type"@[0] != "from"@[0]);
    assert("type"@[0] != "mode"@[0]);
    assert("type"@[0] != "name"@[0]);
    assert("type"@[0] != "port"@[0]);
    assert("kind"@[0] != "from"@[0]);
    assert("kind"@[0] != "mode"@[0]);
    assert("kind"@[0] != "name"@[0]);
    assert("kind"@[0] != "port"@[0]);
    assert("from"@[0] != "mode"@[0]);
    assert("from"@[0] != "name"@[0]);
    assert("from"@[0] != "port"@[0]);
    assert("mode"@[0] != "name"@[0]);
    assert("mode"@[0] != "port"@[0]);
    assert("name"@[0] != "port"@[0]);
    assert("hostname"@[0] != "protocol"@[0]);
    assert("hostname"@[0] != "selector"@[0]);
    assert("protocol"@[0] != "selector"@[0]);
    assert("listeners"@[0] != "addresses"@[0]);
    assert("supportedKinds"@[0] != "attachedRoutes"@[0]);
    assert("supportedKinds"@[0] != "infrastructure"@[0]);
    assert("attachedRoutes"@[0] != "infrastructure"@[0]);
    let k1 = address_keys();
    assert forall|i: int, j: int| 0 <= i < j < k1.len() implies k1[i] != k1[j] by {
        assert(k1[0] != k1[1]);
    }
    let k2 = group_kind_keys();
    assert forall|i: int, j: int| 0 <= i < j < k2.len() implies k2[i] != k2[j] by {
        assert(k2[0] != k2[1]);
    }
    let k3 = route_namespaces_keys();
    assert forall|i: int, j: int| 0 <= i < j < k3.len() implies k3[i] != k3[j] by {
        assert(k3[0] != k3[1]);
    }
    let k4 = allowed_routes_keys();
    assert forall|i: int, j: int| 0 <= i < j < k4.len() implies k4[i] != k4[j] by {
        assert(k4[0] != k4[1]);
    }
    let k5 = tls_config_keys();
    assert forall|i: int, j: int| 0 <= i < j < k5.len() implies k5[i] != k5[j] by {
        assert(k5[0] != k5[1]);
        assert(k5[0] != k5[2]);
        assert(k5[1] != k5[2]);
    }
    let k6 = listener_keys();
    assert forall|i: int, j: int| 0 <= i < j < k6.len() implies k6[i] != k6[j] by {
        assert(k6[0] != k6[1]);
        assert(k6[0] != k6[2]);
        assert(k6[0] != k6[3]);
        assert(k6[0] != k6[4]);
        assert(k6[0] != k6[5]);
        assert(k6[1] != k6[2]);
        assert(k6[1] != k6[3]);
        assert(k6[1] != k6[4]);
        assert(k6[1] != k6[5]);
        assert(k6[2] != k6[3]);
        assert(k6[2] != k6[4]);
        assert(k6[2] != k6[5]);
        assert(k6[3] != k6[4]);
        assert(k6[3] != k6[5]);
        assert(k6[4] != k6[5]);
    }
    let k7 = infrastructure_keys();
    assert forall|i: int, j: int| 0 <= i < j < k7.len() implies k7[i] != k7[j] by {
        assert(k7[0] != k7[1]);
    }
    let k8 = gateway_spec_keys();
    assert forall|i: int, j: int| 0 <= i < j < k8.len() implies k8[i] != k8[j] by {
        assert(k8[0] != k8[1]);
        assert(k8[0] != k8[2]);
        assert(k8[0] != k8[3]);
        assert(k8[1] != k8[2]);
        assert(k8[1] != k8[3]);
        assert(k8[2] != k8[3]);
    }
    let k9 = listener_status_keys();
    assert forall|i: int, j: int| 0 <= i < j < k9.len() implies k9[i] != k9[j] by {
        assert(k9[0] != k9[1]);
        assert(k9[0] != k9[2]);
        assert(k9[0] != k9[3]);
        assert(k9[1] != k9[2]);
        assert(k9[1] != k9[3]);
        assert(k9[2] != k9[3]);
    }
    let k10 = gateway_status_keys();
    assert forall|i: int, j: int| 0 <= i < j < k10.len() implies k10[i] != k10[j] by {
        assert(k10[0] != k10[1]);
        assert(k10[0] != k10[2]);
        assert(k10[1] != k10[2]);
    }
}

pub open spec fn group_kind_keys() -> Seq<Seq<char>> {
    seq!["group"@, "kind"@]
}

pub open spec fn route_namespaces_keys() -> Seq<Seq<char>> {
    seq!["from"@, "selector"@]
}

pub open spec fn allowed_routes_keys() -> Seq<Seq<char>> {
    seq!["namespaces"@, "kinds"@]
}

pub open spec fn tls_config_keys() -> Seq<Seq<char>> {
    seq!["mode"@, "certificateRefs"@, "options"@]
}

pub open spec fn listener_keys() -> Seq<Seq<char>> {
    seq!["name"@, "hostname"@, "port"@, "protocol"@, "tls"@, "allowedRoutes"@]
}

pub open spec fn infrastructure_keys() -> Seq<Seq<char>> {
    seq!["labels"@, "annotations"@]
}

pub open spec fn gateway_spec_keys() -> Seq<Seq<char>> {
    seq!["gatewayClassName"@, "listeners"@, "addresses"@, "infrastructure"@]
}

pub open spec fn listener_status_keys() -> Seq<Seq<char>> {
    seq!["name"@, "supportedKinds"@, "attachedRoutes"@, "conditions"@]
}

pub open spec fn gateway_status_keys() -> Seq<Seq<char>> {
    seq!["addresses"@, "conditions"@, "listeners"@]
}

fn address_keys_exec() -> (r: Vec<String>)
    ensures
        r.deep_view() == address_keys(),
        keys_distinct(address_keys()),
{
    let r = vec![String::from_str("type"), String::from_str("value")];
    proof {
        lemma_gateway_literals();
        assert(r.deep_view() =~= address_keys());
    }
    r
}

impl Codec for GatewayAddress {
    open spec fn spec_decode(v: JsonView) -> Result<GatewayAddressView, ErrorView> {
        spec_decode_address(v)
    }

    open spec fn spec_encode(a: GatewayAddressView) -> JsonView {
        spec_encode_address(a)
    }

    open spec fn wf(a: GatewayAddressView) -> bool {
        true
    }

    fn decode(j: &Json) -> (r: Result<Self, DecodeError>)
        ensures
            res_view(r) == spec_decode_address(j.deep_view()),
    {
        match j {
            Json::Obj(pairs) => {
                let ghost kv = address_keys();
                let keys = address_keys_exec();
                let slots = match lookup_fields(pairs, &keys, false) {
                    Ok(s) => s,
                    Err(e) => {
                        return Err(e);
                    },
                };
                proof {
                    assert(kv[0] == "type"@);
                    assert(kv[1] == "value"@);
                }
                let type_ = match opt_str_field(slot_value(pairs, &slots, 0, Ghost(kv)), "type") {
                    Ok(v) => v,
                    Err(e) => {
                        return Err(e);
                    },
                };
                let value = match req_str_field(slot_value(pairs, &slots, 1, Ghost(kv)), "value") {
                    Ok(v) => v,
                    Err(e) => {
                        return Err(e);
                    },
                };
                Ok(GatewayAddress { type_, value })
            },
            _ => Err(DecodeError::WrongType(String::from_str("GatewayAddress"))),
        }
    }

    fn encode(&self) -> (j: Json)
        ensures
            j.deep_view() == spec_encode_address(self.deep_view()),
    {
        let mut obj: Vec<(String, Json)> = Vec::new();
        if let Some(t) = &self.type_ {
            obj.push((String::from_str("type"), Json::Str(t.clone())));
        }
        obj.push((String::from_str("value"), Json::Str(self.value.clone())));
        proof {
            broadcast use lemma_json_pair_seq_view;

            reveal_with_fuel(obj_of, 4);
            assert(json_pair_seq_view(obj@) =~= obj_of(address_fields(self.deep_view())));
        }
        Json::Obj(obj)
    }

    proof fn lemma_round_trip(a: GatewayAddressView)
        ensures
            spec_decode_address(spec_encode_address(a)) == Ok::<GatewayAddressView, ErrorView>(a),
    {
        lemma_gateway_literals();
        let fields = address_fields(a);
        let keys = address_keys();
        assert(fields_distinct(fields));
        assert(fields_within(fields, keys)) by {
            assert forall|i: int| 0 <= i < fields.len() implies keys.contains(
                (#[trigger] fields[i]).0,
            ) by {
                if i == 0 {
                    assert(keys[0] == fields[0].0);
                } else {
                    assert(keys[1] == fields[1].0);
                }
            }
        }
        lemma_obj_of_scan(fields, keys, false);
        lemma_obj_of_field_at(fields, 0);
        lemma_obj_of_field_at(fields, 1);
    }
}

/// The mathematical shape of a [`RouteGroupKind`].
pub struct RouteGroupKindView {
    pub group: Option<Seq<char>>,
    pub kind: Seq<char>,
}

impl DeepView for RouteGroupKind {
    type V = RouteGroupKindView;

    open spec fn deep_view(&self) -> RouteGroupKindView {
        RouteGroupKindView { group: self.group.deep_view(), kind: self.kind@ }
    }
}

/// What decoding a route group/kind pair yields: `kind` is required.
pub open spec fn spec_decode_group_kind(v: JsonView) -> Result<RouteGroupKindView, ErrorView> {
    match v {
        JsonView::Obj(pairs) => match spec_scan(pairs, group_kind_keys(), false) {
            Some(e) => Err(e),
            None => match spec_opt_str(spec_field(pairs, "group"@), "group"@) {
                Err(e) => Err(e),
                Ok(group) => match spec_req_str(spec_field(pairs, "kind"@), "kind"@) {
                    Err(e) => Err(e),
                    Ok(kind) => Ok(RouteGroupKindView { group, kind }),
                },
            },
        },
        _ => Err(ErrorView::WrongType("RouteGroupKind"@)),
    }
}

pub open spec fn group_kind_fields(g: RouteGroupKindView) -> Seq<(Seq<char>, Option<JsonView>)> {
    seq![("group"@, str_entry(g.group)), ("kind"@, Some(JsonView::Str(g.kind)))]
}

pub open spec fn spec_encode_group_kind(g: RouteGroupKindView) -> JsonView {
    JsonView::Obj(obj_of(group_kind_fields(g)))
}

fn group_kind_keys_exec() -> (r: Vec<String>)
    ensures
        r.deep_view() == group_kind_keys(),
        keys_distinct(group_kind_keys()),
{
    let r = vec![String::from_str("group"), String::from_str("kind")];
    proof {
        lemma_gateway_literals();
        assert(r.deep_view() =~= group_kind_keys());
    }
    r
}

impl Codec for RouteGroupKind {
    open spec fn spec_decode(v: JsonView) -> Result<RouteGroupKindView, ErrorView> {
        spec_decode_group_kind(v)
    }

    open spec fn spec_encode(g: RouteGroupKindView) -> JsonView {
        spec_encode_group_kind(g)
    }

    open spec fn wf(g: RouteGroupKindView) -> bool {
        true
    }

    fn decode(j: &Json) -> (r: Result<Self, DecodeError>)
        ensures
            res_view(r) == spec_decode_group_kind(j.deep_view()),
    {
        match j {
            Json::Obj(pairs) => {
                let ghost kv = group_kind_keys();
                let keys = group_kind_keys_exec();
                let slots = match lookup_fields(pairs, &keys, false) {
                    Ok(s) => s,
                    Err(e) => {
                        return Err(e);
                    },
                };
                proof {
                    assert(kv[0] == "group"@);
                    assert(kv[1] == "kind"@);
                }
                let group = match opt_str_field(slot_value(pairs, &slots, 0, Ghost(kv)), "group") {
                    Ok(v) => v,
                    Err(e) => {
                        return Err(e);
                    },
                };
                let kind = match req_str_field(slot_value(pairs, &slots, 1, Ghost(kv)), "kind") {
                    Ok(v) => v,
                    Err(e) => {
                        return Err(e);
                    },
                };
                Ok(RouteGroupKind { group, kind })
            },
            _ => Err(DecodeError::WrongType(String::from_str("RouteGroupKind"))),
        }
    }

    fn encode(&self) -> (j: Json)
        ensures
            j.deep_view() == spec_encode_group_kind(self.deep_view()),
    {
        let mut obj: Vec<(String, Json)> = Vec::new();
        if let Some(g) = &self.group {
            obj.push((String::from_str("group"), Json::Str(g.clone())));
        }
        obj.push((String::from_str("kind"), Json::Str(self.kind.clone())));
        proof {
            broadcast use lemma_json_pair_seq_view;

            reveal_with_fuel(obj_of, 4);
            assert(json_pair_seq_view(obj@) =~= obj_of(group_kind_fields(self.deep_view())));
        }
        Json::Obj(obj)
    }

    proof fn lemma_round_trip(g: RouteGroupKindView)
        ensures
            spec_decode_group_kind(spec_encode_group_kind(g)) == Ok::<
                RouteGroupKindView,
                ErrorView,
            >(g),
    {
        lemma_gateway_literals();
        let fields = group_kind_fields(g);
        let keys = group_kind_keys();
        assert(fields_distinct(fields));
        assert(fields_within(fields, keys)) by {
            assert forall|i: int| 0 <= i < fields.len() implies keys.contains(
                (#[trigger] fields[i]).0,
            ) by {
                if i == 0 {
                    assert(keys[0] == fields[0].0);
                } else {
                    assert(keys[1] == fields[1].0);
                }
            }
        }
        lemma_obj_of_scan(fields, keys, false);
        lemma_obj_of_field_at(fields, 0);
        lemma_obj_of_field_at(fields, 1);
    }
}

} // verus!

verus! {

/// The mathematical shape of a [`RouteNamespaces`].
pub struct RouteNamespacesView {
    pub from: Option<Seq<char>>,
    pub selector: Option<LabelSelectorView>,
}

impl DeepView for RouteNamespaces {
    type V = RouteNamespacesView;

    open spec fn deep_view(&self) -> RouteNamespacesView {
        RouteNamespacesView { from: self.from.deep_view(), selector: self.selector.deep_view() }
    }
}

/// What decoding a route-namespaces document yields: both fields
/// optional.
pub open spec fn spec_decode_route_namespaces(v: JsonView) -> Result<
    RouteNamespacesView,
    ErrorView,
> {
    match v {
        JsonView::Obj(pairs) => match spec_scan(pairs, route_namespaces_keys(), false) {
            Some(e) => Err(e),
            None => match spec_opt_str(spec_field(pairs, "from"@), "from"@) {
                Err(e) => Err(e),
                Ok(from) => match spec_opt_val::<LabelSelector>(spec_field(pairs, "selector"@)) {
                    Err(e) => Err(e),
                    Ok(selector) => Ok(RouteNamespacesView { from, selector }),
                },
            },
        },
        _ => Err(ErrorView::WrongType("RouteNamespaces"@)),
    }
}

pub open spec fn route_namespaces_fields(r: RouteNamespacesView) -> Seq<
    (Seq<char>, Option<JsonView>),
> {
    seq![("from"@, str_entry(r.from)), ("selector"@, val_entry::<LabelSelector>(r.selector))]
}

pub open spec fn spec_encode_route_namespaces(r: RouteNamespacesView) -> JsonView {
    JsonView::Obj(obj_of(route_namespaces_fields(r)))
}

fn route_namespaces_keys_exec() -> (r: Vec<String>)
    ensures
        r.deep_view() == route_namespaces_keys(),
        keys_distinct(route_namespaces_keys()),
{
    let r = vec![String::from_str("from"), String::from_str("selector")];
    proof {
        lemma_gateway_literals();
        assert(r.deep_view() =~= route_namespaces_keys());
    }
    r
}

impl Codec for RouteNamespaces {
    open spec fn spec_decode(v: JsonView) -> Result<RouteNamespacesView, ErrorView> {
        spec_decode_route_namespaces(v)
    }

    open spec fn spec_encode(r: RouteNamespacesView) -> JsonView {
        spec_encode_route_namespaces(r)
    }

    open spec fn wf(r: RouteNamespacesView) -> bool {
        match r.selector {
            Some(sel) => LabelSelector::wf(sel),
            None => true,
        }
    }

    fn decode(j: &Json) -> (r: Result<Self, DecodeError>)
        ensures
            res_view(r) == spec_decode_route_namespaces(j.deep_view()),
    {
        match j {
            Json::Obj(pairs) => {
                let ghost kv = route_namespaces_keys();
                let keys = route_namespaces_keys_exec();
                let slots = match lookup_fields(pairs, &keys, false) {
                    Ok(s) => s,
                    Err(e) => {
                        return Err(e);
                    },
                };
                proof {
                    assert(kv[0] == "from"@);
                    assert(kv[1] == "selector"@);
                }
                let from = match opt_str_field(slot_value(pairs, &slots, 0, Ghost(kv)), "from") {
                    Ok(v) => v,
                    Err(e) => {
                        return Err(e);
                    },
                };
                let selector = match opt_val_field::<LabelSelector>(
                    slot_value(pairs, &slots, 1, Ghost(kv)),
                ) {
                    Ok(v) => v,
                    Err(e) => {
                        return Err(e);
                    },
                };
                Ok(RouteNamespaces { from, selector })
            },
            _ => Err(DecodeError::WrongType(String::from_str("RouteNamespaces"))),
        }
    }

    fn encode(&self) -> (j: Json)
        ensures
            j.deep_view() == spec_encode_route_namespaces(self.deep_view()),
    {
        let mut obj: Vec<(String, Json)> = Vec::new();
        if let Some(f) = &self.from {
            obj.push((String::from_str("from"), Json::Str(f.clone())));
        }
        if let Some(sel) = &self.selector {
            obj.push((String::from_str("selector"), sel.encode()));
        }
        proof {
            broadcast use lemma_json_pair_seq_view;

            reveal_with_fuel(obj_of, 4);
            assert(json_pair_seq_view(obj@) =~= obj_of(route_namespaces_fields(self.deep_view())));
        }
        Json::Obj(obj)
    }

    proof fn lemma_round_trip(r: RouteNamespacesView)
        ensures
            spec_decode_route_namespaces(spec_encode_route_namespaces(r)) == Ok::<
                RouteNamespacesView,
                ErrorView,
            >(r),
    {
        lemma_gateway_literals();
        let fields = route_namespaces_fields(r);
        let keys = route_namespaces_keys();
        assert(fields_distinct(fields));
        assert(fields_within(fields, keys)) by {
            assert forall|i: int| 0 <= i < fields.len() implies keys.contains(
                (#[trigger] fields[i]).0,
            ) by {
                if i == 0 {
                    assert(keys[0] == fields[0].0);
                } else {
                    assert(keys[1] == fields[1].0);
                }
            }
        }
        lemma_obj_of_scan(fields, keys, false);
        lemma_obj_of_field_at(fields, 0);
        lemma_obj_of_field_at(fields, 1);
        if r.selector is Some {
            LabelSelector::lemma_round_trip(r.selector->0);
        }
    }
}

/// The mathematical shape of an [`AllowedRoutes`].
pub struct AllowedRoutesView {
    pub namespaces: Option<RouteNamespacesView>,
    pub kinds: Option<Seq<RouteGroupKindView>>,
}

impl DeepView for AllowedRoutes {
    type V = AllowedRoutesView;

    open spec fn deep_view(&self) -> AllowedRoutesView {
        AllowedRoutesView {
            namespaces: self.namespaces.deep_view(),
            kinds: self.kinds.deep_view(),
        }
    }
}

/// What decoding an allowed-routes document yields: both fields
/// optional.
pub open spec fn spec_decode_allowed_routes(v: JsonView) -> Result<AllowedRoutesView, ErrorView> {
    match v {
        JsonView::Obj(pairs) => match spec_scan(pairs, allowed_routes_keys(), false) {
            Some(e) => Err(e),
            None => match spec_opt_val::<RouteNamespaces>(spec_field(pairs, "namespaces"@)) {
                Err(e) => Err(e),
                Ok(namespaces) => match spec_opt_list::<RouteGroupKind>(
                    spec_field(pairs, "kinds"@),
                    "kinds"@,
                ) {
                    Err(e) => Err(e),
                    Ok(kinds) => Ok(AllowedRoutesView { namespaces, kinds }),
                },
            },
        },
        _ => Err(ErrorView::WrongType("AllowedRoutes"@)),
    }
}

pub open spec fn allowed_routes_fields(a: AllowedRoutesView) -> Seq<(Seq<char>, Option<JsonView>)> {
    seq![
        ("namespaces"@, val_entry::<RouteNamespaces>(a.namespaces)),
        ("kinds"@, list_entry::<RouteGroupKind>(a.kinds)),
    ]
}

pub open spec fn spec_encode_allowed_routes(a: AllowedRoutesView) -> JsonView {
    JsonView::Obj(obj_of(allowed_routes_fields(a)))
}

fn allowed_routes_keys_exec() -> (r: Vec<String>)
    ensures
        r.deep_view() == allowed_routes_keys(),
        keys_distinct(allowed_routes_keys()),
{
    let r = vec![String::from_str("namespaces"), String::from_str("kinds")];
    proof {
        lemma_gateway_literals();
        assert(r.deep_view() =~= allowed_routes_keys());
    }
    r
}

impl Codec for AllowedRoutes {
    open spec fn spec_decode(v: JsonView) -> Result<AllowedRoutesView, ErrorView> {
        spec_decode_allowed_routes(v)
    }

    open spec fn spec_encode(a: AllowedRoutesView) -> JsonView {
        spec_encode_allowed_routes(a)
    }

    open spec fn wf(a: AllowedRoutesView) -> bool {
        match a.namespaces {
            Some(ns) => RouteNamespaces::wf(ns),
            None => true,
        }
    }

    fn decode(j: &Json) -> (r: Result<Self, DecodeError>)
        ensures
            res_view(r) == spec_decode_allowed_routes(j.deep_view()),
    {
        match j {
            Json::Obj(pairs) => {
                let ghost kv = allowed_routes_keys();
                let keys = allowed_routes_keys_exec();
                let slots = match lookup_fields(pairs, &keys, false) {
                    Ok(s) => s,
                    Err(e) => {
                        return Err(e);
                    },
                };
                proof {
                    assert(kv[0] == "namespaces"@);
                    assert(kv[1] == "kinds"@);
                }
                let namespaces = match opt_val_field::<RouteNamespaces>(
                    slot_value(pairs, &slots, 0, Ghost(kv)),
                ) {
                    Ok(v) => v,
                    Err(e) => {
                        return Err(e);
                    },
                };
                let kinds = match opt_list_field::<RouteGroupKind>(
                    slot_value(pairs, &slots, 1, Ghost(kv)),
                    "kinds",
                ) {
                    Ok(v) => v,
                    Err(e) => {
                        return Err(e);
                    },
                };
                Ok(AllowedRoutes { namespaces, kinds })
            },
            _ => Err(DecodeError::WrongType(String::from_str("AllowedRoutes"))),
        }
    }

    fn encode(&self) -> (j: Json)
        ensures
            j.deep_view() == spec_encode_allowed_routes(self.deep_view()),
    {
        let mut obj: Vec<(String, Json)> = Vec::new();
        if let Some(ns) = &self.namespaces {
            obj.push((String::from_str("namespaces"), ns.encode()));
        }
        if let Some(ks) = &self.kinds {
            obj.push((String::from_str("kinds"), Json::Arr(encode_vec::<RouteGroupKind>(ks))));
        }
        proof {
            broadcast use lemma_json_pair_seq_view;

            reveal_with_fuel(obj_of, 4);
            assert(json_pair_seq_view(obj@) =~= obj_of(allowed_routes_fields(self.deep_view())));
        }
        Json::Obj(obj)
    }

    proof fn lemma_round_trip(a: AllowedRoutesView)
        ensures
            spec_decode_allowed_routes(spec_encode_allowed_routes(a)) == Ok::<
                AllowedRoutesView,
                ErrorView,
            >(a),
    {
        lemma_gateway_literals();
        let fields = allowed_routes_fields(a);
        let keys = allowed_routes_keys();
        assert(fields_distinct(fields));
        assert(fields_within(fields, keys)) by {
            assert forall|i: int| 0 <= i < fields.len() implies keys.contains(
                (#[trigger] fields[i]).0,
            ) by {
                if i == 0 {
                    assert(keys[0] == fields[0].0);
                } else {
                    assert(keys[1] == fields[1].0);
                }
            }
        }
        lemma_obj_of_scan(fields, keys, false);
        lemma_obj_of_field_at(fields, 0);
        lemma_obj_of_field_at(fields, 1);
        if a.namespaces is Some {
            RouteNamespaces::lemma_round_trip(a.namespaces->0);
        }
        if a.kinds is Some {
            lemma_seq_round_trip::<RouteGroupKind>(a.kinds->0);
        }
    }
}

/// The mathematical shape of a [`GatewayTlsConfig`].
pub struct GatewayTlsConfigView {
    pub mode: Option<Seq<char>>,
    pub certificate_refs: Option<Seq<SecretObjectReferenceView>>,
    pub options: Option<Seq<(Seq<char>, Seq<char>)>>,
}

impl DeepView for GatewayTlsConfig {
    type V = GatewayTlsConfigView;

    open spec fn deep_view(&self) -> GatewayTlsConfigView {
        GatewayTlsConfigView {
            mode: self.mode.deep_view(),
            certificate_refs: self.certificate_refs.deep_view(),
            options: self.options.deep_view(),
        }
    }
}

/// What decoding a TLS configuration yields: every field optional, the
/// options read as a string map in document order.
pub open spec fn spec_decode_tls_config(v: JsonView) -> Result<GatewayTlsConfigView, ErrorView> {
    match v {
        JsonView::Obj(pairs) => match spec_scan(pairs, tls_config_keys(), false) {
            Some(e) => Err(e),
            None => match spec_opt_str(spec_field(pairs, "mode"@), "mode"@) {
                Err(e) => Err(e),
                Ok(mode) => match spec_opt_list::<SecretObjectReference>(
                    spec_field(pairs, "certificateRefs"@),
                    "certificateRefs"@,
                ) {
                    Err(e) => Err(e),
                    Ok(certificate_refs) => match spec_opt_str_map(
                        spec_field(pairs, "options"@),
                        "options"@,
                    ) {
                        Err(e) => Err(e),
                        Ok(options) => Ok(
                            GatewayTlsConfigView { mode, certificate_refs, options },
                        ),
                    },
                },
            },
        },
        _ => Err(ErrorView::WrongType("GatewayTlsConfig"@)),
    }
}

pub open spec fn tls_config_fields(t: GatewayTlsConfigView) -> Seq<(Seq<char>, Option<JsonView>)> {
    seq![
        ("mode"@, str_entry(t.mode)),
        ("certificateRefs"@, list_entry::<SecretObjectReference>(t.certificate_refs)),
        ("options"@, str_map_entry(t.options)),
    ]
}

pub open spec fn spec_encode_tls_config(t: GatewayTlsConfigView) -> JsonView {
    JsonView::Obj(obj_of(tls_config_fields(t)))
}

fn tls_config_keys_exec() -> (r: Vec<String>)
    ensures
        r.deep_view() == tls_config_keys(),
        keys_distinct(tls_config_keys()),
{
    let r = vec![
        String::from_str("mode"),
        String::from_str("certificateRefs"),
        String::from_str("options"),
    ];
    proof {
        lemma_gateway_literals();
        assert(r.deep_view() =~= tls_config_keys());
    }
    r
}

impl Codec for GatewayTlsConfig {
    open spec fn spec_decode(v: JsonView) -> Result<GatewayTlsConfigView, ErrorView> {
        spec_decode_tls_config(v)
    }

    open spec fn spec_encode(t: GatewayTlsConfigView) -> JsonView {
        spec_encode_tls_config(t)
    }

    open spec fn wf(t: GatewayTlsConfigView) -> bool {
        match t.options {
            Some(os) => forall|i: int, j: int| 0 <= i < j < os.len() ==> os[i].0 != os[j].0,
            None => true,
        }
    }

    fn decode(j: &Json) -> (r: Result<Self, DecodeError>)
        ensures
            res_view(r) == spec_decode_tls_config(j.deep_view()),
    {
        match j {
            Json::Obj(pairs) => {
                let ghost kv = tls_config_keys();
                let keys = tls_config_keys_exec();
                let slots = match lookup_fields(pairs, &keys, false) {
                    Ok(s) => s,
                    Err(e) => {
                        return Err(e);
                    },
                };
                proof {
                    assert(kv[0] == "mode"@);
                    assert(kv[1] == "certificateRefs"@);
                    assert(kv[2] == "options"@);
                }
                let mode = match opt_str_field(slot_value(pairs, &slots, 0, Ghost(kv)), "mode") {
                    Ok(v) => v,
                    Err(e) => {
                        return Err(e);
                    },
                };
                let certificate_refs = match opt_list_field::<SecretObjectReference>(
                    slot_value(pairs, &slots, 1, Ghost(kv)),
                    "certificateRefs",
                ) {
                    Ok(v) => v,
                    Err(e) => {
                        return Err(e);
                    },
                };
                let options = match opt_str_map_field(
                    slot_value(pairs, &slots, 2, Ghost(kv)),
                    "options",
                ) {
                    Ok(v) => v,
                    Err(e) => {
                        return Err(e);
                    },
                };
                proof {
                    match &options {
                        Some(entries) => {
                            assert(Seq::new(
                                entries@.len(),
                                |i: int| (entries@[i].0@, entries@[i].1@),
                            ) =~= entries.deep_view());
                        },
                        None => {},
                    }
                }
                Ok(GatewayTlsConfig { mode, certificate_refs, options })
            },
            _ => Err(DecodeError::WrongType(String::from_str("GatewayTlsConfig"))),
        }
    }

    fn encode(&self) -> (j: Json)
        ensures
            j.deep_view() == spec_encode_tls_config(self.deep_view()),
    {
        let mut obj: Vec<(String, Json)> = Vec::new();
        if let Some(m) = &self.mode {
            obj.push((String::from_str("mode"), Json::Str(m.clone())));
        }
        if let Some(cs) = &self.certificate_refs {
            obj.push(
                (
                    String::from_str("certificateRefs"),
                    Json::Arr(encode_vec::<SecretObjectReference>(cs)),
                ),
            );
        }
        if let Some(os) = &self.options {
            let m = encode_str_map(os);
            proof {
                assert(Seq::new(os@.len(), |i: int| (os@[i].0@, JsonView::Str(os@[i].1@))) =~= (
                match str_map_entry(self.deep_view().options) {
                    Some(JsonView::Obj(ps)) => ps,
                    _ => Seq::empty(),
                }));
            }
            obj.push((String::from_str("options"), m));
        }
        proof {
            broadcast use lemma_json_pair_seq_view;

            reveal_with_fuel(obj_of, 5);
            assert(json_pair_seq_view(obj@) =~= obj_of(tls_config_fields(self.deep_view())));
        }
        Json::Obj(obj)
    }

    proof fn lemma_round_trip(t: GatewayTlsConfigView)
        ensures
            spec_decode_tls_config(spec_encode_tls_config(t)) == Ok::<
                GatewayTlsConfigView,
                ErrorView,
            >(t),
    {
        lemma_gateway_literals();
        let fields = tls_config_fields(t);
        let keys = tls_config_keys();
        assert(fields_distinct(fields));
        assert(fields_within(fields, keys)) by {
            assert forall|i: int| 0 <= i < fields.len() implies keys.contains(
                (#[trigger] fields[i]).0,
            ) by {
                if i == 0 {
                    assert(keys[0] == fields[0].0);
                } else if i == 1 {
                    assert(keys[1] == fields[1].0);
                } else {
                    assert(keys[2] == fields[2].0);
                }
            }
        }
        lemma_obj_of_scan(fields, keys, false);
        lemma_obj_of_field_at(fields, 0);
        lemma_obj_of_field_at(fields, 1);
        lemma_obj_of_field_at(fields, 2);
        if t.certificate_refs is Some {
            lemma_seq_round_trip::<SecretObjectReference>(t.certificate_refs->0);
        }
        if t.options is Some {
            lemma_str_map_round_trip(t.options->0);
        }
    }
}

} // verus!

verus! {

/// The mathematical shape of a [`Listener`].
pub struct ListenerView {
    pub name: Seq<char>,
    pub hostname: Option<Seq<char>>,
    pub port: u16,
    pub protocol: Seq<char>,
    pub tls: Option<GatewayTlsConfigView>,
    pub allowed_routes: Option<AllowedRoutesView>,
}

impl DeepView for Listener {
    type V = ListenerView;

    open spec fn deep_view(&self) -> ListenerView {
        ListenerView {
            name: self.name@,
            hostname: self.hostname.deep_view(),
            port: self.port,
            protocol: self.protocol@,
            tls: self.tls.deep_view(),
            allowed_routes: self.allowed_routes.deep_view(),
        }
    }
}

/// What decoding a listener yields: name, port, and protocol required.
pub open spec fn spec_decode_listener(v: JsonView) -> Result<ListenerView, ErrorView> {
    match v {
        JsonView::Obj(pairs) => match spec_scan(pairs, listener_keys(), false) {
            Some(e) => Err(e),
            None => match spec_req_str(spec_field(pairs, "name"@), "name"@) {
                Err(e) => Err(e),
                Ok(name) => match spec_opt_str(spec_field(pairs, "hostname"@), "hostname"@) {
                    Err(e) => Err(e),
                    Ok(hostname) => match spec_req_u16(spec_field(pairs, "port"@), "port"@) {
                        Err(e) => Err(e),
                        Ok(port) => match spec_req_str(
                            spec_field(pairs, "protocol"@),
                            "protocol"@,
                        ) {
                            Err(e) => Err(e),
                            Ok(protocol) => match spec_opt_val::<GatewayTlsConfig>(
                                spec_field(pairs, "tls"@),
                            ) {
                                Err(e) => Err(e),
                                Ok(tls) => match spec_opt_val::<AllowedRoutes>(
                                    spec_field(pairs, "allowedRoutes"@),
                                ) {
                                    Err(e) => Err(e),
                                    Ok(allowed_routes) => Ok(
                                        ListenerView {
                                            name,
                                            hostname,
                                            port,
                                            protocol,
                                            tls,
                                            allowed_routes,
                                        },
                                    ),
                                },
                            },
                        },
                    },
                },
            },
        },
        _ => Err(ErrorView::WrongType("Listener"@)),
    }
}

pub open spec fn listener_fields(l: ListenerView) -> Seq<(Seq<char>, Option<JsonView>)> {
    seq![
        ("name"@, Some(JsonView::Str(l.name))),
        ("hostname"@, str_entry(l.hostname)),
        ("port"@, Some(JsonView::Int(l.port as i64))),
        ("protocol"@, Some(JsonView::Str(l.protocol))),
        ("tls"@, val_entry::<GatewayTlsConfig>(l.tls)),
        ("allowedRoutes"@, val_entry::<AllowedRoutes>(l.allowed_routes)),
    ]
}

pub open spec fn spec_encode_listener(l: ListenerView) -> JsonView {
    JsonView::Obj(obj_of(listener_fields(l)))
}

fn listener_keys_exec() -> (r: Vec<String>)
    ensures
        r.deep_view() == listener_keys(),
        keys_distinct(listener_keys()),
{
    let r = vec![
        String::from_str("name"),
        String::from_str("hostname"),
        String::from_str("port"),
        String::from_str("protocol"),
        String::from_str("tls"),
        String::from_str("allowedRoutes"),
    ];
    proof {
        lemma_gateway_literals();
        assert(r.deep_view() =~= listener_keys());
    }
    r
}

impl Codec for Listener {
    open spec fn spec_decode(v: JsonView) -> Result<ListenerView, ErrorView> {
        spec_decode_listener(v)
    }

    open spec fn spec_encode(l: ListenerView) -> JsonView {
        spec_encode_listener(l)
    }

    open spec fn wf(l: ListenerView) -> bool {
        &&& (match l.tls {
            Some(t) => GatewayTlsConfig::wf(t),
            None => true,
        })
        &&& (match l.allowed_routes {
            Some(a) => AllowedRoutes::wf(a),
            None => true,
        })
    }

    fn decode(j: &Json) -> (r: Result<Self, DecodeError>)
        ensures
            res_view(r) == spec_decode_listener(j.deep_view()),
    {
        match j {
            Json::Obj(pairs) => {
                let ghost kv = listener_keys();
                let keys = listener_keys_exec();
                let slots = match lookup_fields(pairs, &keys, false) {
                    Ok(s) => s,
                    Err(e) => {
                        return Err(e);
                    },
                };
                proof {
                    assert(kv[0] == "name"@);
                    assert(kv[1] == "hostname"@);
                    assert(kv[2] == "port"@);
                    assert(kv[3] == "protocol"@);
                    assert(kv[4] == "tls"@);
                    assert(kv[5] == "allowedRoutes"@);
                }
                let name = match req_str_field(slot_value(pairs, &slots, 0, Ghost(kv)), "name") {
                    Ok(v) => v,
                    Err(e) => {
                        return Err(e);
                    },
                };
                let hostname = match opt_str_field(
                    slot_value(pairs, &slots, 1, Ghost(kv)),
                    "hostname",
                ) {
                    Ok(v) => v,
                    Err(e) => {
                        return Err(e);
                    },
                };
                let port = match req_u16_field(slot_value(pairs, &slots, 2, Ghost(kv)), "port") {
                    Ok(v) => v,
                    Err(e) => {
                        return Err(e);
                    },
                };
                let protocol = match req_str_field(
                    slot_value(pairs, &slots, 3, Ghost(kv)),
                    "protocol",
                ) {
                    Ok(v) => v,
                    Err(e) => {
                        return Err(e);
                    },
                };
                let tls = match opt_val_field::<GatewayTlsConfig>(
                    slot_value(pairs, &slots, 4, Ghost(kv)),
                ) {
                    Ok(v) => v,
                    Err(e) => {
                        return Err(e);
                    },
                };
                let allowed_routes = match opt_val_field::<AllowedRoutes>(
                    slot_value(pairs, &slots, 5, Ghost(kv)),
                ) {
                    Ok(v) => v,
                    Err(e) => {
                        return Err(e);
                    },
                };
                Ok(Listener { name, hostname, port, protocol, tls, allowed_routes })
            },
            _ => Err(DecodeError::WrongType(String::from_str("Listener"))),
        }
    }

    fn encode(&self) -> (j: Json)
        ensures
            j.deep_view() == spec_encode_listener(self.deep_view()),
    {
        let mut obj: Vec<(String, Json)> = Vec::new();
        obj.push((String::from_str("name"), Json::Str(self.name.clone())));
        if let Some(h) = &self.hostname {
            obj.push((String::from_str("hostname"), Json::Str(h.clone())));
        }
        obj.push((String::from_str("port"), Json::Int(self.port as i64)));
        obj.push((String::from_str("protocol"), Json::Str(self.protocol.clone())));
        if let Some(t) = &self.tls {
            obj.push((String::from_str("tls"), t.encode()));
        }
        if let Some(a) = &self.allowed_routes {
            obj.push((String::from_str("allowedRoutes"), a.encode()));
        }
        proof {
            broadcast use lemma_json_pair_seq_view;

            reveal_with_fuel(obj_of, 8);
            assert(json_pair_seq_view(obj@) =~= obj_of(listener_fields(self.deep_view())));
        }
        Json::Obj(obj)
    }

    proof fn lemma_round_trip(l: ListenerView)
        ensures
            spec_decode_listener(spec_encode_listener(l)) == Ok::<ListenerView, ErrorView>(l),
    {
        lemma_gateway_literals();
        let fields = listener_fields(l);
        let keys = listener_keys();
        assert(fields_distinct(fields));
        assert(fields_within(fields, keys)) by {
            assert forall|i: int| 0 <= i < fields.len() implies keys.contains(
                (#[trigger] fields[i]).0,
            ) by {
                if i == 0 {
                    assert(keys[0] == fields[0].0);
                } else if i == 1 {
                    assert(keys[1] == fields[1].0);
                } else if i == 2 {
                    assert(keys[2] == fields[2].0);
                } else if i == 3 {
                    assert(keys[3] == fields[3].0);
                } else if i == 4 {
                    assert(keys[4] == fields[4].0);
                } else {
                    assert(keys[5] == fields[5].0);
                }
            }
        }
        lemma_obj_of_scan(fields, keys, false);
        lemma_obj_of_field_at(fields, 0);
        lemma_obj_of_field_at(fields, 1);
        lemma_obj_of_field_at(fields, 2);
        lemma_obj_of_field_at(fields, 3);
        lemma_obj_of_field_at(fields, 4);
        lemma_obj_of_field_at(fields, 5);
        if l.tls is Some {
            GatewayTlsConfig::lemma_round_trip(l.tls->0);
        }
        if l.allowed_routes is Some {
            AllowedRoutes::lemma_round_trip(l.allowed_routes->0);
        }
    }
}

/// The mathematical shape of a [`GatewayInfrastructure`].
pub struct GatewayInfrastructureView {
    pub labels: Option<Seq<(Seq<char>, Seq<char>)>>,
    pub annotations: Option<Seq<(Seq<char>, Seq<char>)>>,
}

impl DeepView for GatewayInfrastructure {
    type V = GatewayInfrastructureView;

    open spec fn deep_view(&self) -> GatewayInfrastructureView {
        GatewayInfrastructureView {
            labels: self.labels.deep_view(),
            annotations: self.annotations.deep_view(),
        }
    }
}

/// What decoding infrastructure attributes yields: two optional string
/// maps, read in document order.
pub open spec fn spec_decode_infrastructure(v: JsonView) -> Result<
    GatewayInfrastructureView,
    ErrorView,
> {
    match v {
        JsonView::Obj(pairs) => match spec_scan(pairs, infrastructure_keys(), false) {
            Some(e) => Err(e),
            None => match spec_opt_str_map(spec_field(pairs, "labels"@), "labels"@) {
                Err(e) => Err(e),
                Ok(labels) => match spec_opt_str_map(
                    spec_field(pairs, "annotations"@),
                    "annotations"@,
                ) {
                    Err(e) => Err(e),
                    Ok(annotations) => Ok(GatewayInfrastructureView { labels, annotations }),
                },
            },
        },
        _ => Err(ErrorView::WrongType("GatewayInfrastructure"@)),
    }
}

pub open spec fn infrastructure_fields(g: GatewayInfrastructureView) -> Seq<
    (Seq<char>, Option<JsonView>),
> {
    seq![("labels"@, str_map_entry(g.labels)), ("annotations"@, str_map_entry(g.annotations))]
}

pub open spec fn spec_encode_infrastructure(g: GatewayInfrastructureView) -> JsonView {
    JsonView::Obj(obj_of(infrastructure_fields(g)))
}

fn infrastructure_keys_exec() -> (r: Vec<String>)
    ensures
        r.deep_view() == infrastructure_keys(),
        keys_distinct(infrastructure_keys()),
{
    let r = vec![String::from_str("labels"), String::from_str("annotations")];
    proof {
        lemma_gateway_literals();
        assert(r.deep_view() =~= infrastructure_keys());
    }
    r
}

impl Codec for GatewayInfrastructure {
    open spec fn spec_decode(v: JsonView) -> Result<GatewayInfrastructureView, ErrorView> {
        spec_decode_infrastructure(v)
    }

    open spec fn spec_encode(g: GatewayInfrastructureView) -> JsonView {
        spec_encode_infrastructure(g)
    }

    open spec fn wf(g: GatewayInfrastructureView) -> bool {
        &&& (match g.labels {
            Some(ls) => forall|i: int, j: int| 0 <= i < j < ls.len() ==> ls[i].0 != ls[j].0,
            None => true,
        })
        &&& (match g.annotations {
            Some(ls) => forall|i: int, j: int| 0 <= i < j < ls.len() ==> ls[i].0 != ls[j].0,
            None => true,
        })
    }

    fn decode(j: &Json) -> (r: Result<Self, DecodeError>)
        ensures
            res_view(r) == spec_decode_infrastructure(j.deep_view()),
    {
        match j {
            Json::Obj(pairs) => {
                let ghost kv = infrastructure_keys();
                let keys = infrastructure_keys_exec();
                let slots = match lookup_fields(pairs, &keys, false) {
                    Ok(s) => s,
                    Err(e) => {
                        return Err(e);
                    },
                };
                proof {
                    assert(kv[0] == "labels"@);
                    assert(kv[1] == "annotations"@);
                }
                let labels = match opt_str_map_field(
                    slot_value(pairs, &slots, 0, Ghost(kv)),
                    "labels",
                ) {
                    Ok(v) => v,
                    Err(e) => {
                        return Err(e);
                    },
                };
                let annotations = match opt_str_map_field(
                    slot_value(pairs, &slots, 1, Ghost(kv)),
                    "annotations",
                ) {
                    Ok(v) => v,
                    Err(e) => {
                        return Err(e);
                    },
                };
                proof {
                    match &labels {
                        Some(entries) => {
                            assert(Seq::new(
                                entries@.len(),
                                |i: int| (entries@[i].0@, entries@[i].1@),
                            ) =~= entries.deep_view());
                        },
                        None => {},
                    }
                    match &annotations {
                        Some(entries) => {
                            assert(Seq::new(
                                entries@.len(),
                                |i: int| (entries@[i].0@, entries@[i].1@),
                            ) =~= entries.deep_view());
                        },
                        None => {},
                    }
                }
                Ok(GatewayInfrastructure { labels, annotations })
            },
            _ => Err(DecodeError::WrongType(String::from_str("GatewayInfrastructure"))),
        }
    }

    fn encode(&self) -> (j: Json)
        ensures
            j.deep_view() == spec_encode_infrastructure(self.deep_view()),
    {
        let mut obj: Vec<(String, Json)> = Vec::new();
        if let Some(ls) = &self.labels {
            let m = encode_str_map(ls);
            proof {
                assert(Seq::new(ls@.len(), |i: int| (ls@[i].0@, JsonView::Str(ls@[i].1@))) =~= (
                match str_map_entry(self.deep_view().labels) {
                    Some(JsonView::Obj(ps)) => ps,
                    _ => Seq::empty(),
                }));
            }
            obj.push((String::from_str("labels"), m));
        }
        if let Some(ans) = &self.annotations {
            let m = encode_str_map(ans);
            proof {
                assert(Seq::new(ans@.len(), |i: int| (ans@[i].0@, JsonView::Str(ans@[i].1@))) =~= (
                match str_map_entry(self.deep_view().annotations) {
                    Some(JsonView::Obj(ps)) => ps,
                    _ => Seq::empty(),
                }));
            }
            obj.push((String::from_str("annotations"), m));
        }
        proof {
            broadcast use lemma_json_pair_seq_view;

            reveal_with_fuel(obj_of, 4);
            assert(json_pair_seq_view(obj@) =~= obj_of(infrastructure_fields(self.deep_view())));
        }
        Json::Obj(obj)
    }

    proof fn lemma_round_trip(g: GatewayInfrastructureView)
        ensures
            spec_decode_infrastructure(spec_encode_infrastructure(g)) == Ok::<
                GatewayInfrastructureView,
                ErrorView,
            >(g),
    {
        lemma_gateway_literals();
        let fields = infrastructure_fields(g);
        let keys = infrastructure_keys();
        assert(fields_distinct(fields));
        assert(fields_within(fields, keys)) by {
            assert forall|i: int| 0 <= i < fields.len() implies keys.contains(
                (#[trigger] fields[i]).0,
            ) by {
                if i == 0 {
                    assert(keys[0] == fields[0].0);
                } else {
                    assert(keys[1] == fields[1].0);
                }
            }
        }
        lemma_obj_of_scan(fields, keys, false);
        lemma_obj_of_field_at(fields, 0);
        lemma_obj_of_field_at(fields, 1);
        if g.labels is Some {
            lemma_str_map_round_trip(g.labels->0);
        }
        if g.annotations is Some {
            lemma_str_map_round_trip(g.annotations->0);
        }
    }
}

} // verus!

verus! {

/// The mathematical shape of a [`GatewaySpec`].
pub struct GatewaySpecView {
    pub gateway_class_name: Seq<char>,
    pub listeners: Seq<ListenerView>,
    pub addresses: Option<Seq<GatewayAddressView>>,
    pub infrastructure: Option<GatewayInfrastructureView>,
}

impl DeepView for GatewaySpec {
    type V = GatewaySpecView;

    open spec fn deep_view(&self) -> GatewaySpecView {
        GatewaySpecView {
            gateway_class_name: self.gateway_class_name@,
            listeners: self.listeners.deep_view(),
            addresses: self.addresses.deep_view(),
            infrastructure: self.infrastructure.deep_view(),
        }
    }
}

/// What decoding a Gateway spec yields: the class name and the
/// listener list are required.
pub open spec fn spec_decode_gateway_spec(v: JsonView) -> Result<GatewaySpecView, ErrorView> {
    match v {
        JsonView::Obj(pairs) => match spec_scan(pairs, gateway_spec_keys(), false) {
            Some(e) => Err(e),
            None => match spec_req_str(
                spec_field(pairs, "gatewayClassName"@),
                "gatewayClassName"@,
            ) {
                Err(e) => Err(e),
                Ok(gateway_class_name) => match spec_req_list::<Listener>(
                    spec_field(pairs, "listeners"@),
                    "listeners"@,
                ) {
                    Err(e) => Err(e),
                    Ok(listeners) => match spec_opt_list::<GatewayAddress>(
                        spec_field(pairs, "addresses"@),
                        "addresses"@,
                    ) {
                        Err(e) => Err(e),
                        Ok(addresses) => match spec_opt_val::<GatewayInfrastructure>(
                            spec_field(pairs, "infrastructure"@),
                        ) {
                            Err(e) => Err(e),
                            Ok(infrastructure) => Ok(
                                GatewaySpecView {
                                    gateway_class_name,
                                    listeners,
                                    addresses,
                                    infrastructure,
                                },
                            ),
                        },
                    },
                },
            },
        },
        _ => Err(ErrorView::WrongType("GatewaySpec"@)),
    }
}

pub open spec fn gateway_spec_fields(s: GatewaySpecView) -> Seq<(Seq<char>, Option<JsonView>)> {
    seq![
        ("gatewayClassName"@, Some(JsonView::Str(s.gateway_class_name))),
        ("listeners"@, Some(JsonView::Arr(spec_encode_seq::<Listener>(s.listeners)))),
        ("addresses"@, list_entry::<GatewayAddress>(s.addresses)),
        ("infrastructure"@, val_entry::<GatewayInfrastructure>(s.infrastructure)),
    ]
}

pub open spec fn spec_encode_gateway_spec(s: GatewaySpecView) -> JsonView {
    JsonView::Obj(obj_of(gateway_spec_fields(s)))
}

fn gateway_spec_keys_exec() -> (r: Vec<String>)
    ensures
        r.deep_view() == gateway_spec_keys(),
        keys_distinct(gateway_spec_keys()),
{
    let r = vec![
        String::from_str("gatewayClassName"),
        String::from_str("listeners"),
        String::from_str("addresses"),
        String::from_str("infrastructure"),
    ];
    proof {
        lemma_gateway_literals();
        assert(r.deep_view() =~= gateway_spec_keys());
    }
    r
}

impl Codec for GatewaySpec {
    open spec fn spec_decode(v: JsonView) -> Result<GatewaySpecView, ErrorView> {
        spec_decode_gateway_spec(v)
    }

    open spec fn spec_encode(s: GatewaySpecView) -> JsonView {
        spec_encode_gateway_spec(s)
    }

    open spec fn wf(s: GatewaySpecView) -> bool {
        &&& (forall|i: int|
            0 <= i < s.listeners.len() ==> Listener::wf(#[trigger] s.listeners[i]))
        &&& (match s.infrastructure {
            Some(inf) => GatewayInfrastructure::wf(inf),
            None => true,
        })
    }

    fn decode(j: &Json) -> (r: Result<Self, DecodeError>)
        ensures
            res_view(r) == spec_decode_gateway_spec(j.deep_view()),
    {
        match j {
            Json::Obj(pairs) => {
                let ghost kv = gateway_spec_keys();
                let keys = gateway_spec_keys_exec();
                let slots = match lookup_fields(pairs, &keys, false) {
                    Ok(s) => s,
                    Err(e) => {
                        return Err(e);
                    },
                };
                proof {
                    assert(kv[0] == "gatewayClassName"@);
                    assert(kv[1] == "listeners"@);
                    assert(kv[2] == "addresses"@);
                    assert(kv[3] == "infrastructure"@);
                }
                let gateway_class_name = match req_str_field(
                    slot_value(pairs, &slots, 0, Ghost(kv)),
                    "gatewayClassName",
                ) {
                    Ok(v) => v,
                    Err(e) => {
                        return Err(e);
                    },
                };
                let listeners = match req_list_field::<Listener>(
                    slot_value(pairs, &slots, 1, Ghost(kv)),
                    "listeners",
                ) {
                    Ok(v) => v,
                    Err(e) => {
                        return Err(e);
                    },
                };
                let addresses = match opt_list_field::<GatewayAddress>(
                    slot_value(pairs, &slots, 2, Ghost(kv)),
                    "addresses",
                ) {
                    Ok(v) => v,
                    Err(e) => {
                        return Err(e);
                    },
                };
                let infrastructure = match opt_val_field::<GatewayInfrastructure>(
                    slot_value(pairs, &slots, 3, Ghost(kv)),
                ) {
                    Ok(v) => v,
                    Err(e) => {
                        return Err(e);
                    },
                };
                Ok(GatewaySpec { gateway_class_name, listeners, addresses, infrastructure })
            },
            _ => Err(DecodeError::WrongType(String::from_str("GatewaySpec"))),
        }
    }

    fn encode(&self) -> (j: Json)
        ensures
            j.deep_view() == spec_encode_gateway_spec(self.deep_view()),
    {
        let mut obj: Vec<(String, Json)> = Vec::new();
        obj.push(
            (String::from_str("gatewayClassName"), Json::Str(self.gateway_class_name.clone())),
        );
        obj.push(
            (String::from_str("listeners"), Json::Arr(encode_vec::<Listener>(&self.listeners))),
        );
        if let Some(ads) = &self.addresses {
            obj.push(
                (String::from_str("addresses"), Json::Arr(encode_vec::<GatewayAddress>(ads))),
            );
        }
        if let Some(inf) = &self.infrastructure {
            obj.push((String::from_str("infrastructure"), inf.encode()));
        }
        proof {
            broadcast use lemma_json_pair_seq_view;

            reveal_with_fuel(obj_of, 6);
            assert(json_pair_seq_view(obj@) =~= obj_of(gateway_spec_fields(self.deep_view())));
        }
        Json::Obj(obj)
    }

    proof fn lemma_round_trip(s: GatewaySpecView)
        ensures
            spec_decode_gateway_spec(spec_encode_gateway_spec(s)) == Ok::<
                GatewaySpecView,
                ErrorView,
            >(s),
    {
        lemma_gateway_literals();
        let fields = gateway_spec_fields(s);
        let keys = gateway_spec_keys();
        assert(fields_distinct(fields));
        assert(fields_within(fields, keys)) by {
            assert forall|i: int| 0 <= i < fields.len() implies keys.contains(
                (#[trigger] fields[i]).0,
            ) by {
                if i == 0 {
                    assert(keys[0] == fields[0].0);
                } else if i == 1 {
                    assert(keys[1] == fields[1].0);
                } else if i == 2 {
                    assert(keys[2] == fields[2].0);
                } else {
                    assert(keys[3] == fields[3].0);
                }
            }
        }
        lemma_obj_of_scan(fields, keys, false);
        lemma_obj_of_field_at(fields, 0);
        lemma_obj_of_field_at(fields, 1);
        lemma_obj_of_field_at(fields, 2);
        lemma_obj_of_field_at(fields, 3);
        lemma_seq_round_trip::<Listener>(s.listeners);
        if s.addresses is Some {
            lemma_seq_round_trip::<GatewayAddress>(s.addresses->0);
        }
        if s.infrastructure is Some {
            GatewayInfrastructure::lemma_round_trip(s.infrastructure->0);
        }
    }
}

/// The mathematical shape of a [`ListenerStatus`].
pub struct ListenerStatusView {
    pub name: Seq<char>,
    pub supported_kinds: Seq<RouteGroupKindView>,
    pub attached_routes: u16,
    pub conditions: Seq<ConditionView>,
}

impl DeepView for ListenerStatus {
    type V = ListenerStatusView;

    open spec fn deep_view(&self) -> ListenerStatusView {
        ListenerStatusView {
            name: self.name@,
            supported_kinds: self.supported_kinds.deep_view(),
            attached_routes: self.attached_routes,
            conditions: self.conditions.deep_view(),
        }
    }
}

/// What decoding a listener status yields: every field required.
pub open spec fn spec_decode_listener_status(v: JsonView) -> Result<ListenerStatusView, ErrorView> {
    match v {
        JsonView::Obj(pairs) => match spec_scan(pairs, listener_status_keys(), false) {
            Some(e) => Err(e),
            None => match spec_req_str(spec_field(pairs, "name"@), "name"@) {
                Err(e) => Err(e),
                Ok(name) => match spec_req_list::<RouteGroupKind>(
                    spec_field(pairs, "supportedKinds"@),
                    "supportedKinds"@,
                ) {
                    Err(e) => Err(e),
                    Ok(supported_kinds) => match spec_req_u16(
                        spec_field(pairs, "attachedRoutes"@),
                        "attachedRoutes"@,
                    ) {
                        Err(e) => Err(e),
                        Ok(attached_routes) => match spec_req_list::<Condition>(
                            spec_field(pairs, "conditions"@),
                            "conditions"@,
                        ) {
                            Err(e) => Err(e),
                            Ok(conditions) => Ok(
                                ListenerStatusView {
                                    name,
                                    supported_kinds,
                                    attached_routes,
                                    conditions,
                                },
                            ),
                        },
                    },
                },
            },
        },
        _ => Err(ErrorView::WrongType("ListenerStatus"@)),
    }
}

pub open spec fn listener_status_fields(s: ListenerStatusView) -> Seq<
    (Seq<char>, Option<JsonView>),
> {
    seq![
        ("name"@, Some(JsonView::Str(s.name))),
        (
            "supportedKinds"@,
            Some(JsonView::Arr(spec_encode_seq::<RouteGroupKind>(s.supported_kinds))),
        ),
        ("attachedRoutes"@, Some(JsonView::Int(s.attached_routes as i64))),
        ("conditions"@, Some(JsonView::Arr(spec_encode_seq::<Condition>(s.conditions)))),
    ]
}

pub open spec fn spec_encode_listener_status(s: ListenerStatusView) -> JsonView {
    JsonView::Obj(obj_of(listener_status_fields(s)))
}

fn listener_status_keys_exec() -> (r: Vec<String>)
    ensures
        r.deep_view() == listener_status_keys(),
        keys_distinct(listener_status_keys()),
{
    let r = vec![
        String::from_str("name"),
        String::from_str("supportedKinds"),
        String::from_str("attachedRoutes"),
        String::from_str("conditions"),
    ];
    proof {
        lemma_gateway_literals();
        assert(r.deep_view() =~= listener_status_keys());
    }
    r
}

impl Codec for ListenerStatus {
    open spec fn spec_decode(v: JsonView) -> Result<ListenerStatusView, ErrorView> {
        spec_decode_listener_status(v)
    }

    open spec fn spec_encode(s: ListenerStatusView) -> JsonView {
        spec_encode_listener_status(s)
    }

    open spec fn wf(s: ListenerStatusView) -> bool {
        true
    }

    fn decode(j: &Json) -> (r: Result<Self, DecodeError>)
        ensures
            res_view(r) == spec_decode_listener_status(j.deep_view()),
    {
        match j {
            Json::Obj(pairs) => {
                let ghost kv = listener_status_keys();
                let keys = listener_status_keys_exec();
                let slots = match lookup_fields(pairs, &keys, false) {
                    Ok(s) => s,
                    Err(e) => {
                        return Err(e);
                    },
                };
                proof {
                    assert(kv[0] == "name"@);
                    assert(kv[1] == "supportedKinds"@);
                    assert(kv[2] == "attachedRoutes"@);
                    assert(kv[3] == "conditions"@);
                }
                let name = match req_str_field(slot_value(pairs, &slots, 0, Ghost(kv)), "name") {
                    Ok(v) => v,
                    Err(e) => {
                        return Err(e);
                    },
                };
                let supported_kinds = match req_list_field::<RouteGroupKind>(
                    slot_value(pairs, &slots, 1, Ghost(kv)),
                    "supportedKinds",
                ) {
                    Ok(v) => v,
                    Err(e) => {
                        return Err(e);
                    },
                };
                let attached_routes = match req_u16_field(
                    slot_value(pairs, &slots, 2, Ghost(kv)),
                    "attachedRoutes",
                ) {
                    Ok(v) => v,
                    Err(e) => {
                        return Err(e);
                    },
                };
                let conditions = match req_list_field::<Condition>(
                    slot_value(pairs, &slots, 3, Ghost(kv)),
                    "conditions",
                ) {
                    Ok(v) => v,
                    Err(e) => {
                        return Err(e);
                    },
                };
                Ok(ListenerStatus { name, supported_kinds, attached_routes, conditions })
            },
            _ => Err(DecodeError::WrongType(String::from_str("ListenerStatus"))),
        }
    }

    fn encode(&self) -> (j: Json)
        ensures
            j.deep_view() == spec_encode_listener_status(self.deep_view()),
    {
        let mut obj: Vec<(String, Json)> = Vec::new();
        obj.push((String::from_str("name"), Json::Str(self.name.clone())));
        obj.push(
            (
                String::from_str("supportedKinds"),
                Json::Arr(encode_vec::<RouteGroupKind>(&self.supported_kinds)),
            ),
        );
        obj.push((String::from_str("attachedRoutes"), Json::Int(self.attached_routes as i64)));
        obj.push(
            (String::from_str("conditions"), Json::Arr(encode_vec::<Condition>(&self.conditions))),
        );
        proof {
            broadcast use lemma_json_pair_seq_view;

            reveal_with_fuel(obj_of, 6);
            assert(json_pair_seq_view(obj@) =~= obj_of(listener_status_fields(self.deep_view())));
        }
        Json::Obj(obj)
    }

    proof fn lemma_round_trip(s: ListenerStatusView)
        ensures
            spec_decode_listener_status(spec_encode_listener_status(s)) == Ok::<
                ListenerStatusView,
                ErrorView,
            >(s),
    {
        lemma_gateway_literals();
        let fields = listener_status_fields(s);
        let keys = listener_status_keys();
        assert(fields_distinct(fields));
        assert(fields_within(fields, keys)) by {
            assert forall|i: int| 0 <= i < fields.len() implies keys.contains(
                (#[trigger] fields[i]).0,
            ) by {
                if i == 0 {
                    assert(keys[0] == fields[0].0);
                } else if i == 1 {
                    assert(keys[1] == fields[1].0);
                } else if i == 2 {
                    assert(keys[2] == fields[2].0);
                } else {
                    assert(keys[3] == fields[3].0);
                }
            }
        }
        lemma_obj_of_scan(fields, keys, false);
        lemma_obj_of_field_at(fields, 0);
        lemma_obj_of_field_at(fields, 1);
        lemma_obj_of_field_at(fields, 2);
        lemma_obj_of_field_at(fields, 3);
        lemma_seq_round_trip::<RouteGroupKind>(s.supported_kinds);
        lemma_seq_round_trip::<Condition>(s.conditions);
    }
}

/// The mathematical shape of a [`GatewayStatus`].
pub struct GatewayStatusView {
    pub addresses: Option<Seq<GatewayAddressView>>,
    pub conditions: Option<Seq<ConditionView>>,
    pub listeners: Option<Seq<ListenerStatusView>>,
}

impl DeepView for GatewayStatus {
    type V = GatewayStatusView;

    open spec fn deep_view(&self) -> GatewayStatusView {
        GatewayStatusView {
            addresses: self.addresses.deep_view(),
            conditions: self.conditions.deep_view(),
            listeners: self.listeners.deep_view(),
        }
    }
}

/// What decoding a Gateway status yields: every field optional.
pub open spec fn spec_decode_gateway_status(v: JsonView) -> Result<GatewayStatusView, ErrorView> {
    match v {
        JsonView::Obj(pairs) => match spec_scan(pairs, gateway_status_keys(), false) {
            Some(e) => Err(e),
            None => match spec_opt_list::<GatewayAddress>(
                spec_field(pairs, "addresses"@),
                "addresses"@,
            ) {
                Err(e) => Err(e),
                Ok(addresses) => match spec_opt_list::<Condition>(
                    spec_field(pairs, "conditions"@),
                    "conditions"@,
                ) {
                    Err(e) => Err(e),
                    Ok(conditions) => match spec_opt_list::<ListenerStatus>(
                        spec_field(pairs, "listeners"@),
                        "listeners"@,
                    ) {
                        Err(e) => Err(e),
                        Ok(listeners) => Ok(GatewayStatusView { addresses, conditions, listeners }),
                    },
                },
            },
        },
        _ => Err(ErrorView::WrongType("GatewayStatus"@)),
    }
}

pub open spec fn gateway_status_fields(s: GatewayStatusView) -> Seq<(Seq<char>, Option<JsonView>)> {
    seq![
        ("addresses"@, list_entry::<GatewayAddress>(s.addresses)),
        ("conditions"@, list_entry::<Condition>(s.conditions)),
        ("listeners"@, list_entry::<ListenerStatus>(s.listeners)),
    ]
}

pub open spec fn spec_encode_gateway_status(s: GatewayStatusView) -> JsonView {
    JsonView::Obj(obj_of(gateway_status_fields(s)))
}

fn gateway_status_keys_exec() -> (r: Vec<String>)
    ensures
        r.deep_view() == gateway_status_keys(),
        keys_distinct(gateway_status_keys()),
{
    let r = vec![
        String::from_str("addresses"),
        String::from_str("conditions"),
        String::from_str("listeners"),
    ];
    proof {
        lemma_gateway_literals();
        assert(r.deep_view() =~= gateway_status_keys());
    }
    r
}

impl Codec for GatewayStatus {
    open spec fn spec_decode(v: JsonView) -> Result<GatewayStatusView, ErrorView> {
        spec_decode_gateway_status(v)
    }

    open spec fn spec_encode(s: GatewayStatusView) -> JsonView {
        spec_encode_gateway_status(s)
    }

    open spec fn wf(s: GatewayStatusView) -> bool {
        true
    }

    fn decode(j: &Json) -> (r: Result<Self, DecodeError>)
        ensures
            res_view(r) == spec_decode_gateway_status(j.deep_view()),
    {
        match j {
            Json::Obj(pairs) => {
                let ghost kv = gateway_status_keys();
                let keys = gateway_status_keys_exec();
                let slots = match lookup_fields(pairs, &keys, false) {
                    Ok(s) => s,
                    Err(e) => {
                        return Err(e);
                    },
                };
                proof {
                    assert(kv[0] == "addresses"@);
                    assert(kv[1] == "conditions"@);
                    assert(kv[2] == "listeners"@);
                }
                let addresses = match opt_list_field::<GatewayAddress>(
                    slot_value(pairs, &slots, 0, Ghost(kv)),
                    "addresses",
                ) {
                    Ok(v) => v,
                    Err(e) => {
                        return Err(e);
                    },
                };
                let conditions = match opt_list_field::<Condition>(
                    slot_value(pairs, &slots, 1, Ghost(kv)),
                    "conditions",
                ) {
                    Ok(v) => v,
                    Err(e) => {
                        return Err(e);
                    },
                };
                let listeners = match opt_list_field::<ListenerStatus>(
                    slot_value(pairs, &slots, 2, Ghost(kv)),
                    "listeners",
                ) {
                    Ok(v) => v,
                    Err(e) => {
                        return Err(e);
                    },
                };
                Ok(GatewayStatus { addresses, conditions, listeners })
            },
            _ => Err(DecodeError::WrongType(String::from_str("GatewayStatus"))),
        }
    }

    fn encode(&self) -> (j: Json)
        ensures
            j.deep_view() == spec_encode_gateway_status(self.deep_view()),
    {
        let mut obj: Vec<(String, Json)> = Vec::new();
        if let Some(ads) = &self.addresses {
            obj.push(
                (String::from_str("addresses"), Json::Arr(encode_vec::<GatewayAddress>(ads))),
            );
        }
        if let Some(cs) = &self.conditions {
            obj.push((String::from_str("conditions"), Json::Arr(encode_vec::<Condition>(cs))));
        }
        if let Some(ls) = &self.listeners {
            obj.push((String::from_str("listeners"), Json::Arr(encode_vec::<ListenerStatus>(ls))));
        }
        proof {
            broadcast use lemma_json_pair_seq_view;

            reveal_with_fuel(obj_of, 5);
            assert(json_pair_seq_view(obj@) =~= obj_of(gateway_status_fields(self.deep_view())));
        }
        Json::Obj(obj)
    }

    proof fn lemma_round_trip(s: GatewayStatusView)
        ensures
            spec_decode_gateway_status(spec_encode_gateway_status(s)) == Ok::<
                GatewayStatusView,
                ErrorView,
            >(s),
    {
        lemma_gateway_literals();
        let fields = gateway_status_fields(s);
        let keys = gateway_status_keys();
        assert(fields_distinct(fields));
        assert(fields_within(fields, keys)) by {
            assert forall|i: int| 0 <= i < fields.len() implies keys.contains(
                (#[trigger] fields[i]).0,
            ) by {
                if i == 0 {
                    assert(keys[0] == fields[0].0);
                } else if i == 1 {
                    assert(keys[1] == fields[1].0);
                } else {
                    assert(keys[2] == fields[2].0);
                }
            }
        }
        lemma_obj_of_scan(fields, keys, false);
        lemma_obj_of_field_at(fields, 0);
        lemma_obj_of_field_at(fields, 1);
        lemma_obj_of_field_at(fields, 2);
        if s.addresses is Some {
            lemma_seq_round_trip::<GatewayAddress>(s.addresses->0);
        }
        if s.conditions is Some {
            lemma_seq_round_trip::<Condition>(s.conditions->0);
        }
        if s.listeners is Some {
            lemma_seq_round_trip::<ListenerStatus>(s.listeners->0);
        }
    }
}

} // verus!
