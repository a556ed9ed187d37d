//! Types shared by every route kind: semantic string aliases, parent
//! references, the common route spec, weighted backend references, and
//! route status reporting.

use vstd::prelude::*;

use crate::object_reference::{BackendObjectReference, BackendObjectReferenceView};
use crate::wire::{
    Codec, DecodeError, ErrorView, Json, JsonView, fields_distinct, fields_within,
    json_pair_seq_view, keys_distinct, lemma_json_pair_seq_view, lemma_obj_of_field_at,
    lemma_obj_of_scan, lookup_fields, obj_of, opt_str_field, opt_u16_field, req_str_field,
    opt_i64_field, opt_list_field, req_list_field, req_val_field, res_view, slot_value,
    opt_str_map_field, spec_field, spec_opt_i64, spec_opt_list, spec_opt_str, spec_opt_str_map,
    spec_opt_u16, spec_req_list, spec_req_str, spec_req_val, spec_scan, str_entry, str_map_entry,
    u16_entry, encode_str_map, encode_vec, lemma_seq_round_trip, lemma_str_map_round_trip,
    list_entry, spec_encode_seq,
};

verus! {

/// Hostname is the fully qualified domain name of a network host,
/// optionally prefixed with a single wildcard label.
pub type Hostname = String;

/// PreciseHostname is a fully qualified domain name without wildcards.
pub type PreciseHostname = String;

/// Group refers to a Kubernetes Group; the empty string is the core group.
pub type Group = String;

/// Kind refers to a Kubernetes Kind, such as `"Service"`.
pub type Kind = String;

/// ObjectName refers to the name of a Kubernetes object.
pub type ObjectName = String;

/// Namespace refers to a Kubernetes namespace.
pub type Namespace = String;

/// SectionName is the name of a section in a Kubernetes resource.
pub type SectionName = String;

/// GatewayController is the domain-prefixed path naming a controller.
pub type GatewayController = String;

/// AnnotationKey is the key of an annotation, a Kubernetes qualified name.
pub type AnnotationKey = String;

/// AnnotationValue is the value of an annotation.
pub type AnnotationValue = String;

/// AddressType defines how a network address is written down.
pub type AddressType = String;

/// PortNumber defines a network port.
pub type PortNumber = u16;

/// RouteConditionType is a type of condition for a route.
pub type RouteConditionType = String;

/// RouteConditionReason is a reason for a route condition.
pub type RouteConditionReason = String;

/// A status condition, as the cluster's metadata machinery defines it:
/// carried here as plain values, with the transition time as its wire
/// text.
#[derive(Clone, Debug, PartialEq)]
pub struct Condition {
    /// Type of the condition, CamelCase.
    pub type_: String,
    /// Status of the condition: `"True"`, `"False"`, or `"Unknown"`.
    pub status: String,
    /// The generation the condition was set from, if recorded.
    pub observed_generation: Option<i64>,
    /// When the condition last changed, as its wire text.
    pub last_transition_time: String,
    /// A programmatic identifier for the condition's last transition.
    pub reason: String,
    /// A human-readable message about the transition.
    pub message: String,
}

} // verus!

verus! {

/// ParentReference identifies an API object, usually a Gateway, that a
/// route wants to be attached to.
#[derive(Clone, Debug, PartialEq)]
pub struct ParentReference {
    /// Group of the referent; `"gateway.networking.k8s.io"` when absent.
    pub group: Option<Group>,
    /// Kind of the referent.
    pub kind: Option<Kind>,
    /// Namespace of the referent; the route's own namespace when absent.
    pub namespace: Option<Namespace>,
    /// Name of the referent.
    pub name: ObjectName,
    /// Name of a section within the target resource, such as a listener.
    pub section_name: Option<SectionName>,
    /// The network port this route targets on the parent.
    pub port: Option<PortNumber>,
}

/// The mathematical shape of a [`ParentReference`].
pub struct ParentReferenceView {
    pub group: Option<Seq<char>>,
    pub kind: Option<Seq<char>>,
    pub namespace: Option<Seq<char>>,
    pub name: Seq<char>,
    pub section_name: Option<Seq<char>>,
    pub port: Option<u16>,
}

impl DeepView for ParentReference {
    type V = ParentReferenceView;

    open spec fn deep_view(&self) -> ParentReferenceView {
        ParentReferenceView {
            group: self.group.deep_view(),
            kind: self.kind.deep_view(),
            namespace: self.namespace.deep_view(),
            name: self.name@,
            section_name: self.section_name.deep_view(),
            port: self.port,
        }
    }
}

pub open spec fn parent_ref_keys() -> Seq<Seq<char>> {
    seq!["group"@, "kind"@, "namespace"@, "name"@, "sectionName"@, "port"@]
}

/// What decoding a parent reference yields: only `name` is required.
pub open spec fn spec_decode_parent_ref(v: JsonView) -> Result<ParentReferenceView, ErrorView> {
    match v {
        JsonView::Obj(pairs) => match spec_scan(pairs, parent_ref_keys(), false) {
            Some(e) => Err(e),
            None => match spec_opt_str(spec_field(pairs, "group"@), "group"@) {
                Err(e) => Err(e),
                Ok(group) => match spec_opt_str(spec_field(pairs, "kind"@), "kind"@) {
                    Err(e) => Err(e),
                    Ok(kind) => match spec_opt_str(spec_field(pairs, "namespace"@), "namespace"@) {
                        Err(e) => Err(e),
                        Ok(namespace) => match spec_req_str(spec_field(pairs, "name"@), "name"@) {
                            Err(e) => Err(e),
                            Ok(name) => match spec_opt_str(
                                spec_field(pairs, "sectionName"@),
                                "sectionName"@,
                            ) {
                                Err(e) => Err(e),
                                Ok(section_name) => match spec_opt_u16(
                                    spec_field(pairs, "port"@),
                                    "port"@,
                                ) {
                                    Err(e) => Err(e),
                                    Ok(port) => Ok(
                                        ParentReferenceView {
                                            group,
                                            kind,
                                            namespace,
                                            name,
                                            section_name,
                                            port,
                                        },
                                    ),
                                },
                            },
                        },
                    },
                },
            },
        },
        _ => Err(ErrorView::WrongType("ParentReference"@)),
    }
}

pub open spec fn parent_ref_fields(p: ParentReferenceView) -> Seq<(Seq<char>, Option<JsonView>)> {
    seq![
        ("group"@, str_entry(p.group)),
        ("kind"@, str_entry(p.kind)),
        ("namespace"@, str_entry(p.namespace)),
        ("name"@, Some(JsonView::Str(p.name))),
        ("sectionName"@, str_entry(p.section_name)),
        ("port"@, u16_entry(p.port)),
    ]
}

pub open spec fn spec_encode_parent_ref(p: ParentReferenceView) -> JsonView {
    JsonView::Obj(obj_of(parent_ref_fields(p)))
}

proof fn lemma_parent_ref_literals()
    ensures
        keys_distinct(parent_ref_keys()),
{
    reveal_strlit("group");
    reveal_strlit("kind");
    reveal_strlit("namespace");
    reveal_strlit("name");
    reveal_strlit("sectionName");
    reveal_strlit("port");
    assert("group"@.len() == 5);
    assert("kind"@.len() == 4);
    assert("namespace"@.len() == 9);
    assert("name"@.len() == 4);
    assert("sectionName"@.len() == 11);
    assert("port"@.len() == 4);
    assert("kind"@[0] != "name"@[0]);
    assert("kind"@[0] != "port"@[0]);
    assert("name"@[0] != "port"@[0]);
    let keys = parent_ref_keys();
    assert forall|i: int, j: int| 0 <= i < j < keys.len() implies keys[i] != keys[j] by {
        assert(keys[0] != keys[1]);
        assert(keys[0] != keys[2]);
        assert(keys[0] != keys[3]);
        assert(keys[0] != keys[4]);
        assert(keys[0] != keys[5]);
        assert(keys[1] != keys[2]);
        assert(keys[1] != keys[3]);
        assert(keys[1] != keys[4]);
        assert(keys[1] != keys[5]);
        assert(keys[2] != keys[3]);
        assert(keys[2] != keys[4]);
        assert(keys[2] != keys[5]);
        assert(keys[3] != keys[4]);
        assert(keys[3] != keys[5]);
        assert(keys[4] != keys[5]);
    }
}

fn parent_ref_keys_exec() -> (r: Vec<String>)
    ensures
        r.deep_view() == parent_ref_keys(),
        keys_distinct(parent_ref_keys()),
{
    let r = vec![
        String::from_str("group"),
        String::from_str("kind"),
        String::from_str("namespace"),
        String::from_str("name"),
        String::from_str("sectionName"),
        String::from_str("port"),
    ];
    proof {
        lemma_parent_ref_literals();
        assert(r.deep_view() =~= parent_ref_keys());
    }
    r
}

impl Codec for ParentReference {
    open spec fn spec_decode(v: JsonView) -> Result<ParentReferenceView, ErrorView> {
        spec_decode_parent_ref(v)
    }

    open spec fn spec_encode(p: ParentReferenceView) -> JsonView {
        spec_encode_parent_ref(p)
    }

    open spec fn wf(p: ParentReferenceView) -> bool {
        true
    }

    fn decode(j: &Json) -> (r: Result<Self, DecodeError>)
        ensures
            res_view(r) == spec_decode_parent_ref(j.deep_view()),
    {
        match j {
            Json::Obj(pairs) => {
                let ghost kv = parent_ref_keys();
                let keys = parent_ref_keys_exec();
                let slots = match lookup_fields(pairs, &keys, false) {
                    Ok(s) => s,
                    Err(e) => {
                        return Err(e);
                    },
                };
                proof {
                    assert(kv[0] == "group"@);
                    assert(kv[1] == "kind"@);
                    assert(kv[2] == "namespace"@);
                    assert(kv[3] == "name"@);
                    assert(kv[4] == "sectionName"@);
                    assert(kv[5] == "port"@);
                }
                let group = match opt_str_field(slot_value(pairs, &slots, 0, Ghost(kv)), "group") {
                    Ok(v) => v,
                    Err(e) => {
                        return Err(e);
                    },
                };
                let kind = match opt_str_field(slot_value(pairs, &slots, 1, Ghost(kv)), "kind") {
                    Ok(v) => v,
                    Err(e) => {
                        return Err(e);
                    },
                };
                let namespace = match opt_str_field(
                    slot_value(pairs, &slots, 2, Ghost(kv)),
                    "namespace",
                ) {
                    Ok(v) => v,
                    Err(e) => {
                        return Err(e);
                    },
                };
                let name = match req_str_field(slot_value(pairs, &slots, 3, Ghost(kv)), "name") {
                    Ok(v) => v,
                    Err(e) => {
                        return Err(e);
                    },
                };
                let section_name = match opt_str_field(
                    slot_value(pairs, &slots, 4, Ghost(kv)),
                    "sectionName",
                ) {
                    Ok(v) => v,
                    Err(e) => {
                        return Err(e);
                    },
                };
                let port = match opt_u16_field(slot_value(pairs, &slots, 5, Ghost(kv)), "port") {
                    Ok(v) => v,
                    Err(e) => {
                        return Err(e);
                    },
                };
                Ok(ParentReference { group, kind, namespace, name, section_name, port })
            },
            _ => Err(DecodeError::WrongType(String::from_str("ParentReference"))),
        }
    }

    fn encode(&self) -> (j: Json)
        ensures
            j.deep_view() == spec_encode_parent_ref(self.deep_view()),
    {
        let mut obj: Vec<(String, Json)> = Vec::new();
        if let Some(g) = &self.group {
            obj.push((String::from_str("group"), Json::Str(g.clone())));
        }
        if let Some(k) = &self.kind {
            obj.push((String::from_str("kind"), Json::Str(k.clone())));
        }
        if let Some(ns) = &self.namespace {
            obj.push((String::from_str("namespace"), Json::Str(ns.clone())));
        }
        obj.push((String::from_str("name"), Json::Str(self.name.clone())));
        if let Some(s) = &self.section_name {
            obj.push((String::from_str("sectionName"), Json::Str(s.clone())));
        }
        if let Some(p) = &self.port {
            obj.push((String::from_str("port"), Json::Int(*p as i64)));
        }
        proof {
            broadcast use lemma_json_pair_seq_view;

            reveal_with_fuel(obj_of, 8);
            assert(json_pair_seq_view(obj@) =~= obj_of(parent_ref_fields(self.deep_view())));
        }
        Json::Obj(obj)
    }

    proof fn lemma_round_trip(p: ParentReferenceView)
        ensures
            spec_decode_parent_ref(spec_encode_parent_ref(p)) == Ok::<
                ParentReferenceView,
                ErrorView,
            >(p),
    {
        lemma_parent_ref_literals();
        let fields = parent_ref_fields(p);
        let keys = parent_ref_keys();
        assert(fields_distinct(fields));
        assert(fields_within(fields, keys)) by {
            assert forall|i: int| 0 <= i < fields.len() implies keys.contains(
                (#[trigger] fields[i]).0,
            ) by {
                if i == 0 {
                    assert(keys[0] == fields[0].0);
                } else if i == 1 {
                    assert(keys[1] == fields[1].0);
                } else if i == 2 {
                    assert(keys[2] == fields[2].0);
                } else if i == 3 {
                    assert(keys[3] == fields[3].0);
                } else if i == 4 {
                    assert(keys[4] == fields[4].0);
                } else {
                    assert(keys[5] == fields[5].0);
                }
            }
        }
        lemma_obj_of_scan(fields, keys, false);
        lemma_obj_of_field_at(fields, 0);
        lemma_obj_of_field_at(fields, 1);
        lemma_obj_of_field_at(fields, 2);
        lemma_obj_of_field_at(fields, 3);
        lemma_obj_of_field_at(fields, 4);
        lemma_obj_of_field_at(fields, 5);
    }
}

/// CommonRouteSpec defines the fields every route's spec carries: the
/// parents the route wants to attach to. On the wire these fields sit
/// flat in the route's own spec document.
#[derive(Clone, Debug, Default, PartialEq)]
pub struct CommonRouteSpec {
    /// The resources, usually Gateways, this route attaches to.
    pub parent_refs: Option<Vec<ParentReference>>,
}

/// The mathematical shape of a [`CommonRouteSpec`].
pub struct CommonRouteSpecView {
    pub parent_refs: Option<Seq<ParentReferenceView>>,
}

impl DeepView for CommonRouteSpec {
    type V = CommonRouteSpecView;

    open spec fn deep_view(&self) -> CommonRouteSpecView {
        CommonRouteSpecView { parent_refs: self.parent_refs.deep_view() }
    }
}

/// BackendRef defines how a route forwards a request to a Kubernetes
/// resource: an object reference with an optional proportion. On the
/// wire the reference's fields sit flat beside `weight`.
#[derive(Clone, Debug, PartialEq)]
pub struct BackendRef {
    /// The proportion of requests sent here; absent means 1, zero means
    /// none.
    pub weight: Option<u16>,
    /// The object referred to.
    pub inner: BackendObjectReference,
}

/// The mathematical shape of a [`BackendRef`].
pub struct BackendRefView {
    pub weight: Option<u16>,
    pub inner: BackendObjectReferenceView,
}

impl DeepView for BackendRef {
    type V = BackendRefView;

    open spec fn deep_view(&self) -> BackendRefView {
        BackendRefView { weight: self.weight, inner: self.inner.deep_view() }
    }
}

pub open spec fn backend_ref_flat_keys() -> Seq<Seq<char>> {
    seq!["weight"@, "group"@, "kind"@, "name"@, "namespace"@, "port"@]
}

/// What decoding a weighted backend reference yields: the object
/// reference's fields read flat beside the optional `weight`.
pub open spec fn spec_decode_backend_ref(v: JsonView) -> Result<BackendRefView, ErrorView> {
    match v {
        JsonView::Obj(pairs) => match spec_scan(pairs, backend_ref_flat_keys(), false) {
            Some(e) => Err(e),
            None => match spec_opt_u16(spec_field(pairs, "weight"@), "weight"@) {
                Err(e) => Err(e),
                Ok(weight) => match spec_opt_str(spec_field(pairs, "group"@), "group"@) {
                    Err(e) => Err(e),
                    Ok(group) => match spec_opt_str(spec_field(pairs, "kind"@), "kind"@) {
                        Err(e) => Err(e),
                        Ok(kind) => match spec_req_str(spec_field(pairs, "name"@), "name"@) {
                            Err(e) => Err(e),
                            Ok(name) => match spec_opt_str(
                                spec_field(pairs, "namespace"@),
                                "namespace"@,
                            ) {
                                Err(e) => Err(e),
                                Ok(namespace) => match spec_opt_u16(
                                    spec_field(pairs, "port"@),
                                    "port"@,
                                ) {
                                    Err(e) => Err(e),
                                    Ok(port) => Ok(
                                        BackendRefView {
                                            weight,
                                            inner: BackendObjectReferenceView {
                                                group,
                                                kind,
                                                name,
                                                namespace,
                                                port,
                                            },
                                        },
                                    ),
                                },
                            },
                        },
                    },
                },
            },
        },
        _ => Err(ErrorView::WrongType("BackendRef"@)),
    }
}

pub open spec fn backend_ref_flat_fields(b: BackendRefView) -> Seq<(Seq<char>, Option<JsonView>)> {
    seq![
        ("weight"@, u16_entry(b.weight)),
        ("group"@, str_entry(b.inner.group)),
        ("kind"@, str_entry(b.inner.kind)),
        ("name"@, Some(JsonView::Str(b.inner.name))),
        ("namespace"@, str_entry(b.inner.namespace)),
        ("port"@, u16_entry(b.inner.port)),
    ]
}

pub open spec fn spec_encode_backend_ref(b: BackendRefView) -> JsonView {
    JsonView::Obj(obj_of(backend_ref_flat_fields(b)))
}

proof fn lemma_backend_ref_literals()
    ensures
        keys_distinct(backend_ref_flat_keys()),
{
    reveal_strlit("weight");
    reveal_strlit("group");
    reveal_strlit("kind");
    reveal_strlit("name");
    reveal_strlit("namespace");
    reveal_strlit("port");
    assert("weight"@.len() == 6);
    assert("group"@.len() == 5);
    assert("kind"@.len() == 4);
    assert("name"@.len() == 4);
    assert("namespace"@.len() == 9);
    assert("port"@.len() == 4);
    assert("kind"@[0] != "name"@[0]);
    assert("kind"@[0] != "port"@[0]);
    assert("name"@[0] != "port"@[0]);
    let keys = backend_ref_flat_keys();
    assert forall|i: int, j: int| 0 <= i < j < keys.len() implies keys[i] != keys[j] by {
        assert(keys[0] != keys[1]);
        assert(keys[0] != keys[2]);
        assert(keys[0] != keys[3]);
        assert(keys[0] != keys[4]);
        assert(keys[0] != keys[5]);
        assert(keys[1] != keys[2]);
        assert(keys[1] != keys[3]);
        assert(keys[1] != keys[4]);
        assert(keys[1] != keys[5]);
        assert(keys[2] != keys[3]);
        assert(keys[2] != keys[4]);
        assert(keys[2] != keys[5]);
        assert(keys[3] != keys[4]);
        assert(keys[3] != keys[5]);
        assert(keys[4] != keys[5]);
    }
}

fn backend_ref_flat_keys_exec() -> (r: Vec<String>)
    ensures
        r.deep_view() == backend_ref_flat_keys(),
        keys_distinct(backend_ref_flat_keys()),
{
    let r = vec![
        String::from_str("weight"),
        String::from_str("group"),
        String::from_str("kind"),
        String::from_str("name"),
        String::from_str("namespace"),
        String::from_str("port"),
    ];
    proof {
        lemma_backend_ref_literals();
        assert(r.deep_view() =~= backend_ref_flat_keys());
    }
    r
}

impl Codec for BackendRef {
    open spec fn spec_decode(v: JsonView) -> Result<BackendRefView, ErrorView> {
        spec_decode_backend_ref(v)
    }

    open spec fn spec_encode(b: BackendRefView) -> JsonView {
        spec_encode_backend_ref(b)
    }

    open spec fn wf(b: BackendRefView) -> bool {
        true
    }

    fn decode(j: &Json) -> (r: Result<Self, DecodeError>)
        ensures
            res_view(r) == spec_decode_backend_ref(j.deep_view()),
    {
        match j {
            Json::Obj(pairs) => {
                let ghost kv = backend_ref_flat_keys();
                let keys = backend_ref_flat_keys_exec();
                let slots = match lookup_fields(pairs, &keys, false) {
                    Ok(s) => s,
                    Err(e) => {
                        return Err(e);
                    },
                };
                proof {
                    assert(kv[0] == "weight"@);
                    assert(kv[1] == "group"@);
                    assert(kv[2] == "kind"@);
                    assert(kv[3] == "name"@);
                    assert(kv[4] == "namespace"@);
                    assert(kv[5] == "port"@);
                }
                let weight = match opt_u16_field(slot_value(pairs, &slots, 0, Ghost(kv)), "weight")
                    {
                    Ok(v) => v,
                    Err(e) => {
                        return Err(e);
                    },
                };
                let group = match opt_str_field(slot_value(pairs, &slots, 1, Ghost(kv)), "group") {
                    Ok(v) => v,
                    Err(e) => {
                        return Err(e);
                    },
                };
                let kind = match opt_str_field(slot_value(pairs, &slots, 2, Ghost(kv)), "kind") {
                    Ok(v) => v,
                    Err(e) => {
                        return Err(e);
                    },
                };
                let name = match req_str_field(slot_value(pairs, &slots, 3, Ghost(kv)), "name") {
                    Ok(v) => v,
                    Err(e) => {
                        return Err(e);
                    },
                };
                let namespace = match opt_str_field(
                    slot_value(pairs, &slots, 4, Ghost(kv)),
                    "namespace",
                ) {
                    Ok(v) => v,
                    Err(e) => {
                        return Err(e);
                    },
                };
                let port = match opt_u16_field(slot_value(pairs, &slots, 5, Ghost(kv)), "port") {
                    Ok(v) => v,
                    Err(e) => {
                        return Err(e);
                    },
                };
                Ok(
                    BackendRef {
                        weight,
                        inner: BackendObjectReference { group, kind, name, namespace, port },
                    },
                )
            },
            _ => Err(DecodeError::WrongType(String::from_str("BackendRef"))),
        }
    }

    fn encode(&self) -> (j: Json)
        ensures
            j.deep_view() == spec_encode_backend_ref(self.deep_view()),
    {
        let mut obj: Vec<(String, Json)> = Vec::new();
        if let Some(w) = &self.weight {
            obj.push((String::from_str("weight"), Json::Int(*w as i64)));
        }
        if let Some(g) = &self.inner.group {
            obj.push((String::from_str("group"), Json::Str(g.clone())));
        }
        if let Some(k) = &self.inner.kind {
            obj.push((String::from_str("kind"), Json::Str(k.clone())));
        }
        obj.push((String::from_str("name"), Json::Str(self.inner.name.clone())));
        if let Some(ns) = &self.inner.namespace {
            obj.push((String::from_str("namespace"), Json::Str(ns.clone())));
        }
        if let Some(p) = &self.inner.port {
            obj.push((String::from_str("port"), Json::Int(*p as i64)));
        }
        proof {
            broadcast use lemma_json_pair_seq_view;

            reveal_with_fuel(obj_of, 8);
            assert(json_pair_seq_view(obj@) =~= obj_of(backend_ref_flat_fields(self.deep_view())));
        }
        Json::Obj(obj)
    }

    proof fn lemma_round_trip(b: BackendRefView)
        ensures
            spec_decode_backend_ref(spec_encode_backend_ref(b)) == Ok::<BackendRefView, ErrorView>(
                b,
            ),
    {
        lemma_backend_ref_literals();
        let fields = backend_ref_flat_fields(b);
        let keys = backend_ref_flat_keys();
        assert(fields_distinct(fields));
        assert(fields_within(fields, keys)) by {
            assert forall|i: int| 0 <= i < fields.len() implies keys.contains(
                (#[trigger] fields[i]).0,
            ) by {
                if i == 0 {
                    assert(keys[0] == fields[0].0);
                } else if i == 1 {
                    assert(keys[1] == fields[1].0);
                } else if i == 2 {
                    assert(keys[2] == fields[2].0);
                } else if i == 3 {
                    assert(keys[3] == fields[3].0);
                } else if i == 4 {
                    assert(keys[4] == fields[4].0);
                } else {
                    assert(keys[5] == fields[5].0);
                }
            }
        }
        lemma_obj_of_scan(fields, keys, false);
        lemma_obj_of_field_at(fields, 0);
        lemma_obj_of_field_at(fields, 1);
        lemma_obj_of_field_at(fields, 2);
        lemma_obj_of_field_at(fields, 3);
        lemma_obj_of_field_at(fields, 4);
        lemma_obj_of_field_at(fields, 5);
    }
}

/// RouteParentStatus describes the status of a route with respect to one
/// parent.
#[derive(Clone, Debug, PartialEq)]
pub struct RouteParentStatus {
    /// The parent this status describes.
    pub parent_ref: ParentReference,
    /// The controller that wrote this status.
    pub controller_name: GatewayController,
    /// The route's conditions with respect to this parent.
    pub conditions: Vec<Condition>,
}

/// RouteStatus defines the common attributes of every route's status:
/// one entry per parent the route is associated with.
#[derive(Clone, Debug, PartialEq)]
pub struct RouteStatus {
    /// The parents of the route and its status with respect to each.
    pub parents: Vec<RouteParentStatus>,
}

} // verus!

verus! {

/// A label-selector requirement, as the cluster's metadata machinery
/// defines it: a key, an operator, and the values the operator applies
/// to.
#[derive(Clone, Debug, PartialEq)]
pub struct LabelSelectorRequirement {
    /// The label key the requirement applies to.
    pub key: String,
    /// The operator: `"In"`, `"NotIn"`, `"Exists"`, or `"DoesNotExist"`.
    pub operator: String,
    /// The values compared against; absent for existence operators.
    pub values: Option<Vec<String>>,
}

/// A label selector over sets of resources, carried here as plain
/// values: the match-labels pairs are a key-unique map written as a
/// list.
#[derive(Clone, Debug, Default, PartialEq)]
pub struct LabelSelector {
    /// Requirements ANDed together.
    pub match_expressions: Option<Vec<LabelSelectorRequirement>>,
    /// Exact key/value pairs, each key given once.
    pub match_labels: Option<Vec<(AnnotationKey, AnnotationValue)>>,
}

} // verus!

verus! {

/// The mathematical shape of a [`Condition`].
pub struct ConditionView {
    pub type_: Seq<char>,
    pub status: Seq<char>,
    pub observed_generation: Option<i64>,
    pub last_transition_time: Seq<char>,
    pub reason: Seq<char>,
    pub message: Seq<char>,
}

impl DeepView for Condition {
    type V = ConditionView;

    open spec fn deep_view(&self) -> ConditionView {
        ConditionView {
            type_: self.type_@,
            status: self.status@,
            observed_generation: self.observed_generation,
            last_transition_time: self.last_transition_time@,
            reason: self.reason@,
            message: self.message@,
        }
    }
}

pub open spec fn condition_keys() -> Seq<Seq<char>> {
    seq!["type"@, "status"@, "observedGeneration"@, "lastTransitionTime"@, "reason"@, "message"@]
}

/// What decoding a condition yields: everything required but the
/// observed generation.
pub open spec fn spec_decode_condition(v: JsonView) -> Result<ConditionView, ErrorView> {
    match v {
        JsonView::Obj(pairs) => match spec_scan(pairs, condition_keys(), false) {
            Some(e) => Err(e),
            None => match spec_req_str(spec_field(pairs, "type"@), "type"@) {
                Err(e) => Err(e),
                Ok(type_) => match spec_req_str(spec_field(pairs, "status"@), "status"@) {
                    Err(e) => Err(e),
                    Ok(status) => match spec_opt_i64(
                        spec_field(pairs, "observedGeneration"@),
                        "observedGeneration"@,
                    ) {
                        Err(e) => Err(e),
                        Ok(observed_generation) => match spec_req_str(
                            spec_field(pairs, "lastTransitionTime"@),
                            "lastTransitionTime"@,
                        ) {
                            Err(e) => Err(e),
                            Ok(last_transition_time) => match spec_req_str(
                                spec_field(pairs, "reason"@),
                                "reason"@,
                            ) {
                                Err(e) => Err(e),
                                Ok(reason) => match spec_req_str(
                                    spec_field(pairs, "message"@),
                                    "message"@,
                                ) {
                                    Err(e) => Err(e),
                                    Ok(message) => Ok(
                                        ConditionView {
                                            type_,
                                            status,
                                            observed_generation,
                                            last_transition_time,
                                            reason,
                                            message,
                                        },
                                    ),
                                },
                            },
                        },
                    },
                },
            },
        },
        _ => Err(ErrorView::WrongType("Condition"@)),
    }
}

/// A 64-bit signed field as an encoder emits it.
pub open spec fn i64_entry(v: Option<i64>) -> Option<JsonView> {
    match v {
        Some(n) => Some(JsonView::Int(n)),
        None => None,
    }
}

pub open spec fn condition_fields(c: ConditionView) -> Seq<(Seq<char>, Option<JsonView>)> {
    seq![
        ("type"@, Some(JsonView::Str(c.type_))),
        ("status"@, Some(JsonView::Str(c.status))),
        ("observedGeneration"@, i64_entry(c.observed_generation)),
        ("lastTransitionTime"@, Some(JsonView::Str(c.last_transition_time))),
        ("reason"@, Some(JsonView::Str(c.reason))),
        ("message"@, Some(JsonView::Str(c.message))),
    ]
}

pub open spec fn spec_encode_condition(c: ConditionView) -> JsonView {
    JsonView::Obj(obj_of(condition_fields(c)))
}

proof fn lemma_condition_literals()
    ensures
        keys_distinct(condition_keys()),
{
    reveal_strlit("type");
    reveal_strlit("status");
    reveal_strlit("observedGeneration");
    reveal_strlit("lastTransitionTime");
    reveal_strlit("reason");
    reveal_strlit("message");
    assert("type"@.len() == 4);
    assert("status"@.len() == 6);
    assert("observedGeneration"@.len() == 18);
    assert("lastTransitionTime"@.len() == 18);
    assert("reason"@.len() == 6);
    assert("message"@.len() == 7);
    assert("status"@[0] != "reason"@[0]);
    assert("observedGeneration"@[0] != "lastTransitionTime"@[0]);
    let keys = condition_keys();
    assert forall|i: int, j: int| 0 <= i < j < keys.len() implies keys[i] != keys[j] by {
        assert(keys[1] != keys[4]);
        assert(keys[2] != keys[3]);
    }
}

fn condition_keys_exec() -> (r: Vec<String>)
    ensures
        r.deep_view() == condition_keys(),
        keys_distinct(condition_keys()),
{
    let r = vec![
        String::from_str("type"),
        String::from_str("status"),
        String::from_str("observedGeneration"),
        String::from_str("lastTransitionTime"),
        String::from_str("reason"),
        String::from_str("message"),
    ];
    proof {
        lemma_condition_literals();
        assert(r.deep_view() =~= condition_keys());
    }
    r
}

impl Codec for Condition {
    open spec fn spec_decode(v: JsonView) -> Result<ConditionView, ErrorView> {
        spec_decode_condition(v)
    }

    open spec fn spec_encode(c: ConditionView) -> JsonView {
        spec_encode_condition(c)
    }

    open spec fn wf(c: ConditionView) -> bool {
        true
    }

    fn decode(j: &Json) -> (r: Result<Self, DecodeError>)
        ensures
            res_view(r) == spec_decode_condition(j.deep_view()),
    {
        match j {
            Json::Obj(pairs) => {
                let ghost kv = condition_keys();
                let keys = condition_keys_exec();
                let slots = match lookup_fields(pairs, &keys, false) {
                    Ok(s) => s,
                    Err(e) => {
                        return Err(e);
                    },
                };
                proof {
                    assert(kv[0] == "type"@);
                    assert(kv[1] == "status"@);
                    assert(kv[2] == "observedGeneration"@);
                    assert(kv[3] == "lastTransitionTime"@);
                    assert(kv[4] == "reason"@);
                    assert(kv[5] == "message"@);
                }
                let type_ = match req_str_field(slot_value(pairs, &slots, 0, Ghost(kv)), "type") {
                    Ok(v) => v,
                    Err(e) => {
                        return Err(e);
                    },
                };
                let status = match req_str_field(slot_value(pairs, &slots, 1, Ghost(kv)), "status")
                    {
                    Ok(v) => v,
                    Err(e) => {
                        return Err(e);
                    },
                };
                let observed_generation = match opt_i64_field(
                    slot_value(pairs, &slots, 2, Ghost(kv)),
                    "observedGeneration",
                ) {
                    Ok(v) => v,
                    Err(e) => {
                        return Err(e);
                    },
                };
                let last_transition_time = match req_str_field(
                    slot_value(pairs, &slots, 3, Ghost(kv)),
                    "lastTransitionTime",
                ) {
                    Ok(v) => v,
                    Err(e) => {
                        return Err(e);
                    },
                };
                let reason = match req_str_field(slot_value(pairs, &slots, 4, Ghost(kv)), "reason")
                    {
                    Ok(v) => v,
                    Err(e) => {
                        return Err(e);
                    },
                };
                let message = match req_str_field(
                    slot_value(pairs, &slots, 5, Ghost(kv)),
                    "message",
                ) {
                    Ok(v) => v,
                    Err(e) => {
                        return Err(e);
                    },
                };
                Ok(
                    Condition {
                        type_,
                        status,
                        observed_generation,
                        last_transition_time,
                        reason,
                        message,
                    },
                )
            },
            _ => Err(DecodeError::WrongType(String::from_str("Condition"))),
        }
    }

    fn encode(&self) -> (j: Json)
        ensures
            j.deep_view() == spec_encode_condition(self.deep_view()),
    {
        let mut obj: Vec<(String, Json)> = Vec::new();
        obj.push((String::from_str("type"), Json::Str(self.type_.clone())));
        obj.push((String::from_str("status"), Json::Str(self.status.clone())));
        if let Some(g) = &self.observed_generation {
            obj.push((String::from_str("observedGeneration"), Json::Int(*g)));
        }
        obj.push(
            (
                String::from_str("lastTransitionTime"),
                Json::Str(self.last_transition_time.clone()),
            ),
        );
        obj.push((String::from_str("reason"), Json::Str(self.reason.clone())));
        obj.push((String::from_str("message"), Json::Str(self.message.clone())));
        proof {
            broadcast use lemma_json_pair_seq_view;

            reveal_with_fuel(obj_of, 8);
            assert(json_pair_seq_view(obj@) =~= obj_of(condition_fields(self.deep_view())));
        }
        Json::Obj(obj)
    }

    proof fn lemma_round_trip(c: ConditionView)
        ensures
            spec_decode_condition(spec_encode_condition(c)) == Ok::<ConditionView, ErrorView>(c),
    {
        lemma_condition_literals();
        let fields = condition_fields(c);
        let keys = condition_keys();
        assert(fields_distinct(fields));
        assert(fields_within(fields, keys)) by {
            assert forall|i: int| 0 <= i < fields.len() implies keys.contains(
                (#[trigger] fields[i]).0,
            ) by {
                if i == 0 {
                    assert(keys[0] == fields[0].0);
                } else if i == 1 {
                    assert(keys[1] == fields[1].0);
                } else if i == 2 {
                    assert(keys[2] == fields[2].0);
                } else if i == 3 {
                    assert(keys[3] == fields[3].0);
                } else if i == 4 {
                    assert(keys[4] == fields[4].0);
                } else {
                    assert(keys[5] == fields[5].0);
                }
            }
        }
        lemma_obj_of_scan(fields, keys, false);
        lemma_obj_of_field_at(fields, 0);
        lemma_obj_of_field_at(fields, 1);
        lemma_obj_of_field_at(fields, 2);
        lemma_obj_of_field_at(fields, 3);
        lemma_obj_of_field_at(fields, 4);
        lemma_obj_of_field_at(fields, 5);
    }
}

/// The mathematical shape of a [`RouteParentStatus`].
pub struct RouteParentStatusView {
    pub parent_ref: ParentReferenceView,
    pub controller_name: Seq<char>,
    pub conditions: Seq<ConditionView>,
}

impl DeepView for RouteParentStatus {
    type V = RouteParentStatusView;

    open spec fn deep_view(&self) -> RouteParentStatusView {
        RouteParentStatusView {
            parent_ref: self.parent_ref.deep_view(),
            controller_name: self.controller_name@,
            conditions: self.conditions.deep_view(),
        }
    }
}

pub open spec fn parent_status_keys() -> Seq<Seq<char>> {
    seq!["parentRef"@, "controllerName"@, "conditions"@]
}

/// What decoding one parent's route status yields: all three fields
/// required.
pub open spec fn spec_decode_parent_status(v: JsonView) -> Result<RouteParentStatusView, ErrorView> {
    match v {
        JsonView::Obj(pairs) => match spec_scan(pairs, parent_status_keys(), false) {
            Some(e) => Err(e),
            None => match spec_req_val::<ParentReference>(
                spec_field(pairs, "parentRef"@),
                "parentRef"@,
            ) {
                Err(e) => Err(e),
                Ok(parent_ref) => match spec_req_str(
                    spec_field(pairs, "controllerName"@),
                    "controllerName"@,
                ) {
                    Err(e) => Err(e),
                    Ok(controller_name) => match spec_req_list::<Condition>(
                        spec_field(pairs, "conditions"@),
                        "conditions"@,
                    ) {
                        Err(e) => Err(e),
                        Ok(conditions) => Ok(
                            RouteParentStatusView { parent_ref, controller_name, conditions },
                        ),
                    },
                },
            },
        },
        _ => Err(ErrorView::WrongType("RouteParentStatus"@)),
    }
}

pub open spec fn parent_status_fields(s: RouteParentStatusView) -> Seq<
    (Seq<char>, Option<JsonView>),
> {
    seq![
        ("parentRef"@, Some(spec_encode_parent_ref(s.parent_ref))),
        ("controllerName"@, Some(JsonView::Str(s.controller_name))),
        ("conditions"@, Some(JsonView::Arr(spec_encode_seq::<Condition>(s.conditions)))),
    ]
}

pub open spec fn spec_encode_parent_status(s: RouteParentStatusView) -> JsonView {
    JsonView::Obj(obj_of(parent_status_fields(s)))
}

proof fn lemma_status_literals()
    ensures
        keys_distinct(parent_status_keys()),
        keys_distinct(route_status_keys()),
{
    reveal_strlit("parentRef");
    reveal_strlit("controllerName");
    reveal_strlit("conditions");
    reveal_strlit("parents");
    assert("parentRef"@.len() == 9);
    assert("controllerName"@.len() == 14);
    assert("conditions"@.len() == 10);
    assert("parents"@.len() == 7);
    let keys = parent_status_keys();
    assert forall|i: int, j: int| 0 <= i < j < keys.len() implies keys[i] != keys[j] by {
        assert(keys[0] != keys[1]);
        assert(keys[0] != keys[2]);
        assert(keys[1] != keys[2]);
    }
}

fn parent_status_keys_exec() -> (r: Vec<String>)
    ensures
        r.deep_view() == parent_status_keys(),
        keys_distinct(parent_status_keys()),
{
    let r = vec![
        String::from_str("parentRef"),
        String::from_str("controllerName"),
        String::from_str("conditions"),
    ];
    proof {
        lemma_status_literals();
        assert(r.deep_view() =~= parent_status_keys());
    }
    r
}

impl Codec for RouteParentStatus {
    open spec fn spec_decode(v: JsonView) -> Result<RouteParentStatusView, ErrorView> {
        spec_decode_parent_status(v)
    }

    open spec fn spec_encode(s: RouteParentStatusView) -> JsonView {
        spec_encode_parent_status(s)
    }

    open spec fn wf(s: RouteParentStatusView) -> bool {
        true
    }

    fn decode(j: &Json) -> (r: Result<Self, DecodeError>)
        ensures
            res_view(r) == spec_decode_parent_status(j.deep_view()),
    {
        match j {
            Json::Obj(pairs) => {
                let ghost kv = parent_status_keys();
                let keys = parent_status_keys_exec();
                let slots = match lookup_fields(pairs, &keys, false) {
                    Ok(s) => s,
                    Err(e) => {
                        return Err(e);
                    },
                };
                proof {
                    assert(kv[0] == "parentRef"@);
                    assert(kv[1] == "controllerName"@);
                    assert(kv[2] == "conditions"@);
                }
                let parent_ref = match req_val_field::<ParentReference>(
                    slot_value(pairs, &slots, 0, Ghost(kv)),
                    "parentRef",
                ) {
                    Ok(v) => v,
                    Err(e) => {
                        return Err(e);
                    },
                };
                let controller_name = match req_str_field(
                    slot_value(pairs, &slots, 1, Ghost(kv)),
                    "controllerName",
                ) {
                    Ok(v) => v,
                    Err(e) => {
                        return Err(e);
                    },
                };
                let conditions = match req_list_field::<Condition>(
                    slot_value(pairs, &slots, 2, Ghost(kv)),
                    "conditions",
                ) {
                    Ok(v) => v,
                    Err(e) => {
                        return Err(e);
                    },
                };
                Ok(RouteParentStatus { parent_ref, controller_name, conditions })
            },
            _ => Err(DecodeError::WrongType(String::from_str("RouteParentStatus"))),
        }
    }

    fn encode(&self) -> (j: Json)
        ensures
            j.deep_view() == spec_encode_parent_status(self.deep_view()),
    {
        let mut obj: Vec<(String, Json)> = Vec::new();
        obj.push((String::from_str("parentRef"), self.parent_ref.encode()));
        obj.push((String::from_str("controllerName"), Json::Str(self.controller_name.clone())));
        obj.push(
            (String::from_str("conditions"), Json::Arr(encode_vec::<Condition>(&self.conditions))),
        );
        proof {
            broadcast use lemma_json_pair_seq_view;

            reveal_with_fuel(obj_of, 5);
            assert(json_pair_seq_view(obj@) =~= obj_of(parent_status_fields(self.deep_view())));
        }
        Json::Obj(obj)
    }

    proof fn lemma_round_trip(s: RouteParentStatusView)
        ensures
            spec_decode_parent_status(spec_encode_parent_status(s)) == Ok::<
                RouteParentStatusView,
                ErrorView,
            >(s),
    {
        lemma_status_literals();
        let fields = parent_status_fields(s);
        let keys = parent_status_keys();
        assert(fields_distinct(fields));
        assert(fields_within(fields, keys)) by {
            assert forall|i: int| 0 <= i < fields.len() implies keys.contains(
                (#[trigger] fields[i]).0,
            ) by {
                if i == 0 {
                    assert(keys[0] == fields[0].0);
                } else if i == 1 {
                    assert(keys[1] == fields[1].0);
                } else {
                    assert(keys[2] == fields[2].0);
                }
            }
        }
        lemma_obj_of_scan(fields, keys, false);
        lemma_obj_of_field_at(fields, 0);
        lemma_obj_of_field_at(fields, 1);
        lemma_obj_of_field_at(fields, 2);
        ParentReference::lemma_round_trip(s.parent_ref);
        lemma_seq_round_trip::<Condition>(s.conditions);
    }
}

/// The mathematical shape of a [`RouteStatus`].
pub struct RouteStatusView {
    pub parents: Seq<RouteParentStatusView>,
}

impl DeepView for RouteStatus {
    type V = RouteStatusView;

    open spec fn deep_view(&self) -> RouteStatusView {
        RouteStatusView { parents: self.parents.deep_view() }
    }
}

pub open spec fn route_status_keys() -> Seq<Seq<char>> {
    seq!["parents"@]
}

/// What decoding a route status yields: the required parent list.
pub open spec fn spec_decode_route_status(v: JsonView) -> Result<RouteStatusView, ErrorView> {
    match v {
        JsonView::Obj(pairs) => match spec_scan(pairs, route_status_keys(), false) {
            Some(e) => Err(e),
            None => match spec_req_list::<RouteParentStatus>(
                spec_field(pairs, "parents"@),
                "parents"@,
            ) {
                Err(e) => Err(e),
                Ok(parents) => Ok(RouteStatusView { parents }),
            },
        },
        _ => Err(ErrorView::WrongType("RouteStatus"@)),
    }
}

pub open spec fn route_status_fields(s: RouteStatusView) -> Seq<(Seq<char>, Option<JsonView>)> {
    seq![("parents"@, Some(JsonView::Arr(spec_encode_seq::<RouteParentStatus>(s.parents))))]
}

pub open spec fn spec_encode_route_status(s: RouteStatusView) -> JsonView {
    JsonView::Obj(obj_of(route_status_fields(s)))
}

fn route_status_keys_exec() -> (r: Vec<String>)
    ensures
        r.deep_view() == route_status_keys(),
        keys_distinct(route_status_keys()),
{
    let r = vec![String::from_str("parents")];
    proof {
        assert(r.deep_view() =~= route_status_keys());
    }
    r
}

impl Codec for RouteStatus {
    open spec fn spec_decode(v: JsonView) -> Result<RouteStatusView, ErrorView> {
        spec_decode_route_status(v)
    }

    open spec fn spec_encode(s: RouteStatusView) -> JsonView {
        spec_encode_route_status(s)
    }

    open spec fn wf(s: RouteStatusView) -> bool {
        true
    }

    fn decode(j: &Json) -> (r: Result<Self, DecodeError>)
        ensures
            res_view(r) == spec_decode_route_status(j.deep_view()),
    {
        match j {
            Json::Obj(pairs) => {
                let ghost kv = route_status_keys();
                let keys = route_status_keys_exec();
                let slots = match lookup_fields(pairs, &keys, false) {
                    Ok(s) => s,
                    Err(e) => {
                        return Err(e);
                    },
                };
                proof {
                    assert(kv[0] == "parents"@);
                }
                let parents = match req_list_field::<RouteParentStatus>(
                    slot_value(pairs, &slots, 0, Ghost(kv)),
                    "parents",
                ) {
                    Ok(v) => v,
                    Err(e) => {
                        return Err(e);
                    },
                };
                Ok(RouteStatus { parents })
            },
            _ => Err(DecodeError::WrongType(String::from_str("RouteStatus"))),
        }
    }

    fn encode(&self) -> (j: Json)
        ensures
            j.deep_view() == spec_encode_route_status(self.deep_view()),
    {
        let mut obj: Vec<(String, Json)> = Vec::new();
        obj.push(
            (String::from_str("parents"), Json::Arr(encode_vec::<RouteParentStatus>(&self.parents))),
        );
        proof {
            broadcast use lemma_json_pair_seq_view;

            reveal_with_fuel(obj_of, 3);
            assert(json_pair_seq_view(obj@) =~= obj_of(route_status_fields(self.deep_view())));
        }
        Json::Obj(obj)
    }

    proof fn lemma_round_trip(s: RouteStatusView)
        ensures
            spec_decode_route_status(spec_encode_route_status(s)) == Ok::<
                RouteStatusView,
                ErrorView,
            >(s),
    {
        let fields = route_status_fields(s);
        let keys = route_status_keys();
        assert(fields_distinct(fields));
        assert(fields_within(fields, keys)) by {
            assert forall|i: int| 0 <= i < fields.len() implies keys.contains(
                (#[trigger] fields[i]).0,
            ) by {
                assert(keys[0] == fields[0].0);
            }
        }
        lemma_obj_of_scan(fields, keys, false);
        lemma_obj_of_field_at(fields, 0);
        lemma_seq_round_trip::<RouteParentStatus>(s.parents);
    }
}

} // verus!

verus! {

/// The mathematical shape of a [`LabelSelectorRequirement`].
pub struct LabelSelectorRequirementView {
    pub key: Seq<char>,
    pub operator: Seq<char>,
    pub values: Option<Seq<Seq<char>>>,
}

impl DeepView for LabelSelectorRequirement {
    type V = LabelSelectorRequirementView;

    open spec fn deep_view(&self) -> LabelSelectorRequirementView {
        LabelSelectorRequirementView {
            key: self.key@,
            operator: self.operator@,
            values: self.values.deep_view(),
        }
    }
}

pub open spec fn selector_req_keys() -> Seq<Seq<char>> {
    seq!["key"@, "operator"@, "values"@]
}

/// What decoding a selector requirement yields: key and operator
/// required, values optional.
pub open spec fn spec_decode_selector_req(v: JsonView) -> Result<
    LabelSelectorRequirementView,
    ErrorView,
> {
    match v {
        JsonView::Obj(pairs) => match spec_scan(pairs, selector_req_keys(), false) {
            Some(e) => Err(e),
            None => match spec_req_str(spec_field(pairs, "key"@), "key"@) {
                Err(e) => Err(e),
                Ok(key) => match spec_req_str(spec_field(pairs, "operator"@), "operator"@) {
                    Err(e) => Err(e),
                    Ok(operator) => match spec_opt_list::<String>(
                        spec_field(pairs, "values"@),
                        "values"@,
                    ) {
                        Err(e) => Err(e),
                        Ok(values) => Ok(LabelSelectorRequirementView { key, operator, values }),
                    },
                },
            },
        },
        _ => Err(ErrorView::WrongType("LabelSelectorRequirement"@)),
    }
}

pub open spec fn selector_req_fields(r: LabelSelectorRequirementView) -> Seq<
    (Seq<char>, Option<JsonView>),
> {
    seq![
        ("key"@, Some(JsonView::Str(r.key))),
        ("operator"@, Some(JsonView::Str(r.operator))),
        ("values"@, list_entry::<String>(r.values)),
    ]
}

pub open spec fn spec_encode_selector_req(r: LabelSelectorRequirementView) -> JsonView {
    JsonView::Obj(obj_of(selector_req_fields(r)))
}

proof fn lemma_selector_literals()
    ensures
        keys_distinct(selector_req_keys()),
        keys_distinct(selector_keys()),
{
    reveal_strlit("key");
    reveal_strlit("operator");
    reveal_strlit("values");
    reveal_strlit("matchExpressions");
    reveal_strlit("matchLabels");
    assert("key"@.len() == 3);
    assert("operator"@.len() == 8);
    assert("values"@.len() == 6);
    assert("matchExpressions"@.len() == 16);
    assert("matchLabels"@.len() == 11);
    let k1 = selector_req_keys();
    assert forall|i: int, j: int| 0 <= i < j < k1.len() implies k1[i] != k1[j] by {
        assert(k1[0] != k1[1]);
        assert(k1[0] != k1[2]);
        assert(k1[1] != k1[2]);
    }
    let k2 = selector_keys();
    assert forall|i: int, j: int| 0 <= i < j < k2.len() implies k2[i] != k2[j] by {
        assert(k2[0] != k2[1]);
    }
}

fn selector_req_keys_exec() -> (r: Vec<String>)
    ensures
        r.deep_view() == selector_req_keys(),
        keys_distinct(selector_req_keys()),
{
    let r = vec![String::from_str("key"), String::from_str("operator"), String::from_str("values")];
    proof {
        lemma_selector_literals();
        assert(r.deep_view() =~= selector_req_keys());
    }
    r
}

impl Codec for LabelSelectorRequirement {
    open spec fn spec_decode(v: JsonView) -> Result<LabelSelectorRequirementView, ErrorView> {
        spec_decode_selector_req(v)
    }

    open spec fn spec_encode(r: LabelSelectorRequirementView) -> JsonView {
        spec_encode_selector_req(r)
    }

    open spec fn wf(r: LabelSelectorRequirementView) -> bool {
        true
    }

    fn decode(j: &Json) -> (r: Result<Self, DecodeError>)
        ensures
            res_view(r) == spec_decode_selector_req(j.deep_view()),
    {
        match j {
            Json::Obj(pairs) => {
                let ghost kv = selector_req_keys();
                let keys = selector_req_keys_exec();
                let slots = match lookup_fields(pairs, &keys, false) {
                    Ok(s) => s,
                    Err(e) => {
                        return Err(e);
                    },
                };
                proof {
                    assert(kv[0] == "key"@);
                    assert(kv[1] == "operator"@);
                    assert(kv[2] == "values"@);
                }
                let key = match req_str_field(slot_value(pairs, &slots, 0, Ghost(kv)), "key") {
                    Ok(v) => v,
                    Err(e) => {
                        return Err(e);
                    },
                };
                let operator = match req_str_field(
                    slot_value(pairs, &slots, 1, Ghost(kv)),
                    "operator",
                ) {
                    Ok(v) => v,
                    Err(e) => {
                        return Err(e);
                    },
                };
                let values = match opt_list_field::<String>(
                    slot_value(pairs, &slots, 2, Ghost(kv)),
                    "values",
                ) {
                    Ok(v) => v,
                    Err(e) => {
                        return Err(e);
                    },
                };
                Ok(LabelSelectorRequirement { key, operator, values })
            },
            _ => Err(DecodeError::WrongType(String::from_str("LabelSelectorRequirement"))),
        }
    }

    fn encode(&self) -> (j: Json)
        ensures
            j.deep_view() == spec_encode_selector_req(self.deep_view()),
    {
        let mut obj: Vec<(String, Json)> = Vec::new();
        obj.push((String::from_str("key"), Json::Str(self.key.clone())));
        obj.push((String::from_str("operator"), Json::Str(self.operator.clone())));
        if let Some(vs) = &self.values {
            obj.push((String::from_str("values"), Json::Arr(encode_vec::<String>(vs))));
        }
        proof {
            broadcast use lemma_json_pair_seq_view;

            reveal_with_fuel(obj_of, 5);
            assert(json_pair_seq_view(obj@) =~= obj_of(selector_req_fields(self.deep_view())));
        }
        Json::Obj(obj)
    }

    proof fn lemma_round_trip(r: LabelSelectorRequirementView)
        ensures
            spec_decode_selector_req(spec_encode_selector_req(r)) == Ok::<
                LabelSelectorRequirementView,
                ErrorView,
            >(r),
    {
        lemma_selector_literals();
        let fields = selector_req_fields(r);
        let keys = selector_req_keys();
        assert(fields_distinct(fields));
        assert(fields_within(fields, keys)) by {
            assert forall|i: int| 0 <= i < fields.len() implies keys.contains(
                (#[trigger] fields[i]).0,
            ) by {
                if i == 0 {
                    assert(keys[0] == fields[0].0);
                } else if i == 1 {
                    assert(keys[1] == fields[1].0);
                } else {
                    assert(keys[2] == fields[2].0);
                }
            }
        }
        lemma_obj_of_scan(fields, keys, false);
        lemma_obj_of_field_at(fields, 0);
        lemma_obj_of_field_at(fields, 1);
        lemma_obj_of_field_at(fields, 2);
        if r.values is Some {
            lemma_seq_round_trip::<String>(r.values->0);
        }
    }
}

/// The mathematical shape of a [`LabelSelector`].
pub struct LabelSelectorView {
    pub match_expressions: Option<Seq<LabelSelectorRequirementView>>,
    pub match_labels: Option<Seq<(Seq<char>, Seq<char>)>>,
}

impl DeepView for LabelSelector {
    type V = LabelSelectorView;

    open spec fn deep_view(&self) -> LabelSelectorView {
        LabelSelectorView {
            match_expressions: self.match_expressions.deep_view(),
            match_labels: self.match_labels.deep_view(),
        }
    }
}

pub open spec fn selector_keys() -> Seq<Seq<char>> {
    seq!["matchExpressions"@, "matchLabels"@]
}

/// What decoding a label selector yields: both fields optional, the
/// labels read as a string map in document order.
pub open spec fn spec_decode_selector(v: JsonView) -> Result<LabelSelectorView, ErrorView> {
    match v {
        JsonView::Obj(pairs) => match spec_scan(pairs, selector_keys(), false) {
            Some(e) => Err(e),
            None => match spec_opt_list::<LabelSelectorRequirement>(
                spec_field(pairs, "matchExpressions"@),
                "matchExpressions"@,
            ) {
                Err(e) => Err(e),
                Ok(match_expressions) => match spec_opt_str_map(
                    spec_field(pairs, "matchLabels"@),
                    "matchLabels"@,
                ) {
                    Err(e) => Err(e),
                    Ok(match_labels) => Ok(LabelSelectorView { match_expressions, match_labels }),
                },
            },
        },
        _ => Err(ErrorView::WrongType("LabelSelector"@)),
    }
}

pub open spec fn selector_fields(s: LabelSelectorView) -> Seq<(Seq<char>, Option<JsonView>)> {
    seq![
        ("matchExpressions"@, list_entry::<LabelSelectorRequirement>(s.match_expressions)),
        ("matchLabels"@, str_map_entry(s.match_labels)),
    ]
}

pub open spec fn spec_encode_selector(s: LabelSelectorView) -> JsonView {
    JsonView::Obj(obj_of(selector_fields(s)))
}

fn selector_keys_exec() -> (r: Vec<String>)
    ensures
        r.deep_view() == selector_keys(),
        keys_distinct(selector_keys()),
{
    let r = vec![String::from_str("matchExpressions"), String::from_str("matchLabels")];
    proof {
        lemma_selector_literals();
        assert(r.deep_view() =~= selector_keys());
    }
    r
}

impl Codec for LabelSelector {
    open spec fn spec_decode(v: JsonView) -> Result<LabelSelectorView, ErrorView> {
        spec_decode_selector(v)
    }

    open spec fn spec_encode(s: LabelSelectorView) -> JsonView {
        spec_encode_selector(s)
    }

    open spec fn wf(s: LabelSelectorView) -> bool {
        match s.match_labels {
            Some(ls) => forall|i: int, j: int| 0 <= i < j < ls.len() ==> ls[i].0 != ls[j].0,
            None => true,
        }
    }

    fn decode(j: &Json) -> (r: Result<Self, DecodeError>)
        ensures
            res_view(r) == spec_decode_selector(j.deep_view()),
    {
        match j {
            Json::Obj(pairs) => {
                let ghost kv = selector_keys();
                let keys = selector_keys_exec();
                let slots = match lookup_fields(pairs, &keys, false) {
                    Ok(s) => s,
                    Err(e) => {
                        return Err(e);
                    },
                };
                proof {
                    assert(kv[0] == "matchExpressions"@);
                    assert(kv[1] == "matchLabels"@);
                }
                let match_expressions = match opt_list_field::<LabelSelectorRequirement>(
                    slot_value(pairs, &slots, 0, Ghost(kv)),
                    "matchExpressions",
                ) {
                    Ok(v) => v,
                    Err(e) => {
                        return Err(e);
                    },
                };
                let match_labels = match opt_str_map_field(
                    slot_value(pairs, &slots, 1, Ghost(kv)),
                    "matchLabels",
                ) {
                    Ok(v) => v,
                    Err(e) => {
                        return Err(e);
                    },
                };
                proof {
                    match &match_labels {
                        Some(entries) => {
                            assert(Seq::new(
                                entries@.len(),
                                |i: int| (entries@[i].0@, entries@[i].1@),
                            ) =~= entries.deep_view());
                        },
                        None => {},
                    }
                }
                Ok(LabelSelector { match_expressions, match_labels })
            },
            _ => Err(DecodeError::WrongType(String::from_str("LabelSelector"))),
        }
    }

    fn encode(&self) -> (j: Json)
        ensures
            j.deep_view() == spec_encode_selector(self.deep_view()),
    {
        let mut obj: Vec<(String, Json)> = Vec::new();
        if let Some(es) = &self.match_expressions {
            obj.push(
                (
                    String::from_str("matchExpressions"),
                    Json::Arr(encode_vec::<LabelSelectorRequirement>(es)),
                ),
            );
        }
        if let Some(ls) = &self.match_labels {
            let m = encode_str_map(ls);
            proof {
                assert(Seq::new(ls@.len(), |i: int| (ls@[i].0@, JsonView::Str(ls@[i].1@))) =~= (
                match str_map_entry(self.deep_view().match_labels) {
                    Some(JsonView::Obj(ps)) => ps,
                    _ => Seq::empty(),
                }));
            }
            obj.push((String::from_str("matchLabels"), m));
        }
        proof {
            broadcast use lemma_json_pair_seq_view;

            reveal_with_fuel(obj_of, 4);
            assert(json_pair_seq_view(obj@) =~= obj_of(selector_fields(self.deep_view())));
        }
        Json::Obj(obj)
    }

    proof fn lemma_round_trip(s: LabelSelectorView)
        ensures
            spec_decode_selector(spec_encode_selector(s)) == Ok::<LabelSelectorView, ErrorView>(s),
    {
        lemma_selector_literals();
        let fields = selector_fields(s);
        let keys = selector_keys();
        assert(fields_distinct(fields));
        assert(fields_within(fields, keys)) by {
            assert forall|i: int| 0 <= i < fields.len() implies keys.contains(
                (#[trigger] fields[i]).0,
            ) by {
                if i == 0 {
                    assert(keys[0] == fields[0].0);
                } else {
                    assert(keys[1] == fields[1].0);
                }
            }
        }
        lemma_obj_of_scan(fields, keys, false);
        lemma_obj_of_field_at(fields, 0);
        lemma_obj_of_field_at(fields, 1);
        if s.match_expressions is Some {
            lemma_seq_round_trip::<LabelSelectorRequirement>(s.match_expressions->0);
        }
        if s.match_labels is Some {
            lemma_str_map_round_trip(s.match_labels->0);
        }
    }
}

} // verus!
