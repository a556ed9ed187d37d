//! The GatewayClass resource: a class of Gateways a controller manages.

use vstd::prelude::*;

use crate::shared::{Condition, ConditionView, Group, Kind};
use crate::wire::{
    Codec, DecodeError, ErrorView, Json, JsonView, encode_vec, fields_distinct, fields_within,
    json_pair_seq_view, keys_distinct, lemma_json_pair_seq_view, lemma_obj_of_field_at,
    lemma_obj_of_scan, lemma_seq_round_trip, list_entry, lookup_fields, obj_of, opt_list_field,
    opt_str_field, opt_val_field, req_str_field, res_view, slot_value, spec_field, spec_opt_list,
    spec_opt_str, spec_opt_val, spec_req_str, spec_scan, str_entry, val_entry,
};

verus! {

/// GatewayController is the domain-prefixed path naming the controller
/// that manages Gateways of a class.
pub type GatewayController = String;

/// GatewayClassConditionType is a type of condition for a GatewayClass.
pub type GatewayClassConditionType = String;

/// GatewayClassConditionReason is a reason for a GatewayClass
/// condition.
pub type GatewayClassConditionReason = String;

/// SupportedFeature names a distinct feature covered by conformance
/// tests.
pub type SupportedFeature = String;

/// ParametersReference identifies a resource holding
/// controller-specific configuration.
#[derive(Clone, Debug, PartialEq)]
pub struct ParametersReference {
    /// Group of the referent.
    pub group: Group,
    /// Kind of the referent.
    pub kind: Kind,
    /// Name of the referent.
    pub name: String,
    /// Namespace of the referent; required for namespaced resources and
    /// absent for cluster-scoped ones.
    pub namespace: Option<String>,
}

/// The desired state of a GatewayClass.
#[derive(Clone, Debug, PartialEq)]
pub struct GatewayClassSpec {
    /// Name of the controller managing Gateways of this class; a
    /// domain-prefixed path, immutable and never empty.
    pub controller_name: GatewayController,
    /// The configuration parameters for this class, if the controller
    /// needs any.
    pub paramters_ref: Option<ParametersReference>,
    /// A description of this class.
    pub description: Option<String>,
}

/// The current status of a GatewayClass.
#[derive(Clone, Debug, PartialEq)]
pub struct GatewayClassStatus {
    /// Conditions from the controller for this class.
    pub conditions: Option<Vec<Condition>>,
    /// The features this class supports, in ascending alphabetical
    /// order.
    pub supported_features: Option<Vec<SupportedFeature>>,
}

} // verus!

verus! {

/// The mathematical shape of a [`ParametersReference`].
pub struct ParametersReferenceView {
    pub group: Seq<char>,
    pub kind: Seq<char>,
    pub name: Seq<char>,
    pub namespace: Option<Seq<char>>,
}

impl DeepView for ParametersReference {
    type V = ParametersReferenceView;

    open spec fn deep_view(&self) -> ParametersReferenceView {
        ParametersReferenceView {
            group: self.group@,
            kind: self.kind@,
            name: self.name@,
            namespace: self.namespace.deep_view(),
        }
    }
}

pub open spec fn params_ref_keys() -> Seq<Seq<char>> {
    seq!["group"@, "kind"@, "name"@, "namespace"@]
}

/// What decoding a parameters reference yields: only `namespace` is
/// optional.
pub open spec fn spec_decode_params_ref(v: JsonView) -> Result<ParametersReferenceView, ErrorView> {
    match v {
        JsonView::Obj(pairs) => match spec_scan(pairs, params_ref_keys(), false) {
            Some(e) => Err(e),
            None => match spec_req_str(spec_field(pairs, "group"@), "group"@) {
                Err(e) => Err(e),
                Ok(group) => match spec_req_str(spec_field(pairs, "kind"@), "kind"@) {
                    Err(e) => Err(e),
                    Ok(kind) => match spec_req_str(spec_field(pairs, "name"@), "name"@) {
                        Err(e) => Err(e),
                        Ok(name) => match spec_opt_str(
                            spec_field(pairs, "namespace"@),
                            "namespace"@,
                        ) {
                            Err(e) => Err(e),
                            Ok(namespace) => Ok(
                                ParametersReferenceView { group, kind, name, namespace },
                            ),
                        },
                    },
                },
            },
        },
        _ => Err(ErrorView::WrongType("ParametersReference"@)),
    }
}

pub open spec fn params_ref_fields(p: ParametersReferenceView) -> Seq<
    (Seq<char>, Option<JsonView>),
> {
    seq![
        ("group"@, Some(JsonView::Str(p.group))),
        ("kind"@, Some(JsonView::Str(p.kind))),
        ("name"@, Some(JsonView::Str(p.name))),
        ("namespace"@, str_entry(p.namespace)),
    ]
}

pub open spec fn spec_encode_params_ref(p: ParametersReferenceView) -> JsonView {
    JsonView::Obj(obj_of(params_ref_fields(p)))
}

proof fn lemma_class_literals()
    ensures
        keys_distinct(params_ref_keys()),
        keys_distinct(class_spec_keys()),
        keys_distinct(class_status_keys()),
{
    reveal_strlit("group");
    reveal_strlit("kind");
    reveal_strlit("name");
    reveal_strlit("namespace");
    reveal_strlit("controllerName");
    reveal_strlit("paramtersRef");
    reveal_strlit("description");
    reveal_strlit("conditions");
    reveal_strlit("supportedFeatures");
    assert("group"@.len() == 5);
    assert("kind"@.len() == 4);
    assert("name"@.len() == 4);
    assert("namespace"@.len() == 9);
    assert("controllerName"@.len() == 14);
    assert("paramtersRef"@.len() == 12);
    assert("description"@.len() == 11);
    assert("conditions"@.len() == 10);
    assert("supportedFeatures"@.len() == 17);
    assert("kind"@[0] != "name"@[0]);
    let k1 = params_ref_keys();
    assert forall|i: int, j: int| 0 <= i < j < k1.len() implies k1[i] != k1[j] by {
        assert(k1[0] != k1[1]);
        assert(k1[0] != k1[2]);
        assert(k1[0] != k1[3]);
        assert(k1[1] != k1[2]);
        assert(k1[1] != k1[3]);
        assert(k1[2] != k1[3]);
    }
    let k2 = class_spec_keys();
    assert forall|i: int, j: int| 0 <= i < j < k2.len() implies k2[i] != k2[j] by {
        assert(k2[0] != k2[1]);
        assert(k2[0] != k2[2]);
        assert(k2[1] != k2[2]);
    }
    let k3 = class_status_keys();
    assert forall|i: int, j: int| 0 <= i < j < k3.len() implies k3[i] != k3[j] by {
        assert(k3[0] != k3[1]);
    }
}

fn params_ref_keys_exec() -> (r: Vec<String>)
    ensures
        r.deep_view() == params_ref_keys(),
        keys_distinct(params_ref_keys()),
{
    let r = vec![
        String::from_str("group"),
        String::from_str("kind"),
        String::from_str("name"),
        String::from_str("namespace"),
    ];
    proof {
        lemma_class_literals();
        assert(r.deep_view() =~= params_ref_keys());
    }
    r
}

impl Codec for ParametersReference {
    open spec fn spec_decode(v: JsonView) -> Result<ParametersReferenceView, ErrorView> {
        spec_decode_params_ref(v)
    }

    open spec fn spec_encode(p: ParametersReferenceView) -> JsonView {
        spec_encode_params_ref(p)
    }

    open spec fn wf(p: ParametersReferenceView) -> bool {
        true
    }

    fn decode(j: &Json) -> (r: Result<Self, DecodeError>)
        ensures
            res_view(r) == spec_decode_params_ref(j.deep_view()),
    {
        match j {
            Json::Obj(pairs) => {
                let ghost kv = params_ref_keys();
                let keys = params_ref_keys_exec();
                let slots = match lookup_fields(pairs, &keys, false) {
                    Ok(s) => s,
                    Err(e) => {
                        return Err(e);
                    },
                };
                proof {
                    assert(kv[0] == "group"@);
                    assert(kv[1] == "kind"@);
                    assert(kv[2] == "name"@);
                    assert(kv[3] == "namespace"@);
                }
                let group = match req_str_field(slot_value(pairs, &slots, 0, Ghost(kv)), "group") {
                    Ok(v) => v,
                    Err(e) => {
                        return Err(e);
                    },
                };
                let kind = match req_str_field(slot_value(pairs, &slots, 1, Ghost(kv)), "kind") {
                    Ok(v) => v,
                    Err(e) => {
                        return Err(e);
                    },
                };
                let name = match req_str_field(slot_value(pairs, &slots, 2, Ghost(kv)), "name") {
                    Ok(v) => v,
                    Err(e) => {
                        return Err(e);
                    },
                };
                let namespace = match opt_str_field(
                    slot_value(pairs, &slots, 3, Ghost(kv)),
                    "namespace",
                ) {
                    Ok(v) => v,
                    Err(e) => {
                        return Err(e);
                    },
                };
                Ok(ParametersReference { group, kind, name, namespace })
            },
            _ => Err(DecodeError::WrongType(String::from_str("ParametersReference"))),
        }
    }

    fn encode(&self) -> (j: Json)
        ensures
            j.deep_view() == spec_encode_params_ref(self.deep_view()),
    {
        let mut obj: Vec<(String, Json)> = Vec::new();
        obj.push((String::from_str("group"), Json::Str(self.group.clone())));
        obj.push((String::from_str("kind"), Json::Str(self.kind.clone())));
        obj.push((String::from_str("name"), Json::Str(self.name.clone())));
        if let Some(ns) = &self.namespace {
            obj.push((String::from_str("namespace"), Json::Str(ns.clone())));
        }
        proof {
            broadcast use lemma_json_pair_seq_view;

            reveal_with_fuel(obj_of, 6);
            assert(json_pair_seq_view(obj@) =~= obj_of(params_ref_fields(self.deep_view())));
        }
        Json::Obj(obj)
    }

    proof fn lemma_round_trip(p: ParametersReferenceView)
        ensures
            spec_decode_params_ref(spec_encode_params_ref(p)) == Ok::<
                ParametersReferenceView,
                ErrorView,
            >(p),
    {
        lemma_class_literals();
        let fields = params_ref_fields(p);
        let keys = params_ref_keys();
        assert(fields_distinct(fields));
        assert(fields_within(fields, keys)) by {
            assert forall|i: int| 0 <= i < fields.len() implies keys.contains(
                (#[trigger] fields[i]).0,
            ) by {
                if i == 0 {
                    assert(keys[0] == fields[0].0);
                } else if i == 1 {
                    assert(keys[1] == fields[1].0);
                } else if i == 2 {
                    assert(keys[2] == fields[2].0);
                } else {
                    assert(keys[3] == fields[3].0);
                }
            }
        }
        lemma_obj_of_scan(fields, keys, false);
        lemma_obj_of_field_at(fields, 0);
        lemma_obj_of_field_at(fields, 1);
        lemma_obj_of_field_at(fields, 2);
        lemma_obj_of_field_at(fields, 3);
    }
}

/// The mathematical shape of a [`GatewayClassSpec`].
pub struct GatewayClassSpecView {
    pub controller_name: Seq<char>,
    pub paramters_ref: Option<ParametersReferenceView>,
    pub description: Option<Seq<char>>,
}

impl DeepView for GatewayClassSpec {
    type V = GatewayClassSpecView;

    open spec fn deep_view(&self) -> GatewayClassSpecView {
        GatewayClassSpecView {
            controller_name: self.controller_name@,
            paramters_ref: self.paramters_ref.deep_view(),
            description: self.description.deep_view(),
        }
    }
}

pub open spec fn class_spec_keys() -> Seq<Seq<char>> {
    seq!["controllerName"@, "paramtersRef"@, "description"@]
}

/// What decoding a GatewayClass spec yields: the controller name is
/// required.
pub open spec fn spec_decode_class_spec(v: JsonView) -> Result<GatewayClassSpecView, ErrorView> {
    match v {
        JsonView::Obj(pairs) => match spec_scan(pairs, class_spec_keys(), false) {
            Some(e) => Err(e),
            None => match spec_req_str(spec_field(pairs, "controllerName"@), "controllerName"@) {
                Err(e) => Err(e),
                Ok(controller_name) => match spec_opt_val::<ParametersReference>(
                    spec_field(pairs, "paramtersRef"@),
                ) {
                    Err(e) => Err(e),
                    Ok(paramters_ref) => match spec_opt_str(
                        spec_field(pairs, "description"@),
                        "description"@,
                    ) {
                        Err(e) => Err(e),
                        Ok(description) => Ok(
                            GatewayClassSpecView { controller_name, paramters_ref, description },
                        ),
                    },
                },
            },
        },
        _ => Err(ErrorView::WrongType("GatewayClassSpec"@)),
    }
}

pub open spec fn class_spec_fields(s: GatewayClassSpecView) -> Seq<(Seq<char>, Option<JsonView>)> {
    seq![
        ("controllerName"@, Some(JsonView::Str(s.controller_name))),
        ("paramtersRef"@, val_entry::<ParametersReference>(s.paramters_ref)),
        ("description"@, str_entry(s.description)),
    ]
}

pub open spec fn spec_encode_class_spec(s: GatewayClassSpecView) -> JsonView {
    JsonView::Obj(obj_of(class_spec_fields(s)))
}

fn class_spec_keys_exec() -> (r: Vec<String>)
    ensures
        r.deep_view() == class_spec_keys(),
        keys_distinct(class_spec_keys()),
{
    let r = vec![
        String::from_str("controllerName"),
        String::from_str("paramtersRef"),
        String::from_str("description"),
    ];
    proof {
        lemma_class_literals();
        assert(r.deep_view() =~= class_spec_keys());
    }
    r
}

impl Codec for GatewayClassSpec {
    open spec fn spec_decode(v: JsonView) -> Result<GatewayClassSpecView, ErrorView> {
        spec_decode_class_spec(v)
    }

    open spec fn spec_encode(s: GatewayClassSpecView) -> JsonView {
        spec_encode_class_spec(s)
    }

    open spec fn wf(s: GatewayClassSpecView) -> bool {
        true
    }

    fn decode(j: &Json) -> (r: Result<Self, DecodeError>)
        ensures
            res_view(r) == spec_decode_class_spec(j.deep_view()),
    {
        match j {
            Json::Obj(pairs) => {
                let ghost kv = class_spec_keys();
                let keys = class_spec_keys_exec();
                let slots = match lookup_fields(pairs, &keys, false) {
                    Ok(s) => s,
                    Err(e) => {
                        return Err(e);
                    },
                };
                proof {
                    assert(kv[0] == "controllerName"@);
                    assert(kv[1] == "paramtersRef"@);
                    assert(kv[2] == "description"@);
                }
                let controller_name = match req_str_field(
                    slot_value(pairs, &slots, 0, Ghost(kv)),
                    "controllerName",
                ) {
                    Ok(v) => v,
                    Err(e) => {
                        return Err(e);
                    },
                };
                let paramters_ref = match opt_val_field::<ParametersReference>(
                    slot_value(pairs, &slots, 1, Ghost(kv)),
                ) {
                    Ok(v) => v,
                    Err(e) => {
                        return Err(e);
                    },
                };
                let description = match opt_str_field(
                    slot_value(pairs, &slots, 2, Ghost(kv)),
                    "description",
                ) {
                    Ok(v) => v,
                    Err(e) => {
                        return Err(e);
                    },
                };
                Ok(GatewayClassSpec { controller_name, paramters_ref, description })
            },
            _ => Err(DecodeError::WrongType(String::from_str("GatewayClassSpec"))),
        }
    }

    fn encode(&self) -> (j: Json)
        ensures
            j.deep_view() == spec_encode_class_spec(self.deep_view()),
    {
        let mut obj: Vec<(String, Json)> = Vec::new();
        obj.push((String::from_str("controllerName"), Json::Str(self.controller_name.clone())));
        if let Some(p) = &self.paramters_ref {
            obj.push((String::from_str("paramtersRef"), p.encode()));
        }
        if let Some(d) = &self.description {
            obj.push((String::from_str("description"), Json::Str(d.clone())));
        }
        proof {
            broadcast use lemma_json_pair_seq_view;

            reveal_with_fuel(obj_of, 5);
            assert(json_pair_seq_view(obj@) =~= obj_of(class_spec_fields(self.deep_view())));
        }
        Json::Obj(obj)
    }

    proof fn lemma_round_trip(s: GatewayClassSpecView)
        ensures
            spec_decode_class_spec(spec_encode_class_spec(s)) == Ok::<
                GatewayClassSpecView,
                ErrorView,
            >(s),
    {
        lemma_class_literals();
        let fields = class_spec_fields(s);
        let keys = class_spec_keys();
        assert(fields_distinct(fields));
        assert(fields_within(fields, keys)) by {
            assert forall|i: int| 0 <= i < fields.len() implies keys.contains(
                (#[trigger] fields[i]).0,
            ) by {
                if i == 0 {
                    assert(keys[0] == fields[0].0);
                } else if i == 1 {
                    assert(keys[1] == fields[1].0);
                } else {
                    assert(keys[2] == fields[2].0);
                }
            }
        }
        lemma_obj_of_scan(fields, keys, false);
        lemma_obj_of_field_at(fields, 0);
        lemma_obj_of_field_at(fields, 1);
        lemma_obj_of_field_at(fields, 2);
        if s.paramters_ref is Some {
            ParametersReference::lemma_round_trip(s.paramters_ref->0);
        }
    }
}

/// The mathematical shape of a [`GatewayClassStatus`].
pub struct GatewayClassStatusView {
    pub conditions: Option<Seq<ConditionView>>,
    pub supported_features: Option<Seq<Seq<char>>>,
}

impl DeepView for GatewayClassStatus {
    type V = GatewayClassStatusView;

    open spec fn deep_view(&self) -> GatewayClassStatusView {
        GatewayClassStatusView {
            conditions: self.conditions.deep_view(),
            supported_features: self.supported_features.deep_view(),
        }
    }
}

pub open spec fn class_status_keys() -> Seq<Seq<char>> {
    seq!["conditions"@, "supportedFeatures"@]
}

/// What decoding a GatewayClass status yields: both fields optional.
pub open spec fn spec_decode_class_status(v: JsonView) -> Result<GatewayClassStatusView, ErrorView> {
    match v {
        JsonView::Obj(pairs) => match spec_scan(pairs, class_status_keys(), false) {
            Some(e) => Err(e),
            None => match spec_opt_list::<Condition>(
                spec_field(pairs, "conditions"@),
                "conditions"@,
            ) {
                Err(e) => Err(e),
                Ok(conditions) => match spec_opt_list::<String>(
                    spec_field(pairs, "supportedFeatures"@),
                    "supportedFeatures"@,
                ) {
                    Err(e) => Err(e),
                    Ok(supported_features) => Ok(
                        GatewayClassStatusView { conditions, supported_features },
                    ),
                },
            },
        },
        _ => Err(ErrorView::WrongType("GatewayClassStatus"@)),
    }
}

pub open spec fn class_status_fields(s: GatewayClassStatusView) -> Seq<
    (Seq<char>, Option<JsonView>),
> {
    seq![
        ("conditions"@, list_entry::<Condition>(s.conditions)),
        ("supportedFeatures"@, list_entry::<String>(s.supported_features)),
    ]
}

pub open spec fn spec_encode_class_status(s: GatewayClassStatusView) -> JsonView {
    JsonView::Obj(obj_of(class_status_fields(s)))
}

fn class_status_keys_exec() -> (r: Vec<String>)
    ensures
        r.deep_view() == class_status_keys(),
        keys_distinct(class_status_keys()),
{
    let r = vec![String::from_str("conditions"), String::from_str("supportedFeatures")];
    proof {
        lemma_class_literals();
        assert(r.deep_view() =~= class_status_keys());
    }
    r
}

impl Codec for GatewayClassStatus {
    open spec fn spec_decode(v: JsonView) -> Result<GatewayClassStatusView, ErrorView> {
        spec_decode_class_status(v)
    }

    open spec fn spec_encode(s: GatewayClassStatusView) -> JsonView {
        spec_encode_class_status(s)
    }

    open spec fn wf(s: GatewayClassStatusView) -> bool {
        true
    }

    fn decode(j: &Json) -> (r: Result<Self, DecodeError>)
        ensures
            res_view(r) == spec_decode_class_status(j.deep_view()),
    {
        match j {
            Json::Obj(pairs) => {
                let ghost kv = class_status_keys();
                let keys = class_status_keys_exec();
                let slots = match lookup_fields(pairs, &keys, false) {
                    Ok(s) => s,
                    Err(e) => {
                        return Err(e);
                    },
                };
                proof {
                    assert(kv[0] == "conditions"@);
                    assert(kv[1] == "supportedFeatures"@);
                }
                let conditions = match opt_list_field::<Condition>(
                    slot_value(pairs, &slots, 0, Ghost(kv)),
                    "conditions",
                ) {
                    Ok(v) => v,
                    Err(e) => {
                        return Err(e);
                    },
                };
                let supported_features = match opt_list_field::<String>(
                    slot_value(pairs, &slots, 1, Ghost(kv)),
                    "supportedFeatures",
                ) {
                    Ok(v) => v,
                    Err(e) => {
                        return Err(e);
                    },
                };
                Ok(GatewayClassStatus { conditions, supported_features })
            },
            _ => Err(DecodeError::WrongType(String::from_str("GatewayClassStatus"))),
        }
    }

    fn encode(&self) -> (j: Json)
        ensures
            j.deep_view() == spec_encode_class_status(self.deep_view()),
    {
        let mut obj: Vec<(String, Json)> = Vec::new();
        if let Some(cs) = &self.conditions {
            obj.push((String::from_str("conditions"), Json::Arr(encode_vec::<Condition>(cs))));
        }
        if let Some(fs) = &self.supported_features {
            obj.push(
                (String::from_str("supportedFeatures"), Json::Arr(encode_vec::<String>(fs))),
            );
        }
        proof {
            broadcast use lemma_json_pair_seq_view;

            reveal_with_fuel(obj_of, 4);
            assert(json_pair_seq_view(obj@) =~= obj_of(class_status_fields(self.deep_view())));
        }
        Json::Obj(obj)
    }

    proof fn lemma_round_trip(s: GatewayClassStatusView)
        ensures
            spec_decode_class_status(spec_encode_class_status(s)) == Ok::<
                GatewayClassStatusView,
                ErrorView,
            >(s),
    {
        lemma_class_literals();
        let fields = class_status_fields(s);
        let keys = class_status_keys();
        assert(fields_distinct(fields));
        assert(fields_within(fields, keys)) by {
            assert forall|i: int| 0 <= i < fields.len() implies keys.contains(
                (#[trigger] fields[i]).0,
            ) by {
                if i == 0 {
                    assert(keys[0] == fields[0].0);
                } else {
                    assert(keys[1] == fields[1].0);
                }
            }
        }
        lemma_obj_of_scan(fields, keys, false);
        lemma_obj_of_field_at(fields, 0);
        lemma_obj_of_field_at(fields, 1);
        if s.conditions is Some {
            lemma_seq_round_trip::<Condition>(s.conditions->0);
        }
        if s.supported_features is Some {
            lemma_seq_round_trip::<String>(s.supported_features->0);
        }
    }
}

} // verus!
