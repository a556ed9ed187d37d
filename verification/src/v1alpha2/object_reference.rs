//! v1alpha2 references to Kubernetes objects.

use vstd::prelude::*;

use crate::wire::{
    Codec, DecodeError, ErrorView, Json, JsonView, fields_distinct, fields_within,
    json_pair_seq_view, keys_distinct, lemma_json_pair_seq_view, lemma_obj_of_field_at,
    lemma_obj_of_scan, lookup_fields, obj_of, opt_str_field, opt_u16_field, req_str_field,
    res_view, slot_value, spec_field, spec_opt_str, spec_opt_u16, spec_req_str, spec_scan,
    str_entry, u16_entry,
};
use crate::shared::{Group, Kind, Namespace, ObjectName, PortNumber};

verus! {

/// LocalObjectReference identifies an API object within the namespace of
/// the referrer.
#[derive(Clone, Debug, PartialEq)]
pub struct LocalObjectReference {
    /// Group of the referent; the empty string means the core API group.
    pub group: Group,
    /// Kind of the referent.
    pub kind: Kind,
    /// Name of the referent.
    pub name: ObjectName,
}

/// The mathematical shape of a [`LocalObjectReference`].
pub struct LocalObjectReferenceView {
    pub group: Seq<char>,
    pub kind: Seq<char>,
    pub name: Seq<char>,
}

impl DeepView for LocalObjectReference {
    type V = LocalObjectReferenceView;

    open spec fn deep_view(&self) -> LocalObjectReferenceView {
        LocalObjectReferenceView { group: self.group@, kind: self.kind@, name: self.name@ }
    }
}

pub open spec fn local_ref_keys() -> Seq<Seq<char>> {
    seq!["group"@, "kind"@, "name"@]
}

/// What decoding a local object reference yields: all three fields are
/// required strings.
pub open spec fn spec_decode_local_ref(v: JsonView) -> Result<LocalObjectReferenceView, ErrorView> {
    match v {
        JsonView::Obj(pairs) => match spec_scan(pairs, local_ref_keys(), false) {
            Some(e) => Err(e),
            None => match spec_req_str(spec_field(pairs, "group"@), "group"@) {
                Err(e) => Err(e),
                Ok(group) => match spec_req_str(spec_field(pairs, "kind"@), "kind"@) {
                    Err(e) => Err(e),
                    Ok(kind) => match spec_req_str(spec_field(pairs, "name"@), "name"@) {
                        Err(e) => Err(e),
                        Ok(name) => Ok(LocalObjectReferenceView { group, kind, name }),
                    },
                },
            },
        },
        _ => Err(ErrorView::WrongType("LocalObjectReference"@)),
    }
}

pub open spec fn local_ref_fields(b: LocalObjectReferenceView) -> Seq<
    (Seq<char>, Option<JsonView>),
> {
    seq![
        ("group"@, Some(JsonView::Str(b.group))),
        ("kind"@, Some(JsonView::Str(b.kind))),
        ("name"@, Some(JsonView::Str(b.name))),
    ]
}

pub open spec fn spec_encode_local_ref(b: LocalObjectReferenceView) -> JsonView {
    JsonView::Obj(obj_of(local_ref_fields(b)))
}

proof fn lemma_ref_literals()
    ensures
        keys_distinct(local_ref_keys()),
        keys_distinct(backend_ref_keys()),
        keys_distinct(secret_ref_keys()),
{
    reveal_strlit("group");
    reveal_strlit("kind");
    reveal_strlit("name");
    reveal_strlit("namespace");
    reveal_strlit("port");
    assert("group"@.len() == 5);
    assert("kind"@.len() == 4);
    assert("name"@.len() == 4);
    assert("namespace"@.len() == 9);
    assert("port"@.len() == 4);
    assert("kind"@[0] != "name"@[0]);
    assert("kind"@[0] != "port"@[0]);
    assert("name"@[0] != "port"@[0]);
    let k1 = local_ref_keys();
    assert forall|i: int, j: int| 0 <= i < j < k1.len() implies k1[i] != k1[j] by {
        assert(k1[0] != k1[1]);
        assert(k1[0] != k1[2]);
        assert(k1[1] != k1[2]);
    }
    let k2 = backend_ref_keys();
    assert forall|i: int, j: int| 0 <= i < j < k2.len() implies k2[i] != k2[j] by {
        assert(k2[0] != k2[1]);
        assert(k2[0] != k2[2]);
        assert(k2[0] != k2[3]);
        assert(k2[0] != k2[4]);
        assert(k2[1] != k2[2]);
        assert(k2[1] != k2[3]);
        assert(k2[1] != k2[4]);
        assert(k2[2] != k2[3]);
        assert(k2[2] != k2[4]);
        assert(k2[3] != k2[4]);
    }
    let k3 = secret_ref_keys();
    assert forall|i: int, j: int| 0 <= i < j < k3.len() implies k3[i] != k3[j] by {
        assert(k3[0] != k3[1]);
        assert(k3[0] != k3[2]);
        assert(k3[0] != k3[3]);
        assert(k3[1] != k3[2]);
        assert(k3[1] != k3[3]);
        assert(k3[2] != k3[3]);
    }
}

fn local_ref_keys_exec() -> (r: Vec<String>)
    ensures
        r.deep_view() == local_ref_keys(),
        keys_distinct(local_ref_keys()),
{
    let r = vec![String::from_str("group"), String::from_str("kind"), String::from_str("name")];
    proof {
        lemma_ref_literals();
        assert(r.deep_view() =~= local_ref_keys());
    }
    r
}

impl Codec for LocalObjectReference {
    open spec fn spec_decode(v: JsonView) -> Result<LocalObjectReferenceView, ErrorView> {
        spec_decode_local_ref(v)
    }

    open spec fn spec_encode(b: LocalObjectReferenceView) -> JsonView {
        spec_encode_local_ref(b)
    }

    open spec fn wf(b: LocalObjectReferenceView) -> bool {
        true
    }

    fn decode(j: &Json) -> (r: Result<Self, DecodeError>)
        ensures
            res_view(r) == spec_decode_local_ref(j.deep_view()),
    {
        match j {
            Json::Obj(pairs) => {
                let ghost kv = local_ref_keys();
                let keys = local_ref_keys_exec();
                let slots = match lookup_fields(pairs, &keys, false) {
                    Ok(s) => s,
                    Err(e) => {
                        return Err(e);
                    },
                };
                proof {
                    assert(kv[0] == "group"@);
                    assert(kv[1] == "kind"@);
                    assert(kv[2] == "name"@);
                }
                let group = match req_str_field(slot_value(pairs, &slots, 0, Ghost(kv)), "group") {
                    Ok(v) => v,
                    Err(e) => {
                        return Err(e);
                    },
                };
                let kind = match req_str_field(slot_value(pairs, &slots, 1, Ghost(kv)), "kind") {
                    Ok(v) => v,
                    Err(e) => {
                        return Err(e);
                    },
                };
                let name = match req_str_field(slot_value(pairs, &slots, 2, Ghost(kv)), "name") {
                    Ok(v) => v,
                    Err(e) => {
                        return Err(e);
                    },
                };
                Ok(LocalObjectReference { group, kind, name })
            },
            _ => Err(DecodeError::WrongType(String::from_str("LocalObjectReference"))),
        }
    }

    fn encode(&self) -> (j: Json)
        ensures
            j.deep_view() == spec_encode_local_ref(self.deep_view()),
    {
        let mut obj: Vec<(String, Json)> = Vec::new();
        obj.push((String::from_str("group"), Json::Str(self.group.clone())));
        obj.push((String::from_str("kind"), Json::Str(self.kind.clone())));
        obj.push((String::from_str("name"), Json::Str(self.name.clone())));
        proof {
            broadcast use lemma_json_pair_seq_view;

            reveal_with_fuel(obj_of, 5);
            assert(json_pair_seq_view(obj@) =~= obj_of(local_ref_fields(self.deep_view())));
        }
        Json::Obj(obj)
    }

    proof fn lemma_round_trip(b: LocalObjectReferenceView)
        ensures
            spec_decode_local_ref(spec_encode_local_ref(b)) == Ok::<
                LocalObjectReferenceView,
                ErrorView,
            >(b),
    {
        lemma_ref_literals();
        let fields = local_ref_fields(b);
        let keys = local_ref_keys();
        assert(fields_distinct(fields));
        assert(fields_within(fields, keys)) by {
            assert forall|i: int| 0 <= i < fields.len() implies keys.contains(
                (#[trigger] fields[i]).0,
            ) by {
                if i == 0 {
                    assert(keys[0] == fields[0].0);
                } else if i == 1 {
                    assert(keys[1] == fields[1].0);
                } else {
                    assert(keys[2] == fields[2].0);
                }
            }
        }
        lemma_obj_of_scan(fields, keys, false);
        lemma_obj_of_field_at(fields, 0);
        lemma_obj_of_field_at(fields, 1);
        lemma_obj_of_field_at(fields, 2);
    }
}

/// SecretObjectReference identifies an API object including its
/// namespace, defaulting to Secret.
#[derive(Clone, Debug, Default, PartialEq)]
pub struct SecretObjectReference {
    /// Group of the referent; absent or empty means the core API group.
    pub group: Option<Group>,
    /// Kind of the referent.
    pub kind: Option<Kind>,
    /// Name of the referent.
    pub name: ObjectName,
    /// Namespace of the referent; absent means the local namespace.
    pub namespace: Option<Namespace>,
}

/// The mathematical shape of a [`SecretObjectReference`].
pub struct SecretObjectReferenceView {
    pub group: Option<Seq<char>>,
    pub kind: Option<Seq<char>>,
    pub name: Seq<char>,
    pub namespace: Option<Seq<char>>,
}

impl DeepView for SecretObjectReference {
    type V = SecretObjectReferenceView;

    open spec fn deep_view(&self) -> SecretObjectReferenceView {
        SecretObjectReferenceView {
            group: self.group.deep_view(),
            kind: self.kind.deep_view(),
            name: self.name@,
            namespace: self.namespace.deep_view(),
        }
    }
}

pub open spec fn secret_ref_keys() -> Seq<Seq<char>> {
    seq!["group"@, "kind"@, "name"@, "namespace"@]
}

/// What decoding a secret object reference yields: only `name` is
/// required.
pub open spec fn spec_decode_secret_ref(v: JsonView) -> Result<
    SecretObjectReferenceView,
    ErrorView,
> {
    match v {
        JsonView::Obj(pairs) => match spec_scan(pairs, secret_ref_keys(), false) {
            Some(e) => Err(e),
            None => match spec_opt_str(spec_field(pairs, "group"@), "group"@) {
                Err(e) => Err(e),
                Ok(group) => match spec_opt_str(spec_field(pairs, "kind"@), "kind"@) {
                    Err(e) => Err(e),
                    Ok(kind) => match spec_req_str(spec_field(pairs, "name"@), "name"@) {
                        Err(e) => Err(e),
                        Ok(name) => match spec_opt_str(
                            spec_field(pairs, "namespace"@),
                            "namespace"@,
                        ) {
                            Err(e) => Err(e),
                            Ok(namespace) => Ok(
                                SecretObjectReferenceView { group, kind, name, namespace },
                            ),
                        },
                    },
                },
            },
        },
        _ => Err(ErrorView::WrongType("SecretObjectReference"@)),
    }
}

pub open spec fn secret_ref_fields(b: SecretObjectReferenceView) -> Seq<
    (Seq<char>, Option<JsonView>),
> {
    seq![
        ("group"@, str_entry(b.group)),
        ("kind"@, str_entry(b.kind)),
        ("name"@, Some(JsonView::Str(b.name))),
        ("namespace"@, str_entry(b.namespace)),
    ]
}

pub open spec fn spec_encode_secret_ref(b: SecretObjectReferenceView) -> JsonView {
    JsonView::Obj(obj_of(secret_ref_fields(b)))
}

fn secret_ref_keys_exec() -> (r: Vec<String>)
    ensures
        r.deep_view() == secret_ref_keys(),
        keys_distinct(secret_ref_keys()),
{
    let r = vec![
        String::from_str("group"),
        String::from_str("kind"),
        String::from_str("name"),
        String::from_str("namespace"),
    ];
    proof {
        lemma_ref_literals();
        assert(r.deep_view() =~= secret_ref_keys());
    }
    r
}

impl Codec for SecretObjectReference {
    open spec fn spec_decode(v: JsonView) -> Result<SecretObjectReferenceView, ErrorView> {
        spec_decode_secret_ref(v)
    }

    open spec fn spec_encode(b: SecretObjectReferenceView) -> JsonView {
        spec_encode_secret_ref(b)
    }

    open spec fn wf(b: SecretObjectReferenceView) -> bool {
        true
    }

    fn decode(j: &Json) -> (r: Result<Self, DecodeError>)
        ensures
            res_view(r) == spec_decode_secret_ref(j.deep_view()),
    {
        match j {
            Json::Obj(pairs) => {
                let ghost kv = secret_ref_keys();
                let keys = secret_ref_keys_exec();
                let slots = match lookup_fields(pairs, &keys, false) {
                    Ok(s) => s,
                    Err(e) => {
                        return Err(e);
                    },
                };
                proof {
                    assert(kv[0] == "group"@);
                    assert(kv[1] == "kind"@);
                    assert(kv[2] == "name"@);
                    assert(kv[3] == "namespace"@);
                }
                let group = match opt_str_field(slot_value(pairs, &slots, 0, Ghost(kv)), "group") {
                    Ok(v) => v,
                    Err(e) => {
                        return Err(e);
                    },
                };
                let kind = match opt_str_field(slot_value(pairs, &slots, 1, Ghost(kv)), "kind") {
                    Ok(v) => v,
                    Err(e) => {
                        return Err(e);
                    },
                };
                let name = match req_str_field(slot_value(pairs, &slots, 2, Ghost(kv)), "name") {
                    Ok(v) => v,
                    Err(e) => {
                        return Err(e);
                    },
                };
                let namespace = match opt_str_field(
                    slot_value(pairs, &slots, 3, Ghost(kv)),
                    "namespace",
                ) {
                    Ok(v) => v,
                    Err(e) => {
                        return Err(e);
                    },
                };
                Ok(SecretObjectReference { group, kind, name, namespace })
            },
            _ => Err(DecodeError::WrongType(String::from_str("SecretObjectReference"))),
        }
    }

    fn encode(&self) -> (j: Json)
        ensures
            j.deep_view() == spec_encode_secret_ref(self.deep_view()),
    {
        let mut obj: Vec<(String, Json)> = Vec::new();
        if let Some(g) = &self.group {
            obj.push((String::from_str("group"), Json::Str(g.clone())));
        }
        if let Some(k) = &self.kind {
            obj.push((String::from_str("kind"), Json::Str(k.clone())));
        }
        obj.push((String::from_str("name"), Json::Str(self.name.clone())));
        if let Some(ns) = &self.namespace {
            obj.push((String::from_str("namespace"), Json::Str(ns.clone())));
        }
        proof {
            broadcast use lemma_json_pair_seq_view;

            reveal_with_fuel(obj_of, 6);
            assert(json_pair_seq_view(obj@) =~= obj_of(secret_ref_fields(self.deep_view())));
        }
        Json::Obj(obj)
    }

    proof fn lemma_round_trip(b: SecretObjectReferenceView)
        ensures
            spec_decode_secret_ref(spec_encode_secret_ref(b)) == Ok::<
                SecretObjectReferenceView,
                ErrorView,
            >(b),
    {
        lemma_ref_literals();
        let fields = secret_ref_fields(b);
        let keys = secret_ref_keys();
        assert(fields_distinct(fields));
        assert(fields_within(fields, keys)) by {
            assert forall|i: int| 0 <= i < fields.len() implies keys.contains(
                (#[trigger] fields[i]).0,
            ) by {
                if i == 0 {
                    assert(keys[0] == fields[0].0);
                } else if i == 1 {
                    assert(keys[1] == fields[1].0);
                } else if i == 2 {
                    assert(keys[2] == fields[2].0);
                } else {
                    assert(keys[3] == fields[3].0);
                }
            }
        }
        lemma_obj_of_scan(fields, keys, false);
        lemma_obj_of_field_at(fields, 0);
        lemma_obj_of_field_at(fields, 1);
        lemma_obj_of_field_at(fields, 2);
        lemma_obj_of_field_at(fields, 3);
    }
}

/// BackendObjectReference identifies the Kubernetes object a backend
/// reference points at. `kind` defaults to `"Service"` when absent.
#[derive(Clone, Debug, PartialEq)]
pub struct BackendObjectReference {
    /// Group of the referent; absent or empty means the core API group.
    pub group: Option<Group>,
    /// Kind of the referent; defaults to `"Service"` when not specified.
    pub kind: Option<Kind>,
    /// Name of the referent.
    pub name: ObjectName,
    /// Namespace of the backend; absent means the local namespace.
    pub namespace: Option<Namespace>,
    /// Destination port; required when the referent is a Service.
    pub port: Option<PortNumber>,
}

/// The mathematical shape of a [`BackendObjectReference`].
pub struct BackendObjectReferenceView {
    pub group: Option<Seq<char>>,
    pub kind: Option<Seq<char>>,
    pub name: Seq<char>,
    pub namespace: Option<Seq<char>>,
    pub port: Option<u16>,
}

impl DeepView for BackendObjectReference {
    type V = BackendObjectReferenceView;

    open spec fn deep_view(&self) -> BackendObjectReferenceView {
        BackendObjectReferenceView {
            group: self.group.deep_view(),
            kind: self.kind.deep_view(),
            name: self.name@,
            namespace: self.namespace.deep_view(),
            port: self.port,
        }
    }
}

pub open spec fn backend_ref_keys() -> Seq<Seq<char>> {
    seq!["group"@, "kind"@, "name"@, "namespace"@, "port"@]
}

/// What decoding a backend object reference yields: only `name` is
/// required; `port` must be a number a port can hold.
pub open spec fn spec_decode_backend_obj_ref(v: JsonView) -> Result<
    BackendObjectReferenceView,
    ErrorView,
> {
    match v {
        JsonView::Obj(pairs) => match spec_scan(pairs, backend_ref_keys(), false) {
            Some(e) => Err(e),
            None => match spec_opt_str(spec_field(pairs, "group"@), "group"@) {
                Err(e) => Err(e),
                Ok(group) => match spec_opt_str(spec_field(pairs, "kind"@), "kind"@) {
                    Err(e) => Err(e),
                    Ok(kind) => match spec_req_str(spec_field(pairs, "name"@), "name"@) {
                        Err(e) => Err(e),
                        Ok(name) => match spec_opt_str(
                            spec_field(pairs, "namespace"@),
                            "namespace"@,
                        ) {
                            Err(e) => Err(e),
                            Ok(namespace) => match spec_opt_u16(
                                spec_field(pairs, "port"@),
                                "port"@,
                            ) {
                                Err(e) => Err(e),
                                Ok(port) => Ok(
                                    BackendObjectReferenceView {
                                        group,
                                        kind,
                                        name,
                                        namespace,
                                        port,
                                    },
                                ),
                            },
                        },
                    },
                },
            },
        },
        _ => Err(ErrorView::WrongType("BackendObjectReference"@)),
    }
}

pub open spec fn backend_obj_ref_fields(b: BackendObjectReferenceView) -> Seq<
    (Seq<char>, Option<JsonView>),
> {
    seq![
        ("group"@, str_entry(b.group)),
        ("kind"@, str_entry(b.kind)),
        ("name"@, Some(JsonView::Str(b.name))),
        ("namespace"@, str_entry(b.namespace)),
        ("port"@, u16_entry(b.port)),
    ]
}

pub open spec fn spec_encode_backend_obj_ref(b: BackendObjectReferenceView) -> JsonView {
    JsonView::Obj(obj_of(backend_obj_ref_fields(b)))
}

fn backend_ref_keys_exec() -> (r: Vec<String>)
    ensures
        r.deep_view() == backend_ref_keys(),
        keys_distinct(backend_ref_keys()),
{
    let r = vec![
        String::from_str("group"),
        String::from_str("kind"),
        String::from_str("name"),
        String::from_str("namespace"),
        String::from_str("port"),
    ];
    proof {
        lemma_ref_literals();
        assert(r.deep_view() =~= backend_ref_keys());
    }
    r
}

impl Codec for BackendObjectReference {
    open spec fn spec_decode(v: JsonView) -> Result<BackendObjectReferenceView, ErrorView> {
        spec_decode_backend_obj_ref(v)
    }

    open spec fn spec_encode(b: BackendObjectReferenceView) -> JsonView {
        spec_encode_backend_obj_ref(b)
    }

    open spec fn wf(b: BackendObjectReferenceView) -> bool {
        true
    }

    fn decode(j: &Json) -> (r: Result<Self, DecodeError>)
        ensures
            res_view(r) == spec_decode_backend_obj_ref(j.deep_view()),
    {
        match j {
            Json::Obj(pairs) => {
                let ghost kv = backend_ref_keys();
                let keys = backend_ref_keys_exec();
                let slots = match lookup_fields(pairs, &keys, false) {
                    Ok(s) => s,
                    Err(e) => {
                        return Err(e);
                    },
                };
                proof {
                    assert(kv[0] == "group"@);
                    assert(kv[1] == "kind"@);
                    assert(kv[2] == "name"@);
                    assert(kv[3] == "namespace"@);
                    assert(kv[4] == "port"@);
                }
                let group = match opt_str_field(slot_value(pairs, &slots, 0, Ghost(kv)), "group") {
                    Ok(v) => v,
                    Err(e) => {
                        return Err(e);
                    },
                };
                let kind = match opt_str_field(slot_value(pairs, &slots, 1, Ghost(kv)), "kind") {
                    Ok(v) => v,
                    Err(e) => {
                        return Err(e);
                    },
                };
                let name = match req_str_field(slot_value(pairs, &slots, 2, Ghost(kv)), "name") {
                    Ok(v) => v,
                    Err(e) => {
                        return Err(e);
                    },
                };
                let namespace = match opt_str_field(
                    slot_value(pairs, &slots, 3, Ghost(kv)),
                    "namespace",
                ) {
                    Ok(v) => v,
                    Err(e) => {
                        return Err(e);
                    },
                };
                let port = match opt_u16_field(slot_value(pairs, &slots, 4, Ghost(kv)), "port") {
                    Ok(v) => v,
                    Err(e) => {
                        return Err(e);
                    },
                };
                Ok(BackendObjectReference { group, kind, name, namespace, port })
            },
            _ => Err(DecodeError::WrongType(String::from_str("BackendObjectReference"))),
        }
    }

    fn encode(&self) -> (j: Json)
        ensures
            j.deep_view() == spec_encode_backend_obj_ref(self.deep_view()),
    {
        let mut obj: Vec<(String, Json)> = Vec::new();
        if let Some(g) = &self.group {
            obj.push((String::from_str("group"), Json::Str(g.clone())));
        }
        if let Some(k) = &self.kind {
            obj.push((String::from_str("kind"), Json::Str(k.clone())));
        }
        obj.push((String::from_str("name"), Json::Str(self.name.clone())));
        if let Some(ns) = &self.namespace {
            obj.push((String::from_str("namespace"), Json::Str(ns.clone())));
        }
        if let Some(p) = &self.port {
            obj.push((String::from_str("port"), Json::Int(*p as i64)));
        }
        proof {
            broadcast use lemma_json_pair_seq_view;

            reveal_with_fuel(obj_of, 7);
            assert(json_pair_seq_view(obj@) =~= obj_of(backend_obj_ref_fields(self.deep_view())));
        }
        Json::Obj(obj)
    }

    proof fn lemma_round_trip(b: BackendObjectReferenceView)
        ensures
            spec_decode_backend_obj_ref(spec_encode_backend_obj_ref(b)) == Ok::<
                BackendObjectReferenceView,
                ErrorView,
            >(b),
    {
        lemma_ref_literals();
        let fields = backend_obj_ref_fields(b);
        let keys = backend_ref_keys();
        assert(fields_distinct(fields));
        assert(fields_within(fields, keys)) by {
            assert forall|i: int| 0 <= i < fields.len() implies keys.contains(
                (#[trigger] fields[i]).0,
            ) by {
                if i == 0 {
                    assert(keys[0] == fields[0].0);
                } else if i == 1 {
                    assert(keys[1] == fields[1].0);
                } else if i == 2 {
                    assert(keys[2] == fields[2].0);
                } else if i == 3 {
                    assert(keys[3] == fields[3].0);
                } else {
                    assert(keys[4] == fields[4].0);
                }
            }
        }
        lemma_obj_of_scan(fields, keys, false);
        lemma_obj_of_field_at(fields, 0);
        lemma_obj_of_field_at(fields, 1);
        lemma_obj_of_field_at(fields, 2);
        lemma_obj_of_field_at(fields, 3);
        lemma_obj_of_field_at(fields, 4);
    }
}

} // verus!
