//! v1alpha2 ReferencePolicy: cross-namespace trust, the earlier name of
//! ReferenceGrant.

use vstd::prelude::*;

use crate::shared::{Group, Kind, Namespace, ObjectName};
use crate::wire::{
    Codec, DecodeError, ErrorView, Json, JsonView, encode_vec, fields_distinct, fields_within,
    json_pair_seq_view, keys_distinct, lemma_json_pair_seq_view, lemma_obj_of_field_at,
    lemma_obj_of_scan, lemma_seq_round_trip, lookup_fields, obj_of, opt_str_field, req_list_field,
    req_str_field, res_view, slot_value, spec_field, spec_opt_str, spec_req_list, spec_req_str,
    spec_scan, str_entry,
};

verus! {

/// ReferencePolicyFrom describes trusted namespaces and kinds.
#[derive(Clone, Debug, PartialEq)]
pub struct ReferencePolicyFrom {
    /// Group of the referent; empty means the core API group.
    pub group: Group,
    /// Kind of the referent.
    pub kind: Kind,
    /// Namespace of the referent.
    pub namespace: Namespace,
}

/// The mathematical shape of a [`ReferencePolicyFrom`].
pub struct ReferencePolicyFromView {
    pub group: Seq<char>,
    pub kind: Seq<char>,
    pub namespace: Seq<char>,
}

impl DeepView for ReferencePolicyFrom {
    type V = ReferencePolicyFromView;

    open spec fn deep_view(&self) -> ReferencePolicyFromView {
        ReferencePolicyFromView {
            group: self.group@,
            kind: self.kind@,
            namespace: self.namespace@,
        }
    }
}

pub open spec fn policy_from_keys() -> Seq<Seq<char>> {
    seq!["group"@, "kind"@, "namespace"@]
}

/// What decoding a policy's `from` entry yields: all fields required.
pub open spec fn spec_decode_policy_from(v: JsonView) -> Result<ReferencePolicyFromView, ErrorView> {
    match v {
        JsonView::Obj(pairs) => match spec_scan(pairs, policy_from_keys(), false) {
            Some(e) => Err(e),
            None => match spec_req_str(spec_field(pairs, "group"@), "group"@) {
                Err(e) => Err(e),
                Ok(group) => match spec_req_str(spec_field(pairs, "kind"@), "kind"@) {
                    Err(e) => Err(e),
                    Ok(kind) => match spec_req_str(spec_field(pairs, "namespace"@), "namespace"@) {
                        Err(e) => Err(e),
                        Ok(namespace) => Ok(ReferencePolicyFromView { group, kind, namespace }),
                    },
                },
            },
        },
        _ => Err(ErrorView::WrongType("ReferencePolicyFrom"@)),
    }
}

pub open spec fn policy_from_fields(g: ReferencePolicyFromView) -> Seq<(Seq<char>, Option<JsonView>)> {
    seq![
        ("group"@, Some(JsonView::Str(g.group))),
        ("kind"@, Some(JsonView::Str(g.kind))),
        ("namespace"@, Some(JsonView::Str(g.namespace))),
    ]
}

pub open spec fn spec_encode_policy_from(g: ReferencePolicyFromView) -> JsonView {
    JsonView::Obj(obj_of(policy_from_fields(g)))
}

proof fn lemma_policy_literals()
    ensures
        keys_distinct(policy_from_keys()),
        keys_distinct(policy_to_keys()),
        keys_distinct(policy_keys()),
{
    reveal_strlit("group");
    reveal_strlit("kind");
    reveal_strlit("namespace");
    reveal_strlit("name");
    reveal_strlit("from");
    reveal_strlit("to");
    assert("group"@.len() == 5);
    assert("kind"@.len() == 4);
    assert("namespace"@.len() == 9);
    assert("name"@.len() == 4);
    assert("from"@.len() == 4);
    assert("to"@.len() == 2);
    assert("kind"@[0] != "name"@[0]);
    assert("kind"@[0] != "from"@[0]);
    assert("name"@[0] != "from"@[0]);
    let k1 = policy_from_keys();
    assert forall|i: int, j: int| 0 <= i < j < k1.len() implies k1[i] != k1[j] by {
        assert(k1[0] != k1[1]);
        assert(k1[0] != k1[2]);
        assert(k1[1] != k1[2]);
    }
    let k2 = policy_to_keys();
    assert forall|i: int, j: int| 0 <= i < j < k2.len() implies k2[i] != k2[j] by {
        assert(k2[0] != k2[1]);
        assert(k2[0] != k2[2]);
        assert(k2[1] != k2[2]);
    }
    let k3 = policy_keys();
    assert forall|i: int, j: int| 0 <= i < j < k3.len() implies k3[i] != k3[j] by {
        assert(k3[0] != k3[1]);
    }
}

fn policy_from_keys_exec() -> (r: Vec<String>)
    ensures
        r.deep_view() == policy_from_keys(),
        keys_distinct(policy_from_keys()),
{
    let r = vec![
        String::from_str("group"),
        String::from_str("kind"),
        String::from_str("namespace"),
    ];
    proof {
        lemma_policy_literals();
        assert(r.deep_view() =~= policy_from_keys());
    }
    r
}

impl Codec for ReferencePolicyFrom {
    open spec fn spec_decode(v: JsonView) -> Result<ReferencePolicyFromView, ErrorView> {
        spec_decode_policy_from(v)
    }

    open spec fn spec_encode(g: ReferencePolicyFromView) -> JsonView {
        spec_encode_policy_from(g)
    }

    open spec fn wf(g: ReferencePolicyFromView) -> bool {
        true
    }

    fn decode(j: &Json) -> (r: Result<Self, DecodeError>)
        ensures
            res_view(r) == spec_decode_policy_from(j.deep_view()),
    {
        match j {
            Json::Obj(pairs) => {
                let ghost kv = policy_from_keys();
                let keys = policy_from_keys_exec();
                let slots = match lookup_fields(pairs, &keys, false) {
                    Ok(s) => s,
                    Err(e) => {
                        return Err(e);
                    },
                };
                proof {
                    assert(kv[0] == "group"@);
                    assert(kv[1] == "kind"@);
                    assert(kv[2] == "namespace"@);
                }
                let group = match req_str_field(slot_value(pairs, &slots, 0, Ghost(kv)), "group") {
                    Ok(v) => v,
                    Err(e) => {
                        return Err(e);
                    },
                };
                let kind = match req_str_field(slot_value(pairs, &slots, 1, Ghost(kv)), "kind") {
                    Ok(v) => v,
                    Err(e) => {
                        return Err(e);
                    },
                };
                let namespace = match req_str_field(
                    slot_value(pairs, &slots, 2, Ghost(kv)),
                    "namespace",
                ) {
                    Ok(v) => v,
                    Err(e) => {
                        return Err(e);
                    },
                };
                Ok(ReferencePolicyFrom { group, kind, namespace })
            },
            _ => Err(DecodeError::WrongType(String::from_str("ReferencePolicyFrom"))),
        }
    }

    fn encode(&self) -> (j: Json)
        ensures
            j.deep_view() == spec_encode_policy_from(self.deep_view()),
    {
        let mut obj: Vec<(String, Json)> = Vec::new();
        obj.push((String::from_str("group"), Json::Str(self.group.clone())));
        obj.push((String::from_str("kind"), Json::Str(self.kind.clone())));
        obj.push((String::from_str("namespace"), Json::Str(self.namespace.clone())));
        proof {
            broadcast use lemma_json_pair_seq_view;

            reveal_with_fuel(obj_of, 5);
            assert(json_pair_seq_view(obj@) =~= obj_of(policy_from_fields(self.deep_view())));
        }
        Json::Obj(obj)
    }

    proof fn lemma_round_trip(g: ReferencePolicyFromView)
        ensures
            spec_decode_policy_from(spec_encode_policy_from(g)) == Ok::<
                ReferencePolicyFromView,
                ErrorView,
            >(g),
    {
        lemma_policy_literals();
        let fields = policy_from_fields(g);
        let keys = policy_from_keys();
        assert(fields_distinct(fields));
        assert(fields_within(fields, keys)) by {
            assert forall|i: int| 0 <= i < fields.len() implies keys.contains(
                (#[trigger] fields[i]).0,
            ) by {
                if i == 0 {
                    assert(keys[0] == fields[0].0);
                } else if i == 1 {
                    assert(keys[1] == fields[1].0);
                } else {
                    assert(keys[2] == fields[2].0);
                }
            }
        }
        lemma_obj_of_scan(fields, keys, false);
        lemma_obj_of_field_at(fields, 0);
        lemma_obj_of_field_at(fields, 1);
        lemma_obj_of_field_at(fields, 2);
    }
}

/// ReferencePolicyTo describes what kinds are allowed as targets of the
/// granted references.
#[derive(Clone, Debug, PartialEq)]
pub struct ReferencePolicyTo {
    /// Group of the referent; empty means the core API group.
    pub group: Group,
    /// Kind of the referent.
    pub kind: Kind,
    /// Name of the referent; absent means every resource of the kind.
    pub name: Option<ObjectName>,
}

/// The mathematical shape of a [`ReferencePolicyTo`].
pub struct ReferencePolicyToView {
    pub group: Seq<char>,
    pub kind: Seq<char>,
    pub name: Option<Seq<char>>,
}

impl DeepView for ReferencePolicyTo {
    type V = ReferencePolicyToView;

    open spec fn deep_view(&self) -> ReferencePolicyToView {
        ReferencePolicyToView {
            group: self.group@,
            kind: self.kind@,
            name: self.name.deep_view(),
        }
    }
}

pub open spec fn policy_to_keys() -> Seq<Seq<char>> {
    seq!["group"@, "kind"@, "name"@]
}

/// What decoding a policy's `to` entry yields: `name` alone is optional.
pub open spec fn spec_decode_policy_to(v: JsonView) -> Result<ReferencePolicyToView, ErrorView> {
    match v {
        JsonView::Obj(pairs) => match spec_scan(pairs, policy_to_keys(), false) {
            Some(e) => Err(e),
            None => match spec_req_str(spec_field(pairs, "group"@), "group"@) {
                Err(e) => Err(e),
                Ok(group) => match spec_req_str(spec_field(pairs, "kind"@), "kind"@) {
                    Err(e) => Err(e),
                    Ok(kind) => match spec_opt_str(spec_field(pairs, "name"@), "name"@) {
                        Err(e) => Err(e),
                        Ok(name) => Ok(ReferencePolicyToView { group, kind, name }),
                    },
                },
            },
        },
        _ => Err(ErrorView::WrongType("ReferencePolicyTo"@)),
    }
}

pub open spec fn policy_to_fields(g: ReferencePolicyToView) -> Seq<(Seq<char>, Option<JsonView>)> {
    seq![
        ("group"@, Some(JsonView::Str(g.group))),
        ("kind"@, Some(JsonView::Str(g.kind))),
        ("name"@, str_entry(g.name)),
    ]
}

pub open spec fn spec_encode_policy_to(g: ReferencePolicyToView) -> JsonView {
    JsonView::Obj(obj_of(policy_to_fields(g)))
}

fn policy_to_keys_exec() -> (r: Vec<String>)
    ensures
        r.deep_view() == policy_to_keys(),
        keys_distinct(policy_to_keys()),
{
    let r = vec![String::from_str("group"), String::from_str("kind"), String::from_str("name")];
    proof {
        lemma_policy_literals();
        assert(r.deep_view() =~= policy_to_keys());
    }
    r
}

impl Codec for ReferencePolicyTo {
    open spec fn spec_decode(v: JsonView) -> Result<ReferencePolicyToView, ErrorView> {
        spec_decode_policy_to(v)
    }

    open spec fn spec_encode(g: ReferencePolicyToView) -> JsonView {
        spec_encode_policy_to(g)
    }

    open spec fn wf(g: ReferencePolicyToView) -> bool {
        true
    }

    fn decode(j: &Json) -> (r: Result<Self, DecodeError>)
        ensures
            res_view(r) == spec_decode_policy_to(j.deep_view()),
    {
        match j {
            Json::Obj(pairs) => {
                let ghost kv = policy_to_keys();
                let keys = policy_to_keys_exec();
                let slots = match lookup_fields(pairs, &keys, false) {
                    Ok(s) => s,
                    Err(e) => {
                        return Err(e);
                    },
                };
                proof {
                    assert(kv[0] == "group"@);
                    assert(kv[1] == "kind"@);
                    assert(kv[2] == "name"@);
                }
                let group = match req_str_field(slot_value(pairs, &slots, 0, Ghost(kv)), "group") {
                    Ok(v) => v,
                    Err(e) => {
                        return Err(e);
                    },
                };
                let kind = match req_str_field(slot_value(pairs, &slots, 1, Ghost(kv)), "kind") {
                    Ok(v) => v,
                    Err(e) => {
                        return Err(e);
                    },
                };
                let name = match opt_str_field(slot_value(pairs, &slots, 2, Ghost(kv)), "name") {
                    Ok(v) => v,
                    Err(e) => {
                        return Err(e);
                    },
                };
                Ok(ReferencePolicyTo { group, kind, name })
            },
            _ => Err(DecodeError::WrongType(String::from_str("ReferencePolicyTo"))),
        }
    }

    fn encode(&self) -> (j: Json)
        ensures
            j.deep_view() == spec_encode_policy_to(self.deep_view()),
    {
        let mut obj: Vec<(String, Json)> = Vec::new();
        obj.push((String::from_str("group"), Json::Str(self.group.clone())));
        obj.push((String::from_str("kind"), Json::Str(self.kind.clone())));
        if let Some(n) = &self.name {
            obj.push((String::from_str("name"), Json::Str(n.clone())));
        }
        proof {
            broadcast use lemma_json_pair_seq_view;

            reveal_with_fuel(obj_of, 5);
            assert(json_pair_seq_view(obj@) =~= obj_of(policy_to_fields(self.deep_view())));
        }
        Json::Obj(obj)
    }

    proof fn lemma_round_trip(g: ReferencePolicyToView)
        ensures
            spec_decode_policy_to(spec_encode_policy_to(g)) == Ok::<ReferencePolicyToView, ErrorView>(
                g,
            ),
    {
        lemma_policy_literals();
        let fields = policy_to_fields(g);
        let keys = policy_to_keys();
        assert(fields_distinct(fields));
        assert(fields_within(fields, keys)) by {
            assert forall|i: int| 0 <= i < fields.len() implies keys.contains(
                (#[trigger] fields[i]).0,
            ) by {
                if i == 0 {
                    assert(keys[0] == fields[0].0);
                } else if i == 1 {
                    assert(keys[1] == fields[1].0);
                } else {
                    assert(keys[2] == fields[2].0);
                }
            }
        }
        lemma_obj_of_scan(fields, keys, false);
        lemma_obj_of_field_at(fields, 0);
        lemma_obj_of_field_at(fields, 1);
        lemma_obj_of_field_at(fields, 2);
    }
}

/// ReferencePolicy: who may refer, and to what.
/// Each entry widens the set of valid references.
#[derive(Clone, Debug, PartialEq)]
pub struct ReferencePolicy {
    /// The trusted namespaces and kinds that may refer to resources
    /// described in `to`.
    pub from: Vec<ReferencePolicyFrom>,
    /// The resources that may be referred to.
    pub to: Vec<ReferencePolicyFrom>,
}

/// The mathematical shape of a [`ReferencePolicy`].
pub struct ReferencePolicyView {
    pub from: Seq<ReferencePolicyFromView>,
    pub to: Seq<ReferencePolicyFromView>,
}

impl DeepView for ReferencePolicy {
    type V = ReferencePolicyView;

    open spec fn deep_view(&self) -> ReferencePolicyView {
        ReferencePolicyView { from: self.from.deep_view(), to: self.to.deep_view() }
    }
}

pub open spec fn policy_keys() -> Seq<Seq<char>> {
    seq!["from"@, "to"@]
}

/// What decoding a ReferencePolicy yields: both lists required.
pub open spec fn spec_decode_policy(v: JsonView) -> Result<ReferencePolicyView, ErrorView> {
    match v {
        JsonView::Obj(pairs) => match spec_scan(pairs, policy_keys(), false) {
            Some(e) => Err(e),
            None => match spec_req_list::<ReferencePolicyFrom>(spec_field(pairs, "from"@), "from"@) {
                Err(e) => Err(e),
                Ok(from) => match spec_req_list::<ReferencePolicyFrom>(
                    spec_field(pairs, "to"@),
                    "to"@,
                ) {
                    Err(e) => Err(e),
                    Ok(to) => Ok(ReferencePolicyView { from, to }),
                },
            },
        },
        _ => Err(ErrorView::WrongType("ReferencePolicy"@)),
    }
}

pub open spec fn policy_fields(g: ReferencePolicyView) -> Seq<(Seq<char>, Option<JsonView>)> {
    seq![
        ("from"@, Some(JsonView::Arr(crate::wire::spec_encode_seq::<ReferencePolicyFrom>(g.from)))),
        ("to"@, Some(JsonView::Arr(crate::wire::spec_encode_seq::<ReferencePolicyFrom>(g.to)))),
    ]
}

pub open spec fn spec_encode_policy(g: ReferencePolicyView) -> JsonView {
    JsonView::Obj(obj_of(policy_fields(g)))
}

fn policy_keys_exec() -> (r: Vec<String>)
    ensures
        r.deep_view() == policy_keys(),
        keys_distinct(policy_keys()),
{
    let r = vec![String::from_str("from"), String::from_str("to")];
    proof {
        lemma_policy_literals();
        assert(r.deep_view() =~= policy_keys());
    }
    r
}

impl Codec for ReferencePolicy {
    open spec fn spec_decode(v: JsonView) -> Result<ReferencePolicyView, ErrorView> {
        spec_decode_policy(v)
    }

    open spec fn spec_encode(g: ReferencePolicyView) -> JsonView {
        spec_encode_policy(g)
    }

    open spec fn wf(g: ReferencePolicyView) -> bool {
        true
    }

    fn decode(j: &Json) -> (r: Result<Self, DecodeError>)
        ensures
            res_view(r) == spec_decode_policy(j.deep_view()),
    {
        match j {
            Json::Obj(pairs) => {
                let ghost kv = policy_keys();
                let keys = policy_keys_exec();
                let slots = match lookup_fields(pairs, &keys, false) {
                    Ok(s) => s,
                    Err(e) => {
                        return Err(e);
                    },
                };
                proof {
                    assert(kv[0] == "from"@);
                    assert(kv[1] == "to"@);
                }
                let from = match req_list_field::<ReferencePolicyFrom>(
                    slot_value(pairs, &slots, 0, Ghost(kv)),
                    "from",
                ) {
                    Ok(v) => v,
                    Err(e) => {
                        return Err(e);
                    },
                };
                let to = match req_list_field::<ReferencePolicyFrom>(
                    slot_value(pairs, &slots, 1, Ghost(kv)),
                    "to",
                ) {
                    Ok(v) => v,
                    Err(e) => {
                        return Err(e);
                    },
                };
                Ok(ReferencePolicy { from, to })
            },
            _ => Err(DecodeError::WrongType(String::from_str("ReferencePolicy"))),
        }
    }

    fn encode(&self) -> (j: Json)
        ensures
            j.deep_view() == spec_encode_policy(self.deep_view()),
    {
        let mut obj: Vec<(String, Json)> = Vec::new();
        obj.push(
            (String::from_str("from"), Json::Arr(encode_vec::<ReferencePolicyFrom>(&self.from))),
        );
        obj.push((String::from_str("to"), Json::Arr(encode_vec::<ReferencePolicyFrom>(&self.to))));
        proof {
            broadcast use lemma_json_pair_seq_view;

            reveal_with_fuel(obj_of, 4);
            assert(json_pair_seq_view(obj@) =~= obj_of(policy_fields(self.deep_view())));
        }
        Json::Obj(obj)
    }

    proof fn lemma_round_trip(g: ReferencePolicyView)
        ensures
            spec_decode_policy(spec_encode_policy(g)) == Ok::<
                ReferencePolicyView,
                ErrorView,
            >(g),
    {
        lemma_policy_literals();
        let fields = policy_fields(g);
        let keys = policy_keys();
        assert(fields_distinct(fields));
        assert(fields_within(fields, keys)) by {
            assert forall|i: int| 0 <= i < fields.len() implies keys.contains(
                (#[trigger] fields[i]).0,
            ) by {
                if i == 0 {
                    assert(keys[0] == fields[0].0);
                } else {
                    assert(keys[1] == fields[1].0);
                }
            }
        }
        lemma_obj_of_scan(fields, keys, false);
        lemma_obj_of_field_at(fields, 0);
        lemma_obj_of_field_at(fields, 1);
        lemma_seq_round_trip::<ReferencePolicyFrom>(g.from);
        lemma_seq_round_trip::<ReferencePolicyFrom>(g.to);
    }
}

} // verus!
