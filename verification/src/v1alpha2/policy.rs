//! v1alpha2 policy attachment: the reference a policy uses to name its
//! target.

use vstd::prelude::*;

use crate::shared::{Group, Kind, Namespace, ObjectName};
use crate::wire::{
    Codec, DecodeError, ErrorView, Json, JsonView, fields_distinct, fields_within,
    json_pair_seq_view, keys_distinct, lemma_json_pair_seq_view, lemma_obj_of_field_at,
    lemma_obj_of_scan, lookup_fields, obj_of, opt_str_field, req_str_field, res_view, slot_value,
    spec_field, spec_opt_str, spec_req_str, spec_scan, str_entry,
};

verus! {

/// PolicyTargetReference identifies the API object a policy applies
/// to.
#[derive(Clone, Debug, PartialEq)]
pub struct PolicyTargetReference {
    /// Group of the target resource.
    pub group: Group,
    /// Kind of the target resource.
    pub kind: Kind,
    /// Name of the target resource.
    pub name: ObjectName,
    /// Namespace of the referent; absent means the local namespace.
    pub namespace: Option<Namespace>,
}

/// The mathematical shape of a [`PolicyTargetReference`].
pub struct PolicyTargetReferenceView {
    pub group: Seq<char>,
    pub kind: Seq<char>,
    pub name: Seq<char>,
    pub namespace: Option<Seq<char>>,
}

impl DeepView for PolicyTargetReference {
    type V = PolicyTargetReferenceView;

    open spec fn deep_view(&self) -> PolicyTargetReferenceView {
        PolicyTargetReferenceView {
            group: self.group@,
            kind: self.kind@,
            name: self.name@,
            namespace: self.namespace.deep_view(),
        }
    }
}

pub open spec fn policy_target_keys() -> Seq<Seq<char>> {
    seq!["group"@, "kind"@, "name"@, "namespace"@]
}

/// What decoding a policy target yields: only `namespace` is optional.
pub open spec fn spec_decode_policy_target(v: JsonView) -> Result<
    PolicyTargetReferenceView,
    ErrorView,
> {
    match v {
        JsonView::Obj(pairs) => match spec_scan(pairs, policy_target_keys(), false) {
            Some(e) => Err(e),
            None => match spec_req_str(spec_field(pairs, "group"@), "group"@) {
                Err(e) => Err(e),
                Ok(group) => match spec_req_str(spec_field(pairs, "kind"@), "kind"@) {
                    Err(e) => Err(e),
                    Ok(kind) => match spec_req_str(spec_field(pairs, "name"@), "name"@) {
                        Err(e) => Err(e),
                        Ok(name) => match spec_opt_str(
                            spec_field(pairs, "namespace"@),
                            "namespace"@,
                        ) {
                            Err(e) => Err(e),
                            Ok(namespace) => Ok(
                                PolicyTargetReferenceView { group, kind, name, namespace },
                            ),
                        },
                    },
                },
            },
        },
        _ => Err(ErrorView::WrongType("PolicyTargetReference"@)),
    }
}

pub open spec fn policy_target_fields(p: PolicyTargetReferenceView) -> Seq<
    (Seq<char>, Option<JsonView>),
> {
    seq![
        ("group"@, Some(JsonView::Str(p.group))),
        ("kind"@, Some(JsonView::Str(p.kind))),
        ("name"@, Some(JsonView::Str(p.name))),
        ("namespace"@, str_entry(p.namespace)),
    ]
}

pub open spec fn spec_encode_policy_target(p: PolicyTargetReferenceView) -> JsonView {
    JsonView::Obj(obj_of(policy_target_fields(p)))
}

proof fn lemma_policy_target_literals()
    ensures
        keys_distinct(policy_target_keys()),
{
    reveal_strlit("group");
    reveal_strlit("kind");
    reveal_strlit("name");
    reveal_strlit("namespace");
    assert("group"@.len() == 5);
    assert("kind"@.len() == 4);
    assert("name"@.len() == 4);
    assert("namespace"@.len() == 9);
    assert("kind"@[0] != "name"@[0]);
    let keys = policy_target_keys();
    assert forall|i: int, j: int| 0 <= i < j < keys.len() implies keys[i] != keys[j] by {
        assert(keys[0] != keys[1]);
        assert(keys[0] != keys[2]);
        assert(keys[0] != keys[3]);
        assert(keys[1] != keys[2]);
        assert(keys[1] != keys[3]);
        assert(keys[2] != keys[3]);
    }
}

fn policy_target_keys_exec() -> (r: Vec<String>)
    ensures
        r.deep_view() == policy_target_keys(),
        keys_distinct(policy_target_keys()),
{
    let r = vec![
        String::from_str("group"),
        String::from_str("kind"),
        String::from_str("name"),
        String::from_str("namespace"),
    ];
    proof {
        lemma_policy_target_literals();
        assert(r.deep_view() =~= policy_target_keys());
    }
    r
}

impl Codec for PolicyTargetReference {
    open spec fn spec_decode(v: JsonView) -> Result<PolicyTargetReferenceView, ErrorView> {
        spec_decode_policy_target(v)
    }

    open spec fn spec_encode(p: PolicyTargetReferenceView) -> JsonView {
        spec_encode_policy_target(p)
    }

    open spec fn wf(p: PolicyTargetReferenceView) -> bool {
        true
    }

    fn decode(j: &Json) -> (r: Result<Self, DecodeError>)
        ensures
            res_view(r) == spec_decode_policy_target(j.deep_view()),
    {
        match j {
            Json::Obj(pairs) => {
                let ghost kv = policy_target_keys();
                let keys = policy_target_keys_exec();
                let slots = match lookup_fields(pairs, &keys, false) {
                    Ok(s) => s,
                    Err(e) => {
                        return Err(e);
                    },
                };
                proof {
                    assert(kv[0] == "group"@);
                    assert(kv[1] == "kind"@);
                    assert(kv[2] == "name"@);
                    assert(kv[3] == "namespace"@);
                }
                let group = match req_str_field(slot_value(pairs, &slots, 0, Ghost(kv)), "group") {
                    Ok(v) => v,
                    Err(e) => {
                        return Err(e);
                    },
                };
                let kind = match req_str_field(slot_value(pairs, &slots, 1, Ghost(kv)), "kind") {
                    Ok(v) => v,
                    Err(e) => {
                        return Err(e);
                    },
                };
                let name = match req_str_field(slot_value(pairs, &slots, 2, Ghost(kv)), "name") {
                    Ok(v) => v,
                    Err(e) => {
                        return Err(e);
                    },
                };
                let namespace = match opt_str_field(
                    slot_value(pairs, &slots, 3, Ghost(kv)),
                    "namespace",
                ) {
                    Ok(v) => v,
                    Err(e) => {
                        return Err(e);
                    },
                };
                Ok(PolicyTargetReference { group, kind, name, namespace })
            },
            _ => Err(DecodeError::WrongType(String::from_str("PolicyTargetReference"))),
        }
    }

    fn encode(&self) -> (j: Json)
        ensures
            j.deep_view() == spec_encode_policy_target(self.deep_view()),
    {
        let mut obj: Vec<(String, Json)> = Vec::new();
        obj.push((String::from_str("group"), Json::Str(self.group.clone())));
        obj.push((String::from_str("kind"), Json::Str(self.kind.clone())));
        obj.push((String::from_str("name"), Json::Str(self.name.clone())));
        if let Some(ns) = &self.namespace {
            obj.push((String::from_str("namespace"), Json::Str(ns.clone())));
        }
        proof {
            broadcast use lemma_json_pair_seq_view;

            reveal_with_fuel(obj_of, 6);
            assert(json_pair_seq_view(obj@) =~= obj_of(policy_target_fields(self.deep_view())));
        }
        Json::Obj(obj)
    }

    proof fn lemma_round_trip(p: PolicyTargetReferenceView)
        ensures
            spec_decode_policy_target(spec_encode_policy_target(p)) == Ok::<
                PolicyTargetReferenceView,
                ErrorView,
            >(p),
    {
        lemma_policy_target_literals();
        let fields = policy_target_fields(p);
        let keys = policy_target_keys();
        assert(fields_distinct(fields));
        assert(fields_within(fields, keys)) by {
            assert forall|i: int| 0 <= i < fields.len() implies keys.contains(
                (#[trigger] fields[i]).0,
            ) by {
                if i == 0 {
                    assert(keys[0] == fields[0].0);
                } else if i == 1 {
                    assert(keys[1] == fields[1].0);
                } else if i == 2 {
                    assert(keys[2] == fields[2].0);
                } else {
                    assert(keys[3] == fields[3].0);
                }
            }
        }
        lemma_obj_of_scan(fields, keys, false);
        lemma_obj_of_field_at(fields, 0);
        lemma_obj_of_field_at(fields, 1);
        lemma_obj_of_field_at(fields, 2);
        lemma_obj_of_field_at(fields, 3);
    }
}

} // verus!
