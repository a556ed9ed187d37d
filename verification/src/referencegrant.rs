//! The ReferenceGrant resource: a declarative statement that resources
//! in other namespaces may refer to resources here.

use vstd::prelude::*;

use crate::shared::{Group, Kind, Namespace, ObjectName};
use crate::wire::{
    Codec, DecodeError, ErrorView, Json, JsonView, encode_vec, fields_distinct, fields_within,
    json_pair_seq_view, keys_distinct, lemma_json_pair_seq_view, lemma_obj_of_field_at,
    lemma_obj_of_scan, lemma_seq_round_trip, lookup_fields, obj_of, opt_str_field, req_list_field,
    req_str_field, res_view, slot_value, spec_field, spec_opt_str, spec_req_list, spec_req_str,
    spec_scan, str_entry,
};

verus! {

/// ReferenceGrantFrom describes trusted namespaces and kinds.
#[derive(Clone, Debug, PartialEq)]
pub struct ReferenceGrantFrom {
    /// Group of the referent; empty means the core API group.
    pub group: Group,
    /// Kind of the referent.
    pub kind: Kind,
    /// Namespace of the referent.
    pub namespace: Namespace,
}

/// The mathematical shape of a [`ReferenceGrantFrom`].
pub struct ReferenceGrantFromView {
    pub group: Seq<char>,
    pub kind: Seq<char>,
    pub namespace: Seq<char>,
}

impl DeepView for ReferenceGrantFrom {
    type V = ReferenceGrantFromView;

    open spec fn deep_view(&self) -> ReferenceGrantFromView {
        ReferenceGrantFromView {
            group: self.group@,
            kind: self.kind@,
            namespace: self.namespace@,
        }
    }
}

pub open spec fn grant_from_keys() -> Seq<Seq<char>> {
    seq!["group"@, "kind"@, "namespace"@]
}

/// What decoding a grant's `from` entry yields: all fields required.
pub open spec fn spec_decode_grant_from(v: JsonView) -> Result<ReferenceGrantFromView, ErrorView> {
    match v {
        JsonView::Obj(pairs) => match spec_scan(pairs, grant_from_keys(), false) {
            Some(e) => Err(e),
            None => match spec_req_str(spec_field(pairs, "group"@), "group"@) {
                Err(e) => Err(e),
                Ok(group) => match spec_req_str(spec_field(pairs, "kind"@), "kind"@) {
                    Err(e) => Err(e),
                    Ok(kind) => match spec_req_str(spec_field(pairs, "namespace"@), "namespace"@) {
                        Err(e) => Err(e),
                        Ok(namespace) => Ok(ReferenceGrantFromView { group, kind, namespace }),
                    },
                },
            },
        },
        _ => Err(ErrorView::WrongType("ReferenceGrantFrom"@)),
    }
}

pub open spec fn grant_from_fields(g: ReferenceGrantFromView) -> Seq<(Seq<char>, Option<JsonView>)> {
    seq![
        ("group"@, Some(JsonView::Str(g.group))),
        ("kind"@, Some(JsonView::Str(g.kind))),
        ("namespace"@, Some(JsonView::Str(g.namespace))),
    ]
}

pub open spec fn spec_encode_grant_from(g: ReferenceGrantFromView) -> JsonView {
    JsonView::Obj(obj_of(grant_from_fields(g)))
}

proof fn lemma_grant_literals()
    ensures
        keys_distinct(grant_from_keys()),
        keys_distinct(grant_to_keys()),
        keys_distinct(grant_spec_keys()),
{
    reveal_strlit("group");
    reveal_strlit("kind");
    reveal_strlit("namespace");
    reveal_strlit("name");
    reveal_strlit("from");
    reveal_strlit("to");
    assert("group"@.len() == 5);
    assert("kind"@.len() == 4);
    assert("namespace"@.len() == 9);
    assert("name"@.len() == 4);
    assert("from"@.len() == 4);
    assert("to"@.len() == 2);
    assert("kind"@[0] != "name"@[0]);
    assert("kind"@[0] != "from"@[0]);
    assert("name"@[0] != "from"@[0]);
    let k1 = grant_from_keys();
    assert forall|i: int, j: int| 0 <= i < j < k1.len() implies k1[i] != k1[j] by {
        assert(k1[0] != k1[1]);
        assert(k1[0] != k1[2]);
        assert(k1[1] != k1[2]);
    }
    let k2 = grant_to_keys();
    assert forall|i: int, j: int| 0 <= i < j < k2.len() implies k2[i] != k2[j] by {
        assert(k2[0] != k2[1]);
        assert(k2[0] != k2[2]);
        assert(k2[1] != k2[2]);
    }
    let k3 = grant_spec_keys();
    assert forall|i: int, j: int| 0 <= i < j < k3.len() implies k3[i] != k3[j] by {
        assert(k3[0] != k3[1]);
    }
}

fn grant_from_keys_exec() -> (r: Vec<String>)
    ensures
        r.deep_view() == grant_from_keys(),
        keys_distinct(grant_from_keys()),
{
    let r = vec![
        String::from_str("group"),
        String::from_str("kind"),
        String::from_str("namespace"),
    ];
    proof {
        lemma_grant_literals();
        assert(r.deep_view() =~= grant_from_keys());
    }
    r
}

impl Codec for ReferenceGrantFrom {
    open spec fn spec_decode(v: JsonView) -> Result<ReferenceGrantFromView, ErrorView> {
        spec_decode_grant_from(v)
    }

    open spec fn spec_encode(g: ReferenceGrantFromView) -> JsonView {
        spec_encode_grant_from(g)
    }

    open spec fn wf(g: ReferenceGrantFromView) -> bool {
        true
    }

    fn decode(j: &Json) -> (r: Result<Self, DecodeError>)
        ensures
            res_view(r) == spec_decode_grant_from(j.deep_view()),
    {
        match j {
            Json::Obj(pairs) => {
                let ghost kv = grant_from_keys();
                let keys = grant_from_keys_exec();
                let slots = match lookup_fields(pairs, &keys, false) {
                    Ok(s) => s,
                    Err(e) => {
                        return Err(e);
                    },
                };
                proof {
                    assert(kv[0] == "group"@);
                    assert(kv[1] == "kind"@);
                    assert(kv[2] == "namespace"@);
                }
                let group = match req_str_field(slot_value(pairs, &slots, 0, Ghost(kv)), "group") {
                    Ok(v) => v,
                    Err(e) => {
                        return Err(e);
                    },
                };
                let kind = match req_str_field(slot_value(pairs, &slots, 1, Ghost(kv)), "kind") {
                    Ok(v) => v,
                    Err(e) => {
                        return Err(e);
                    },
                };
                let namespace = match req_str_field(
                    slot_value(pairs, &slots, 2, Ghost(kv)),
                    "namespace",
                ) {
                    Ok(v) => v,
                    Err(e) => {
                        return Err(e);
                    },
                };
                Ok(ReferenceGrantFrom { group, kind, namespace })
            },
            _ => Err(DecodeError::WrongType(String::from_str("ReferenceGrantFrom"))),
        }
    }

    fn encode(&self) -> (j: Json)
        ensures
            j.deep_view() == spec_encode_grant_from(self.deep_view()),
    {
        let mut obj: Vec<(String, Json)> = Vec::new();
        obj.push((String::from_str("group"), Json::Str(self.group.clone())));
        obj.push((String::from_str("kind"), Json::Str(self.kind.clone())));
        obj.push((String::from_str("namespace"), Json::Str(self.namespace.clone())));
        proof {
            broadcast use lemma_json_pair_seq_view;

            reveal_with_fuel(obj_of, 5);
            assert(json_pair_seq_view(obj@) =~= obj_of(grant_from_fields(self.deep_view())));
        }
        Json::Obj(obj)
    }

    proof fn lemma_round_trip(g: ReferenceGrantFromView)
        ensures
            spec_decode_grant_from(spec_encode_grant_from(g)) == Ok::<
                ReferenceGrantFromView,
                ErrorView,
            >(g),
    {
        lemma_grant_literals();
        let fields = grant_from_fields(g);
        let keys = grant_from_keys();
        assert(fields_distinct(fields));
        assert(fields_within(fields, keys)) by {
            assert forall|i: int| 0 <= i < fields.len() implies keys.contains(
                (#[trigger] fields[i]).0,
            ) by {
                if i == 0 {
                    assert(keys[0] == fields[0].0);
                } else if i == 1 {
                    assert(keys[1] == fields[1].0);
                } else {
                    assert(keys[2] == fields[2].0);
                }
            }
        }
        lemma_obj_of_scan(fields, keys, false);
        lemma_obj_of_field_at(fields, 0);
        lemma_obj_of_field_at(fields, 1);
        lemma_obj_of_field_at(fields, 2);
    }
}

/// ReferenceGrantTo describes what kinds are allowed as targets of the
/// granted references.
#[derive(Clone, Debug, PartialEq)]
pub struct ReferenceGrantTo {
    /// Group of the referent; empty means the core API group.
    pub group: Group,
    /// Kind of the referent.
    pub kind: Kind,
    /// Name of the referent; absent means every resource of the kind.
    pub name: Option<ObjectName>,
}

/// The mathematical shape of a [`ReferenceGrantTo`].
pub struct ReferenceGrantToView {
    pub group: Seq<char>,
    pub kind: Seq<char>,
    pub name: Option<Seq<char>>,
}

impl DeepView for ReferenceGrantTo {
    type V = ReferenceGrantToView;

    open spec fn deep_view(&self) -> ReferenceGrantToView {
        ReferenceGrantToView {
            group: self.group@,
            kind: self.kind@,
            name: self.name.deep_view(),
        }
    }
}

pub open spec fn grant_to_keys() -> Seq<Seq<char>> {
    seq!["group"@, "kind"@, "name"@]
}

/// What decoding a grant's `to` entry yields: `name` alone is optional.
pub open spec fn spec_decode_grant_to(v: JsonView) -> Result<ReferenceGrantToView, ErrorView> {
    match v {
        JsonView::Obj(pairs) => match spec_scan(pairs, grant_to_keys(), false) {
            Some(e) => Err(e),
            None => match spec_req_str(spec_field(pairs, "group"@), "group"@) {
                Err(e) => Err(e),
                Ok(group) => match spec_req_str(spec_field(pairs, "kind"@), "kind"@) {
                    Err(e) => Err(e),
                    Ok(kind) => match spec_opt_str(spec_field(pairs, "name"@), "name"@) {
                        Err(e) => Err(e),
                        Ok(name) => Ok(ReferenceGrantToView { group, kind, name }),
                    },
                },
            },
        },
        _ => Err(ErrorView::WrongType("ReferenceGrantTo"@)),
    }
}

pub open spec fn grant_to_fields(g: ReferenceGrantToView) -> Seq<(Seq<char>, Option<JsonView>)> {
    seq![
        ("group"@, Some(JsonView::Str(g.group))),
        ("kind"@, Some(JsonView::Str(g.kind))),
        ("name"@, str_entry(g.name)),
    ]
}

pub open spec fn spec_encode_grant_to(g: ReferenceGrantToView) -> JsonView {
    JsonView::Obj(obj_of(grant_to_fields(g)))
}

fn grant_to_keys_exec() -> (r: Vec<String>)
    ensures
        r.deep_view() == grant_to_keys(),
        keys_distinct(grant_to_keys()),
{
    let r = vec![String::from_str("group"), String::from_str("kind"), String::from_str("name")];
    proof {
        lemma_grant_literals();
        assert(r.deep_view() =~= grant_to_keys());
    }
    r
}

impl Codec for ReferenceGrantTo {
    open spec fn spec_decode(v: JsonView) -> Result<ReferenceGrantToView, ErrorView> {
        spec_decode_grant_to(v)
    }

    open spec fn spec_encode(g: ReferenceGrantToView) -> JsonView {
        spec_encode_grant_to(g)
    }

    open spec fn wf(g: ReferenceGrantToView) -> bool {
        true
    }

    fn decode(j: &Json) -> (r: Result<Self, DecodeError>)
        ensures
            res_view(r) == spec_decode_grant_to(j.deep_view()),
    {
        match j {
            Json::Obj(pairs) => {
                let ghost kv = grant_to_keys();
                let keys = grant_to_keys_exec();
                let slots = match lookup_fields(pairs, &keys, false) {
                    Ok(s) => s,
                    Err(e) => {
                        return Err(e);
                    },
                };
                proof {
                    assert(kv[0] == "group"@);
                    assert(kv[1] == "kind"@);
                    assert(kv[2] == "name"@);
                }
                let group = match req_str_field(slot_value(pairs, &slots, 0, Ghost(kv)), "group") {
                    Ok(v) => v,
                    Err(e) => {
                        return Err(e);
                    },
                };
                let kind = match req_str_field(slot_value(pairs, &slots, 1, Ghost(kv)), "kind") {
                    Ok(v) => v,
                    Err(e) => {
                        return Err(e);
                    },
                };
                let name = match opt_str_field(slot_value(pairs, &slots, 2, Ghost(kv)), "name") {
                    Ok(v) => v,
                    Err(e) => {
                        return Err(e);
                    },
                };
                Ok(ReferenceGrantTo { group, kind, name })
            },
            _ => Err(DecodeError::WrongType(String::from_str("ReferenceGrantTo"))),
        }
    }

    fn encode(&self) -> (j: Json)
        ensures
            j.deep_view() == spec_encode_grant_to(self.deep_view()),
    {
        let mut obj: Vec<(String, Json)> = Vec::new();
        obj.push((String::from_str("group"), Json::Str(self.group.clone())));
        obj.push((String::from_str("kind"), Json::Str(self.kind.clone())));
        if let Some(n) = &self.name {
            obj.push((String::from_str("name"), Json::Str(n.clone())));
        }
        proof {
            broadcast use lemma_json_pair_seq_view;

            reveal_with_fuel(obj_of, 5);
            assert(json_pair_seq_view(obj@) =~= obj_of(grant_to_fields(self.deep_view())));
        }
        Json::Obj(obj)
    }

    proof fn lemma_round_trip(g: ReferenceGrantToView)
        ensures
            spec_decode_grant_to(spec_encode_grant_to(g)) == Ok::<ReferenceGrantToView, ErrorView>(
                g,
            ),
    {
        lemma_grant_literals();
        let fields = grant_to_fields(g);
        let keys = grant_to_keys();
        assert(fields_distinct(fields));
        assert(fields_within(fields, keys)) by {
            assert forall|i: int| 0 <= i < fields.len() implies keys.contains(
                (#[trigger] fields[i]).0,
            ) by {
                if i == 0 {
                    assert(keys[0] == fields[0].0);
                } else if i == 1 {
                    assert(keys[1] == fields[1].0);
                } else {
                    assert(keys[2] == fields[2].0);
                }
            }
        }
        lemma_obj_of_scan(fields, keys, false);
        lemma_obj_of_field_at(fields, 0);
        lemma_obj_of_field_at(fields, 1);
        lemma_obj_of_field_at(fields, 2);
    }
}

/// The desired state of a ReferenceGrant: who may refer, and to what.
/// Each entry widens the set of valid references.
#[derive(Clone, Debug, PartialEq)]
pub struct ReferenceGrantSpec {
    /// The trusted namespaces and kinds that may refer to resources
    /// described in `to`.
    pub from: Vec<ReferenceGrantFrom>,
    /// The resources that may be referred to.
    pub to: Vec<ReferenceGrantFrom>,
}

/// The mathematical shape of a [`ReferenceGrantSpec`].
pub struct ReferenceGrantSpecView {
    pub from: Seq<ReferenceGrantFromView>,
    pub to: Seq<ReferenceGrantFromView>,
}

impl DeepView for ReferenceGrantSpec {
    type V = ReferenceGrantSpecView;

    open spec fn deep_view(&self) -> ReferenceGrantSpecView {
        ReferenceGrantSpecView { from: self.from.deep_view(), to: self.to.deep_view() }
    }
}

pub open spec fn grant_spec_keys() -> Seq<Seq<char>> {
    seq!["from"@, "to"@]
}

/// What decoding a ReferenceGrant spec yields: both lists required.
pub open spec fn spec_decode_grant_spec(v: JsonView) -> Result<ReferenceGrantSpecView, ErrorView> {
    match v {
        JsonView::Obj(pairs) => match spec_scan(pairs, grant_spec_keys(), false) {
            Some(e) => Err(e),
            None => match spec_req_list::<ReferenceGrantFrom>(spec_field(pairs, "from"@), "from"@) {
                Err(e) => Err(e),
                Ok(from) => match spec_req_list::<ReferenceGrantFrom>(
                    spec_field(pairs, "to"@),
                    "to"@,
                ) {
                    Err(e) => Err(e),
                    Ok(to) => Ok(ReferenceGrantSpecView { from, to }),
                },
            },
        },
        _ => Err(ErrorView::WrongType("ReferenceGrantSpec"@)),
    }
}

pub open spec fn grant_spec_fields(g: ReferenceGrantSpecView) -> Seq<(Seq<char>, Option<JsonView>)> {
    seq![
        ("from"@, Some(JsonView::Arr(crate::wire::spec_encode_seq::<ReferenceGrantFrom>(g.from)))),
        ("to"@, Some(JsonView::Arr(crate::wire::spec_encode_seq::<ReferenceGrantFrom>(g.to)))),
    ]
}

pub open spec fn spec_encode_grant_spec(g: ReferenceGrantSpecView) -> JsonView {
    JsonView::Obj(obj_of(grant_spec_fields(g)))
}

fn grant_spec_keys_exec() -> (r: Vec<String>)
    ensures
        r.deep_view() == grant_spec_keys(),
        keys_distinct(grant_spec_keys()),
{
    let r = vec![String::from_str("from"), String::from_str("to")];
    proof {
        lemma_grant_literals();
        assert(r.deep_view() =~= grant_spec_keys());
    }
    r
}

impl Codec for ReferenceGrantSpec {
    open spec fn spec_decode(v: JsonView) -> Result<ReferenceGrantSpecView, ErrorView> {
        spec_decode_grant_spec(v)
    }

    open spec fn spec_encode(g: ReferenceGrantSpecView) -> JsonView {
        spec_encode_grant_spec(g)
    }

    open spec fn wf(g: ReferenceGrantSpecView) -> bool {
        true
    }

    fn decode(j: &Json) -> (r: Result<Self, DecodeError>)
        ensures
            res_view(r) == spec_decode_grant_spec(j.deep_view()),
    {
        match j {
            Json::Obj(pairs) => {
                let ghost kv = grant_spec_keys();
                let keys = grant_spec_keys_exec();
                let slots = match lookup_fields(pairs, &keys, false) {
                    Ok(s) => s,
                    Err(e) => {
                        return Err(e);
                    },
                };
                proof {
                    assert(kv[0] == "from"@);
                    assert(kv[1] == "to"@);
                }
                let from = match req_list_field::<ReferenceGrantFrom>(
                    slot_value(pairs, &slots, 0, Ghost(kv)),
                    "from",
                ) {
                    Ok(v) => v,
                    Err(e) => {
                        return Err(e);
                    },
                };
                let to = match req_list_field::<ReferenceGrantFrom>(
                    slot_value(pairs, &slots, 1, Ghost(kv)),
                    "to",
                ) {
                    Ok(v) => v,
                    Err(e) => {
                        return Err(e);
                    },
                };
                Ok(ReferenceGrantSpec { from, to })
            },
            _ => Err(DecodeError::WrongType(String::from_str("ReferenceGrantSpec"))),
        }
    }

    fn encode(&self) -> (j: Json)
        ensures
            j.deep_view() == spec_encode_grant_spec(self.deep_view()),
    {
        let mut obj: Vec<(String, Json)> = Vec::new();
        obj.push(
            (String::from_str("from"), Json::Arr(encode_vec::<ReferenceGrantFrom>(&self.from))),
        );
        obj.push((String::from_str("to"), Json::Arr(encode_vec::<ReferenceGrantFrom>(&self.to))));
        proof {
            broadcast use lemma_json_pair_seq_view;

            reveal_with_fuel(obj_of, 4);
            assert(json_pair_seq_view(obj@) =~= obj_of(grant_spec_fields(self.deep_view())));
        }
        Json::Obj(obj)
    }

    proof fn lemma_round_trip(g: ReferenceGrantSpecView)
        ensures
            spec_decode_grant_spec(spec_encode_grant_spec(g)) == Ok::<
                ReferenceGrantSpecView,
                ErrorView,
            >(g),
    {
        lemma_grant_literals();
        let fields = grant_spec_fields(g);
        let keys = grant_spec_keys();
        assert(fields_distinct(fields));
        assert(fields_within(fields, keys)) by {
            assert forall|i: int| 0 <= i < fields.len() implies keys.contains(
                (#[trigger] fields[i]).0,
            ) by {
                if i == 0 {
                    assert(keys[0] == fields[0].0);
                } else {
                    assert(keys[1] == fields[1].0);
                }
            }
        }
        lemma_obj_of_scan(fields, keys, false);
        lemma_obj_of_field_at(fields, 0);
        lemma_obj_of_field_at(fields, 1);
        lemma_seq_round_trip::<ReferenceGrantFrom>(g.from);
        lemma_seq_round_trip::<ReferenceGrantFrom>(g.to);
    }
}

} // verus!
