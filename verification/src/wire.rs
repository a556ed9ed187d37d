//! The wire document model: a JSON value as this library sees it, together
//! with the decode errors shared by every resource decoder.

use vstd::prelude::*;

verus! {

broadcast use vstd::seq::axiom_seq_index_decreases, vstd::std_specs::vec::axiom_vec_decreases_to_view;

/// A JSON document. Objects keep their fields in document order and may hold
/// repeated keys, so a decoder can detect and reject ambiguous documents.
#[derive(Debug, PartialEq)]
pub enum Json {
    Null,
    Bool(bool),
    Int(i64),
    Str(String),
    Arr(Vec<Json>),
    Obj(Vec<(String, Json)>),
}

/// The mathematical shape of a [`Json`] document: strings become character
/// sequences, lists become sequences.
pub enum JsonView {
    Null,
    Bool(bool),
    Int(i64),
    Str(Seq<char>),
    Arr(Seq<JsonView>),
    Obj(Seq<(Seq<char>, JsonView)>),
}

impl DeepView for Json {
    type V = JsonView;

    open spec fn deep_view(&self) -> JsonView
        decreases *self,
    {
        match self {
            Json::Null => JsonView::Null,
            Json::Bool(b) => JsonView::Bool(*b),
            Json::Int(n) => JsonView::Int(*n),
            Json::Str(s) => JsonView::Str(s@),
            Json::Arr(items) => JsonView::Arr(json_seq_view(items@)),
            Json::Obj(pairs) => JsonView::Obj(json_pair_seq_view(pairs@)),
        }
    }
}

/// The element-wise view of a list of documents.
pub open spec fn json_seq_view(items: Seq<Json>) -> Seq<JsonView>
    decreases items,
{
    if items.len() == 0 {
        Seq::empty()
    } else {
        seq![items[0].deep_view()] + json_seq_view(items.subrange(1, items.len() as int))
    }
}

/// The element-wise view of an object's key/value pairs.
pub open spec fn json_pair_seq_view(pairs: Seq<(String, Json)>) -> Seq<(Seq<char>, JsonView)>
    decreases pairs,
{
    if pairs.len() == 0 {
        Seq::empty()
    } else {
        seq![(pairs[0].0@, pairs[0].1.deep_view())] + json_pair_seq_view(
            pairs.subrange(1, pairs.len() as int),
        )
    }
}

/// Why a document was rejected. Every decoder fails with one of these and
/// with nothing else; the contracts say exactly which inputs give which.
#[derive(Clone, Debug, PartialEq)]
pub enum DecodeError {
    /// A recognized key appeared twice at the same nesting level.
    DuplicateField(String),
    /// A key that the decoded type does not recognize, where the decoder is
    /// strict about unknown keys.
    UnknownField(String),
    /// A required field was absent.
    MissingField(String),
    /// A field held a value of the wrong JSON type, or out of range.
    WrongType(String),
    /// A `type` discriminant named none of the accepted variants; carries the
    /// offending value and the accepted variant names.
    InvalidDiscriminant(String, Vec<String>),
}

/// The mathematical shape of a [`DecodeError`].
pub enum ErrorView {
    DuplicateField(Seq<char>),
    UnknownField(Seq<char>),
    MissingField(Seq<char>),
    WrongType(Seq<char>),
    InvalidDiscriminant(Seq<char>, Seq<Seq<char>>),
}

impl DeepView for DecodeError {
    type V = ErrorView;

    open spec fn deep_view(&self) -> ErrorView {
        match self {
            DecodeError::DuplicateField(k) => ErrorView::DuplicateField(k@),
            DecodeError::UnknownField(k) => ErrorView::UnknownField(k@),
            DecodeError::MissingField(k) => ErrorView::MissingField(k@),
            DecodeError::WrongType(k) => ErrorView::WrongType(k@),
            DecodeError::InvalidDiscriminant(v, allowed) => ErrorView::InvalidDiscriminant(
                v@,
                allowed.deep_view(),
            ),
        }
    }
}

/// The deep view of a `Result`, for decoder contracts.
pub open spec fn res_view<T: DeepView, E: DeepView>(r: Result<T, E>) -> Result<T::V, E::V> {
    match r {
        Ok(t) => Ok(t.deep_view()),
        Err(e) => Err(e.deep_view()),
    }
}

pub broadcast proof fn lemma_json_seq_view(items: Seq<Json>)
    ensures
        (#[trigger] json_seq_view(items)).len() == items.len(),
        forall|i: int|
            0 <= i < items.len() ==> (#[trigger] json_seq_view(items)[i]) == items[i].deep_view(),
    decreases items.len(),
{
    if items.len() > 0 {
        let rest = items.subrange(1, items.len() as int);
        lemma_json_seq_view(rest);
        assert(json_seq_view(items) == seq![items[0].deep_view()] + json_seq_view(rest));
        assert forall|i: int|
            0 <= i < items.len() implies (#[trigger] json_seq_view(items)[i])
            == items[i].deep_view() by {
            assert(json_seq_view(items) == seq![items[0].deep_view()] + json_seq_view(rest));
            if i > 0 {
                assert((seq![items[0].deep_view()] + json_seq_view(rest))[i] == json_seq_view(
                    rest,
                )[i - 1]);
                assert(rest[i - 1] == items[i]);
            }
        }
    }
}

pub broadcast proof fn lemma_json_pair_seq_view(pairs: Seq<(String, Json)>)
    ensures
        (#[trigger] json_pair_seq_view(pairs)).len() == pairs.len(),
        forall|i: int|
            0 <= i < pairs.len() ==> (#[trigger] json_pair_seq_view(pairs)[i]) == (
                pairs[i].0@,
                pairs[i].1.deep_view(),
            ),
    decreases pairs.len(),
{
    if pairs.len() > 0 {
        let rest = pairs.subrange(1, pairs.len() as int);
        lemma_json_pair_seq_view(rest);
        assert(json_pair_seq_view(pairs) == seq![(pairs[0].0@, pairs[0].1.deep_view())]
            + json_pair_seq_view(rest));
        assert forall|i: int|
            0 <= i < pairs.len() implies (#[trigger] json_pair_seq_view(pairs)[i]) == (
                pairs[i].0@,
                pairs[i].1.deep_view(),
            ) by {
            assert(json_pair_seq_view(pairs) == seq![(pairs[0].0@, pairs[0].1.deep_view())]
                + json_pair_seq_view(rest));
            if i > 0 {
                assert((seq![(pairs[0].0@, pairs[0].1.deep_view())] + json_pair_seq_view(rest))[i]
                    == json_pair_seq_view(rest)[i - 1]);
                assert(rest[i - 1] == pairs[i]);
            }
        }
    }
}

/// No two keys alike: every decoder's recognized-key list satisfies this.
pub open spec fn keys_distinct(keys: Seq<Seq<char>>) -> bool {
    forall|i: int, j: int| 0 <= i < j < keys.len() ==> keys[i] != keys[j]
}

/// The value of the first occurrence of `key` among an object's pairs, if any.
pub open spec fn spec_field(pairs: Seq<(Seq<char>, JsonView)>, key: Seq<char>) -> Option<JsonView>
    decreases pairs.len(),
{
    if pairs.len() == 0 {
        None
    } else if pairs[0].0 == key {
        Some(pairs[0].1)
    } else {
        spec_field(pairs.subrange(1, pairs.len() as int), key)
    }
}

proof fn lemma_spec_field_push(pairs: Seq<(Seq<char>, JsonView)>, x: (Seq<char>, JsonView), key: Seq<char>)
    ensures
        spec_field(pairs.push(x), key) == (match spec_field(pairs, key) {
            Some(v) => Some(v),
            None => if x.0 == key {
                Some(x.1)
            } else {
                None
            },
        }),
    decreases pairs.len(),
{
    if pairs.len() == 0 {
        assert(pairs =~= Seq::<(Seq<char>, JsonView)>::empty());
        assert(pairs.push(x)[0] == x);
        assert(pairs.push(x).subrange(1, 1) =~= Seq::<(Seq<char>, JsonView)>::empty());
    } else {
        assert(pairs.push(x)[0] == pairs[0]);
        assert(pairs.push(x).subrange(1, pairs.len() as int + 1) =~= pairs.subrange(
            1,
            pairs.len() as int,
        ).push(x));
        lemma_spec_field_push(pairs.subrange(1, pairs.len() as int), x, key);
    }
}

/// The first reason, in document order, for which a single left-to-right
/// scan of an object's pairs rejects the document: a recognized key that
/// was already seen, or, when `strict`, a key that is not recognized.
pub open spec fn spec_scan_from(
    pairs: Seq<(Seq<char>, JsonView)>,
    keys: Seq<Seq<char>>,
    strict: bool,
    seen: Set<Seq<char>>,
) -> Option<ErrorView>
    decreases pairs.len(),
{
    if pairs.len() == 0 {
        None
    } else {
        let k = pairs[0].0;
        if keys.contains(k) {
            if seen.contains(k) {
                Some(ErrorView::DuplicateField(k))
            } else {
                spec_scan_from(pairs.subrange(1, pairs.len() as int), keys, strict, seen.insert(k))
            }
        } else if strict {
            Some(ErrorView::UnknownField(k))
        } else {
            spec_scan_from(pairs.subrange(1, pairs.len() as int), keys, strict, seen)
        }
    }
}

/// The scan of a whole object, starting with nothing seen.
pub open spec fn spec_scan(
    pairs: Seq<(Seq<char>, JsonView)>,
    keys: Seq<Seq<char>>,
    strict: bool,
) -> Option<ErrorView> {
    spec_scan_from(pairs, keys, strict, Set::empty())
}

/// What one decoding pass over an object yields: the first error the scan
/// finds, or, for each recognized key, the value of its sole occurrence.
pub open spec fn spec_fields(
    pairs: Seq<(Seq<char>, JsonView)>,
    keys: Seq<Seq<char>>,
    strict: bool,
) -> Result<Seq<Option<JsonView>>, ErrorView> {
    match spec_scan(pairs, keys, strict) {
        Some(e) => Err(e),
        None => Ok(Seq::new(keys.len(), |i: int| spec_field(pairs, keys[i]))),
    }
}

/// The recognized keys already bound to a slot.
pub open spec fn seen_of(slots: Seq<Option<usize>>, keys: Seq<Seq<char>>) -> Set<Seq<char>> {
    Set::new(|k: Seq<char>| exists|j: int| 0 <= j < keys.len() && keys[j] == k && slots[j] is Some)
}

/// One pass over an object's pairs: for each recognized key, the index of
/// its sole occurrence. Rejects repeated recognized keys and, when
/// `strict`, unrecognized keys, exactly as [`spec_scan`] says.
pub fn lookup_fields(pairs: &Vec<(String, Json)>, keys: &Vec<String>, strict: bool) -> (r: Result<
    Vec<Option<usize>>,
    DecodeError,
>)
    requires
        keys_distinct(keys.deep_view()),
    ensures
        (match r {
            Ok(slots) => {
                &&& spec_scan(json_pair_seq_view(pairs@), keys.deep_view(), strict) is None
                &&& slots@.len() == keys@.len()
                &&& forall|j: int|
                    0 <= j < keys@.len() ==> (match #[trigger] slots@[j] {
                        Some(ix) => ix < pairs@.len() && spec_field(
                            json_pair_seq_view(pairs@),
                            keys.deep_view()[j],
                        ) == Some(json_pair_seq_view(pairs@)[ix as int].1),
                        None => spec_field(json_pair_seq_view(pairs@), keys.deep_view()[j])
                            is None,
                    })
            },
            Err(e) => spec_scan(json_pair_seq_view(pairs@), keys.deep_view(), strict) == Some(
                e.deep_view(),
            ),
        }),
{
    broadcast use lemma_json_pair_seq_view;

    let ghost pv = json_pair_seq_view(pairs@);
    let ghost kv = keys.deep_view();
    let mut slots: Vec<Option<usize>> = Vec::new();
    let mut j: usize = 0;
    while j < keys.len()
        invariant
            slots@.len() == j,
            j <= keys@.len(),
            forall|t: int| 0 <= t < j ==> slots@[t] is None,
        decreases keys@.len() - j,
    {
        slots.push(None);
        j += 1;
    }
    let mut i: usize = 0;
    proof {
        assert(pv.subrange(0, i as int) =~= Seq::<(Seq<char>, JsonView)>::empty());
        assert(pv.subrange(i as int, pv.len() as int) =~= pv);
        assert(seen_of(slots@, kv) =~= Set::<Seq<char>>::empty());
    }
    while i < pairs.len()
        invariant
            i <= pairs@.len(),
            pv == json_pair_seq_view(pairs@),
            kv == keys.deep_view(),
            pv.len() == pairs@.len(),
            kv.len() == keys@.len(),
            keys_distinct(kv),
            slots@.len() == keys@.len(),
            forall|t: int|
                0 <= t < kv.len() ==> (match #[trigger] slots@[t] {
                    Some(ix) => ix < i && pv[ix as int].0 == kv[t] && spec_field(
                        pv.subrange(0, i as int),
                        kv[t],
                    ) == Some(pv[ix as int].1),
                    None => spec_field(pv.subrange(0, i as int), kv[t]) is None,
                }),
            spec_scan_from(pv.subrange(i as int, pv.len() as int), kv, strict, seen_of(slots@, kv))
                == spec_scan(pv, kv, strict),
        decreases pairs@.len() - i,
    {
        let ghost prefix = pv.subrange(0, i as int);
        let ghost rest = pv.subrange(i as int, pv.len() as int);
        proof {
            lemma_json_pair_seq_view(pairs@);
            assert(pv[i as int] == (pairs@[i as int].0@, pairs@[i as int].1.deep_view()));
            assert(rest[0] == pv[i as int]);
            assert(rest.subrange(1, rest.len() as int) =~= pv.subrange(i + 1, pv.len() as int));
            assert(pv.subrange(0, i + 1) =~= prefix.push(pv[i as int]));
        }
        let key = &pairs[i].0;
        let mut j: usize = 0;
        let mut found: Option<usize> = None;
        while j < keys.len()
            invariant
                j <= keys@.len(),
                kv == keys.deep_view(),
                kv.len() == keys@.len(),
                0 <= i < pairs@.len(),
                key == &pairs@[i as int].0,
                (match found {
                    Some(f) => f < j && kv[f as int] == key@,
                    None => forall|t: int| 0 <= t < j ==> kv[t] != key@,
                }),
            decreases keys@.len() - j,
        {
            if found.is_none() && key.eq(&keys[j]) {
                found = Some(j);
                proof {
                    assert(kv[j as int] == keys@[j as int]@);
                }
            }
            j += 1;
        }
        match found {
            Some(f) => {
                proof {
                    assert(kv.contains(pv[i as int].0)) by {
                        assert(kv[f as int] == pv[i as int].0);
                    }
                }
                if slots[f].is_some() {
                    proof {
                        assert(seen_of(slots@, kv).contains(pv[i as int].0));
                    }
                    return Err(DecodeError::DuplicateField(key.clone()));
                }
                let ghost old_slots = slots@;
                slots.set(f, Some(i));
                proof {
                    assert(seen_of(slots@, kv) =~= seen_of(old_slots, kv).insert(pv[i as int].0));
                    assert(!seen_of(old_slots, kv).contains(pv[i as int].0)) by {
                        if exists|t: int|
                            0 <= t < kv.len() && kv[t] == pv[i as int].0 && old_slots[t] is Some {
                            let t = choose|t: int|
                                0 <= t < kv.len() && kv[t] == pv[i as int].0 && old_slots[t]
                                    is Some;
                            assert(kv[t] == kv[f as int]);
                            assert(t == f);
                        }
                    }
                    assert forall|t: int| 0 <= t < kv.len() implies (match #[trigger] slots@[t] {
                        Some(ix) => ix < i + 1 && pv[ix as int].0 == kv[t] && spec_field(
                            pv.subrange(0, i + 1),
                            kv[t],
                        ) == Some(pv[ix as int].1),
                        None => spec_field(pv.subrange(0, i + 1), kv[t]) is None,
                    }) by {
                        lemma_spec_field_push(prefix, pv[i as int], kv[t]);
                        if t != f {
                            assert(slots@[t] == old_slots[t]);
                            assert(kv[t] != pv[i as int].0);
                        }
                    }
                }
            },
            None => {
                proof {
                    assert(!kv.contains(pv[i as int].0)) by {
                        if kv.contains(pv[i as int].0) {
                            let t = choose|t: int| 0 <= t < kv.len() && kv[t] == pv[i as int].0;
                            assert(kv[t] == key@);
                        }
                    }
                }
                if strict {
                    return Err(DecodeError::UnknownField(key.clone()));
                }
                proof {
                    assert forall|t: int| 0 <= t < kv.len() implies (match #[trigger] slots@[t] {
                        Some(ix) => ix < i + 1 && pv[ix as int].0 == kv[t] && spec_field(
                            pv.subrange(0, i + 1),
                            kv[t],
                        ) == Some(pv[ix as int].1),
                        None => spec_field(pv.subrange(0, i + 1), kv[t]) is None,
                    }) by {
                        lemma_spec_field_push(prefix, pv[i as int], kv[t]);
                        assert(kv[t] != pv[i as int].0);
                    }
                }
            },
        }
        i += 1;
    }
    proof {
        assert(pv.subrange(i as int, pv.len() as int) =~= Seq::<(Seq<char>, JsonView)>::empty());
        assert(pv.subrange(0, i as int) =~= pv);
    }
    Ok(slots)
}

} // verus!

verus! {

/// A type that maps to and from the wire. `spec_decode` and `spec_encode`
/// are the mathematical statement of the mapping; `decode` and `encode`
/// implement it; `lemma_round_trip` proves that decoding an encoded value
/// gives it back, for every value that decoding can produce (`wf`).
pub trait Codec: Sized + DeepView {
    /// What decoding yields on every document, value or error.
    spec fn spec_decode(v: JsonView) -> Result<Self::V, ErrorView>;

    /// The document that encoding emits for a value.
    spec fn spec_encode(v: Self::V) -> JsonView;

    /// The values that decoding can produce: on these, encode then decode
    /// is the identity.
    spec fn wf(v: Self::V) -> bool;

    fn decode(j: &Json) -> (r: Result<Self, DecodeError>)
        ensures
            res_view(r) == Self::spec_decode(j.deep_view()),
    ;

    fn encode(&self) -> (j: Json)
        ensures
            j.deep_view() == Self::spec_encode(self.deep_view()),
    ;

    proof fn lemma_round_trip(v: Self::V)
        requires
            Self::wf(v),
        ensures
            Self::spec_decode(Self::spec_encode(v)) == Ok::<Self::V, ErrorView>(v),
    ;
}

} // verus!

verus! {

/// Element-wise decoding of a list, stopping at the first failing element.
pub open spec fn spec_decode_seq<T: Codec>(items: Seq<JsonView>) -> Result<Seq<T::V>, ErrorView>
    decreases items.len(),
{
    if items.len() == 0 {
        Ok(Seq::empty())
    } else {
        match T::spec_decode(items[0]) {
            Err(e) => Err(e),
            Ok(x) => match spec_decode_seq::<T>(items.subrange(1, items.len() as int)) {
                Err(e) => Err(e),
                Ok(t) => Ok(seq![x] + t),
            },
        }
    }
}

/// Element-wise encoding of a list.
pub open spec fn spec_encode_seq<T: Codec>(vs: Seq<T::V>) -> Seq<JsonView> {
    Seq::new(vs.len(), |i: int| T::spec_encode(vs[i]))
}

pub proof fn lemma_spec_decode_seq_push<T: Codec>(items: Seq<JsonView>, x: JsonView)
    ensures
        spec_decode_seq::<T>(items.push(x)) == (match spec_decode_seq::<T>(items) {
            Ok(t) => match T::spec_decode(x) {
                Ok(v) => Ok::<Seq<T::V>, ErrorView>(t.push(v)),
                Err(e) => Err(e),
            },
            Err(e) => Err(e),
        }),
    decreases items.len(),
{
    if items.len() == 0 {
        assert(items =~= Seq::<JsonView>::empty());
        assert(spec_decode_seq::<T>(items) == Ok::<Seq<T::V>, ErrorView>(Seq::empty()));
        assert(items.push(x)[0] == x);
        assert(items.push(x).subrange(1, 1) =~= Seq::<JsonView>::empty());
        if T::spec_decode(x) is Ok {
            let v = T::spec_decode(x)->Ok_0;
            assert(seq![v] + Seq::<T::V>::empty() =~= Seq::<T::V>::empty().push(v));
        }
    } else {
        let ep = items.push(x);
        let rest = items.subrange(1, items.len() as int);
        assert(ep[0] == items[0]);
        assert(ep.subrange(1, ep.len() as int) =~= rest.push(x));
        lemma_spec_decode_seq_push::<T>(rest, x);
        assert(spec_decode_seq::<T>(items) == (match T::spec_decode(items[0]) {
            Err(e) => Err::<Seq<T::V>, ErrorView>(e),
            Ok(h) => match spec_decode_seq::<T>(rest) {
                Err(e) => Err(e),
                Ok(t2) => Ok(seq![h] + t2),
            },
        }));
        assert(spec_decode_seq::<T>(ep) == (match T::spec_decode(items[0]) {
            Err(e) => Err::<Seq<T::V>, ErrorView>(e),
            Ok(h) => match spec_decode_seq::<T>(rest.push(x)) {
                Err(e) => Err(e),
                Ok(t2) => Ok(seq![h] + t2),
            },
        }));
        if T::spec_decode(items[0]) is Ok && spec_decode_seq::<T>(rest) is Ok && T::spec_decode(
            x,
        ) is Ok {
            let h = T::spec_decode(items[0])->Ok_0;
            let t = spec_decode_seq::<T>(rest)->Ok_0;
            let v = T::spec_decode(x)->Ok_0;
            assert(seq![h] + t.push(v) =~= (seq![h] + t).push(v));
        }
    }
}

pub proof fn lemma_spec_decode_seq_err<T: Codec>(items: Seq<JsonView>, i: int)
    requires
        0 <= i < items.len(),
        spec_decode_seq::<T>(items.subrange(0, i)) is Ok,
        T::spec_decode(items[i]) is Err,
    ensures
        spec_decode_seq::<T>(items) == Err::<Seq<T::V>, ErrorView>(
            T::spec_decode(items[i])->Err_0,
        ),
    decreases i,
{
    let prefix = items.subrange(0, i);
    if i == 0 {
    } else {
        assert(prefix[0] == items[0]);
        let rest = items.subrange(1, items.len() as int);
        assert(prefix.subrange(1, i) =~= rest.subrange(0, i - 1));
        assert(rest[i - 1] == items[i]);
        lemma_spec_decode_seq_err::<T>(rest, i - 1);
    }
}

/// Decodes each element of a list in order; the first failing element's
/// error is the list's error.
pub fn decode_vec<T: Codec>(items: &Vec<Json>) -> (r: Result<Vec<T>, DecodeError>)
    ensures
        res_view(r) == spec_decode_seq::<T>(json_seq_view(items@)),
{
    broadcast use lemma_json_seq_view;

    let ghost iv = json_seq_view(items@);
    let mut out: Vec<T> = Vec::new();
    let mut i: usize = 0;
    proof {
        assert(iv.subrange(0, 0) =~= Seq::<JsonView>::empty());
        assert(out.deep_view() =~= Seq::<T::V>::empty());
    }
    while i < items.len()
        invariant
            i <= items@.len(),
            iv == json_seq_view(items@),
            iv.len() == items@.len(),
            spec_decode_seq::<T>(iv.subrange(0, i as int)) == Ok::<Seq<T::V>, ErrorView>(
                out.deep_view(),
            ),
        decreases items@.len() - i,
    {
        proof {
            lemma_json_seq_view(items@);
            assert(iv.subrange(0, i + 1) =~= iv.subrange(0, i as int).push(iv[i as int]));
            lemma_spec_decode_seq_push::<T>(iv.subrange(0, i as int), iv[i as int]);
        }
        let ghost old_out = out.deep_view();
        match T::decode(&items[i]) {
            Ok(x) => {
                out.push(x);
                proof {
                    assert(out.deep_view() =~= old_out.push(x.deep_view()));
                }
            },
            Err(e) => {
                proof {
                    lemma_spec_decode_seq_err::<T>(iv, i as int);
                }
                return Err(e);
            },
        }
        i += 1;
    }
    proof {
        assert(iv.subrange(0, iv.len() as int) =~= iv);
    }
    Ok(out)
}

/// Encodes each element of a list in order.
pub fn encode_vec<T: Codec>(xs: &Vec<T>) -> (r: Vec<Json>)
    ensures
        json_seq_view(r@) == spec_encode_seq::<T>(xs.deep_view()),
{
    broadcast use lemma_json_seq_view;

    let mut out: Vec<Json> = Vec::new();
    let mut i: usize = 0;
    while i < xs.len()
        invariant
            i <= xs@.len(),
            out@.len() == i,
            forall|j: int|
                0 <= j < i ==> (#[trigger] out@[j]).deep_view() == T::spec_encode(
                    xs.deep_view()[j],
                ),
        decreases xs@.len() - i,
    {
        out.push(xs[i].encode());
        i += 1;
    }
    proof {
        lemma_json_seq_view(out@);
        assert(json_seq_view(out@) =~= spec_encode_seq::<T>(xs.deep_view()));
    }
    out
}

pub proof fn lemma_seq_round_trip<T: Codec>(vs: Seq<T::V>)
    requires
        forall|i: int| 0 <= i < vs.len() ==> T::wf(#[trigger] vs[i]),
    ensures
        spec_decode_seq::<T>(spec_encode_seq::<T>(vs)) == Ok::<Seq<T::V>, ErrorView>(vs),
    decreases vs.len(),
{
    let es = spec_encode_seq::<T>(vs);
    if vs.len() == 0 {
        assert(vs =~= Seq::<T::V>::empty());
        assert(es =~= Seq::<JsonView>::empty());
    } else {
        let tail = vs.subrange(1, vs.len() as int);
        T::lemma_round_trip(vs[0]);
        lemma_seq_round_trip::<T>(tail);
        assert(es[0] == T::spec_encode(vs[0]));
        assert(es.subrange(1, es.len() as int) =~= spec_encode_seq::<T>(tail));
        assert(spec_decode_seq::<T>(es) == (match T::spec_decode(es[0]) {
            Err(e) => Err::<Seq<T::V>, ErrorView>(e),
            Ok(h) => match spec_decode_seq::<T>(spec_encode_seq::<T>(tail)) {
                Err(e) => Err(e),
                Ok(t) => Ok(seq![h] + t),
            },
        }));
        assert(seq![vs[0]] + tail =~= vs);
    }
}

} // verus!

verus! {

/// An encoder's field list: each recognized key with the value it emits,
/// `None` for a field that is omitted from the document.
pub open spec fn obj_of(fields: Seq<(Seq<char>, Option<JsonView>)>) -> Seq<(Seq<char>, JsonView)>
    decreases fields.len(),
{
    if fields.len() == 0 {
        Seq::empty()
    } else {
        (match fields[0].1 {
            Some(v) => seq![(fields[0].0, v)],
            None => Seq::empty(),
        }) + obj_of(fields.subrange(1, fields.len() as int))
    }
}

pub open spec fn fields_distinct(fields: Seq<(Seq<char>, Option<JsonView>)>) -> bool {
    forall|i: int, j: int| 0 <= i < j < fields.len() ==> fields[i].0 != fields[j].0
}

pub open spec fn fields_within(
    fields: Seq<(Seq<char>, Option<JsonView>)>,
    keys: Seq<Seq<char>>,
) -> bool {
    forall|i: int| 0 <= i < fields.len() ==> keys.contains((#[trigger] fields[i]).0)
}

proof fn lemma_obj_of_scan_from(
    fields: Seq<(Seq<char>, Option<JsonView>)>,
    keys: Seq<Seq<char>>,
    strict: bool,
    seen: Set<Seq<char>>,
)
    requires
        fields_distinct(fields),
        fields_within(fields, keys),
        forall|i: int| 0 <= i < fields.len() ==> !seen.contains((#[trigger] fields[i]).0),
    ensures
        spec_scan_from(obj_of(fields), keys, strict, seen) is None,
    decreases fields.len(),
{
    if fields.len() > 0 {
        let rest = fields.subrange(1, fields.len() as int);
        assert(forall|i: int| 0 <= i < rest.len() ==> rest[i] == fields[i + 1]);
        match fields[0].1 {
            None => {
                assert(obj_of(fields) =~= obj_of(rest));
                lemma_obj_of_scan_from(rest, keys, strict, seen);
            },
            Some(v) => {
                let ep = obj_of(fields);
                assert(ep[0] == (fields[0].0, v));
                assert(ep.subrange(1, ep.len() as int) =~= obj_of(rest));
                assert(keys.contains(fields[0].0));
                assert(!seen.contains(fields[0].0));
                assert(forall|i: int|
                    0 <= i < rest.len() ==> !seen.insert(fields[0].0).contains(
                        (#[trigger] rest[i]).0,
                    ));
                lemma_obj_of_scan_from(rest, keys, strict, seen.insert(fields[0].0));
            },
        }
    }
}

/// A document whose fields all carry distinct, recognized keys passes the
/// duplicate and unknown-key scan.
pub proof fn lemma_obj_of_scan(
    fields: Seq<(Seq<char>, Option<JsonView>)>,
    keys: Seq<Seq<char>>,
    strict: bool,
)
    requires
        fields_distinct(fields),
        fields_within(fields, keys),
    ensures
        spec_scan(obj_of(fields), keys, strict) is None,
{
    lemma_obj_of_scan_from(fields, keys, strict, Set::empty());
}

/// A key no field carries is absent from the emitted document.
pub proof fn lemma_obj_of_not_key(fields: Seq<(Seq<char>, Option<JsonView>)>, key: Seq<char>)
    requires
        forall|i: int| 0 <= i < fields.len() ==> (#[trigger] fields[i]).0 != key,
    ensures
        spec_field(obj_of(fields), key) is None,
    decreases fields.len(),
{
    if fields.len() > 0 {
        let rest = fields.subrange(1, fields.len() as int);
        assert(forall|i: int| 0 <= i < rest.len() ==> rest[i] == fields[i + 1]);
        lemma_obj_of_not_key(rest, key);
        match fields[0].1 {
            None => {
                assert(obj_of(fields) =~= obj_of(rest));
            },
            Some(v) => {
                let ep = obj_of(fields);
                assert(ep[0] == (fields[0].0, v));
                assert(ep.subrange(1, ep.len() as int) =~= obj_of(rest));
            },
        }
    }
}

/// Looking a field's key up in the emitted document gives exactly what the
/// encoder's field list holds for it.
pub proof fn lemma_obj_of_field_at(fields: Seq<(Seq<char>, Option<JsonView>)>, i: int)
    requires
        fields_distinct(fields),
        0 <= i < fields.len(),
    ensures
        spec_field(obj_of(fields), fields[i].0) == fields[i].1,
    decreases fields.len(),
{
    let rest = fields.subrange(1, fields.len() as int);
    assert(forall|t: int| 0 <= t < rest.len() ==> rest[t] == fields[t + 1]);
    match fields[0].1 {
        None => {
            assert(obj_of(fields) =~= obj_of(rest));
            if i == 0 {
                lemma_obj_of_not_key(rest, fields[0].0);
            } else {
                lemma_obj_of_field_at(rest, i - 1);
            }
        },
        Some(v) => {
            let ep = obj_of(fields);
            assert(ep[0] == (fields[0].0, v));
            assert(ep.subrange(1, ep.len() as int) =~= obj_of(rest));
            if i > 0 {
                lemma_obj_of_field_at(rest, i - 1);
            }
        },
    }
}

} // verus!

verus! {

/// An optional string field: absent and `null` mean not given; anything
/// but a string is rejected under the field's name.
pub open spec fn spec_opt_str(v: Option<JsonView>, name: Seq<char>) -> Result<
    Option<Seq<char>>,
    ErrorView,
> {
    match v {
        None => Ok(None),
        Some(JsonView::Null) => Ok(None),
        Some(JsonView::Str(s)) => Ok(Some(s)),
        Some(_) => Err(ErrorView::WrongType(name)),
    }
}

pub fn opt_str_field(v: Option<&Json>, name: &str) -> (r: Result<Option<String>, DecodeError>)
    ensures
        res_view(r) == spec_opt_str(v.deep_view(), name@),
{
    match v {
        None => Ok(None),
        Some(Json::Null) => Ok(None),
        Some(Json::Str(s)) => Ok(Some(s.clone())),
        Some(_) => Err(DecodeError::WrongType(String::from_str(name))),
    }
}

/// A required string field: absent is a missing-field error; anything but
/// a string, `null` included, is rejected under the field's name.
pub open spec fn spec_req_str(v: Option<JsonView>, name: Seq<char>) -> Result<
    Seq<char>,
    ErrorView,
> {
    match v {
        None => Err(ErrorView::MissingField(name)),
        Some(JsonView::Str(s)) => Ok(s),
        Some(_) => Err(ErrorView::WrongType(name)),
    }
}

pub fn req_str_field(v: Option<&Json>, name: &str) -> (r: Result<String, DecodeError>)
    ensures
        res_view(r) == spec_req_str(v.deep_view(), name@),
{
    match v {
        None => Err(DecodeError::MissingField(String::from_str(name))),
        Some(Json::Str(s)) => Ok(s.clone()),
        Some(_) => Err(DecodeError::WrongType(String::from_str(name))),
    }
}

/// An optional 16-bit unsigned field (ports, weights, status codes):
/// absent and `null` mean not given; a number out of range or any other
/// JSON type is rejected under the field's name.
pub open spec fn spec_opt_u16(v: Option<JsonView>, name: Seq<char>) -> Result<
    Option<u16>,
    ErrorView,
> {
    match v {
        None => Ok(None),
        Some(JsonView::Null) => Ok(None),
        Some(JsonView::Int(n)) => if 0 <= n <= 65535 {
            Ok(Some(n as u16))
        } else {
            Err(ErrorView::WrongType(name))
        },
        Some(_) => Err(ErrorView::WrongType(name)),
    }
}

pub fn opt_u16_field(v: Option<&Json>, name: &str) -> (r: Result<Option<u16>, DecodeError>)
    ensures
        res_view(r) == spec_opt_u16(v.deep_view(), name@),
{
    match v {
        None => Ok(None),
        Some(Json::Null) => Ok(None),
        Some(Json::Int(n)) => if 0 <= *n && *n <= 65535 {
            Ok(Some(*n as u16))
        } else {
            Err(DecodeError::WrongType(String::from_str(name)))
        },
        Some(_) => Err(DecodeError::WrongType(String::from_str(name))),
    }
}

/// An optional field holding a nested document: absent and `null` mean not
/// given; otherwise the nested decoder speaks.
pub open spec fn spec_opt_val<T: Codec>(v: Option<JsonView>) -> Result<Option<T::V>, ErrorView> {
    match v {
        None => Ok(None),
        Some(JsonView::Null) => Ok(None),
        Some(o) => match T::spec_decode(o) {
            Ok(x) => Ok(Some(x)),
            Err(e) => Err(e),
        },
    }
}

pub fn opt_val_field<T: Codec>(v: Option<&Json>) -> (r: Result<Option<T>, DecodeError>)
    ensures
        res_view(r) == spec_opt_val::<T>(v.deep_view()),
{
    match v {
        None => Ok(None),
        Some(Json::Null) => Ok(None),
        Some(o) => match T::decode(o) {
            Ok(x) => Ok(Some(x)),
            Err(e) => Err(e),
        },
    }
}

/// A required field holding a nested document: absent is a missing-field
/// error; otherwise the nested decoder speaks.
pub open spec fn spec_req_val<T: Codec>(v: Option<JsonView>, name: Seq<char>) -> Result<
    T::V,
    ErrorView,
> {
    match v {
        None => Err(ErrorView::MissingField(name)),
        Some(o) => T::spec_decode(o),
    }
}

pub fn req_val_field<T: Codec>(v: Option<&Json>, name: &str) -> (r: Result<T, DecodeError>)
    ensures
        res_view(r) == spec_req_val::<T>(v.deep_view(), name@),
{
    match v {
        None => Err(DecodeError::MissingField(String::from_str(name))),
        Some(o) => T::decode(o),
    }
}

/// An optional field holding a list: absent and `null` mean not given; a
/// non-list is rejected under the field's name; elements decode in order.
pub open spec fn spec_opt_list<T: Codec>(v: Option<JsonView>, name: Seq<char>) -> Result<
    Option<Seq<T::V>>,
    ErrorView,
> {
    match v {
        None => Ok(None),
        Some(JsonView::Null) => Ok(None),
        Some(JsonView::Arr(items)) => match spec_decode_seq::<T>(items) {
            Ok(t) => Ok(Some(t)),
            Err(e) => Err(e),
        },
        Some(_) => Err(ErrorView::WrongType(name)),
    }
}

pub fn opt_list_field<T: Codec>(v: Option<&Json>, name: &str) -> (r: Result<
    Option<Vec<T>>,
    DecodeError,
>)
    ensures
        res_view(r) == spec_opt_list::<T>(v.deep_view(), name@),
{
    match v {
        None => Ok(None),
        Some(Json::Null) => Ok(None),
        Some(Json::Arr(items)) => match decode_vec::<T>(items) {
            Ok(xs) => Ok(Some(xs)),
            Err(e) => Err(e),
        },
        Some(_) => Err(DecodeError::WrongType(String::from_str(name))),
    }
}

/// A required field holding a list: absent is a missing-field error; a
/// non-list, `null` included, is rejected under the field's name.
pub open spec fn spec_req_list<T: Codec>(v: Option<JsonView>, name: Seq<char>) -> Result<
    Seq<T::V>,
    ErrorView,
> {
    match v {
        None => Err(ErrorView::MissingField(name)),
        Some(JsonView::Arr(items)) => spec_decode_seq::<T>(items),
        Some(_) => Err(ErrorView::WrongType(name)),
    }
}

pub fn req_list_field<T: Codec>(v: Option<&Json>, name: &str) -> (r: Result<Vec<T>, DecodeError>)
    ensures
        res_view(r) == spec_req_list::<T>(v.deep_view(), name@),
{
    match v {
        None => Err(DecodeError::MissingField(String::from_str(name))),
        Some(Json::Arr(items)) => decode_vec::<T>(items),
        Some(_) => Err(DecodeError::WrongType(String::from_str(name))),
    }
}

} // verus!

verus! {

/// The value a slot of [`lookup_fields`] points at, borrowed from the
/// document: exactly the field that `spec_field` names for that key.
pub fn slot_value<'a>(
    pairs: &'a Vec<(String, Json)>,
    slots: &Vec<Option<usize>>,
    i: usize,
    Ghost(kv): Ghost<Seq<Seq<char>>>,
) -> (r: Option<&'a Json>)
    requires
        i < slots@.len(),
        i < kv.len(),
        match slots@[i as int] {
            Some(ix) => ix < pairs@.len() && spec_field(json_pair_seq_view(pairs@), kv[i as int])
                == Some(json_pair_seq_view(pairs@)[ix as int].1),
            None => spec_field(json_pair_seq_view(pairs@), kv[i as int]) is None,
        },
    ensures
        r.deep_view() == spec_field(json_pair_seq_view(pairs@), kv[i as int]),
{
    match slots[i] {
        Some(ix) => {
            proof {
                lemma_json_pair_seq_view(pairs@);
                assert(json_pair_seq_view(pairs@)[ix as int].1 == pairs@[ix as int].1.deep_view());
            }
            Some(&pairs[ix].1)
        },
        None => None,
    }
}

} // verus!

verus! {

/// A string field as an encoder emits it: present strings as strings,
/// absent ones omitted.
pub open spec fn str_entry(v: Option<Seq<char>>) -> Option<JsonView> {
    match v {
        Some(s) => Some(JsonView::Str(s)),
        None => None,
    }
}

/// A 16-bit unsigned field as an encoder emits it.
pub open spec fn u16_entry(v: Option<u16>) -> Option<JsonView> {
    match v {
        Some(n) => Some(JsonView::Int(n as i64)),
        None => None,
    }
}

/// A nested-document field as an encoder emits it.
pub open spec fn val_entry<T: Codec>(v: Option<T::V>) -> Option<JsonView> {
    match v {
        Some(x) => Some(T::spec_encode(x)),
        None => None,
    }
}

/// A list field as an encoder emits it.
pub open spec fn list_entry<T: Codec>(v: Option<Seq<T::V>>) -> Option<JsonView> {
    match v {
        Some(t) => Some(JsonView::Arr(spec_encode_seq::<T>(t))),
        None => None,
    }
}

/// Plain strings occur as list elements (hostnames, header names to
/// remove); their wire form is the JSON string itself.
impl Codec for String {
    open spec fn spec_decode(v: JsonView) -> Result<Seq<char>, ErrorView> {
        match v {
            JsonView::Str(s) => Ok(s),
            _ => Err(ErrorView::WrongType("string"@)),
        }
    }

    open spec fn spec_encode(v: Seq<char>) -> JsonView {
        JsonView::Str(v)
    }

    open spec fn wf(v: Seq<char>) -> bool {
        true
    }

    fn decode(j: &Json) -> (r: Result<Self, DecodeError>)
        ensures
            res_view(r) == Self::spec_decode(j.deep_view()),
    {
        match j {
            Json::Str(s) => Ok(s.clone()),
            _ => Err(DecodeError::WrongType(String::from_str("string"))),
        }
    }

    fn encode(&self) -> (j: Json)
        ensures
            j.deep_view() == Self::spec_encode(self.deep_view()),
    {
        Json::Str(self.clone())
    }

    proof fn lemma_round_trip(v: Seq<char>)
        ensures
            Self::spec_decode(Self::spec_encode(v)) == Ok::<Seq<char>, ErrorView>(v),
    {
    }
}

} // verus!

verus! {

/// A required 16-bit unsigned field: absent is a missing-field error; a
/// number out of range or any other JSON type is rejected under the
/// field's name.
pub open spec fn spec_req_u16(v: Option<JsonView>, name: Seq<char>) -> Result<u16, ErrorView> {
    match v {
        None => Err(ErrorView::MissingField(name)),
        Some(JsonView::Int(n)) => if 0 <= n <= 65535 {
            Ok(n as u16)
        } else {
            Err(ErrorView::WrongType(name))
        },
        Some(_) => Err(ErrorView::WrongType(name)),
    }
}

pub fn req_u16_field(v: Option<&Json>, name: &str) -> (r: Result<u16, DecodeError>)
    ensures
        res_view(r) == spec_req_u16(v.deep_view(), name@),
{
    match v {
        None => Err(DecodeError::MissingField(String::from_str(name))),
        Some(Json::Int(n)) => if 0 <= *n && *n <= 65535 {
            Ok(*n as u16)
        } else {
            Err(DecodeError::WrongType(String::from_str(name)))
        },
        Some(_) => Err(DecodeError::WrongType(String::from_str(name))),
    }
}

/// An optional 64-bit signed field (generation counters): absent and
/// `null` mean not given.
pub open spec fn spec_opt_i64(v: Option<JsonView>, name: Seq<char>) -> Result<
    Option<i64>,
    ErrorView,
> {
    match v {
        None => Ok(None),
        Some(JsonView::Null) => Ok(None),
        Some(JsonView::Int(n)) => Ok(Some(n)),
        Some(_) => Err(ErrorView::WrongType(name)),
    }
}

pub fn opt_i64_field(v: Option<&Json>, name: &str) -> (r: Result<Option<i64>, DecodeError>)
    ensures
        res_view(r) == spec_opt_i64(v.deep_view(), name@),
{
    match v {
        None => Ok(None),
        Some(Json::Null) => Ok(None),
        Some(Json::Int(n)) => Ok(Some(*n)),
        Some(_) => Err(DecodeError::WrongType(String::from_str(name))),
    }
}

/// The entries of an object read as a string-to-string map: values must
/// be strings, keys must not repeat, and document order is kept.
pub open spec fn spec_str_map_from(
    pairs: Seq<(Seq<char>, JsonView)>,
    seen: Set<Seq<char>>,
) -> Result<Seq<(Seq<char>, Seq<char>)>, ErrorView>
    decreases pairs.len(),
{
    if pairs.len() == 0 {
        Ok(Seq::empty())
    } else {
        let k = pairs[0].0;
        if seen.contains(k) {
            Err(ErrorView::DuplicateField(k))
        } else {
            match pairs[0].1 {
                JsonView::Str(s) => match spec_str_map_from(
                    pairs.subrange(1, pairs.len() as int),
                    seen.insert(k),
                ) {
                    Ok(t) => Ok(seq![(k, s)] + t),
                    Err(e) => Err(e),
                },
                _ => Err(ErrorView::WrongType(k)),
            }
        }
    }
}

/// An optional field holding a string-to-string map: absent and `null`
/// mean not given; a non-object is rejected under the field's name.
pub open spec fn spec_opt_str_map(v: Option<JsonView>, name: Seq<char>) -> Result<
    Option<Seq<(Seq<char>, Seq<char>)>>,
    ErrorView,
> {
    match v {
        None => Ok(None),
        Some(JsonView::Null) => Ok(None),
        Some(JsonView::Obj(pairs)) => match spec_str_map_from(pairs, Set::empty()) {
            Ok(t) => Ok(Some(t)),
            Err(e) => Err(e),
        },
        Some(_) => Err(ErrorView::WrongType(name)),
    }
}

/// The keys already taken by the entries read so far.
pub open spec fn entry_keys_of(out: Seq<(String, String)>) -> Set<Seq<char>> {
    Set::new(|k: Seq<char>| exists|j: int| 0 <= j < out.len() && out[j].0@ == k)
}

proof fn lemma_spec_str_map_err(
    pairs: Seq<(Seq<char>, JsonView)>,
    seen: Set<Seq<char>>,
    i: int,
    e: ErrorView,
)
    requires
        0 <= i < pairs.len(),
        forall|t: int|
            0 <= t < i ==> (#[trigger] pairs[t]).1 is Str && !seen.contains(pairs[t].0),
        forall|t1: int, t2: int| 0 <= t1 < t2 < i ==> pairs[t1].0 != pairs[t2].0,
        ({
            let k = pairs[i].0;
            if seen.contains(k) || (exists|t: int| 0 <= t < i && (#[trigger] pairs[t]).0 == k) {
                e == ErrorView::DuplicateField(k)
            } else if !(pairs[i].1 is Str) {
                e == ErrorView::WrongType(k)
            } else {
                false
            }
        }),
    ensures
        spec_str_map_from(pairs, seen) == Err::<Seq<(Seq<char>, Seq<char>)>, ErrorView>(e),
    decreases i,
{
    let rest = pairs.subrange(1, pairs.len() as int);
    assert(forall|t: int| 0 <= t < rest.len() ==> rest[t] == pairs[t + 1]);
    if i > 0 {
        let k = pairs[i].0;
        let seen2 = seen.insert(pairs[0].0);
        if seen.contains(k) || (exists|t: int| 0 <= t < i && (#[trigger] pairs[t]).0 == k) {
            assert(seen2.contains(k) || (exists|t: int|
                0 <= t < i - 1 && (#[trigger] rest[t]).0 == k)) by {
                if !seen.contains(k) {
                    let t = choose|t: int| 0 <= t < i && (#[trigger] pairs[t]).0 == k;
                    if t == 0 {
                        assert(seen2.contains(k));
                    } else {
                        assert(rest[t - 1].0 == k);
                    }
                }
            }
        } else {
            assert(!seen2.contains(k)) by {
                assert(pairs[0].0 != k);
            }
            assert(!(exists|t: int| 0 <= t < i - 1 && (#[trigger] rest[t]).0 == k)) by {
                if exists|t: int| 0 <= t < i - 1 && (#[trigger] rest[t]).0 == k {
                    let t = choose|t: int| 0 <= t < i - 1 && (#[trigger] rest[t]).0 == k;
                    assert(pairs[t + 1].0 == k);
                }
            }
        }
        lemma_spec_str_map_err(rest, seen2, i - 1, e);
    }
}

proof fn lemma_spec_str_map_ok(
    pairs: Seq<(Seq<char>, JsonView)>,
    seen: Set<Seq<char>>,
    entries: Seq<(Seq<char>, Seq<char>)>,
)
    requires
        entries.len() == pairs.len(),
        forall|t: int|
            0 <= t < pairs.len() ==> (#[trigger] pairs[t]).1 == JsonView::Str(entries[t].1)
                && pairs[t].0 == entries[t].0 && !seen.contains(pairs[t].0),
        forall|t1: int, t2: int| 0 <= t1 < t2 < pairs.len() ==> pairs[t1].0 != pairs[t2].0,
    ensures
        spec_str_map_from(pairs, seen) == Ok::<Seq<(Seq<char>, Seq<char>)>, ErrorView>(entries),
    decreases pairs.len(),
{
    if pairs.len() == 0 {
        assert(entries =~= Seq::<(Seq<char>, Seq<char>)>::empty());
    } else {
        let rest = pairs.subrange(1, pairs.len() as int);
        let erest = entries.subrange(1, entries.len() as int);
        assert(forall|t: int| 0 <= t < rest.len() ==> rest[t] == pairs[t + 1]);
        assert(forall|t: int| 0 <= t < erest.len() ==> erest[t] == entries[t + 1]);
        lemma_spec_str_map_ok(rest, seen.insert(pairs[0].0), erest);
        assert(seq![(pairs[0].0, entries[0].1)] + erest =~= entries);
    }
}

/// Reads an object's pairs as a string-to-string map, in document
/// order, rejecting repeated keys and non-string values.
pub fn opt_str_map_field(v: Option<&Json>, name: &str) -> (r: Result<
    Option<Vec<(String, String)>>,
    DecodeError,
>)
    ensures
        (match r {
            Ok(out) => spec_opt_str_map(v.deep_view(), name@) == Ok::<
                Option<Seq<(Seq<char>, Seq<char>)>>,
                ErrorView,
            >(
                match out {
                    Some(entries) => Some(
                        Seq::new(entries@.len(), |i: int| (entries@[i].0@, entries@[i].1@)),
                    ),
                    None => None,
                },
            ),
            Err(e) => spec_opt_str_map(v.deep_view(), name@) == Err::<
                Option<Seq<(Seq<char>, Seq<char>)>>,
                ErrorView,
            >(e.deep_view()),
        }),
{
    broadcast use lemma_json_pair_seq_view;

    match v {
        None => Ok(None),
        Some(Json::Null) => Ok(None),
        Some(Json::Obj(pairs)) => {
            let ghost pv = json_pair_seq_view(pairs@);
            let mut out: Vec<(String, String)> = Vec::new();
            let mut i: usize = 0;
            while i < pairs.len()
                invariant
                    i <= pairs@.len(),
                    pv == json_pair_seq_view(pairs@),
                    v.deep_view() == Some(JsonView::Obj(pv)),
                    pv.len() == pairs@.len(),
                    out@.len() == i,
                    forall|t: int|
                        0 <= t < i ==> pv[t].1 == JsonView::Str((#[trigger] out@[t]).1@)
                            && pv[t].0 == out@[t].0@,
                    forall|t1: int, t2: int| 0 <= t1 < t2 < i ==> pv[t1].0 != pv[t2].0,
                decreases pairs@.len() - i,
            {
                proof {
                    lemma_json_pair_seq_view(pairs@);
                }
                proof {
                    assert(pv[i as int] == (pairs@[i as int].0@, pairs@[i as int].1.deep_view()));
                }
                let (k, val) = &pairs[i];
                let mut t: usize = 0;
                while t < out.len()
                    invariant
                        t <= out@.len(),
                        out@.len() == i,
                        i < pairs@.len(),
                        pv == json_pair_seq_view(pairs@),
                        v.deep_view() == Some(JsonView::Obj(pv)),
                        pv.len() == pairs@.len(),
                        k@ == pv[i as int].0,
                        forall|u: int| 0 <= u < i ==> (#[trigger] pv[u]).0 == out@[u].0@,
                        forall|u: int| 0 <= u < i ==> (#[trigger] pv[u]).1 == JsonView::Str(
                            out@[u].1@,
                        ),
                        forall|u1: int, u2: int| 0 <= u1 < u2 < i ==> pv[u1].0 != pv[u2].0,
                        forall|u: int| 0 <= u < t ==> (#[trigger] out@[u]).0@ != k@,
                    decreases out@.len() - t,
                {
                    if out[t].0.eq(k) {
                        proof {
                            assert(pv[t as int].0 == pv[i as int].0);
                            assert(exists|u: int|
                                0 <= u < i && (#[trigger] pv[u]).0 == pv[i as int].0) by {
                                assert(pv[t as int].0 == pv[i as int].0);
                            }
                            lemma_spec_str_map_err(
                                pv,
                                Set::empty(),
                                i as int,
                                ErrorView::DuplicateField(pv[i as int].0),
                            );
                        }
                        return Err(DecodeError::DuplicateField(k.clone()));
                    }
                    t += 1;
                }
                match val {
                    Json::Str(sv) => {
                        out.push((k.clone(), sv.clone()));
                    },
                    _ => {
                        proof {
                            assert(forall|u: int|
                                0 <= u < i ==> (#[trigger] pv[u]).0 != pv[i as int].0) by {
                                assert(forall|u: int|
                                    0 <= u < i ==> (#[trigger] pv[u]).0 == out@[u].0@);
                            }
                            assert(!(exists|u: int|
                                0 <= u < i && (#[trigger] pv[u]).0 == pv[i as int].0));
                            assert(!(pv[i as int].1 is Str));
                            lemma_spec_str_map_err(
                                pv,
                                Set::empty(),
                                i as int,
                                ErrorView::WrongType(pv[i as int].0),
                            );
                        }
                        return Err(DecodeError::WrongType(k.clone()));
                    },
                }
                i += 1;
            }
            proof {
                lemma_spec_str_map_ok(
                    pv,
                    Set::empty(),
                    Seq::new(out@.len(), |t: int| (out@[t].0@, out@[t].1@)),
                );
            }
            Ok(Some(out))
        },
        Some(_) => Err(DecodeError::WrongType(String::from_str(name))),
    }
}

/// A string-map field as an encoder emits it: an object with one pair
/// per entry, in order.
pub open spec fn str_map_entry(v: Option<Seq<(Seq<char>, Seq<char>)>>) -> Option<JsonView> {
    match v {
        Some(entries) => Some(
            JsonView::Obj(
                Seq::new(entries.len(), |i: int| (entries[i].0, JsonView::Str(entries[i].1))),
            ),
        ),
        None => None,
    }
}

/// Emits a string-to-string map as an object, in entry order.
pub fn encode_str_map(entries: &Vec<(String, String)>) -> (j: Json)
    ensures
        j.deep_view() == JsonView::Obj(
            Seq::new(entries@.len(), |i: int| (entries@[i].0@, JsonView::Str(entries@[i].1@))),
        ),
{
    broadcast use lemma_json_pair_seq_view;

    let mut out: Vec<(String, Json)> = Vec::new();
    let mut i: usize = 0;
    while i < entries.len()
        invariant
            i <= entries@.len(),
            out@.len() == i,
            forall|t: int|
                0 <= t < i ==> (#[trigger] out@[t]).0@ == entries@[t].0@ && out@[t].1
                    == Json::Str(entries@[t].1),
        decreases entries@.len() - i,
    {
        out.push((entries[i].0.clone(), Json::Str(entries[i].1.clone())));
        i += 1;
    }
    proof {
        lemma_json_pair_seq_view(out@);
        assert(json_pair_seq_view(out@) =~= Seq::new(
            entries@.len(),
            |t: int| (entries@[t].0@, JsonView::Str(entries@[t].1@)),
        ));
    }
    Json::Obj(out)
}

/// Round trip for a string map with distinct keys.
pub proof fn lemma_str_map_round_trip(entries: Seq<(Seq<char>, Seq<char>)>)
    requires
        forall|i: int, j: int| 0 <= i < j < entries.len() ==> entries[i].0 != entries[j].0,
    ensures
        spec_str_map_from(
            Seq::new(entries.len(), |i: int| (entries[i].0, JsonView::Str(entries[i].1))),
            Set::empty(),
        ) == Ok::<Seq<(Seq<char>, Seq<char>)>, ErrorView>(entries),
{
    let pairs = Seq::new(entries.len(), |i: int| (entries[i].0, JsonView::Str(entries[i].1)));
    lemma_spec_str_map_ok(pairs, Set::empty(), entries);
}

} // verus!
