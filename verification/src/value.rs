//! Owned dynamic values and the recursive decoder that produces them.
//!
//! The engine hands back tagged values (scalars, text, arrays, keyed maps)
//! behind opaque handles. What the decoder reads of such a handle — the type
//! tag and, per tag, the payload — is modeled here as a [`NativeValue`] tree
//! of plain values. The decoder walks that tree and produces an owned
//! [`Value`] with no reference back into it: scalars are copied out, text is
//! taken over, array elements are decoded in native order, and map entries
//! are decoded key by key. A tag this layer does not know decodes to
//! [`Value::Null`] rather than failing, so that a newer engine stays usable.
//!
//! Floating-point payloads are carried as their 32-bit IEEE bit pattern; the
//! unverified rim converts to and from `f32` at the boundary.

use vstd::prelude::*;

verus! {

/// The mathematical model of a decoded value. A mapping is a map from key
/// text to model values: insertion order is not significant, and a duplicate
/// key takes the value written last.
pub enum ValueModel {
    Null,
    Int(i32),
    Float(u32),
    Text(Seq<char>),
    Array(Seq<ValueModel>),
    Hash(Map<Seq<char>, ValueModel>),
}

/// An owned, fully-decoded dynamic value.
///
/// `Float` holds the bit pattern of a 32-bit float. `Hash` holds its entries
/// as a list of pairs in decode order; its model is the map those pairs
/// write, last write winning, so pair order is not significant beyond that.
#[derive(Debug)]
pub enum Value {
    Null,
    Int(i32),
    Float(u32),
    String(String),
    Array(Vec<Value>),
    Hash(Vec<(String, Value)>),
}

/// What a native tagged value looks like to the decoder: the type tag, and
/// per tag the payload the handle introspection calls would report.
/// `Unknown` stands for any tag outside the known set.
#[derive(Debug)]
pub enum NativeValue {
    Null,
    Int(i32),
    Float(u32),
    Text(String),
    Array(Vec<NativeValue>),
    Hash(Vec<(String, NativeValue)>),
    Unknown,
}

/// The map written by a list of key/value pairs, in order: a later pair with
/// the same key overwrites an earlier one.
pub open spec fn map_of_pairs(pairs: Seq<(Seq<char>, ValueModel)>) -> Map<Seq<char>, ValueModel>
    decreases pairs.len(),
{
    if pairs.len() == 0 {
        Map::empty()
    } else {
        map_of_pairs(pairs.drop_last()).insert(pairs.last().0, pairs.last().1)
    }
}

impl Value {
    /// The model of this value.
    pub open spec fn model(self) -> ValueModel
        decreases self,
    {
        match self {
            Value::Null => ValueModel::Null,
            Value::Int(n) => ValueModel::Int(n),
            Value::Float(bits) => ValueModel::Float(bits),
            Value::String(s) => ValueModel::Text(s@),
            Value::Array(items) => ValueModel::Array(Value::models_of(items@)),
            Value::Hash(pairs) => ValueModel::Hash(map_of_pairs(Value::pair_models_of(pairs@))),
        }
    }

    /// The models of a list of values, in order.
    pub open spec fn models_of(items: Seq<Value>) -> Seq<ValueModel>
        decreases items,
    {
        if items.len() == 0 {
            Seq::empty()
        } else {
            Value::models_of(items.drop_last()).push(items.last().model())
        }
    }

    /// The models of a list of key/value pairs, in order.
    pub open spec fn pair_models_of(pairs: Seq<(String, Value)>) -> Seq<(Seq<char>, ValueModel)>
        decreases pairs,
    {
        if pairs.len() == 0 {
            Seq::empty()
        } else {
            Value::pair_models_of(pairs.drop_last()).push(
                (pairs.last().0@, pairs.last().1.model()),
            )
        }
    }
}

impl View for Value {
    type V = ValueModel;

    open spec fn view(&self) -> ValueModel {
        self.model()
    }
}

/// `models_of` maps each element to its model.
pub proof fn lemma_models_of(items: Seq<Value>)
    ensures
        Value::models_of(items).len() == items.len(),
        forall|i: int| 0 <= i < items.len() ==> Value::models_of(items)[i] == items[i].model(),
    decreases items.len(),
{
    if items.len() > 0 {
        lemma_models_of(items.drop_last());
    }
}

/// `pair_models_of` maps each pair to its key's text and its value's model.
pub proof fn lemma_pair_models_of(pairs: Seq<(String, Value)>)
    ensures
        Value::pair_models_of(pairs).len() == pairs.len(),
        forall|i: int|
            0 <= i < pairs.len() ==> Value::pair_models_of(pairs)[i] == (
            pairs[i].0@,
            pairs[i].1.model(),
            ),
    decreases pairs.len(),
{
    if pairs.len() > 0 {
        lemma_pair_models_of(pairs.drop_last());
    }
}

/// What the decoder returns for a native value: the tag picks the shape,
/// nested values are decoded recursively, and an unknown tag yields `Null`.
pub open spec fn spec_decode(n: NativeValue) -> ValueModel
    decreases n,
{
    match n {
        NativeValue::Null => ValueModel::Null,
        NativeValue::Int(v) => ValueModel::Int(v),
        NativeValue::Float(bits) => ValueModel::Float(bits),
        NativeValue::Text(s) => ValueModel::Text(s@),
        NativeValue::Array(items) => ValueModel::Array(spec_decode_seq(items@)),
        NativeValue::Hash(pairs) => ValueModel::Hash(map_of_pairs(spec_decode_pairs(pairs@))),
        NativeValue::Unknown => ValueModel::Null,
    }
}

/// The decodings of a list of native values, in order.
pub open spec fn spec_decode_seq(items: Seq<NativeValue>) -> Seq<ValueModel>
    decreases items,
{
    if items.len() == 0 {
        Seq::empty()
    } else {
        spec_decode_seq(items.drop_last()).push(spec_decode(items.last()))
    }
}

/// The decodings of a list of native key/value pairs, in order.
pub open spec fn spec_decode_pairs(pairs: Seq<(String, NativeValue)>) -> Seq<
    (Seq<char>, ValueModel),
>
    decreases pairs,
{
    if pairs.len() == 0 {
        Seq::empty()
    } else {
        spec_decode_pairs(pairs.drop_last()).push(
            (pairs.last().0@, spec_decode(pairs.last().1)),
        )
    }
}

/// `spec_decode_seq` decodes each element.
pub proof fn lemma_spec_decode_seq(items: Seq<NativeValue>)
    ensures
        spec_decode_seq(items).len() == items.len(),
        forall|i: int| 0 <= i < items.len() ==> spec_decode_seq(items)[i] == spec_decode(items[i]),
    decreases items.len(),
{
    if items.len() > 0 {
        lemma_spec_decode_seq(items.drop_last());
    }
}

/// `spec_decode_pairs` keeps each key and decodes each value.
pub proof fn lemma_spec_decode_pairs(pairs: Seq<(String, NativeValue)>)
    ensures
        spec_decode_pairs(pairs).len() == pairs.len(),
        forall|i: int|
            0 <= i < pairs.len() ==> spec_decode_pairs(pairs)[i] == (
            pairs[i].0@,
            spec_decode(pairs[i].1),
            ),
    decreases pairs.len(),
{
    if pairs.len() > 0 {
        lemma_spec_decode_pairs(pairs.drop_last());
    }
}

/// Decode one native tagged value into an owned [`Value`], recursively.
///
/// Total: every tag in the known set decodes to the matching shape, and an
/// unrecognized tag decodes to [`Value::Null`] rather than failing.
#[verifier::loop_isolation(false)]
pub fn decode(n: &NativeValue) -> (v: Value)
    ensures
        v@ == spec_decode(*n),
    decreases *n,
{
    match n {
        NativeValue::Null => Value::Null,
        NativeValue::Int(v) => Value::Int(*v),
        NativeValue::Float(bits) => Value::Float(*bits),
        NativeValue::Text(s) => Value::String(s.clone()),
        NativeValue::Array(items) => {
            let mut out: Vec<Value> = Vec::new();
            let mut i: usize = 0;
            while i < items.len()
                invariant
                    i <= items@.len(),
                    out@.len() == i,
                    forall|j: int| 0 <= j < i ==> (#[trigger] out@[j]).model() == spec_decode(items@[j]),
                decreases items@.len() - i,
            {
                proof {
                    broadcast use vstd::std_specs::vec::axiom_vec_decreases_to_view;
                    broadcast use vstd::seq::axiom_seq_index_decreases;

                    assert(decreases_to!(*n => (*n)->Array_0));
                    assert(decreases_to!(*items => items@));
                    assert(decreases_to!(items@ => items@[i as int]));
                }
                let d = decode(&items[i]);
                out.push(d);
                i = i + 1;
            }
            proof {
                lemma_models_of(out@);
                lemma_spec_decode_seq(items@);
                assert(Value::models_of(out@) =~= spec_decode_seq(items@));
            }
            Value::Array(out)
        },
        NativeValue::Hash(pairs) => {
            let mut out: Vec<(String, Value)> = Vec::new();
            let mut i: usize = 0;
            while i < pairs.len()
                invariant
                    i <= pairs@.len(),
                    out@.len() == i,
                    forall|j: int|
                        0 <= j < i ==> (#[trigger] out@[j]).0@ == pairs@[j].0@ && out@[j].1.model()
                            == spec_decode(pairs@[j].1),
                decreases pairs@.len() - i,
            {
                proof {
                    broadcast use vstd::std_specs::vec::axiom_vec_decreases_to_view;
                    broadcast use vstd::seq::axiom_seq_index_decreases;

                    assert(decreases_to!(*n => (*n)->Hash_0));
                    assert(decreases_to!(*pairs => pairs@));
                    assert(decreases_to!(pairs@ => pairs@[i as int]));
                    assert(decreases_to!(pairs@[i as int] => pairs@[i as int].1));
                }
                let key = pairs[i].0.clone();
                let d = decode(&pairs[i].1);
                out.push((key, d));
                i = i + 1;
            }
            proof {
                lemma_pair_models_of(out@);
                lemma_spec_decode_pairs(pairs@);
                assert(Value::pair_models_of(out@) =~= spec_decode_pairs(pairs@));
            }
            Value::Hash(out)
        },
        NativeValue::Unknown => Value::Null,
    }
}

/// Law: the decoder is total and shape-faithful. Every known tag decodes to
/// the value of the matching shape — scalars and text are copied out, an
/// array keeps its element count and order, a keyed map decodes to a mapping
/// — and an unknown tag decodes to null rather than failing.
pub proof fn lemma_decode_total(n: NativeValue)
    ensures
        n matches NativeValue::Null ==> spec_decode(n) == ValueModel::Null,
        n matches NativeValue::Int(v) ==> spec_decode(n) == ValueModel::Int(v),
        n matches NativeValue::Float(bits) ==> spec_decode(n) == ValueModel::Float(bits),
        n matches NativeValue::Text(s) ==> spec_decode(n) == ValueModel::Text(s@),
        n matches NativeValue::Array(items) ==> spec_decode(n) == ValueModel::Array(
            spec_decode_seq(items@),
        ) && spec_decode_seq(items@).len() == items@.len() && (forall|i: int|
            0 <= i < items@.len() ==> spec_decode_seq(items@)[i] == spec_decode(items@[i])),
        n matches NativeValue::Hash(pairs) ==> spec_decode(n) == ValueModel::Hash(
            map_of_pairs(spec_decode_pairs(pairs@)),
        ),
        n matches NativeValue::Unknown ==> spec_decode(n) == ValueModel::Null,
{
    if let NativeValue::Array(items) = n {
        lemma_spec_decode_seq(items@);
    }
}

/// A key no pair holds is not in the written map.
pub proof fn lemma_map_of_pairs_absent(pairs: Seq<(Seq<char>, ValueModel)>, k: Seq<char>)
    requires
        forall|j: int| 0 <= j < pairs.len() ==> (#[trigger] pairs[j]).0 != k,
    ensures
        !map_of_pairs(pairs).contains_key(k),
    decreases pairs.len(),
{
    if pairs.len() > 0 {
        lemma_map_of_pairs_absent(pairs.drop_last(), k);
    }
}

/// The pair written last for a key gives its value in the written map.
pub proof fn lemma_map_of_pairs_found(pairs: Seq<(Seq<char>, ValueModel)>, k: Seq<char>, j: int)
    requires
        0 <= j < pairs.len(),
        pairs[j].0 == k,
        forall|l: int| j < l < pairs.len() ==> (#[trigger] pairs[l]).0 != k,
    ensures
        map_of_pairs(pairs).contains_key(k),
        map_of_pairs(pairs)[k] == pairs[j].1,
    decreases pairs.len(),
{
    if j < pairs.len() - 1 {
        lemma_map_of_pairs_found(pairs.drop_last(), k, j);
    }
}

/// Look a key up among a mapping's pairs. The pair written last for the key
/// decides, so the result agrees with the model map.
#[verifier::loop_isolation(false)]
pub fn hash_get<'a>(pairs: &'a Vec<(String, Value)>, key: &String) -> (r: Option<&'a Value>)
    ensures
        r is Some <==> map_of_pairs(Value::pair_models_of(pairs@)).contains_key(key@),
        r is Some ==> r->0@ == map_of_pairs(Value::pair_models_of(pairs@))[key@],
{
    proof {
        lemma_pair_models_of(pairs@);
    }
    let mut i: usize = pairs.len();
    while i > 0
        invariant
            i <= pairs@.len(),
            forall|l: int| i <= l < pairs@.len() ==> (#[trigger] pairs@[l]).0@ != key@,
        decreases i,
    {
        i = i - 1;
        if pairs[i].0.eq(key) {
            proof {
                lemma_map_of_pairs_found(Value::pair_models_of(pairs@), key@, i as int);
            }
            return Some(&pairs[i].1);
        }
    }
    proof {
        lemma_map_of_pairs_absent(Value::pair_models_of(pairs@), key@);
    }
    None
}

/// The similarity a decoded row value carries: the value of a mapping's
/// "similarity" entry when that entry is a float, else the degraded default
/// 0, the bit pattern of 0.0 (similarity is auxiliary to identity, so a
/// missing or ill-typed entry does not fail the row).
pub open spec fn spec_similarity(v: ValueModel) -> u32 {
    match v {
        ValueModel::Hash(m) => if m.contains_key("similarity"@) {
            match m["similarity"@] {
                ValueModel::Float(bits) => bits,
                _ => 0u32,
            }
        } else {
            0u32
        },
        _ => 0u32,
    }
}

/// Extract the similarity bits from a decoded row value, defaulting to the
/// bit pattern of 0.0 where the value is not a mapping, the "similarity"
/// entry is absent, or the entry is not a float.
pub fn similarity_of(v: &Value) -> (bits: u32)
    ensures
        bits == spec_similarity(v@),
{
    match v {
        Value::Hash(pairs) => {
            let key = String::from_str("similarity");
            match hash_get(pairs, &key) {
                Some(Value::Float(b)) => *b,
                Some(_) => 0,
                None => 0,
            }
        },
        _ => 0,
    }
}

} // verus!
