//! The scalar and compound values of the document object model, together
//! with their mathematical model.
//!
//! An exec [`Value`] is what an encoder hands to a sink; its meaning is the
//! ghost [`ObjValue`] that [`Value::obj`] computes. Dictionaries are kept as
//! the sequence of writes in call order, duplicates included: the
//! authoritative entry for a key is the last one, as [`last_write`] defines
//! and the lemmas below prove.

use vstd::prelude::*;

verus! {

/// A real number, carried through this layer as the raw bit pattern of its
/// 32-bit binary floating-point encoding. The layer passes the number
/// through unchanged; turning it into a literal is the sink's concern.
#[derive(Debug, Clone, Copy, PartialEq, Eq, Structural, Hash)]
pub struct Real {
    pub bits: u32,
}

/// A symbolic name: a short identifier that stands for itself in the
/// encoded output.
#[derive(Debug, Clone, PartialEq, Eq, Hash)]
pub struct Name(pub String);

/// A raw byte string, written without any encoding contract.
#[derive(Debug, Clone, PartialEq, Eq, Hash)]
pub struct Str(pub Vec<u8>);

/// A human-readable text string; its encoding is the sink's concern.
#[derive(Debug, Clone, PartialEq, Eq, Hash)]
pub struct TextStr(pub String);

/// A structured calendar date with time-zone offset. Formatting it as a
/// literal is the sink's concern; this layer carries the fields through.
#[derive(Debug, Clone, Copy, PartialEq, Eq, Structural, Hash)]
pub struct Date {
    pub year: u16,
    pub month: u8,
    pub day: u8,
    pub hour: u8,
    pub minute: u8,
    pub second: u8,
    pub utc_offset_hour: i8,
    pub utc_offset_minute: u8,
}

/// A reference to a numbered object of the surrounding document.
#[derive(Debug, Clone, Copy, PartialEq, Eq, Structural, Hash)]
pub struct Ref(pub i32);

/// The closed namespace of dictionary keys this layer writes.
#[allow(non_camel_case_types)]
#[derive(Debug, Clone, Copy, PartialEq, Eq, Structural, Hash)]
pub enum Key {
    Type,
    Subtype,
    Rect,
    Contents,
    NM,
    M,
    F,
    Border,
    BS,
    C,
    A,
    H,
    T,
    Subj,
    QuadPoints,
    LL,
    FS,
    Name,
    S,
    D,
    NewWindow,
    URI,
    IsMap,
    UF,
    V,
    Desc,
    W,
}

/// The mathematical model of one value of the document object model.
#[verifier::ext_equal]
pub enum ObjValue {
    Bool(bool),
    Int(int),
    Real(u32),
    Name(Seq<char>),
    Str(Seq<u8>),
    Text(Seq<char>),
    Date(Date),
    Ref(int),
    Array(Seq<ObjValue>),
    Dict(Seq<(Key, ObjValue)>),
}

/// One value as an encoder hands it to a sink.
pub enum Value {
    Bool(bool),
    Int(i64),
    Real(Real),
    Name(Name),
    Str(Str),
    Text(TextStr),
    Date(Date),
    Ref(Ref),
    Array(Vec<Value>),
    Dict(Vec<Pair>),
}

/// One key/value write on a dictionary-shaped sink.
pub struct Pair {
    pub key: Key,
    pub value: Value,
}

impl Value {
    /// The model of this value.
    pub open spec fn obj(self) -> ObjValue
        decreases self,
    {
        match self {
            Value::Bool(b) => ObjValue::Bool(b),
            Value::Int(i) => ObjValue::Int(i as int),
            Value::Real(r) => ObjValue::Real(r.bits),
            Value::Name(n) => ObjValue::Name(n.0@),
            Value::Str(s) => ObjValue::Str(s.0@),
            Value::Text(t) => ObjValue::Text(t.0@),
            Value::Date(d) => ObjValue::Date(d),
            Value::Ref(r) => ObjValue::Ref(r.0 as int),
            Value::Array(items) => ObjValue::Array(items_obj(items@)),
            Value::Dict(pairs) => ObjValue::Dict(dict_obj(pairs@)),
        }
    }
}

/// The models of the items of an array-shaped sink, in write order.
pub open spec fn items_obj(items: Seq<Value>) -> Seq<ObjValue>
    decreases items,
{
    if items.len() == 0 {
        Seq::empty()
    } else {
        items_obj(items.drop_last()).push(items.last().obj())
    }
}

/// The models of the writes on a dictionary-shaped sink, in write order.
pub open spec fn dict_obj(pairs: Seq<Pair>) -> Seq<(Key, ObjValue)>
    decreases pairs,
{
    if pairs.len() == 0 {
        Seq::empty()
    } else {
        dict_obj(pairs.drop_last()).push((pairs.last().key, pairs.last().value.obj()))
    }
}

/// The authoritative value of a key: the value of the last write for it, or
/// `None` where the key was never written.
pub open spec fn last_write(pairs: Seq<(Key, ObjValue)>, key: Key) -> Option<ObjValue>
    decreases pairs,
{
    if pairs.len() == 0 {
        None
    } else if pairs.last().0 == key {
        Some(pairs.last().1)
    } else {
        last_write(pairs.drop_last(), key)
    }
}

pub proof fn lemma_items_obj_push(items: Seq<Value>, item: Value)
    ensures
        items_obj(items.push(item)) == items_obj(items).push(item.obj()),
{
    assert(items.push(item).drop_last() =~= items);
}

pub proof fn lemma_dict_obj_push(pairs: Seq<Pair>, pair: Pair)
    ensures
        dict_obj(pairs.push(pair)) == dict_obj(pairs).push((pair.key, pair.value.obj())),
{
    assert(pairs.push(pair).drop_last() =~= pairs);
}

pub proof fn lemma_dict_obj_len(pairs: Seq<Pair>)
    ensures
        dict_obj(pairs).len() == pairs.len(),
    decreases pairs,
{
    if pairs.len() > 0 {
        lemma_dict_obj_len(pairs.drop_last());
    }
}

pub proof fn lemma_dict_obj_index(pairs: Seq<Pair>, i: int)
    requires
        0 <= i < pairs.len(),
    ensures
        dict_obj(pairs).len() == pairs.len(),
        dict_obj(pairs)[i] == (pairs[i].key, pairs[i].value.obj()),
    decreases pairs,
{
    lemma_dict_obj_len(pairs);
    if i < pairs.len() - 1 {
        lemma_dict_obj_index(pairs.drop_last(), i);
    } else {
        lemma_dict_obj_len(pairs.drop_last());
    }
}

/// Law: the last write wins. Writing a key makes that write the key's
/// authoritative value, whatever was written before.
pub proof fn lemma_last_write_wins(pairs: Seq<(Key, ObjValue)>, key: Key, value: ObjValue)
    ensures
        last_write(pairs.push((key, value)), key) == Some(value),
{
}

/// Law: a write for one key leaves the authoritative value of every other
/// key unchanged.
pub proof fn lemma_last_write_frame(
    pairs: Seq<(Key, ObjValue)>,
    key: Key,
    value: ObjValue,
    other: Key,
)
    requires
        other != key,
    ensures
        last_write(pairs.push((key, value)), other) == last_write(pairs, other),
{
    assert(pairs.push((key, value)).drop_last() =~= pairs);
}

} // verus!
