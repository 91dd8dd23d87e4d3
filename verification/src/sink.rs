//! The primitive sinks: an in-memory dictionary-shaped and array-shaped
//! slot of the document object model.
//!
//! A sink records every write in call order. Finishing a sink commits its
//! content as a single [`Value`], which a parent encoder then writes into
//! its own slot; after that the content can no longer change, which is the
//! finalization discipline of the scoped encoders built on top.

use vstd::prelude::*;

use crate::value::dict_obj;
use crate::value::items_obj;
use crate::value::last_write;
use crate::value::lemma_dict_obj_index;
use crate::value::lemma_dict_obj_push;
use crate::value::lemma_items_obj_push;
use crate::value::Key;
use crate::value::ObjValue;
use crate::value::Pair;
use crate::value::Real;
use crate::value::Value;

verus! {

/// A dictionary-shaped slot: the ordered record of its key/value writes.
pub struct DictSink {
    pairs: Vec<Pair>,
}

impl View for DictSink {
    type V = Seq<(Key, ObjValue)>;

    closed spec fn view(&self) -> Seq<(Key, ObjValue)> {
        dict_obj(self.pairs@)
    }
}

impl DictSink {
    /// Opens a fresh, empty dictionary-shaped slot.
    pub fn new() -> (sink: DictSink)
        ensures
            sink@ == Seq::<(Key, ObjValue)>::empty(),
    {
        DictSink { pairs: Vec::new() }
    }

    /// Appends one key/value write. Nothing written before is disturbed.
    pub fn write_pair(&mut self, key: Key, value: Value)
        ensures
            final(self)@ == old(self)@.push((key, value.obj())),
    {
        proof {
            lemma_dict_obj_push(self.pairs@, Pair { key: key, value: value });
        }
        self.pairs.push(Pair { key: key, value: value });
    }

    /// The writes recorded so far, in call order.
    pub fn pairs(&self) -> (pairs: &Vec<Pair>)
        ensures
            dict_obj(pairs@) == self@,
    {
        &self.pairs
    }

    /// The authoritative value of a key: the last write for it, if any.
    pub fn lookup(&self, key: Key) -> (found: Option<&Value>)
        ensures
            match found {
                Some(value) => last_write(self@, key) == Some(value.obj()),
                None => last_write(self@, key) is None,
            },
    {
        let mut i: usize = self.pairs.len();
        while i > 0
            invariant
                i <= self.pairs.len(),
                forall|j: int| i <= j < self.pairs.len() ==> self.pairs@[j].key != key,
            decreases i,
        {
            i = i - 1;
            if self.pairs[i].key == key {
                proof {
                    lemma_last_write_at(self.pairs@, key, i as int);
                }
                return Some(&self.pairs[i].value);
            }
        }
        proof {
            lemma_last_write_none(self.pairs@, key);
        }
        None
    }

    /// Commits the dictionary: its writes become one immutable value.
    pub fn finish(self) -> (value: Value)
        ensures
            value.obj() == ObjValue::Dict(self@),
    {
        Value::Dict(self.pairs)
    }
}

/// An array-shaped slot: the ordered record of its item writes.
pub struct ArraySink {
    items: Vec<Value>,
}

impl View for ArraySink {
    type V = Seq<ObjValue>;

    closed spec fn view(&self) -> Seq<ObjValue> {
        items_obj(self.items@)
    }
}

impl ArraySink {
    /// Opens a fresh, empty array-shaped slot.
    pub fn new() -> (sink: ArraySink)
        ensures
            sink@ == Seq::<ObjValue>::empty(),
    {
        ArraySink { items: Vec::new() }
    }

    /// Appends one item at the next position. Earlier items keep their
    /// positions: insertion order is the element order of the result.
    pub fn write_item(&mut self, value: Value)
        ensures
            final(self)@ == old(self)@.push(value.obj()),
    {
        proof {
            lemma_items_obj_push(self.items@, value);
        }
        self.items.push(value);
    }

    /// The items recorded so far, in write order.
    pub fn items(&self) -> (items: &Vec<Value>)
        ensures
            items_obj(items@) == self@,
    {
        &self.items
    }

    /// Commits the array: its items become one immutable value.
    pub fn finish(self) -> (value: Value)
        ensures
            value.obj() == ObjValue::Array(self@),
    {
        Value::Array(self.items)
    }
}

/// The models of a sequence of real numbers written as array items.
pub open spec fn real_items(reals: Seq<Real>) -> Seq<ObjValue> {
    Seq::new(reals.len(), |i: int| ObjValue::Real(reals[i].bits))
}

/// Commits a run of real numbers as one array value, in order.
pub fn real_array(reals: &Vec<Real>) -> (value: Value)
    ensures
        value.obj() == ObjValue::Array(real_items(reals@)),
{
    let mut sink = ArraySink::new();
    let mut i: usize = 0;
    while i < reals.len()
        invariant
            i <= reals.len(),
            sink@ == real_items(reals@.take(i as int)),
        decreases reals.len() - i,
    {
        proof {
            assert(reals@.take(i + 1).drop_last() =~= reals@.take(i as int));
            assert(real_items(reals@.take(i as int)).push(ObjValue::Real(reals@[i as int].bits))
                =~= real_items(reals@.take(i + 1)));
        }
        sink.write_item(Value::Real(reals[i]));
        i = i + 1;
    }
    proof {
        assert(reals@.take(reals@.len() as int) =~= reals@);
    }
    sink.finish()
}

proof fn lemma_last_write_at(pairs: Seq<Pair>, key: Key, i: int)
    requires
        0 <= i < pairs.len(),
        pairs[i].key == key,
        forall|j: int| i < j < pairs.len() ==> pairs[j].key != key,
    ensures
        last_write(dict_obj(pairs), key) == Some(pairs[i].value.obj()),
    decreases pairs,
{
    lemma_dict_obj_index(pairs, pairs.len() - 1);
    if i == pairs.len() - 1 {
    } else {
        lemma_last_write_at(pairs.drop_last(), key, i);
        assert(dict_obj(pairs).drop_last() =~= dict_obj(pairs.drop_last()));
    }
}

proof fn lemma_last_write_none(pairs: Seq<Pair>, key: Key)
    requires
        forall|j: int| 0 <= j < pairs.len() ==> pairs[j].key != key,
    ensures
        last_write(dict_obj(pairs), key) is None,
    decreases pairs,
{
    if pairs.len() > 0 {
        lemma_dict_obj_index(pairs, pairs.len() - 1);
        lemma_last_write_none(pairs.drop_last(), key);
        assert(dict_obj(pairs).drop_last() =~= dict_obj(pairs.drop_last()));
    }
}

} // verus!
