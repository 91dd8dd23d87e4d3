//! The encoder for a border style dictionary.

use vstd::prelude::*;

use crate::sink::real_items;
use crate::sink::real_array;
use crate::sink::DictSink;
use crate::tokens::BorderType;
use crate::value::last_write;
use crate::value::dict_obj;
use crate::value::Key;
use crate::value::Name;
use crate::value::ObjValue;
use crate::value::Pair;
use crate::value::Real;
use crate::value::Value;

verus! {

/// Encoder for a border style dictionary: elaborate border settings that
/// take precedence over the plain border entry for some annotation kinds.
///
/// Construction writes the fixed type discriminator; every setter appends
/// exactly one entry, and a later write for the same key is the
/// authoritative one.
pub struct BorderStyle {
    dict: DictSink,
}

impl View for BorderStyle {
    type V = Seq<(Key, ObjValue)>;

    closed spec fn view(&self) -> Seq<(Key, ObjValue)> {
        self.dict@
    }
}

impl BorderStyle {
    /// Opens a border style dictionary, writing its type discriminator.
    pub fn new() -> (encoder: BorderStyle)
        ensures
            encoder@ == seq![(Key::Type, ObjValue::Name("Border"@))],
    {
        let mut dict = DictSink::new();
        dict.write_pair(Key::Type, Value::Name(Name("Border".to_owned())));
        BorderStyle { dict }
    }

    /// Writes the border width in points.
    pub fn width(&mut self, points: Real)
        ensures
            final(self)@ == old(self)@.push((Key::W, ObjValue::Real(points.bits))),
    {
        self.dict.write_pair(Key::W, Value::Real(points));
    }

    /// Writes the kind of line to draw, as its table token.
    pub fn style(&mut self, style: BorderType)
        ensures
            final(self)@ == old(self)@.push((Key::S, ObjValue::Name(style.token()))),
    {
        self.dict.write_pair(Key::S, Value::Name(Name(style.to_token().to_owned())));
    }

    /// Writes the repeating lengths of dashes and the gaps in between, as
    /// one numeric array of arbitrary length.
    pub fn dashes(&mut self, dash_pattern: Vec<Real>)
        ensures
            final(self)@ == old(self)@.push((Key::D, ObjValue::Array(real_items(dash_pattern@)))),
    {
        let value = real_array(&dash_pattern);
        self.dict.write_pair(Key::D, value);
    }

    /// The entries written so far, in call order.
    pub fn pairs(&self) -> (pairs: &Vec<Pair>)
        ensures
            dict_obj(pairs@) == self@,
    {
        self.dict.pairs()
    }

    /// The authoritative value of a key: the last write for it, if any.
    pub fn lookup(&self, key: Key) -> (found: Option<&Value>)
        ensures
            match found {
                Some(value) => last_write(self@, key) == Some(value.obj()),
                None => last_write(self@, key) is None,
            },
    {
        self.dict.lookup(key)
    }

    /// Finalizes the encoder: its dictionary becomes one immutable value
    /// for the parent slot.
    pub fn finish(self) -> (value: Value)
        ensures
            value.obj() == ObjValue::Dict(self@),
    {
        self.dict.finish()
    }
}

} // verus!
