//! The encoder for an action dictionary.

use vstd::prelude::*;

use crate::filespec::FileSpec;
use crate::sink::ArraySink;
use crate::sink::DictSink;
use crate::tokens::ActionType;
use crate::value::last_write;
use crate::value::dict_obj;
use crate::value::Key;
use crate::value::Name;
use crate::value::ObjValue;
use crate::value::Pair;
use crate::value::Ref;
use crate::value::Str;
use crate::value::Value;

verus! {

/// Encoder for an action dictionary: what clicking a link annotation
/// performs.
///
/// Construction writes the fixed type discriminator; every setter appends
/// exactly one entry, and a later write for the same key is the
/// authoritative one. No cross-field validity is checked: which entries
/// are meaningful for which action kind is the caller's documented
/// precondition.
pub struct Action {
    dict: DictSink,
}

impl View for Action {
    type V = Seq<(Key, ObjValue)>;

    closed spec fn view(&self) -> Seq<(Key, ObjValue)> {
        self.dict@
    }
}

impl Action {
    /// Opens an action dictionary, writing its type discriminator.
    pub fn new() -> (encoder: Action)
        ensures
            encoder@ == seq![(Key::Type, ObjValue::Name("Action"@))],
    {
        let mut dict = DictSink::new();
        dict.write_pair(Key::Type, Value::Name(Name("Action".to_owned())));
        Action { dict }
    }

    /// Writes the action kind, as its table token.
    pub fn action_type(&mut self, kind: ActionType)
        ensures
            final(self)@ == old(self)@.push((Key::S, ObjValue::Name(kind.token()))),
    {
        self.dict.write_pair(Key::S, Value::Name(Name(kind.to_token().to_owned())));
    }

    /// Writes the destination of this go-to action: the array opened with
    /// the target page reference. The writer that appends the position
    /// description to the destination is a collaborator outside this
    /// layer.
    pub fn dest_direct(&mut self, page: Ref)
        ensures
            final(self)@ == old(self)@.push(
                (Key::D, ObjValue::Array(seq![ObjValue::Ref(page.0 as int)])),
            ),
    {
        let mut array = ArraySink::new();
        array.write_item(Value::Ref(page));
        let value = array.finish();
        self.dict.write_pair(Key::D, value);
    }

    /// Writes the destination of this go-to action as a named
    /// destination.
    pub fn dest_named(&mut self, name: Name)
        ensures
            final(self)@ == old(self)@.push((Key::D, ObjValue::Name(name.0@))),
    {
        self.dict.write_pair(Key::D, Value::Name(name));
    }

    /// Writes which file to go to or which application to launch, as a
    /// finished file specification.
    pub fn file(&mut self, file_spec: FileSpec)
        ensures
            final(self)@ == old(self)@.push((Key::F, ObjValue::Dict(file_spec@))),
    {
        let value = file_spec.finish();
        self.dict.write_pair(Key::F, value);
    }

    /// Writes whether this remote go-to action should open the referenced
    /// destination in another window.
    pub fn new_window(&mut self, new: bool)
        ensures
            final(self)@ == old(self)@.push((Key::NewWindow, ObjValue::Bool(new))),
    {
        self.dict.write_pair(Key::NewWindow, Value::Bool(new));
    }

    /// Writes where this link action goes.
    pub fn uri(&mut self, uri: Str)
        ensures
            final(self)@ == old(self)@.push((Key::URI, ObjValue::Str(uri.0@))),
    {
        self.dict.write_pair(Key::URI, Value::Str(uri));
    }

    /// Writes whether the click position inside the link rectangle should
    /// be appended to the referenced URI as a query parameter.
    pub fn is_map(&mut self, map: bool)
        ensures
            final(self)@ == old(self)@.push((Key::IsMap, ObjValue::Bool(map))),
    {
        self.dict.write_pair(Key::IsMap, Value::Bool(map));
    }

    /// The entries written so far, in call order.
    pub fn pairs(&self) -> (pairs: &Vec<Pair>)
        ensures
            dict_obj(pairs@) == self@,
    {
        self.dict.pairs()
    }

    /// The authoritative value of a key: the last write for it, if any.
    pub fn lookup(&self, key: Key) -> (found: Option<&Value>)
        ensures
            match found {
                Some(value) => last_write(self@, key) == Some(value.obj()),
                None => last_write(self@, key) is None,
            },
    {
        self.dict.lookup(key)
    }

    /// Finalizes the encoder: its dictionary becomes one immutable value
    /// for the parent slot.
    pub fn finish(self) -> (value: Value)
        ensures
            value.obj() == ObjValue::Dict(self@),
    {
        self.dict.finish()
    }
}

} // verus!
