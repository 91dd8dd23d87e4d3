//! The encoder for a file specification dictionary.

use vstd::prelude::*;

use crate::sink::DictSink;
use crate::value::last_write;
use crate::value::dict_obj;
use crate::value::Key;
use crate::value::Name;
use crate::value::ObjValue;
use crate::value::Pair;
use crate::value::Str;
use crate::value::TextStr;
use crate::value::Value;

verus! {

/// Encoder for a file specification dictionary: which file an annotation
/// or action refers to.
///
/// Construction writes the fixed type discriminator; every setter appends
/// exactly one entry, and a later write for the same key is the
/// authoritative one.
pub struct FileSpec {
    dict: DictSink,
}

impl View for FileSpec {
    type V = Seq<(Key, ObjValue)>;

    closed spec fn view(&self) -> Seq<(Key, ObjValue)> {
        self.dict@
    }
}

impl FileSpec {
    /// Opens a file specification dictionary, writing its type
    /// discriminator.
    pub fn new() -> (encoder: FileSpec)
        ensures
            encoder@ == seq![(Key::Type, ObjValue::Name("Filespec"@))],
    {
        let mut dict = DictSink::new();
        dict.write_pair(Key::Type, Value::Name(Name("Filespec".to_owned())));
        FileSpec { dict }
    }

    /// Writes the file system this entry relates to. With the name `URL`
    /// the entry becomes a URL specification.
    pub fn file_system(&mut self, system: Name)
        ensures
            final(self)@ == old(self)@.push((Key::FS, ObjValue::Name(system.0@))),
    {
        self.dict.write_pair(Key::FS, Value::Name(system));
    }

    /// Writes the file path as a raw byte string. Directories are
    /// indicated by `/`, independent of the platform.
    pub fn file(&mut self, path: Str)
        ensures
            final(self)@ == old(self)@.push((Key::F, ObjValue::Str(path.0@))),
    {
        self.dict.write_pair(Key::F, Value::Str(path));
    }

    /// Writes a text-typed file path. Directories are indicated by `/`,
    /// independent of the platform.
    pub fn unic_file(&mut self, path: TextStr)
        ensures
            final(self)@ == old(self)@.push((Key::UF, ObjValue::Text(path.0@))),
    {
        self.dict.write_pair(Key::UF, Value::Text(path));
    }

    /// Writes whether the file is volatile and must not be cached.
    pub fn volatile(&mut self, no_cache: bool)
        ensures
            final(self)@ == old(self)@.push((Key::V, ObjValue::Bool(no_cache))),
    {
        self.dict.write_pair(Key::V, Value::Bool(no_cache));
    }

    /// Writes a description of the file.
    pub fn description(&mut self, desc: TextStr)
        ensures
            final(self)@ == old(self)@.push((Key::Desc, ObjValue::Text(desc.0@))),
    {
        self.dict.write_pair(Key::Desc, Value::Text(desc));
    }

    /// The entries written so far, in call order.
    pub fn pairs(&self) -> (pairs: &Vec<Pair>)
        ensures
            dict_obj(pairs@) == self@,
    {
        self.dict.pairs()
    }

    /// The authoritative value of a key: the last write for it, if any.
    pub fn lookup(&self, key: Key) -> (found: Option<&Value>)
        ensures
            match found {
                Some(value) => last_write(self@, key) == Some(value.obj()),
                None => last_write(self@, key) is None,
            },
    {
        self.dict.lookup(key)
    }

    /// Finalizes the encoder: its dictionary becomes one immutable value
    /// for the parent slot.
    pub fn finish(self) -> (value: Value)
        ensures
            value.obj() == ObjValue::Dict(self@),
    {
        self.dict.finish()
    }
}

} // verus!
