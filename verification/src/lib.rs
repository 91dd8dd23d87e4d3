//! A typed encoder layer for annotation entries of a hierarchical,
//! self-describing document object model.
//!
//! The library translates richly typed calls ("set the border width", "add a
//! color") into primitive key/value writes on an in-memory dictionary or
//! array sink, and proves that every write appends exactly one well-formed
//! entry. Each compound entity (annotation, action, file specification,
//! border style) has its own encoder wrapping one sink; nested compound
//! values are built with their own encoder and committed whole before the
//! parent takes its next field, so no entry is ever left dangling.
//!
//! Setters may legally repeat a key: the sink keeps every write in call
//! order, and the authoritative value of a key is the last one written
//! ([`value::last_write`]).

pub mod action;
pub mod annotations;
pub mod border;
pub mod filespec;
pub mod flags;
pub mod sink;
pub mod tokens;
pub mod value;
