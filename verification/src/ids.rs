//! Identifiers and addressing: opaque object ids, map-key / sequence-index
//! discriminators, and path elements from the document root to a mutation
//! target.

use vstd::prelude::*;

verus! {

/// An opaque, comparable identifier for an addressable object (map, list,
/// text or counter container) inside the document. It wraps the engine's
/// serialized form of the id and supports equality and hashing only; equality
/// of the bytes implies the same logical object for the document's lifetime.
#[derive(Debug, Clone, PartialEq, Eq, Hash)]
pub struct ObjectId {
    pub bytes: Vec<u8>,
}

/// Locates a child within a container: a key for map membership or an index
/// for a sequence/text position. Exactly one discriminant is active.
#[derive(Debug, Clone, PartialEq)]
pub enum DocProp {
    Key { value: String },
    Index { value: u64 },
}

/// One step of a path: the containing object and the property locating the
/// child within it.
#[derive(Debug, Clone, PartialEq)]
pub struct PathElement {
    pub obj: ObjectId,
    pub prop: DocProp,
}

} // verus!
