//! The engine-native event model: what the document engine reports during one
//! transaction, held as plain values.
//!
//! Object ids appear in their serialized byte form, and every index, length
//! and range bound keeps the engine's signed representation: widening to the
//! public unsigned form, and rejecting negatives, is the translator's job.

use vstd::prelude::*;

verus! {

/// The engine's form of a property: a map key or a sequence index.
#[derive(Debug, Clone, PartialEq)]
pub enum NativeProp {
    Key(String),
    Index(u64),
}

/// One step of an engine-native path: the serialized id of the containing
/// object and the property locating the child within it.
#[derive(Debug, Clone, PartialEq)]
pub struct NativeSegment {
    pub obj: Vec<u8>,
    pub prop: NativeProp,
}

/// The engine's form of a primitive leaf value. It mirrors the public
/// [`crate::values::ScalarValue`] kind for kind, so that translation is an
/// identity re-tagging.
#[derive(Debug, Clone, PartialEq)]
pub enum NativeScalar {
    Bytes(Vec<u8>),
    Str(String),
    Int(i64),
    Uint(u64),
    F64Bits(u64),
    Counter(i64),
    Timestamp(i64),
    Boolean(bool),
    Unknown { type_code: u8, bytes: Vec<u8> },
    Null,
}

/// The engine's form of a value: a newly created object, by its serialized
/// id, or a primitive leaf value.
#[derive(Debug, Clone, PartialEq)]
pub enum NativeValue {
    Object(Vec<u8>),
    Scalar(NativeScalar),
}

/// The mutation an engine-native event describes, without its target object
/// and path. This variant set is closed: it must be extended in lockstep with
/// the engine's own event contract, and the translator matches it
/// exhaustively.
#[derive(Debug, Clone, PartialEq)]
pub enum NativeAction {
    /// A key of a map was set to a value.
    PutMap { key: String, value: NativeValue },
    /// A position of a sequence was set to a value.
    PutSeq { index: i64, value: NativeValue },
    /// One or more values were inserted at contiguous positions.
    Insert { index: i64, values: Vec<NativeValue> },
    /// Text was spliced into a text object.
    SpliceText { index: i64, text: String },
    /// A counter was incremented by a signed delta.
    Increment { prop: NativeProp, value: i64 },
    /// A key was removed from a map.
    DeleteMap { key: String },
    /// A run of elements was removed from a sequence or text object.
    DeleteSeq { index: i64, length: i64 },
    /// A named range annotation was added; `end` is exclusive.
    Mark { name: String, start: i64, end: i64, value: NativeScalar },
    /// A named range annotation was removed; `end` is exclusive.
    Unmark { name: String, start: i64, end: i64 },
}

/// One engine-native mutation event: the mutated object, the engine's path
/// from the document root to it (empty for a root-level mutation), and the
/// mutation itself.
#[derive(Debug, Clone, PartialEq)]
pub struct NativeEvent {
    pub obj: Vec<u8>,
    pub path: Vec<NativeSegment>,
    pub action: NativeAction,
}

} // verus!
