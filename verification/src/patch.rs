//! The public patch model: one atomic, path-addressed description of a
//! document mutation.

use vstd::prelude::*;
use crate::ids::ObjectId;
use crate::ids::PathElement;
use crate::ids::DocProp;
use crate::values::Scalar;
use crate::values::Value;

verus! {

/// One atomic structural change: the resolved path from the document root to
/// the mutated container (empty for a root-level mutation) and the mutation
/// itself. Patches are immutable value objects; the order of a translated
/// sequence is significant and preserved verbatim.
#[derive(Debug, Clone, PartialEq)]
pub struct Patch {
    pub path: Vec<PathElement>,
    pub action: PatchAction,
}

/// The closed set of mutation kinds a patch can describe. Every index, length
/// and range bound is unsigned; `end` is exclusive and never below `start`.
#[derive(Debug, Clone, PartialEq)]
pub enum PatchAction {
    /// A map key or sequence position was set to a value.
    Put { obj: ObjectId, prop: DocProp, value: Value },
    /// An ordered run of values was inserted at contiguous positions
    /// starting at `index`.
    Insert { obj: ObjectId, index: u64, values: Vec<Value> },
    /// Text was spliced into a text object at `index`.
    SpliceText { obj: ObjectId, index: u64, value: String },
    /// A counter at `prop` was incremented by a signed delta.
    Increment { obj: ObjectId, prop: DocProp, value: i64 },
    /// A key was removed from a map.
    DeleteMap { obj: ObjectId, key: String },
    /// `length` elements were removed from a sequence or text object,
    /// starting at `index`.
    DeleteSeq { obj: ObjectId, index: u64, length: u64 },
    /// A named range annotation with a scalar value was added over
    /// `start..end`; an empty range is legal and still a distinct event.
    Mark { obj: ObjectId, name: String, start: u64, end: u64, value: Scalar },
    /// A named range annotation was removed over `start..end`.
    Unmark { obj: ObjectId, name: String, start: u64, end: u64 },
}

} // verus!
