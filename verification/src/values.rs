//! The public value model: primitive leaf values and references to nested
//! objects.

use vstd::prelude::*;
use crate::ids::ObjectId;

verus! {

/// A primitive leaf value: the terminal payload of puts, increments and mark
/// annotations. The variant set exactly covers the engine's primitive kinds;
/// a 64-bit floating point value is carried by its bit pattern, so that no
/// translation step can lose precision.
#[derive(Debug, Clone, PartialEq)]
pub enum Scalar {
    Bytes(Vec<u8>),
    Str(String),
    Int(i64),
    Uint(u64),
    F64Bits(u64),
    Counter(i64),
    Timestamp(i64),
    Boolean(bool),
    Unknown { type_code: u8, bytes: Vec<u8> },
    Null,
}

/// Either a primitive leaf value or a reference to a newly created nested
/// object, carrying the new object's id so that later patches in the same
/// sequence can address its children. Once constructed, the variant never
/// changes.
#[derive(Debug, Clone, PartialEq)]
pub enum Value {
    Object(ObjectId),
    Scalar(Scalar),
}

} // verus!
