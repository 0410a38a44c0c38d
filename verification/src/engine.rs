//! The boundary to the automerge engine: converts the engine's own id, prop
//! and value representations into the plain-valued native event model.
//!
//! Everything the engine hands over is opaque to verification, so each leaf
//! conversion is a small trusted wrapper around one automerge call; the
//! assembly of whole events from those leaves is ordinary verified code.

use vstd::prelude::*;
use automerge::ScalarValue as AmScalar;
use crate::native::NativeAction;
use crate::native::NativeEvent;
use crate::native::NativeProp;
use crate::native::NativeScalar;
use crate::native::NativeSegment;
use crate::native::NativeValue;

verus! {

/// The engine's object id, opaque here; only its byte serialization is read.
#[verifier::external_type_specification]
#[verifier::external_body]
pub struct ExAmObjId(automerge::ObjId);

/// The engine's map-key / sequence-index discriminator, opaque here; it is
/// re-tagged into [`NativeProp`] at the boundary.
#[verifier::external_type_specification]
#[verifier::external_body]
pub struct ExAmProp(automerge::Prop);

/// The engine's primitive leaf value, opaque here; it is re-tagged into
/// [`NativeScalar`] at the boundary.
#[verifier::external_type_specification]
#[verifier::external_body]
pub struct ExAmScalarValue(automerge::ScalarValue);

/// Relies on automerge::ObjId::to_bytes: the versioned byte serialization of
/// an object id, which always begins with a tag byte.
#[verifier::external_body]
fn am_obj_bytes(o: &automerge::ObjId) -> (r: Vec<u8>)
    ensures
        r@.len() >= 1,
{
    o.to_bytes()
}

/// Relies on automerge::Prop being exactly a map key or a sequence index.
#[verifier::external_body]
fn am_prop_retag(p: automerge::Prop) -> (r: NativeProp)
{
    match p {
        automerge::Prop::Map(k) => NativeProp::Key(k),
        automerge::Prop::Seq(i) => NativeProp::Index(i as u64),
    }
}

/// Relies on the variant set of automerge::ScalarValue, on f64::to_bits for
/// the lossless bit pattern of a floating point value, and on
/// i64::from(&Counter) returning the counter's current value.
#[verifier::external_body]
fn am_scalar_retag(s: &automerge::ScalarValue) -> (r: NativeScalar)
{
    match s {
        AmScalar::Bytes(b) => NativeScalar::Bytes(b.clone()),
        AmScalar::Str(v) => NativeScalar::Str(v.to_string()),
        AmScalar::Int(i) => NativeScalar::Int(*i),
        AmScalar::Uint(u) => NativeScalar::Uint(*u),
        AmScalar::F64(f) => NativeScalar::F64Bits(f.to_bits()),
        AmScalar::Counter(c) => NativeScalar::Counter(i64::from(c)),
        AmScalar::Timestamp(t) => NativeScalar::Timestamp(*t),
        AmScalar::Boolean(b) => NativeScalar::Boolean(*b),
        AmScalar::Unknown { type_code, bytes } => NativeScalar::Unknown { type_code: *type_code, bytes: bytes.clone() },
        AmScalar::Null => NativeScalar::Null,
    }
}

/// Converts one engine value, already split at its boundary: `Some` scalar is
/// re-tagged kind for kind, `None` marks an object value, which becomes a
/// reference to the newly created object `id`.
pub fn native_value(scalar: Option<&automerge::ScalarValue>, id: &automerge::ObjId) -> (r:
    NativeValue)
    ensures
        r is Scalar <==> scalar is Some,
{
    match scalar {
        Some(s) => NativeValue::Scalar(am_scalar_retag(s)),
        None => NativeValue::Object(am_obj_bytes(id)),
    }
}

/// Converts an engine path into native segments, one per engine element, in
/// order.
pub fn native_path(path: Vec<(automerge::ObjId, automerge::Prop)>) -> (r: Vec<NativeSegment>)
    ensures
        r@.len() == path@.len(),
{
    let ghost n = path@.len();
    let mut rest = path;
    let mut r: Vec<NativeSegment> = Vec::new();
    while rest.len() > 0
        invariant
            r@.len() + rest@.len() == n,
        decreases rest@.len(),
    {
        let (o, p) = rest.remove(0);
        r.push(NativeSegment { obj: am_obj_bytes(&o), prop: am_prop_retag(p) });
    }
    r
}

/// Converts an engine run of inserted values, preserving count and order.
/// Each entry is the value, already split at its boundary as in
/// [`native_value`], and the id of the object it created.
pub fn native_values(values: Vec<(Option<automerge::ScalarValue>, automerge::ObjId)>) -> (r: Vec<
    NativeValue,
>)
    ensures
        r@.len() == values@.len(),
{
    let ghost n = values@.len();
    let mut rest = values;
    let mut r: Vec<NativeValue> = Vec::new();
    while rest.len() > 0
        invariant
            r@.len() + rest@.len() == n,
        decreases rest@.len(),
    {
        let (v, id) = rest.remove(0);
        r.push(native_value(v.as_ref(), &id));
    }
    r
}

/// Decides between a mark and an unmark: this engine signals the removal of a
/// named range annotation by reporting the mark with a null value.
pub fn mark_action(name: String, start: i64, end: i64, value: NativeScalar) -> (r: NativeAction)
    ensures
        value is Null ==> (r matches NativeAction::Unmark { name: n, start: s, end: e }
            && n@ == name@ && s == start && e == end),
        !(value is Null) ==> (r matches NativeAction::Mark { name: n, start: s, end: e, value: v }
            && n@ == name@ && s == start && e == end && v == value),
{
    match value {
        NativeScalar::Null => NativeAction::Unmark { name, start, end },
        v => NativeAction::Mark { name, start, end, value: v },
    }
}

/// A put into a map: `key` of `obj` was set to `value`, whose object id (only
/// meaningful for object values) is `value_id`.
pub fn event_put_map(
    obj: &automerge::ObjId,
    path: Vec<(automerge::ObjId, automerge::Prop)>,
    key: String,
    value: Option<&automerge::ScalarValue>,
    value_id: &automerge::ObjId,
) -> (r: NativeEvent)
    ensures
        r.path@.len() == path@.len(),
        r.action matches NativeAction::PutMap { key: k, value: v } && k@ == key@ && (v is Scalar
            <==> value is Some),
{
    NativeEvent {
        obj: am_obj_bytes(obj),
        path: native_path(path),
        action: NativeAction::PutMap { key, value: native_value(value, value_id) },
    }
}

/// A put into a sequence: position `index` of `obj` was set to `value`.
pub fn event_put_seq(
    obj: &automerge::ObjId,
    path: Vec<(automerge::ObjId, automerge::Prop)>,
    index: i64,
    value: Option<&automerge::ScalarValue>,
    value_id: &automerge::ObjId,
) -> (r: NativeEvent)
    ensures
        r.path@.len() == path@.len(),
        r.action matches NativeAction::PutSeq { index: i, value: v } && i == index && (v is Scalar
            <==> value is Some),
{
    NativeEvent {
        obj: am_obj_bytes(obj),
        path: native_path(path),
        action: NativeAction::PutSeq { index, value: native_value(value, value_id) },
    }
}

/// An insert into a sequence: `values` were inserted into `obj` at contiguous
/// positions starting at `index`, in order.
pub fn event_insert(
    obj: &automerge::ObjId,
    path: Vec<(automerge::ObjId, automerge::Prop)>,
    index: i64,
    values: Vec<(Option<automerge::ScalarValue>, automerge::ObjId)>,
) -> (r: NativeEvent)
    ensures
        r.path@.len() == path@.len(),
        r.action matches NativeAction::Insert { index: i, values: vs } && i == index
            && vs@.len() == values@.len(),
{
    NativeEvent {
        obj: am_obj_bytes(obj),
        path: native_path(path),
        action: NativeAction::Insert { index, values: native_values(values) },
    }
}

/// A splice into a text object: `text` was inserted into `obj` at `index`.
pub fn event_splice_text(
    obj: &automerge::ObjId,
    path: Vec<(automerge::ObjId, automerge::Prop)>,
    index: i64,
    text: String,
) -> (r: NativeEvent)
    ensures
        r.path@.len() == path@.len(),
        r.action matches NativeAction::SpliceText { index: i, text: t } && i == index
            && t@ == text@,
{
    NativeEvent {
        obj: am_obj_bytes(obj),
        path: native_path(path),
        action: NativeAction::SpliceText { index, text },
    }
}

/// A counter increment: the counter at `prop` of `obj` changed by the signed
/// `value`.
pub fn event_increment(
    obj: &automerge::ObjId,
    path: Vec<(automerge::ObjId, automerge::Prop)>,
    prop: automerge::Prop,
    value: i64,
) -> (r: NativeEvent)
    ensures
        r.path@.len() == path@.len(),
        r.action matches NativeAction::Increment { value: v, .. } && v == value,
{
    NativeEvent {
        obj: am_obj_bytes(obj),
        path: native_path(path),
        action: NativeAction::Increment { prop: am_prop_retag(prop), value },
    }
}

/// A map deletion: `key` was removed from `obj`.
pub fn event_delete_map(
    obj: &automerge::ObjId,
    path: Vec<(automerge::ObjId, automerge::Prop)>,
    key: String,
) -> (r: NativeEvent)
    ensures
        r.path@.len() == path@.len(),
        r.action matches NativeAction::DeleteMap { key: k } && k@ == key@,
{
    NativeEvent {
        obj: am_obj_bytes(obj),
        path: native_path(path),
        action: NativeAction::DeleteMap { key },
    }
}

/// A sequence deletion: `length` elements were removed from `obj` starting at
/// `index`.
pub fn event_delete_seq(
    obj: &automerge::ObjId,
    path: Vec<(automerge::ObjId, automerge::Prop)>,
    index: i64,
    length: i64,
) -> (r: NativeEvent)
    ensures
        r.path@.len() == path@.len(),
        r.action matches NativeAction::DeleteSeq { index: i, length: n } && i == index
            && n == length,
{
    NativeEvent {
        obj: am_obj_bytes(obj),
        path: native_path(path),
        action: NativeAction::DeleteSeq { index, length },
    }
}

/// A range annotation reported by the engine over `start..end` of `obj`: a
/// mark, or an unmark when the engine reports the annotation's value as null.
pub fn event_mark(
    obj: &automerge::ObjId,
    path: Vec<(automerge::ObjId, automerge::Prop)>,
    name: String,
    start: i64,
    end: i64,
    value: &automerge::ScalarValue,
) -> (r: NativeEvent)
    ensures
        r.path@.len() == path@.len(),
        (r.action matches NativeAction::Mark { name: n, start: s, end: e, .. } && n@ == name@
            && s == start && e == end) || (r.action matches NativeAction::Unmark {
            name: n,
            start: s,
            end: e,
        } && n@ == name@ && s == start && e == end),
{
    NativeEvent {
        obj: am_obj_bytes(obj),
        path: native_path(path),
        action: mark_action(name, start, end, am_scalar_retag(value)),
    }
}

/// A direct removal of a range annotation named `name` over `start..end` of
/// `obj`.
pub fn event_unmark(
    obj: &automerge::ObjId,
    path: Vec<(automerge::ObjId, automerge::Prop)>,
    name: String,
    start: i64,
    end: i64,
) -> (r: NativeEvent)
    ensures
        r.path@.len() == path@.len(),
        r.action matches NativeAction::Unmark { name: n, start: s, end: e } && n@ == name@
            && s == start && e == end,
{
    NativeEvent {
        obj: am_obj_bytes(obj),
        path: native_path(path),
        action: NativeAction::Unmark { name, start, end },
    }
}

} // verus!
