//! The patch translator: a pure, stateless function from one engine-native
//! event to one public patch.
//!
//! Every native event yields exactly one patch and patches keep the event
//! order, so a translated sequence has one entry per event, in place. Inserts
//! are neither merged nor split: a native insert carrying several values stays
//! one [`PatchAction::Insert`], and consecutive single-value inserts stay
//! separate patches. The only failures are contract violations at the engine
//! boundary: a negative index, length or range bound where the public model is
//! unsigned, or a mark range whose end lies before its start. Such an event
//! aborts translation of the whole sequence; nothing is dropped or coerced.

use vstd::prelude::*;
use crate::ids::ObjectId;
use crate::ids::PathElement;
use crate::ids::DocProp;
use crate::native::NativeAction;
use crate::native::NativeEvent;
use crate::native::NativeProp;
use crate::native::NativeScalar;
use crate::native::NativeSegment;
use crate::native::NativeValue;
use crate::patch::Patch;
use crate::patch::PatchAction;
use crate::values::Scalar;
use crate::values::Value;

verus! {

/// Why translating a native event failed. All of these are fatal contract
/// violations between the engine and this layer, never recoverable states.
#[derive(Debug, Clone, Copy, PartialEq, Eq, Structural)]
pub enum TranslateError {
    /// A sequence index was negative where the public model is unsigned.
    NegativeIndex,
    /// A deletion length was negative where the public model is unsigned.
    NegativeLength,
    /// A mark range bound was negative where the public model is unsigned.
    NegativeRange,
    /// A mark range ended before it started.
    InvertedRange,
}

/// The error a native action is rejected with, if any: the first negative
/// numeric field, or an inverted mark range. `None` means the action
/// translates.
pub open spec fn action_error(a: NativeAction) -> Option<TranslateError> {
    match a {
        NativeAction::PutMap { .. } => None,
        NativeAction::PutSeq { index, .. } => if index < 0 {
            Some(TranslateError::NegativeIndex)
        } else {
            None
        },
        NativeAction::Insert { index, .. } => if index < 0 {
            Some(TranslateError::NegativeIndex)
        } else {
            None
        },
        NativeAction::SpliceText { index, .. } => if index < 0 {
            Some(TranslateError::NegativeIndex)
        } else {
            None
        },
        NativeAction::Increment { .. } => None,
        NativeAction::DeleteMap { .. } => None,
        NativeAction::DeleteSeq { index, length } => if index < 0 {
            Some(TranslateError::NegativeIndex)
        } else if length < 0 {
            Some(TranslateError::NegativeLength)
        } else {
            None
        },
        NativeAction::Mark { start, end, .. } => if start < 0 || end < 0 {
            Some(TranslateError::NegativeRange)
        } else if end < start {
            Some(TranslateError::InvertedRange)
        } else {
            None
        },
        NativeAction::Unmark { start, end, .. } => if start < 0 || end < 0 {
            Some(TranslateError::NegativeRange)
        } else if end < start {
            Some(TranslateError::InvertedRange)
        } else {
            None
        },
    }
}

/// The public property is the re-tagged form of the native one: same
/// discriminant, same payload.
pub open spec fn prop_retagged(n: NativeProp, p: DocProp) -> bool {
    match (n, p) {
        (NativeProp::Key(k), DocProp::Key { value }) => value@ == k@,
        (NativeProp::Index(i), DocProp::Index { value }) => value == i,
        _ => false,
    }
}

/// The public path element carries the native segment's object id bytes and
/// its re-tagged property.
pub open spec fn segment_retagged(n: NativeSegment, e: PathElement) -> bool {
    e.obj.bytes@ == n.obj@ && prop_retagged(n.prop, e.prop)
}

/// The public path has one element per native segment, in order, each the
/// re-tagged form of its native counterpart.
pub open spec fn path_retagged(n: Seq<NativeSegment>, p: Seq<PathElement>) -> bool {
    p.len() == n.len() && (forall|i: int|
        0 <= i < n.len() ==> segment_retagged(n[i], #[trigger] p[i]))
}

/// The public scalar is the native one under the identity mapping: the same
/// variant with an equal payload, for every primitive kind.
pub open spec fn scalar_retagged(n: NativeScalar, s: Scalar) -> bool {
    match (n, s) {
        (NativeScalar::Bytes(a), Scalar::Bytes(b)) => b@ == a@,
        (NativeScalar::Str(a), Scalar::Str(b)) => b@ == a@,
        (NativeScalar::Int(a), Scalar::Int(b)) => b == a,
        (NativeScalar::Uint(a), Scalar::Uint(b)) => b == a,
        (NativeScalar::F64Bits(a), Scalar::F64Bits(b)) => b == a,
        (NativeScalar::Counter(a), Scalar::Counter(b)) => b == a,
        (NativeScalar::Timestamp(a), Scalar::Timestamp(b)) => b == a,
        (NativeScalar::Boolean(a), Scalar::Boolean(b)) => b == a,
        (
            NativeScalar::Unknown { type_code: ta, bytes: ba },
            Scalar::Unknown { type_code: tb, bytes: bb },
        ) => tb == ta && bb@ == ba@,
        (NativeScalar::Null, Scalar::Null) => true,
        _ => false,
    }
}

/// Two native scalars hold the same variant and an equal payload.
pub open spec fn native_scalar_eq(a: NativeScalar, b: NativeScalar) -> bool {
    match (a, b) {
        (NativeScalar::Bytes(x), NativeScalar::Bytes(y)) => y@ == x@,
        (NativeScalar::Str(x), NativeScalar::Str(y)) => y@ == x@,
        (NativeScalar::Int(x), NativeScalar::Int(y)) => y == x,
        (NativeScalar::Uint(x), NativeScalar::Uint(y)) => y == x,
        (NativeScalar::F64Bits(x), NativeScalar::F64Bits(y)) => y == x,
        (NativeScalar::Counter(x), NativeScalar::Counter(y)) => y == x,
        (NativeScalar::Timestamp(x), NativeScalar::Timestamp(y)) => y == x,
        (NativeScalar::Boolean(x), NativeScalar::Boolean(y)) => y == x,
        (
            NativeScalar::Unknown { type_code: tx, bytes: bx },
            NativeScalar::Unknown { type_code: ty, bytes: by },
        ) => ty == tx && by@ == bx@,
        (NativeScalar::Null, NativeScalar::Null) => true,
        _ => false,
    }
}

/// The public value is the re-tagged native one: a new object's id carried
/// byte for byte, or a scalar under the identity mapping.
pub open spec fn value_retagged(n: NativeValue, v: Value) -> bool {
    match (n, v) {
        (NativeValue::Object(id), Value::Object(o)) => o.bytes@ == id@,
        (NativeValue::Scalar(s), Value::Scalar(p)) => scalar_retagged(s, p),
        _ => false,
    }
}

/// One public value per native value, in order, each re-tagged.
pub open spec fn values_retagged(n: Seq<NativeValue>, v: Seq<Value>) -> bool {
    v.len() == n.len() && (forall|i: int|
        0 <= i < n.len() ==> value_retagged(n[i], #[trigger] v[i]))
}

/// The public action is the re-tagged native one for the object with id bytes
/// `obj`: the same mutation kind, indices widened to unsigned, values and
/// strings carried unchanged.
pub open spec fn action_retagged(obj: Seq<u8>, a: NativeAction, r: PatchAction) -> bool {
    match (a, r) {
        (
            NativeAction::PutMap { key, value },
            PatchAction::Put { obj: o, prop, value: v },
        ) => o.bytes@ == obj && prop_retagged(NativeProp::Key(key), prop)
            && value_retagged(value, v),
        (
            NativeAction::PutSeq { index, value },
            PatchAction::Put { obj: o, prop, value: v },
        ) => o.bytes@ == obj && index >= 0 && prop_retagged(
            NativeProp::Index(index as u64),
            prop,
        ) && value_retagged(value, v),
        (
            NativeAction::Insert { index, values },
            PatchAction::Insert { obj: o, index: i, values: vs },
        ) => o.bytes@ == obj && index >= 0 && i == index as u64 && values_retagged(
            values@,
            vs@,
        ),
        (
            NativeAction::SpliceText { index, text },
            PatchAction::SpliceText { obj: o, index: i, value: t },
        ) => o.bytes@ == obj && index >= 0 && i == index as u64 && t@ == text@,
        (
            NativeAction::Increment { prop, value },
            PatchAction::Increment { obj: o, prop: p, value: v },
        ) => o.bytes@ == obj && prop_retagged(prop, p) && v == value,
        (
            NativeAction::DeleteMap { key },
            PatchAction::DeleteMap { obj: o, key: k },
        ) => o.bytes@ == obj && k@ == key@,
        (
            NativeAction::DeleteSeq { index, length },
            PatchAction::DeleteSeq { obj: o, index: i, length: n },
        ) => o.bytes@ == obj && index >= 0 && length >= 0 && i == index as u64 && n
            == length as u64,
        (
            NativeAction::Mark { name, start, end, value },
            PatchAction::Mark { obj: o, name: nm, start: s, end: e, value: v },
        ) => o.bytes@ == obj && start >= 0 && end >= 0 && nm@ == name@ && s == start as u64
            && e == end as u64 && scalar_retagged(value, v),
        (
            NativeAction::Unmark { name, start, end },
            PatchAction::Unmark { obj: o, name: nm, start: s, end: e },
        ) => o.bytes@ == obj && start >= 0 && end >= 0 && nm@ == name@ && s == start as u64
            && e == end as u64,
        _ => false,
    }
}

/// The patch is the faithful translation of the event: same path, element by
/// element, and the re-tagged action for the event's object.
pub open spec fn patch_retagged(e: NativeEvent, p: Patch) -> bool {
    path_retagged(e.path@, p.path@) && action_retagged(e.obj@, e.action, p.action)
}

/// Copies a byte vector. Kept as explicit verified code so that the copy's
/// contents are pinned down.
fn copy_bytes(v: &Vec<u8>) -> (r: Vec<u8>)
    ensures
        r@ == v@,
{
    let mut r: Vec<u8> = Vec::new();
    let mut i: usize = 0;
    while i < v.len()
        invariant
            i <= v@.len(),
            r@ == v@.subrange(0, i as int),
        decreases v@.len() - i,
    {
        r.push(v[i]);
        i = i + 1;
    }
    proof {
        assert(v@.subrange(0, v@.len() as int) == v@);
    }
    r
}

impl Scalar {
    /// Translates a native scalar into its public form: the identity mapping,
    /// kind for kind, with no precision loss.
    pub fn from_native(n: &NativeScalar) -> (r: Scalar)
        ensures
            scalar_retagged(*n, r),
    {
        match n {
            NativeScalar::Bytes(b) => Scalar::Bytes(copy_bytes(b)),
            NativeScalar::Str(s) => Scalar::Str(s.clone()),
            NativeScalar::Int(i) => Scalar::Int(*i),
            NativeScalar::Uint(u) => Scalar::Uint(*u),
            NativeScalar::F64Bits(b) => Scalar::F64Bits(*b),
            NativeScalar::Counter(c) => Scalar::Counter(*c),
            NativeScalar::Timestamp(t) => Scalar::Timestamp(*t),
            NativeScalar::Boolean(b) => Scalar::Boolean(*b),
            NativeScalar::Unknown { type_code, bytes } => Scalar::Unknown {
                type_code: *type_code,
                bytes: copy_bytes(bytes),
            },
            NativeScalar::Null => Scalar::Null,
        }
    }

    /// Maps a public scalar back to the engine-native form it came from: the
    /// inverse direction of the identity mapping.
    pub fn to_native(&self) -> (r: NativeScalar)
        ensures
            scalar_retagged(r, *self),
    {
        match self {
            Scalar::Bytes(b) => NativeScalar::Bytes(copy_bytes(b)),
            Scalar::Str(s) => NativeScalar::Str(s.clone()),
            Scalar::Int(i) => NativeScalar::Int(*i),
            Scalar::Uint(u) => NativeScalar::Uint(*u),
            Scalar::F64Bits(b) => NativeScalar::F64Bits(*b),
            Scalar::Counter(c) => NativeScalar::Counter(*c),
            Scalar::Timestamp(t) => NativeScalar::Timestamp(*t),
            Scalar::Boolean(b) => NativeScalar::Boolean(*b),
            Scalar::Unknown { type_code, bytes } => NativeScalar::Unknown {
                type_code: *type_code,
                bytes: copy_bytes(bytes),
            },
            Scalar::Null => NativeScalar::Null,
        }
    }
}

impl Value {
    /// Translates a native value: a new object reference keeps its id byte
    /// for byte, a scalar is carried under the identity mapping.
    pub fn from_native(n: &NativeValue) -> (r: Value)
        ensures
            value_retagged(*n, r),
    {
        match n {
            NativeValue::Object(id) => Value::Object(ObjectId { bytes: copy_bytes(id) }),
            NativeValue::Scalar(s) => Value::Scalar(Scalar::from_native(s)),
        }
    }
}

/// Translates a run of native values, preserving count and order.
pub fn convert_values(n: &Vec<NativeValue>) -> (r: Vec<Value>)
    ensures
        values_retagged(n@, r@),
{
    let mut r: Vec<Value> = Vec::new();
    let mut i: usize = 0;
    while i < n.len()
        invariant
            i <= n@.len(),
            r@.len() == i,
            forall|j: int| 0 <= j < i ==> value_retagged(n@[j], #[trigger] r@[j]),
        decreases n@.len() - i,
    {
        r.push(Value::from_native(&n[i]));
        i = i + 1;
    }
    r
}

/// Translates one native property into the public form.
pub fn convert_prop(n: &NativeProp) -> (r: DocProp)
    ensures
        prop_retagged(*n, r),
{
    match n {
        NativeProp::Key(k) => DocProp::Key { value: k.clone() },
        NativeProp::Index(i) => DocProp::Index { value: *i },
    }
}

/// Resolves an engine-native path into the public form: one element per
/// native segment, in order, each a structural re-tagging of its counterpart.
pub fn convert_path(p: &Vec<NativeSegment>) -> (r: Vec<PathElement>)
    ensures
        path_retagged(p@, r@),
{
    let mut r: Vec<PathElement> = Vec::new();
    let mut i: usize = 0;
    while i < p.len()
        invariant
            i <= p@.len(),
            r@.len() == i,
            forall|j: int| 0 <= j < i ==> segment_retagged(p@[j], #[trigger] r@[j]),
        decreases p@.len() - i,
    {
        let seg = &p[i];
        r.push(PathElement { obj: ObjectId { bytes: copy_bytes(&seg.obj) }, prop: convert_prop(&seg.prop) });
        i = i + 1;
    }
    r
}

impl Patch {
    /// Translates one engine-native event into the public patch: the path
    /// re-tagged element by element, the action kind for kind with indices
    /// widened to unsigned. Exactly the events whose numeric fields are
    /// non-negative and whose mark ranges are not inverted translate; any
    /// other event is a fatal engine-contract violation and yields the
    /// matching error.
    pub fn from_event(e: &NativeEvent) -> (r: Result<Patch, TranslateError>)
        ensures
            match r {
                Ok(p) => action_error(e.action) is None && patch_retagged(*e, p),
                Err(err) => action_error(e.action) == Some(err),
            },
    {
        let path = convert_path(&e.path);
        let obj = ObjectId { bytes: copy_bytes(&e.obj) };
        match &e.action {
            NativeAction::PutMap { key, value } => Ok(Patch {
                path,
                action: PatchAction::Put {
                    obj,
                    prop: DocProp::Key { value: key.clone() },
                    value: Value::from_native(value),
                },
            }),
            NativeAction::PutSeq { index, value } => {
                if *index < 0 {
                    Err(TranslateError::NegativeIndex)
                } else {
                    Ok(Patch {
                        path,
                        action: PatchAction::Put {
                            obj,
                            prop: DocProp::Index { value: *index as u64 },
                            value: Value::from_native(value),
                        },
                    })
                }
            },
            NativeAction::Insert { index, values } => {
                if *index < 0 {
                    Err(TranslateError::NegativeIndex)
                } else {
                    Ok(Patch {
                        path,
                        action: PatchAction::Insert {
                            obj,
                            index: *index as u64,
                            values: convert_values(values),
                        },
                    })
                }
            },
            NativeAction::SpliceText { index, text } => {
                if *index < 0 {
                    Err(TranslateError::NegativeIndex)
                } else {
                    Ok(Patch {
                        path,
                        action: PatchAction::SpliceText {
                            obj,
                            index: *index as u64,
                            value: text.clone(),
                        },
                    })
                }
            },
            NativeAction::Increment { prop, value } => Ok(Patch {
                path,
                action: PatchAction::Increment {
                    obj,
                    prop: convert_prop(prop),
                    value: *value,
                },
            }),
            NativeAction::DeleteMap { key } => Ok(Patch {
                path,
                action: PatchAction::DeleteMap { obj, key: key.clone() },
            }),
            NativeAction::DeleteSeq { index, length } => {
                if *index < 0 {
                    Err(TranslateError::NegativeIndex)
                } else if *length < 0 {
                    Err(TranslateError::NegativeLength)
                } else {
                    Ok(Patch {
                        path,
                        action: PatchAction::DeleteSeq {
                            obj,
                            index: *index as u64,
                            length: *length as u64,
                        },
                    })
                }
            },
            NativeAction::Mark { name, start, end, value } => {
                if *start < 0 || *end < 0 {
                    Err(TranslateError::NegativeRange)
                } else if *end < *start {
                    Err(TranslateError::InvertedRange)
                } else {
                    Ok(Patch {
                        path,
                        action: PatchAction::Mark {
                            obj,
                            name: name.clone(),
                            start: *start as u64,
                            end: *end as u64,
                            value: Scalar::from_native(value),
                        },
                    })
                }
            },
            NativeAction::Unmark { name, start, end } => {
                if *start < 0 || *end < 0 {
                    Err(TranslateError::NegativeRange)
                } else if *end < *start {
                    Err(TranslateError::InvertedRange)
                } else {
                    Ok(Patch {
                        path,
                        action: PatchAction::Unmark {
                            obj,
                            name: name.clone(),
                            start: *start as u64,
                            end: *end as u64,
                        },
                    })
                }
            },
        }
    }
}

/// Translates a whole transaction's native event sequence, one patch per
/// event, in order. The first contract-violating event aborts the whole
/// translation: no partial patch list is produced.
pub fn translate_events(events: &Vec<NativeEvent>) -> (r: Result<Vec<Patch>, TranslateError>)
    ensures
        match r {
            Ok(ps) => ps@.len() == events@.len() && (forall|i: int|
                0 <= i < events@.len() ==> patch_retagged(events@[i], #[trigger] ps@[i])),
            Err(err) => exists|i: int|
                0 <= i < events@.len() && action_error(#[trigger] events@[i].action) == Some(err)
                    && (forall|j: int| 0 <= j < i ==> action_error(events@[j].action) is None),
        },
        r is Ok <==> (forall|i: int|
            0 <= i < events@.len() ==> action_error(#[trigger] events@[i].action) is None),
{
    let mut ps: Vec<Patch> = Vec::new();
    let mut i: usize = 0;
    while i < events.len()
        invariant
            i <= events@.len(),
            ps@.len() == i,
            forall|j: int| 0 <= j < i ==> patch_retagged(events@[j], #[trigger] ps@[j]),
            forall|j: int| 0 <= j < i ==> action_error(#[trigger] events@[j].action) is None,
        decreases events@.len() - i,
    {
        match Patch::from_event(&events[i]) {
            Ok(p) => {
                ps.push(p);
            },
            Err(err) => {
                return Err(err);
            },
        }
        i = i + 1;
    }
    Ok(ps)
}

} // verus!
