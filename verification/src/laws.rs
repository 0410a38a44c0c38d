//! Laws of the translation, stated and proved over the same spec functions
//! the executable contracts use.

use vstd::prelude::*;
use crate::native::NativeAction;
use crate::native::NativeEvent;
use crate::native::NativeScalar;
use crate::patch::Patch;
use crate::patch::PatchAction;
use crate::translate::action_error;
use crate::translate::native_scalar_eq;
use crate::translate::patch_retagged;
use crate::translate::scalar_retagged;

verus! {

/// Law: scalar translation is the identity mapping, with no precision loss.
/// Any two native scalars related to the same public scalar hold the same
/// variant and an equal payload, so translating a scalar and mapping it back
/// returns it unchanged.
pub proof fn lemma_scalar_round_trip(a: NativeScalar, b: NativeScalar, s: crate::values::Scalar)
    requires
        scalar_retagged(a, s),
        scalar_retagged(b, s),
    ensures
        native_scalar_eq(a, b),
{
}

/// Law: every mark and unmark action of a translated patch satisfies
/// `end >= start`; a zero-length range (`start == end`) is legal and kept as
/// a distinct event.
pub proof fn lemma_mark_range_valid(e: NativeEvent, p: Patch)
    requires
        action_error(e.action) is None,
        patch_retagged(e, p),
    ensures
        p.action matches PatchAction::Mark { start, end, .. } ==> start <= end,
        p.action matches PatchAction::Unmark { start, end, .. } ==> start <= end,
{
}

/// The native action carries a negative field where the public model is
/// unsigned: a sequence index, a deletion length, or a mark range bound.
pub open spec fn has_negative_field(a: NativeAction) -> bool {
    match a {
        NativeAction::PutMap { .. } => false,
        NativeAction::PutSeq { index, .. } => index < 0,
        NativeAction::Insert { index, .. } => index < 0,
        NativeAction::SpliceText { index, .. } => index < 0,
        NativeAction::Increment { .. } => false,
        NativeAction::DeleteMap { .. } => false,
        NativeAction::DeleteSeq { index, length } => index < 0 || length < 0,
        NativeAction::Mark { start, end, .. } => start < 0 || end < 0,
        NativeAction::Unmark { start, end, .. } => start < 0 || end < 0,
    }
}

/// Law: an event with any negative index, length or range bound is rejected
/// with a fatal error; it is never wrapped or truncated into an unsigned
/// value.
pub proof fn lemma_negative_rejected(a: NativeAction)
    ensures
        has_negative_field(a) ==> action_error(a) is Some,
{
}

} // verus!
