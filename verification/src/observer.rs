//! The observer: a transaction-scoped buffer that accrues the engine-native
//! events of one transaction and is drained exactly once.
//!
//! Accrual and translation are sequential phases of the same transaction:
//! events are recorded in application order, then either translated and handed
//! out as one atomic patch sequence on commit, or discarded without producing
//! any patches when the transaction aborts.

use vstd::prelude::*;
use crate::native::NativeEvent;
use crate::patch::Patch;
use crate::translate::action_error;
use crate::translate::patch_retagged;
use crate::translate::translate_events;
use crate::translate::TranslateError;

verus! {

/// Accrues the native events of one transaction, in the order the engine
/// delivered them. Its abstract state is that event sequence.
#[derive(Debug)]
pub struct Observer {
    events: Vec<NativeEvent>,
}

impl View for Observer {
    type V = Seq<NativeEvent>;

    closed spec fn view(&self) -> Seq<NativeEvent> {
        self.events@
    }
}

impl Observer {
    /// A fresh observer for a new transaction, with no events accrued.
    pub fn new() -> (r: Observer)
        ensures
            r@ === Seq::<NativeEvent>::empty(),
    {
        Observer { events: Vec::new() }
    }

    /// Records one native event at the end of the accrued sequence.
    pub fn record(&mut self, e: NativeEvent)
        ensures
            final(self)@ === old(self)@.push(e),
    {
        self.events.push(e);
    }

    /// How many events have been accrued so far.
    pub fn len(&self) -> (n: usize)
        ensures
            n == self@.len(),
    {
        self.events.len()
    }

    /// Discards everything accrued, producing no patches: the aborted
    /// transaction leaves no partially translated state behind.
    pub fn discard(&mut self)
        ensures
            final(self)@ === Seq::<NativeEvent>::empty(),
    {
        self.events = Vec::new();
    }

    /// Drains the observer and translates the whole accrued sequence at once:
    /// one patch per event, in order. On the first contract-violating event
    /// the matching error is returned instead and no patch list is produced.
    /// Either way the observer is left empty.
    pub fn take_patches(&mut self) -> (r: Result<Vec<Patch>, TranslateError>)
        ensures
            final(self)@ === Seq::<NativeEvent>::empty(),
            match r {
                Ok(ps) => ps@.len() == old(self)@.len() && (forall|i: int|
                    0 <= i < old(self)@.len() ==> patch_retagged(
                        old(self)@[i],
                        #[trigger] ps@[i],
                    )),
                Err(err) => exists|i: int|
                    0 <= i < old(self)@.len() && action_error(
                        #[trigger] old(self)@[i].action,
                    ) == Some(err) && (forall|j: int|
                        0 <= j < i ==> action_error(old(self)@[j].action) is None),
            },
            r is Ok <==> (forall|i: int|
                0 <= i < old(self)@.len() ==> action_error(
                    #[trigger] old(self)@[i].action,
                ) is None),
    {
        let r = translate_events(&self.events);
        self.events = Vec::new();
        r
    }
}

} // verus!
