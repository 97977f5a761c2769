//! The event emitter: the publish-side handle over a subscriber registry.
//!
//! `emit` fans a value out to every current subscriber; `subscribe` registers
//! a new subscriber and hands its receiving half back to the caller.

use vstd::prelude::*;
use crate::listener::Listeners;
use crate::listener::ReceivingHandle;

verus! {

/// A publish-side handle over a subscriber registry.
#[verifier::reject_recursive_types(T)]
pub struct EventEmitter<T> {
    pub listeners: Listeners<T>,
}

impl<T> EventEmitter<T> {
    /// An emitter over the given registry.
    pub fn new(listeners: Listeners<T>) -> (r: Self)
        ensures
            r.listeners == listeners,
    {
        EventEmitter { listeners }
    }

    /// Registers a new subscriber: assigns the next id and returns the
    /// receiving half of its fresh delivery queue. The id is strictly larger
    /// than every id handed out before.
    pub fn subscribe(&mut self) -> (r: ReceivingHandle<T>)
        requires
            old(self).listeners.wf(),
            old(self).listeners.spec_next_id() < u64::MAX,
        ensures
            final(self).listeners.wf(),
            r.id == old(self).listeners.spec_next_id(),
            final(self).listeners.spec_next_id() == old(self).listeners.spec_next_id() + 1,
            final(self).listeners.ids() == old(self).listeners.ids().push(r.id),
    {
        self.listeners.add()
    }

    /// The number of subscribers currently stored. May over-report
    /// subscribers that discarded their receiving half but have not yet been
    /// removed by a failed delivery.
    pub fn count(&self) -> (n: usize)
        ensures
            n == self.listeners.ids().len(),
    {
        self.listeners.len()
    }

    /// Publishes one value to all current subscribers: every stored sending
    /// half is offered exactly one clone of `value`, in table order. A dead
    /// subscriber is removed silently; the broadcast never fails. Returns the
    /// number of accepted deliveries.
    pub fn emit(&mut self, value: &T) -> (delivered: usize) where T: Clone
        requires
            old(self).listeners.wf(),
        ensures
            final(self).listeners.wf(),
            final(self).listeners.spec_next_id() == old(self).listeners.spec_next_id(),
            delivered == final(self).listeners.ids().len(),
            final(self).listeners.ids().len() <= old(self).listeners.ids().len(),
            forall|k: int|
                0 <= k < final(self).listeners.ids().len() ==> old(self).listeners.ids().contains(
                    final(self).listeners.ids()[k],
                ),
    {
        self.listeners.broadcast(value)
    }
}

impl<T> Default for EventEmitter<T> {
    /// An emitter over a fresh, empty registry.
    fn default() -> (r: Self)
        ensures
            r.listeners.wf(),
            r.listeners.spec_next_id() == 0,
            r.listeners.ids() == Seq::<u64>::empty(),
    {
        EventEmitter { listeners: Listeners::default() }
    }
}

} // verus!
