//! The subscriber registry.
//!
//! A [`Listeners`] maps a monotonically assigned `u64` id to the sending half
//! of that subscriber's unbounded, order-preserving delivery queue. Ids are
//! strictly increasing and never reused. Subscribers whose receiving half was
//! discarded are removed lazily, the first time a delivery to them fails.

use vstd::prelude::*;
use futures_channel::mpsc::UnboundedReceiver;
use futures_channel::mpsc::UnboundedSender;

verus! {

/// Declares futures_channel::mpsc::UnboundedSender, the sending half of an
/// unbounded queue, so registry fields and signatures can carry it. The value
/// is opaque to the verifier.
#[verifier::external_type_specification]
#[verifier::external_body]
#[verifier::reject_recursive_types(T)]
pub struct ExUnboundedSender<T>(UnboundedSender<T>);

/// Declares futures_channel::mpsc::UnboundedReceiver, the receiving half of
/// an unbounded queue, handed out exclusively to the subscriber. The value is
/// opaque to the verifier.
#[verifier::external_type_specification]
#[verifier::external_body]
#[verifier::reject_recursive_types(T)]
pub struct ExUnboundedReceiver<T>(UnboundedReceiver<T>);

/// Relies on futures_channel::mpsc::unbounded: returns the sending and the
/// receiving half of a fresh unbounded first-in-first-out queue.
#[verifier::external_body]
fn unbounded_pair<T>() -> (UnboundedSender<T>, UnboundedReceiver<T>) {
    futures_channel::mpsc::unbounded()
}

/// Relies on UnboundedSender::unbounded_send: queues a clone of the value for
/// the receiving half, and reports whether it was accepted. The send is
/// refused once the receiving half was dropped or closed the queue, so a
/// `false` result identifies a dead subscriber.
#[verifier::external_body]
fn send_clone<T: Clone>(sender: &UnboundedSender<T>, value: &T) -> bool {
    sender.unbounded_send(value.clone()).is_ok()
}

/// An event listener: the sending half of one subscriber's delivery queue.
#[verifier::reject_recursive_types(T)]
pub struct Listener<T> {
    pub sender: UnboundedSender<T>,
}

/// The receiving half of a subscriber's delivery queue, together with the id
/// the registry assigned to the subscriber. The registry retains no access to
/// the receiving half: it belongs exclusively to the caller.
#[verifier::reject_recursive_types(T)]
pub struct ReceivingHandle<T> {
    pub id: u64,
    pub receiver: UnboundedReceiver<T>,
}

/// A sequence of ids is strictly increasing.
pub open spec fn strictly_increasing(s: Seq<u64>) -> bool {
    forall|i: int, j: int| 0 <= i < j < s.len() ==> s[i] < s[j]
}

/// A registry of listeners: a table from subscriber id to that subscriber's
/// sending half, plus the next id to assign.
#[verifier::reject_recursive_types(T)]
pub struct Listeners<T> {
    next_id: u64,
    entries: Vec<(u64, Listener<T>)>,
}

impl<T> Listeners<T> {
    /// The ids currently stored, in table order.
    pub closed spec fn ids(&self) -> Seq<u64> {
        self.entries@.map(|i: int, e: (u64, Listener<T>)| e.0)
    }

    /// The next id the registry will assign.
    pub closed spec fn spec_next_id(&self) -> u64 {
        self.next_id
    }

    /// The registry invariant: stored ids are strictly increasing, and every
    /// stored id was assigned before the next one to hand out.
    pub open spec fn wf(&self) -> bool {
        &&& strictly_increasing(self.ids())
        &&& (forall|i: int| 0 <= i < self.ids().len() ==> self.ids()[i] < self.spec_next_id())
    }

    /// Creates a new listener: assigns the next id, stores the sending half
    /// of a fresh queue under it, and returns the receiving half exclusively
    /// to the caller. No value broadcast before this call is ever delivered
    /// to the new queue.
    pub fn add(&mut self) -> (r: ReceivingHandle<T>)
        requires
            old(self).wf(),
            old(self).spec_next_id() < u64::MAX,
        ensures
            final(self).wf(),
            r.id == old(self).spec_next_id(),
            final(self).spec_next_id() == old(self).spec_next_id() + 1,
            final(self).ids() == old(self).ids().push(r.id),
    {
        let id = self.next_id;
        self.next_id = self.next_id + 1;
        let (sender, receiver) = unbounded_pair::<T>();
        self.entries.push((id, Listener { sender }));
        proof {
            assert(self.ids() =~= old(self).ids().push(id));
        }
        ReceivingHandle { id, receiver }
    }

    /// The number of sending halves currently stored. This may over-report
    /// subscribers that already discarded their receiving half but have not
    /// yet been removed by a failed delivery.
    pub fn len(&self) -> (n: usize)
        ensures
            n == self.ids().len(),
    {
        self.entries.len()
    }

    /// The ids of all currently stored listeners, in table order.
    pub fn listeners(&self) -> (r: Vec<u64>)
        ensures
            r@ == self.ids(),
    {
        let mut out: Vec<u64> = Vec::new();
        let mut i: usize = 0;
        while i < self.entries.len()
            invariant
                i <= self.entries.len(),
                out@ =~= self.ids().subrange(0, i as int),
            decreases self.entries.len() - i,
        {
            out.push(self.entries[i].0);
            i = i + 1;
        }
        proof {
            assert(out@ =~= self.ids());
        }
        out
    }

    /// Delivers one clone of `value` to every currently stored sending half.
    /// A delivery refused because the receiving half was discarded is not an
    /// error: the dead entry is removed and the broadcast continues. Returns
    /// the number of accepted deliveries, which is exactly the number of
    /// entries that remain stored.
    pub fn broadcast(&mut self, value: &T) -> (delivered: usize) where T: Clone
        requires
            old(self).wf(),
        ensures
            final(self).wf(),
            final(self).spec_next_id() == old(self).spec_next_id(),
            delivered == final(self).ids().len(),
            final(self).ids().len() <= old(self).ids().len(),
            forall|k: int|
                0 <= k < final(self).ids().len() ==> old(self).ids().contains(
                    final(self).ids()[k],
                ),
    {
        let mut i: usize = 0;
        while i < self.entries.len()
            invariant
                i <= self.entries.len(),
                self.spec_next_id() == old(self).spec_next_id(),
                self.wf(),
                self.ids().len() <= old(self).ids().len(),
                forall|k: int|
                    0 <= k < self.ids().len() ==> old(self).ids().contains(self.ids()[k]),
            decreases self.entries.len() - i,
        {
            let accepted = send_clone(&self.entries[i].1.sender, value);
            if accepted {
                i = i + 1;
            } else {
                let ghost pre = self.ids();
                self.entries.remove(i);
                proof {
                    assert(self.ids() =~= pre.remove(i as int));
                    lemma_remove_keeps_membership(pre, i as int);
                }
            }
        }
        self.entries.len()
    }
}

/// Removing one element of a strictly increasing sequence leaves it strictly
/// increasing, and every remaining element was already present.
proof fn lemma_remove_keeps_membership(s: Seq<u64>, at: int)
    requires
        0 <= at < s.len(),
    ensures
        strictly_increasing(s) ==> strictly_increasing(s.remove(at)),
        forall|k: int| 0 <= k < s.remove(at).len() ==> s.contains(#[trigger] s.remove(at)[k]),
{
    assert forall|k: int| 0 <= k < s.remove(at).len() implies s.contains(
        #[trigger] s.remove(at)[k],
    ) by {
        if k < at {
            assert(s.remove(at)[k] == s[k]);
        } else {
            assert(s.remove(at)[k] == s[k + 1]);
        }
    }
}

impl<T> Default for Listeners<T> {
    /// A fresh registry: no listeners, and ids starting from zero.
    fn default() -> (r: Self)
        ensures
            r.wf(),
            r.spec_next_id() == 0,
            r.ids() == Seq::<u64>::empty(),
    {
        let r = Listeners { next_id: 0u64, entries: Vec::new() };
        proof {
            assert(r.ids() =~= Seq::<u64>::empty());
        }
        r
    }
}

/// Ids a registry hands out are fresh and totally ordered: every stored id is
/// below the id assigned next, the stored ids are strictly increasing in
/// table order, and no two of them are equal. Together with the contract of
/// [`Listeners::add`], a run of sequential subscriptions therefore returns
/// distinct ids in strictly increasing order.
pub proof fn lemma_subscription_ids_distinct<T>(l: Listeners<T>)
    requires
        l.wf(),
    ensures
        strictly_increasing(l.ids()),
        !l.ids().contains(l.spec_next_id()),
        forall|i: int, j: int|
            0 <= i < l.ids().len() && 0 <= j < l.ids().len() && i != j ==> l.ids()[i]
                != l.ids()[j],
{
    assert forall|i: int, j: int|
        0 <= i < l.ids().len() && 0 <= j < l.ids().len() && i != j implies l.ids()[i]
        != l.ids()[j] by {
        if i < j {
            assert(l.ids()[i] < l.ids()[j]);
        } else {
            assert(l.ids()[j] < l.ids()[i]);
        }
    }
}

} // verus!
