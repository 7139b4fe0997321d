use std::collections::HashMap;
use tokio::sync::mpsc::{Receiver, Sender};
use vstd::prelude::*;
use crate::views::SseView;

verus! {

broadcast use vstd::std_specs::hash::group_hash_axioms;

#[verifier::external_type_specification]
#[verifier::external_body]
#[verifier::reject_recursive_types(T)]
pub struct ExSender<T>(Sender<T>);

#[verifier::external_type_specification]
#[verifier::external_body]
#[verifier::reject_recursive_types(T)]
pub struct ExReceiver<T>(Receiver<T>);

/// The capacity that the channel behind a producer handle was created with.
pub uninterp spec fn slot_bound(tx: Sender<SseView>) -> nat;

/// Whether frames sent through `tx` are received by `rx`: the two are ends of
/// one channel.
pub uninterp spec fn feeds(tx: Sender<SseView>, rx: Receiver<SseView>) -> bool;

/// Relies on tokio::sync::mpsc::channel: both ends of one fresh bounded
/// channel whose capacity is `buffer`. A channel has a single receiver, since
/// `Receiver` is not `Clone`. It panics on a zero capacity or one past the
/// semaphore's limit, both left out here.
#[verifier::external_body]
fn open_channel(buffer: usize) -> (r: (Sender<SseView>, Receiver<SseView>))
    requires
        0 < buffer <= 4096,
    ensures
        slot_bound(r.0) == buffer,
        feeds(r.0, r.1),
        forall|rx: Receiver<SseView>| #[trigger] feeds(r.0, rx) ==> rx == r.1,
{
    tokio::sync::mpsc::channel::<SseView>(buffer)
}

/// Frames a delivery channel holds at most: one pending message.
pub const SLOT_CAPACITY: usize = 1;

/// The registry as a map from session identifier to the ticket of its live
/// registration, and the next ticket to hand out.
pub type RegistryView = (Map<u16, u64>, u64);

/// Tickets of live registrations are all below the next ticket, and no two
/// identifiers share one.
pub open spec fn view_wf(v: RegistryView) -> bool {
    &&& forall|id: u16| #[trigger] v.0.contains_key(id) ==> v.0[id] < v.1
    &&& forall|a: u16, b: u16|
        #[trigger] v.0.contains_key(a) && #[trigger] v.0.contains_key(b) && a != b ==> v.0[a] != v.0[b]
}

/// Registering `id`: it now maps to a fresh ticket, overwriting any earlier
/// registration of the same identifier.
pub open spec fn spec_register(v: RegistryView, id: u16) -> RegistryView {
    (v.0.insert(id, v.1), (v.1 + 1) as u64)
}

/// Tearing down the stream of registration `ticket` under `id`: the entry goes
/// only if it is still that registration.
pub open spec fn spec_deregister(v: RegistryView, id: u16, ticket: u64) -> RegistryView {
    if v.0.contains_key(id) && v.0[id] == ticket {
        (v.0.remove(id), v.1)
    } else {
        v
    }
}

/// A live producer handle, with the ticket of the registration that made it.
pub struct Slot {
    pub ticket: u64,
    pub tx: Sender<SseView>,
}

/// The consumer side handed to a connecting session, with its ticket.
pub struct Connection {
    pub ticket: u64,
    pub rx: Receiver<SseView>,
}

/// Maps each session identifier to the producer handle of its single-slot
/// delivery channel.
pub struct SessionRegistry {
    slots: HashMap<u16, Slot>,
    next_ticket: u64,
}

impl SessionRegistry {
    pub closed spec fn view(&self) -> RegistryView {
        (self.slots@.map_values(|s: Slot| s.ticket), self.next_ticket)
    }

    /// The producer handle stored under `id`.
    pub closed spec fn handle(&self, id: u16) -> Sender<SseView> {
        self.slots@[id].tx
    }

    pub closed spec fn wf(&self) -> bool {
        &&& view_wf(self@)
        &&& forall|id: u16| #[trigger] self.slots@.contains_key(id) ==> slot_bound(
            self.slots@[id].tx,
        ) == SLOT_CAPACITY
    }

    /// What registering `id` did, from `before` to `after`, returning `c`: the
    /// tickets as `spec_register` says; under `id` a producer of capacity one
    /// that feeds the stream `c.rx` and no other; every other identifier keeps
    /// its producer.
    pub open spec fn registered(before: SessionRegistry, after: SessionRegistry, id: u16, c: Connection) -> bool {
        &&& after.wf()
        &&& after@ == spec_register(before@, id)
        &&& c.ticket == before@.1
        &&& slot_bound(after.handle(id)) == SLOT_CAPACITY
        &&& feeds(after.handle(id), c.rx)
        &&& forall|rx: Receiver<SseView>| #[trigger] feeds(after.handle(id), rx) ==> rx == c.rx
        &&& forall|k: u16| k != id && before@.0.contains_key(k) ==> #[trigger] after.handle(k) == before.handle(k)
    }

    /// Every live handle belongs to a channel of capacity one.
    pub proof fn lemma_single_slot(&self, id: u16)
        requires
            self.wf(),
            self@.0.contains_key(id),
        ensures
            slot_bound(self.handle(id)) == SLOT_CAPACITY,
    {
    }

    /// An empty registry.
    pub fn new() -> (r: SessionRegistry)
        ensures
            r.wf(),
            r@.0 == Map::<u16, u64>::empty(),
            r@.1 == 0,
    {
        let r = SessionRegistry { slots: HashMap::new(), next_ticket: 0 };
        assert(r@.0 =~= Map::<u16, u64>::empty());
        r
    }

    /// The ticket that the next registration will carry.
    pub fn next_ticket(&self) -> (r: u64)
        ensures
            r == self@.1,
    {
        self.next_ticket
    }

    /// Creates a fresh single-slot channel, stores its producer side under
    /// `id` in place of any earlier one, and returns the consumer side.
    pub fn register(&mut self, id: u16) -> (c: Connection)
        requires
            old(self).wf(),
            old(self)@.1 < u64::MAX,
        ensures
            Self::registered(*old(self), *final(self), id, c),
            final(self).wf(),
            final(self)@ == spec_register(old(self)@, id),
            c.ticket == old(self)@.1,
            feeds(final(self).handle(id), c.rx),
            forall|rx: Receiver<SseView>| #[trigger] feeds(final(self).handle(id), rx) ==> rx == c.rx,
            forall|k: u16| k != id && old(self)@.0.contains_key(k) ==> #[trigger] final(self).handle(k) == old(self).handle(k),
    {
        let (tx, rx) = open_channel(SLOT_CAPACITY);
        let ticket = self.next_ticket;
        self.slots.insert(id, Slot { ticket, tx });
        self.next_ticket = ticket + 1;
        proof {
            assert(self@.0 =~= old(self)@.0.insert(id, ticket));
        }
        let c = Connection { ticket, rx };
        assert(forall|k: u16| k != id && old(self)@.0.contains_key(k) ==> #[trigger] self.handle(k) == old(self).handle(k));
        c
    }

    /// The ticket of the live registration of `id`, if there is one.
    pub fn lookup(&self, id: u16) -> (r: Option<u64>)
        ensures
            r == (if self@.0.contains_key(id) { Some(self@.0[id]) } else { None::<u64> }),
    {
        match self.slots.get(&id) {
            Some(s) => Some(s.ticket),
            None => None,
        }
    }

    /// The producer handle stored under `id`, if there is one.
    pub fn producer(&self, id: u16) -> (r: Option<&Sender<SseView>>)
        ensures
            r.is_some() == self@.0.contains_key(id),
            r.is_some() ==> *r.unwrap() == self.handle(id),
    {
        match self.slots.get(&id) {
            Some(s) => Some(&s.tx),
            None => None,
        }
    }

    /// Removes the entry of `id` when its stream, registration `ticket`, ends;
    /// a later registration of the same identifier stays.
    pub fn deregister(&mut self, id: u16, ticket: u64)
        requires
            old(self).wf(),
        ensures
            final(self).wf(),
            final(self)@ == spec_deregister(old(self)@, id, ticket),
            forall|k: u16| #[trigger] final(self)@.0.contains_key(k) ==> final(self).handle(k) == old(self).handle(k),
    {
        let live = match self.slots.get(&id) {
            Some(s) => s.ticket == ticket,
            None => false,
        };
        if live {
            self.slots.remove(&id);
            proof {
                assert(self@.0 =~= old(self)@.0.remove(id));
            }
        }
    }
}

} // verus!
