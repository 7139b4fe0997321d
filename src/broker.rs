use tokio::sync::mpsc::{Receiver, Sender};
use vstd::prelude::*;
use crate::outcome::Outcome;
use crate::registry::{
    feeds, slot_bound, view_wf, spec_deregister, spec_register, Connection, RegistryView,
    SessionRegistry, SLOT_CAPACITY,
};
use crate::views::{SendMsgReq, SseView};

verus! {

/// The tickets of the sender's and the target's registrations, when both
/// identifiers are registered.
pub open spec fn spec_plan(v: RegistryView, sender: u16, target: u16) -> Option<(u64, u64)> {
    if v.0.contains_key(sender) && v.0.contains_key(target) {
        Some((v.0[sender], v.0[target]))
    } else {
        None
    }
}

/// The two pushes that a send resolves to: the echo into the sender's own
/// slot and the message into the target's slot, each with its frame.
pub struct Delivery<'a> {
    pub echo_ticket: u64,
    pub echo: &'a Sender<SseView>,
    pub echo_frame: SseView,
    pub target_ticket: u64,
    pub target: &'a Sender<SseView>,
    pub target_frame: SseView,
}

impl SessionRegistry {
    /// Resolves the sender and the target of `req`. When both are registered
    /// it returns their live producer handles and the frame for each, which
    /// carries `req.message` from `sender`; otherwise `NotFound`, and nothing
    /// is to be pushed anywhere.
    pub fn plan_send<'a>(&'a self, sender: u16, req: SendMsgReq) -> (r: Result<Delivery<'a>, Outcome>)
        ensures
            r.is_ok() == spec_plan(self@, sender, req.target_id).is_some(),
            match r {
                Ok(d) => {
                    &&& spec_plan(self@, sender, req.target_id) == Some((d.echo_ticket, d.target_ticket))
                    &&& *d.echo == self.handle(sender)
                    &&& *d.target == self.handle(req.target_id)
                    &&& d.echo_frame.from_user_id == sender
                    &&& d.echo_frame.data@ == req.message@
                    &&& d.target_frame.from_user_id == sender
                    &&& d.target_frame.data@ == req.message@
                },
                Err(o) => o == Outcome::NotFound,
            },
    {
        let echo_ticket = self.lookup(sender);
        let target_ticket = self.lookup(req.target_id);
        let echo = self.producer(sender);
        let target = self.producer(req.target_id);
        match (echo_ticket, echo, target_ticket, target) {
            (Some(et), Some(e), Some(tt), Some(t)) => {
                let copy = req.message.clone();
                Ok(
                    Delivery {
                        echo_ticket: et,
                        echo: e,
                        echo_frame: SseView::new(sender, copy),
                        target_ticket: tt,
                        target: t,
                        target_frame: SseView::new(sender, req.message),
                    },
                )
            },
            _ => Err(Outcome::NotFound),
        }
    }
}

/// In tickets: connecting `id` and then sending from another registered
/// session to `id` resolves the target to the new registration and the echo to
/// the sender's own, a different one.
pub proof fn lemma_connect_then_send_tickets(v: RegistryView, id: u16, other: u16)
    requires
        view_wf(v),
        v.1 < u64::MAX,
        v.0.contains_key(other),
        other != id,
    ensures
        view_wf(spec_register(v, id)),
        spec_plan(spec_register(v, id), other, id) == Some((v.0[other], v.1)),
        v.0[other] != v.1,
{
}

/// Registering preserves the registry's well-formedness.
pub proof fn lemma_register_wf(v: RegistryView, id: u16)
    requires
        view_wf(v),
        v.1 < u64::MAX,
    ensures
        view_wf(spec_register(v, id)),
{
}

/// A send to a target that is not registered resolves to nothing.
pub proof fn lemma_unknown_target(v: RegistryView, sender: u16, target: u16)
    requires
        !v.0.contains_key(target),
    ensures
        spec_plan(v, sender, target) == None::<(u64, u64)>,
{
}

/// In tickets: registering the same identifier twice, a send to it afterwards
/// resolves to the ticket of the second registration, never the first.
pub proof fn lemma_register_supersedes_tickets(v: RegistryView, id: u16, sender: u16)
    requires
        view_wf(v),
        v.1 + 1 < u64::MAX,
        sender == id || v.0.contains_key(sender),
    ensures
        ({
            let first = v.1;
            let v1 = spec_register(v, id);
            let second = v1.1;
            let v2 = spec_register(v1, id);
            &&& view_wf(v2)
            &&& first != second
            &&& v2.0[id] == second
            &&& spec_plan(v2, sender, id).is_some()
            &&& spec_plan(v2, sender, id).unwrap().1 == second
        }),
{
}

/// Registering `id` leaves every other identifier's registration as it was.
pub proof fn lemma_register_isolated(v: RegistryView, id: u16, other: u16)
    requires
        other != id,
    ensures
        spec_register(v, id).0.contains_key(other) == v.0.contains_key(other),
        v.0.contains_key(other) ==> spec_register(v, id).0[other] == v.0[other],
{
}

/// Once the stream of the live registration of `id` is torn down, a send to
/// `id` resolves to nothing.
pub proof fn lemma_disconnect_then_send(v: RegistryView, id: u16, sender: u16)
    requires
        v.0.contains_key(id),
    ensures
        spec_plan(spec_deregister(v, id, v.0[id]), sender, id) == None::<(u64, u64)>,
{
}

/// Tearing down a superseded stream leaves the newer registration in place.
pub proof fn lemma_stale_teardown(v: RegistryView, id: u16)
    requires
        view_wf(v),
        v.1 + 1 < u64::MAX,
    ensures
        ({
            let first = v.1;
            let v2 = spec_register(spec_register(v, id), id);
            spec_deregister(v2, id, first) == v2
        }),
{
}

/// Connecting `id` (returning `c`) and then sending to `id` from another
/// registered session whose stream `rx_other` is not `c.rx`: the send resolves,
/// its target frame goes through a capacity-one producer that feeds `c.rx` and
/// no other stream, and its echo goes through the sender's unchanged producer,
/// which is a different one. So the new stream gets exactly one frame.
pub proof fn lemma_connect_then_send(
    r0: SessionRegistry,
    r1: SessionRegistry,
    c: Connection,
    id: u16,
    other: u16,
    rx_other: Receiver<SseView>,
)
    requires
        r0.wf(),
        SessionRegistry::registered(r0, r1, id, c),
        other != id,
        r0@.0.contains_key(other),
        feeds(r0.handle(other), rx_other),
        rx_other != c.rx,
    ensures
        spec_plan(r1@, other, id) == Some((r0@.0[other], c.ticket)),
        slot_bound(r1.handle(id)) == SLOT_CAPACITY,
        feeds(r1.handle(id), c.rx),
        forall|rx: Receiver<SseView>| #[trigger] feeds(r1.handle(id), rx) ==> rx == c.rx,
        r1.handle(other) == r0.handle(other),
        r1.handle(other) != r1.handle(id),
{
    assert(r1.handle(other) == r0.handle(other));
    if r1.handle(other) == r1.handle(id) {
        assert(feeds(r1.handle(id), rx_other));
    }
}

/// Connecting the same identifier twice, with streams `c1` then `c2`: the
/// producer under `id` now feeds the second stream and no other, so nothing
/// pushed to `id` reaches the first; it is a different producer from the one
/// the first connect stored, and every other identifier keeps its producer.
pub proof fn lemma_register_supersedes(
    r0: SessionRegistry,
    r1: SessionRegistry,
    r2: SessionRegistry,
    c1: Connection,
    c2: Connection,
    id: u16,
)
    requires
        r0@.1 < u64::MAX,
        SessionRegistry::registered(r0, r1, id, c1),
        SessionRegistry::registered(r1, r2, id, c2),
        c1.rx != c2.rx,
    ensures
        r2@.0[id] == c2.ticket,
        c1.ticket != c2.ticket,
        feeds(r2.handle(id), c2.rx),
        !feeds(r2.handle(id), c1.rx),
        r2.handle(id) != r1.handle(id),
        slot_bound(r2.handle(id)) == SLOT_CAPACITY,
        forall|k: u16| k != id && r0@.0.contains_key(k) ==> #[trigger] r2.handle(k) == r0.handle(k),
{
    assert(r1@.0.contains_key(id));
    assert forall|k: u16| k != id && r0@.0.contains_key(k) implies #[trigger] r2.handle(k) == r0.handle(k) by {
        assert(r1@.0.contains_key(k));
        assert(r1.handle(k) == r0.handle(k));
    }
}

/// Two sessions with different streams have different producers, so a send
/// between them pushes one frame into each stream and never two into one.
pub proof fn lemma_distinct_streams(
    r: SessionRegistry,
    sender: u16,
    target: u16,
    rx_sender: Receiver<SseView>,
    rx_target: Receiver<SseView>,
)
    requires
        feeds(r.handle(sender), rx_sender),
        forall|rx: Receiver<SseView>| #[trigger] feeds(r.handle(target), rx) ==> rx == rx_target,
        rx_sender != rx_target,
    ensures
        r.handle(sender) != r.handle(target),
{
    if r.handle(sender) == r.handle(target) {
        assert(feeds(r.handle(target), rx_sender));
    }
}

} // verus!
