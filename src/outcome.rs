use vstd::prelude::*;

verus! {

/// What a send amounts to, as seen by the sender.
#[derive(Clone, Copy, Debug, PartialEq, Eq, Structural)]
pub enum Outcome {
    /// Every required push was accepted.
    Delivered,
    /// The sender or the target is not registered.
    NotFound,
    /// A required slot stayed occupied past the wait, or its consumer is gone.
    DeliveryFailed,
}

/// How one push into a single-slot channel ended.
#[derive(Clone, Copy, Debug, PartialEq, Eq, Structural)]
pub enum PushResult {
    /// The frame now sits in the slot.
    Accepted,
    /// The slot was still occupied when the bounded wait ran out.
    Full,
    /// The consumer side has been dropped.
    Closed,
}

/// The outcome of a send whose two pushes (echo to the sender, then to the
/// target) ended as given.
pub open spec fn spec_delivery_outcome(echo: PushResult, target: PushResult) -> Outcome {
    if echo == PushResult::Accepted && target == PushResult::Accepted {
        Outcome::Delivered
    } else {
        Outcome::DeliveryFailed
    }
}

/// Combines the results of the echo push and the target push: the send is
/// delivered only when both were accepted; a full or closed slot on either
/// side fails it, and the failure is never swallowed.
pub fn delivery_outcome(echo: PushResult, target: PushResult) -> (r: Outcome)
    ensures
        r == spec_delivery_outcome(echo, target),
        r == Outcome::Delivered <==> (echo == PushResult::Accepted && target == PushResult::Accepted),
        echo != PushResult::Accepted ==> r == Outcome::DeliveryFailed,
        target != PushResult::Accepted ==> r == Outcome::DeliveryFailed,
        r != Outcome::NotFound,
{
    match (echo, target) {
        (PushResult::Accepted, PushResult::Accepted) => Outcome::Delivered,
        _ => Outcome::DeliveryFailed,
    }
}

/// The HTTP status that reports an outcome at the boundary.
pub open spec fn spec_status_code(o: Outcome) -> u16 {
    match o {
        Outcome::Delivered => 200,
        Outcome::NotFound => 404,
        Outcome::DeliveryFailed => 500,
    }
}

/// Maps an outcome to its response status: OK, not found, internal failure.
pub fn status_code(o: Outcome) -> (r: u16)
    ensures
        r == spec_status_code(o),
{
    match o {
        Outcome::Delivered => 200,
        Outcome::NotFound => 404,
        Outcome::DeliveryFailed => 500,
    }
}

} // verus!
