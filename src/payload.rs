//! The lifecycle state that the payload in a VM reports for itself.
use vstd::prelude::*;

verus! {

/// The lifecycle state which the payload in the VM has reported itself to be in.
///
/// The order of the variants is significant: only forward transitions are allowed by
/// [`PayloadTracker::update`].
#[derive(Copy, Clone, Debug, PartialEq, Eq, Structural, PartialOrd, Ord)]
pub enum PayloadState {
    Starting,
    Started,
    Ready,
    Finished,
}

impl PayloadState {
    /// Position of the state in the order `Starting < Started < Ready < Finished`.
    pub open spec fn rank(self) -> nat {
        match self {
            PayloadState::Starting => 0,
            PayloadState::Started => 1,
            PayloadState::Ready => 2,
            PayloadState::Finished => 3,
        }
    }

    /// Position of the state in the lifecycle order.
    pub fn position(&self) -> (r: u8)
        ensures
            r as nat == self.rank(),
    {
        match self {
            PayloadState::Starting => 0,
            PayloadState::Started => 1,
            PayloadState::Ready => 2,
            PayloadState::Finished => 3,
        }
    }

    /// Whether `self` comes strictly after `other` in the lifecycle order.
    pub fn is_after(&self, other: &PayloadState) -> (r: bool)
        ensures
            r == (self.rank() > other.rank()),
    {
        self.position() > other.position()
    }
}

/// The state that results from asking to move from `current` to `new`: `new` if it is strictly
/// later, `current` otherwise.
pub open spec fn advance(current: PayloadState, new: PayloadState) -> PayloadState {
    if new.rank() > current.rank() {
        new
    } else {
        current
    }
}

/// The later of two states.
pub open spec fn later(a: PayloadState, b: PayloadState) -> PayloadState {
    if a.rank() >= b.rank() {
        a
    } else {
        b
    }
}

/// A rejected payload state transition, carrying the stored state and the rejected one.
#[derive(Copy, Clone, Debug, PartialEq, Eq, Structural)]
pub struct InvalidTransition {
    pub from: PayloadState,
    pub to: PayloadState,
}

/// Decides a transition from `current` to `new`: only strictly forward moves are accepted.
pub fn next_payload_state(current: PayloadState, new: PayloadState) -> (r: Result<
    PayloadState,
    InvalidTransition,
>)
    ensures
        r is Ok <==> new.rank() > current.rank(),
        r matches Ok(s) ==> s == new,
        r matches Err(e) ==> e.from == current && e.to == new,
{
    if new.is_after(&current) {
        Ok(new)
    } else {
        Err(InvalidTransition { from: current, to: new })
    }
}

/// Holds the latest payload state of one VM and admits only forward transitions.
#[derive(Debug)]
pub struct PayloadTracker {
    state: PayloadState,
}

impl View for PayloadTracker {
    type V = PayloadState;

    closed spec fn view(&self) -> PayloadState {
        self.state
    }
}

impl PayloadTracker {
    /// A tracker for a payload that has just been launched: its state is `Starting`.
    pub fn new() -> (r: PayloadTracker)
        ensures
            r@ == PayloadState::Starting,
    {
        PayloadTracker { state: PayloadState::Starting }
    }

    /// Returns the last reported state.
    pub fn state(&self) -> (r: PayloadState)
        ensures
            r == self@,
    {
        self.state
    }

    /// Moves to `new` if it is strictly later than the stored state; otherwise fails with both
    /// states and leaves the stored one as it was.
    pub fn update(&mut self, new: PayloadState) -> (r: Result<(), InvalidTransition>)
        ensures
            r is Ok <==> new.rank() > old(self)@.rank(),
            final(self)@ == advance(old(self)@, new),
            r matches Err(e) ==> e.from == old(self)@ && e.to == new,
    {
        match next_payload_state(self.state, new) {
            Ok(s) => {
                self.state = s;
                Ok(())
            },
            Err(e) => Err(e),
        }
    }
}

/// A transition to a state that is not strictly later fails and keeps the stored state; one to
/// a strictly later state succeeds and stores it.
pub proof fn lemma_only_forward(current: PayloadState, new: PayloadState)
    ensures
        new.rank() <= current.rank() ==> advance(current, new) == current,
        new.rank() > current.rank() ==> advance(current, new) == new,
        advance(current, new).rank() >= current.rank(),
{
}

/// Two updates applied one after the other, in either order, leave the latest of the stored
/// state and the two requested ones; both succeed only when the stored state, the first and the
/// second are strictly increasing.
pub proof fn lemma_concurrent_updates(current: PayloadState, a: PayloadState, b: PayloadState)
    ensures
        advance(advance(current, a), b) == later(later(current, a), b),
        advance(advance(current, b), a) == later(later(current, a), b),
        (a.rank() > current.rank() && b.rank() > advance(current, a).rank()) <==> (current.rank()
            < a.rank() && a.rank() < b.rank()),
{
}

} // verus!
