//! The frame-callback tracker: whether a compositor frame callback is
//! outstanding for a surface, has fired, or neither.

use vstd::prelude::*;

verus! {

/// Where a surface stands with the compositor's frame callbacks.
#[derive(Clone, Copy, Debug, PartialEq, Eq, Structural)]
pub enum FrameCallbackState {
    /// No callback is registered.
    Idle,
    /// A callback is registered and has not fired yet.
    Requested,
    /// The registered callback fired: the surface may render.
    Received,
}

impl FrameCallbackState {
    /// Whether a request made in this state registers a new callback.
    pub open spec fn registers(self) -> bool {
        self != FrameCallbackState::Requested
    }

    /// The number of callbacks registered by `n` requests made one after
    /// another, starting in this state.
    pub open spec fn registrations(self, n: nat) -> nat
        decreases n,
    {
        if n == 0 {
            0
        } else {
            (if self.registers() {
                1nat
            } else {
                0nat
            }) + FrameCallbackState::Requested.registrations((n - 1) as nat)
        }
    }

    pub fn new() -> (r: FrameCallbackState)
        ensures
            r == FrameCallbackState::Idle,
    {
        FrameCallbackState::Idle
    }

    /// Asks for a frame callback. Returns whether the caller must register one
    /// with the compositor: not when one is already outstanding.
    pub fn request_callback(&mut self) -> (register: bool)
        ensures
            register == old(self).registers(),
            *final(self) == FrameCallbackState::Requested,
    {
        let register = *self != FrameCallbackState::Requested;
        *self = FrameCallbackState::Requested;
        register
    }

    /// Records that the compositor fired the callback.
    pub fn callback_done(&mut self)
        ensures
            *final(self) == FrameCallbackState::Received,
    {
        *self = FrameCallbackState::Received;
    }

    /// Consumes a fired callback: returns whether one had fired, and goes
    /// back to `Idle` if so.
    pub fn take_received(&mut self) -> (ready: bool)
        ensures
            ready == (*old(self) == FrameCallbackState::Received),
            *final(self) == (if ready {
                FrameCallbackState::Idle
            } else {
                *old(self)
            }),
    {
        if *self == FrameCallbackState::Received {
            *self = FrameCallbackState::Idle;
            true
        } else {
            false
        }
    }
}

/// Requesting a callback is idempotent while one is outstanding: any number
/// of requests made one after another register exactly one callback when the
/// first finds none outstanding, and none when one already is.
pub proof fn lemma_request_idempotent(s: FrameCallbackState, n: nat)
    requires
        n >= 1,
    ensures
        s.registrations(n) == (if s == FrameCallbackState::Requested {
            0nat
        } else {
            1nat
        }),
        FrameCallbackState::Requested.registrations(n) == 0,
    decreases n,
{
    lemma_no_registration_while_requested(n);
}

proof fn lemma_no_registration_while_requested(n: nat)
    ensures
        FrameCallbackState::Requested.registrations(n) == 0,
    decreases n,
{
    if n > 0 {
        lemma_no_registration_while_requested((n - 1) as nat);
    }
}

} // verus!
