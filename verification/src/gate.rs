//! The one-time initialisation gate.
//!
//! An `InitGate` decides; the caller acts. `initialize` tells its caller
//! whether it is the one that has to run the initialisation body, and from
//! that moment on the state is `Initialized`, whatever becomes of the
//! body: a body that fails is reported by the caller that ran it and is
//! not tried again. To serialise racing callers, hold the value under a
//! lock and run the body before letting the lock go.

use vstd::prelude::*;

verus! {

/// The two states of an `InitGate`.
#[derive(Clone, Copy, Debug, PartialEq, Eq, Structural)]
pub enum GateState {
    Uninitialized,
    Initialized,
}

/// The state that a call of `initialize` leaves behind.
pub open spec fn gate_next(state: GateState) -> GateState {
    GateState::Initialized
}

/// Whether a call of `initialize` in this state has its caller run the
/// body.
pub open spec fn gate_runs(state: GateState) -> bool {
    state is Uninitialized
}

/// The state after `calls` calls of `initialize`, one after the other.
pub open spec fn state_after(state: GateState, calls: nat) -> GateState
    decreases calls,
{
    if calls == 0 {
        state
    } else {
        state_after(gate_next(state), (calls - 1) as nat)
    }
}

/// How many of `calls` calls of `initialize`, one after the other, have
/// their caller run the body.
pub open spec fn runs_in(state: GateState, calls: nat) -> nat
    decreases calls,
{
    if calls == 0 {
        0
    } else {
        (if gate_runs(state) { 1nat } else { 0nat })
            + runs_in(gate_next(state), (calls - 1) as nat)
    }
}

/// A gate: `Uninitialized` until the first call of `initialize`,
/// `Initialized` ever after.
#[derive(Debug)]
pub struct InitGate {
    state: GateState,
}

impl View for InitGate {
    type V = GateState;

    closed spec fn view(&self) -> GateState {
        self.state
    }
}

impl InitGate {
    /// A new value, in state `Uninitialized`.
    pub fn new() -> (gate: InitGate)
        ensures
            gate@ is Uninitialized,
    {
        InitGate { state: GateState::Uninitialized }
    }

    /// Whether `initialize` has been called.
    pub fn is_initialized(&self) -> (yes: bool)
        ensures
            yes == (self@ is Initialized),
    {
        match self.state {
            GateState::Uninitialized => false,
            GateState::Initialized => true,
        }
    }

    /// Moves to `Initialized`. Returns `true` to the first caller, who has
    /// to run the initialisation body, and `false` to every later one.
    pub fn initialize(&mut self) -> (run: bool)
        ensures
            final(self)@ == gate_next(old(self)@),
            run == gate_runs(old(self)@),
    {
        let run = !self.is_initialized();
        self.state = GateState::Initialized;
        run
    }
}

/// From `Initialized`, no number of calls has the body run again or the
/// state change.
pub proof fn lemma_initialized_is_final(calls: nat)
    ensures
        state_after(GateState::Initialized, calls) is Initialized,
        runs_in(GateState::Initialized, calls) == 0,
    decreases calls,
{
    if calls > 0 {
        lemma_initialized_is_final((calls - 1) as nat);
    }
}

/// Any number of calls, if it is at least one, has the body run exactly
/// once from `Uninitialized`, by the first caller, and ends in
/// `Initialized`.
pub proof fn lemma_body_runs_once(calls: nat)
    requires
        calls >= 1,
    ensures
        runs_in(GateState::Uninitialized, calls) == 1,
        gate_runs(GateState::Uninitialized),
        state_after(GateState::Uninitialized, calls) is Initialized,
{
    lemma_initialized_is_final((calls - 1) as nat);
}

/// Whatever the state, further calls have the body run at most once, and
/// once only from `Uninitialized`.
pub proof fn lemma_body_runs_at_most_once(state: GateState, calls: nat)
    ensures
        runs_in(state, calls) <= 1,
        runs_in(state, calls) == 1 <==> state is Uninitialized && calls >= 1,
{
    if calls > 0 {
        lemma_initialized_is_final((calls - 1) as nat);
    }
}

} // verus!
