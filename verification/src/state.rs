//! Chain state and the one channel through which it is reached.

use vstd::prelude::*;
use vstd::std_specs::convert::FromSpecImpl;
use beacon::BeaconState;

verus! {

/// An exclusive handle to the chain state at some block.
pub trait StateExternalities {
    /// The chain state behind the handle.
    spec fn chain_state(&self) -> BeaconState;

    /// Lends the chain state out for reading and writing. What the borrower leaves in it
    /// is what the handle holds afterwards.
    fn state(&mut self) -> (state: &mut BeaconState)
        ensures
            *state == old(self).chain_state(),
            final(self).chain_state() == *final(state),
    ;
}

/// The chain state, owned.
pub struct State {
    state: BeaconState,
}

impl Clone for State {
    fn clone(&self) -> (copy: State)
        ensures
            copy == *self,
    {
        State { state: self.state.clone() }
    }
}

impl State {
    /// The chain state that this value wraps.
    pub closed spec fn inner(&self) -> BeaconState {
        self.state
    }

    /// The state that wraps `state`.
    pub closed spec fn wrap(state: BeaconState) -> State {
        State { state }
    }

    /// This value as the handle through which the capabilities reach the state.
    pub fn as_externalities(&mut self) -> (handle: &mut State)
        ensures
            *handle == *old(self),
            *final(self) == *final(handle),
    {
        self
    }
}

impl From<BeaconState> for State {
    fn from(state: BeaconState) -> (wrapped: State)
        ensures
            wrapped.inner() == state,
    {
        State { state }
    }
}

impl FromSpecImpl<BeaconState> for State {
    open spec fn obeys_from_spec() -> bool {
        true
    }

    open spec fn from_spec(state: BeaconState) -> State {
        State::wrap(state)
    }
}

impl From<State> for BeaconState {
    fn from(state: State) -> (inner: BeaconState)
        ensures
            inner == state.inner(),
    {
        state.state
    }
}

impl FromSpecImpl<State> for BeaconState {
    open spec fn obeys_from_spec() -> bool {
        true
    }

    open spec fn from_spec(state: State) -> BeaconState {
        state.inner()
    }
}

impl StateExternalities for State {
    open spec fn chain_state(&self) -> BeaconState {
        self.inner()
    }

    fn state(&mut self) -> (state: &mut BeaconState) {
        &mut self.state
    }
}

/// Wrapping a chain state and unwrapping it again gives the chain state back, and the
/// handle in between reaches exactly that state.
pub proof fn law_wrapping_keeps_the_state(state: BeaconState)
    ensures
        State::wrap(state).inner() == state,
        State::wrap(state).chain_state() == state,
{
}

} // verus!
