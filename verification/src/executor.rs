//! The executor: what a chain manager asks of the engine, one capability at a time.

use vstd::prelude::*;
use beacon::{BeaconState, NoVerificationConfig};
use crate::block::Block;
use crate::engine;
use crate::error::{Error, spec_lift};
use crate::identifier::Identifier;
use crate::state::StateExternalities;

verus! {

/// The position of a validator in the registry.
pub type ValidatorIndex = u64;

/// Whether a validator with these epochs of activation and exit may vote in `epoch`.
pub open spec fn is_active(epochs: (u64, u64), epoch: u64) -> bool {
    epochs.0 <= epoch < epochs.1
}

/// The positions, in rising order, of the validators among the first `upto` of
/// `registry` that may vote in `epoch`.
pub open spec fn active_indices(registry: Seq<(u64, u64)>, epoch: u64, upto: nat) -> Seq<ValidatorIndex>
    decreases upto,
{
    if upto == 0 {
        Seq::empty()
    } else {
        let before = active_indices(registry, epoch, (upto - 1) as nat);
        if upto <= registry.len() && is_active(registry[upto - 1], epoch) {
            before.push((upto - 1) as u64)
        } else {
            before
        }
    }
}

/// Whether `indices` rises strictly from each entry to the next.
pub open spec fn strictly_rising(indices: Seq<ValidatorIndex>) -> bool {
    forall|i: int, j: int| 0 <= i < j < indices.len() ==> indices[i] < indices[j]
}

/// What `active_indices` holds: positions below `upto` that may vote, each once and in
/// rising order, and every such position.
pub proof fn lemma_active_indices(registry: Seq<(u64, u64)>, epoch: u64, upto: nat)
    requires
        upto <= registry.len() <= u64::MAX,
    ensures
        active_indices(registry, epoch, upto).len() <= upto,
        strictly_rising(active_indices(registry, epoch, upto)),
        forall|i: int|
            0 <= i < active_indices(registry, epoch, upto).len() ==> {
                let position = #[trigger] active_indices(registry, epoch, upto)[i];
                position < upto && is_active(registry[position as int], epoch)
            },
        forall|position: int|
            0 <= position < upto && is_active(#[trigger] registry[position], epoch)
                ==> active_indices(registry, epoch, upto).contains(position as u64),
    decreases upto,
{
    if upto > 0 {
        let before = active_indices(registry, epoch, (upto - 1) as nat);
        let all = active_indices(registry, epoch, upto);
        lemma_active_indices(registry, epoch, (upto - 1) as nat);
        if is_active(registry[upto - 1], epoch) {
            let last = (upto - 1) as u64;
            assert(all == before.push(last));
            assert(all[before.len() as int] == last);
            assert forall|position: int|
                0 <= position < upto && is_active(#[trigger] registry[position], epoch)
                implies all.contains(position as u64) by {
                if position < upto - 1 {
                    let i = choose|i: int| 0 <= i < before.len() && before[i] == position as u64;
                    assert(all[i] == position as u64);
                } else {
                    assert(all[before.len() as int] == position as u64);
                }
            }
        } else {
            assert(all == before);
        }
    }
}

/// The backend that executes blocks and reads states. It holds the profile under which
/// the engine runs, which is set once and never changes; beyond that every call stands
/// alone.
pub struct Executor {
    profile: NoVerificationConfig,
}

impl Executor {
    /// The profile under which this executor runs the engine.
    pub closed spec fn profile(&self) -> NoVerificationConfig {
        self.profile
    }

    /// An executor under the profile of the full network, in which signatures and
    /// proofs pass unchecked.
    pub fn new() -> (executor: Executor)
        ensures
            engine::is_full_profile(executor.profile()),
    {
        Executor { profile: engine::full_profile() }
    }

    /// What `execute_block` leaves in the state and answers, for a block and the state
    /// it is run on; `None` where the engine does not complete the transition.
    pub open spec fn spec_execute_block(&self, block: Block, state: BeaconState) -> Option<
        (BeaconState, Result<(), Error>),
    > {
        match engine::transition(block.0, state, self.profile(), usize::BITS as nat) {
            Some((after, verdict)) => Some((after, spec_lift(verdict))),
            None => None,
        }
    }

    /// The identifier that `state` holds for the block at its justified checkpoint.
    pub open spec fn spec_justified_block_id(state: BeaconState) -> Seq<u8> {
        engine::justified_root(state)
    }

    /// The validators that the fork choice has to weigh in `state`.
    pub open spec fn spec_justified_active_validators(state: BeaconState) -> Seq<ValidatorIndex> {
        active_indices(
            engine::registry(state),
            engine::justified_epoch(state),
            engine::registry(state).len(),
        )
    }

    /// Applies `block` to the state behind `state`, which afterwards is the state that
    /// the engine left: the state after the block where the answer is `Ok`, and of no
    /// use where it is `Err`.
    pub fn execute_block<E: StateExternalities + ?Sized>(&self, block: &Block, state: &mut E) -> (answer: Result<(), Error>)
        requires
            self.spec_execute_block(*block, old(state).chain_state()) is Some,
        ensures
            self.spec_execute_block(*block, old(state).chain_state()) == Some(
                (final(state).chain_state(), answer),
            ),
    {
        let verdict = engine::run_transition(&block.0, state.state(), &self.profile);
        Error::lift(verdict)
    }

    /// The validators that may vote at the justified checkpoint of the state, by their
    /// positions in the registry, in rising order.
    pub fn justified_active_validators<E: StateExternalities + ?Sized>(&self, state: &mut E) -> (answer: Result<
        Vec<ValidatorIndex>,
        Error,
    >)
        ensures
            answer matches Ok(indices) && indices@ == Self::spec_justified_active_validators(
                old(state).chain_state(),
            ),
            final(state).chain_state() == old(state).chain_state(),
    {
        let chain = state.state();
        let epoch = engine::read_justified_epoch(chain);
        let registry = engine::read_registry(chain);
        let mut indices: Vec<ValidatorIndex> = Vec::new();
        let mut i: usize = 0;
        while i < registry.len()
            invariant
                i <= registry.len(),
                indices@ == active_indices(registry@, epoch, i as nat),
            decreases registry.len() - i,
        {
            let (activation, exit) = registry[i];
            if activation <= epoch && epoch < exit {
                indices.push(i as u64);
            }
            i += 1;
        }
        Ok(indices)
    }

    /// The identifier of the block at the justified checkpoint of the state.
    pub fn justified_block_id<E: StateExternalities + ?Sized>(&self, state: &mut E) -> (answer: Result<Identifier, Error>)
        ensures
            answer matches Ok(id) && id@ == Self::spec_justified_block_id(
                old(state).chain_state(),
            ),
            final(state).chain_state() == old(state).chain_state(),
    {
        let chain = state.state();
        Ok(engine::read_justified_root(chain))
    }
}

/// The validators that the fork choice has to weigh are the positions of the registry
/// that may vote in the justified epoch: all of them, each once, in rising order. Asking
/// again of the same state gives the same positions in the same order.
pub proof fn law_justified_validators(state: BeaconState, again: BeaconState)
    requires
        engine::registry(state).len() <= u64::MAX,
        again == state,
    ensures
        Executor::spec_justified_active_validators(again)
            == Executor::spec_justified_active_validators(state),
        strictly_rising(Executor::spec_justified_active_validators(state)),
        forall|position: u64|
            Executor::spec_justified_active_validators(state).contains(position) <==> (position
                < engine::registry(state).len() && is_active(
                #[trigger] engine::registry(state)[position as int],
                engine::justified_epoch(state),
            )),
{
    let registry = engine::registry(state);
    let epoch = engine::justified_epoch(state);
    let indices = Executor::spec_justified_active_validators(state);
    lemma_active_indices(registry, epoch, registry.len());
    assert forall|position: u64| indices.contains(position) implies position < registry.len()
        && is_active(#[trigger] registry[position as int], epoch) by {
        let i = choose|i: int| 0 <= i < indices.len() && indices[i] == position;
        assert(indices[i] == position);
    }
    assert forall|position: u64|
        position < registry.len() && is_active(#[trigger] registry[position as int], epoch)
        implies indices.contains(position) by {
        assert(is_active(registry[position as int], epoch));
        assert(indices.contains((position as int) as u64));
    }
}

/// A block is executed to one end: the state that is left and the answer that is given
/// depend on the block and the state alone, and the answer is a failure exactly if the
/// engine turned the block down, whose reason it then carries.
pub proof fn law_execution_follows_engine(executor: Executor, block: Block, state: BeaconState)
    requires
        executor.spec_execute_block(block, state) is Some,
    ensures
        engine::transition(block.0, state, executor.profile(), usize::BITS as nat) matches Some(
            (after, verdict),
        ) && executor.spec_execute_block(block, state) == Some((after, spec_lift(verdict)))
            && (spec_lift(verdict) is Ok <==> verdict is Ok)
            && (verdict matches Err(reason) ==> spec_lift(verdict) == Err::<(), Error>(
            Error::Beacon(reason),
        )),
{
}

} // verus!
