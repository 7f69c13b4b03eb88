//! The state-transition engine, as far as this crate relies on it.
//!
//! Blocks, states and failures of the engine are opaque here. What the crate reads out
//! of them has a name below, and each name is tied to the engine by one function whose
//! contract is taken on trust.

use vstd::prelude::*;
use beacon::{BeaconBlock, BeaconState, NoVerificationConfig};
use beacon::Error as BeaconError;

verus! {

/// A block as the engine defines it: slot, parent reference, state root, body and
/// signature.
#[verifier::external_type_specification]
#[verifier::external_body]
pub struct ExBeaconBlock(BeaconBlock);

/// The whole chain state of the engine.
#[verifier::external_type_specification]
#[verifier::external_body]
pub struct ExBeaconState(BeaconState);

/// The reason for which the engine turned a block down.
#[verifier::external_type_specification]
#[verifier::external_body]
pub struct ExBeaconError(BeaconError);

/// A profile of the engine: the parameters of a network, and no check of any signature
/// or proof.
#[verifier::external_type_specification]
#[verifier::external_body]
pub struct ExNoVerificationConfig(NoVerificationConfig);

/// The parent reference that a block carries, as thirty-two bytes.
pub uninterp spec fn parent_reference(block: BeaconBlock) -> Seq<u8>;

/// The root of a block: the tree hash, by Keccak-256, over its slot, parent reference,
/// state root, body and signature.
pub uninterp spec fn block_root(block: BeaconBlock) -> Seq<u8>;

/// The root that a state holds as its current justified checkpoint.
pub uninterp spec fn justified_root(state: BeaconState) -> Seq<u8>;

/// The epoch of the current justified checkpoint of a state.
pub uninterp spec fn justified_epoch(state: BeaconState) -> u64;

/// The validator registry of a state, in registry order: for each validator the epoch
/// of its activation and the epoch of its exit.
pub uninterp spec fn registry(state: BeaconState) -> Seq<(u64, u64)>;

/// Whether `profile` is the profile of the full network.
pub uninterp spec fn is_full_profile(profile: NoVerificationConfig) -> bool;

/// What the engine makes of `block` on `state` under `profile`, on a machine with words
/// of `word_bits` bits: the state it leaves behind and its verdict. `None` where the
/// engine cannot be relied on to come back with either. It indexes its tables by numbers
/// that block and state carry and stops where one falls outside; it adds balances
/// unchecked, which stops a build that checks for overflow; and it walks from the slot
/// of the state to the slot of the block one slot at a time.
pub uninterp spec fn transition(
    block: BeaconBlock,
    state: BeaconState,
    profile: NoVerificationConfig,
    word_bits: nat,
) -> Option<(BeaconState, Result<(), BeaconError>)>;

/// The text with which a failure of the engine describes itself to a developer.
pub uninterp spec fn failure_text(error: BeaconError) -> Seq<char>;

/// `Clone` of `BeaconBlock` is derived, as it is for every type below it: the copy equals
/// the block it was made of.
pub assume_specification[ <BeaconBlock as Clone>::clone ](block: &BeaconBlock) -> (copy: BeaconBlock)
    ensures
        copy == *block,
;

/// `Clone` of `BeaconState` is derived, as it is for every type below it: the copy equals
/// the state it was made of.
pub assume_specification[ <BeaconState as Clone>::clone ](state: &BeaconState) -> (copy: BeaconState)
    ensures
        copy == *state,
;

/// Reads the field `previous_block_root` of `block` and hands its bytes out unchanged.
#[verifier::external_body]
pub(crate) fn read_parent_reference(block: &BeaconBlock) -> (bytes: [u8; 32])
    ensures
        bytes@ == parent_reference(*block),
{
    block.previous_block_root.to_fixed_bytes()
}

/// Calls `ssz::Hashable::hash` on `block` with `KeccakHasher`, the hasher of the engine.
/// The call reads the block alone, and on every block it comes back with a root.
#[verifier::external_body]
pub(crate) fn hash_block(block: &BeaconBlock) -> (root: [u8; 32])
    ensures
        root@ == block_root(*block),
{
    ssz::Hashable::hash::<beacon::KeccakHasher>(block).to_fixed_bytes()
}

/// Reads the field `current_justified_root` of `state` and hands its bytes out unchanged.
#[verifier::external_body]
pub(crate) fn read_justified_root(state: &BeaconState) -> (bytes: [u8; 32])
    ensures
        bytes@ == justified_root(*state),
{
    state.current_justified_root.to_fixed_bytes()
}

/// Reads the field `current_justified_epoch` of `state`.
#[verifier::external_body]
pub(crate) fn read_justified_epoch(state: &BeaconState) -> (epoch: u64)
    ensures
        epoch == justified_epoch(*state),
{
    state.current_justified_epoch
}

/// Walks the field `validator_registry` of `state` from front to back and hands out, for
/// each validator, its fields `activation_epoch` and `exit_epoch`.
#[verifier::external_body]
pub(crate) fn read_registry(state: &BeaconState) -> (epochs: Vec<(u64, u64)>)
    ensures
        epochs@ == registry(*state),
{
    state.validator_registry.iter().map(|v| (v.activation_epoch, v.exit_epoch)).collect()
}

/// Formats `error` with its `Debug` impl, which the engine derives: the text depends on
/// the failure alone.
#[verifier::external_body]
pub(crate) fn format_failure(error: &BeaconError) -> (text: String)
    ensures
        text@ == failure_text(*error),
{
    format!("{:?}", error)
}

/// Calls `NoVerificationConfig::full()`, which gives the profile of the full network.
#[verifier::external_body]
pub(crate) fn full_profile() -> (profile: NoVerificationConfig)
    ensures
        is_full_profile(profile),
{
    NoVerificationConfig::full()
}

/// Calls `beacon::execute_block`. The engine reads nothing but its three arguments, so
/// its verdict and the state it leaves are fixed by them and by the width of a machine
/// word, by which its shuffling cuts hashes. Inputs on which the engine does not come
/// back are left out.
#[verifier::external_body]
pub(crate) fn run_transition(
    block: &BeaconBlock,
    state: &mut BeaconState,
    profile: &NoVerificationConfig,
) -> (verdict: Result<(), BeaconError>)
    requires
        transition(*block, *old(state), *profile, usize::BITS as nat) is Some,
    ensures
        transition(*block, *old(state), *profile, usize::BITS as nat) == Some(
            (*final(state), verdict),
        ),
{
    beacon::execute_block(block, state, profile)
}

} // verus!
