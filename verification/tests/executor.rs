use beacon::{
    genesis_state, BeaconBlock, BeaconBlockBody, BeaconState, Config, Error as BeaconError,
    Eth1Data, Executive, KeccakHasher, NoVerificationConfig, Signature, Validator, ValidatorId,
    H256,
};
use beacon_executor::block::Block;
use beacon_executor::error::Error;
use beacon_executor::executor::Executor;
use beacon_executor::state::{State, StateExternalities};
use ssz::Hashable;

fn validator(activation_epoch: u64, exit_epoch: u64) -> Validator {
    Validator {
        pubkey: ValidatorId::default(),
        withdrawal_credentials: H256::default(),
        activation_epoch,
        exit_epoch,
        withdrawable_epoch: u64::max_value(),
        initiated_exit: false,
        slashed: false,
    }
}

fn chain_state(validators: usize, genesis_time: u64) -> BeaconState {
    let config = NoVerificationConfig::full();
    let mut state = genesis_state(Vec::new(), genesis_time, Eth1Data::empty(), &config).unwrap();
    for _ in 0..validators {
        state.validator_registry.push(validator(config.genesis_epoch(), config.far_future_epoch()));
        state.validator_balances.push(config.max_deposit_amount());
    }
    state
}

fn genesis_block(state: &BeaconState) -> BeaconBlock {
    BeaconBlock {
        slot: state.slot,
        previous_block_root: H256::default(),
        state_root: state.hash::<KeccakHasher>(),
        body: BeaconBlockBody::empty(),
        signature: Signature::default(),
    }
}

fn linked_root(state: &BeaconState) -> H256 {
    let config = NoVerificationConfig::full();
    let mut probe = state.clone();
    Executive::new(&mut probe, &config).update_cache();
    probe.latest_block_header.truncated_hash::<KeccakHasher>()
}

fn next_block(state: &BeaconState) -> BeaconBlock {
    BeaconBlock {
        slot: state.slot + 1,
        previous_block_root: linked_root(state),
        state_root: H256::default(),
        body: BeaconBlockBody::empty(),
        signature: Signature::default(),
    }
}

#[test]
fn genesis_block_executes_on_genesis_state() {
    let genesis = chain_state(64, 0);
    let block = Block(genesis_block(&genesis));
    let mut state = State::from(genesis.clone());
    assert!(matches!(Executor::new().execute_block(&block, &mut state), Ok(())));
    assert!(*state.state() == genesis);
    assert_eq!(block.parent_id(), None);
}

#[test]
fn block_on_its_parent_state_is_applied_in_place() {
    let genesis = chain_state(64, 0);
    let block = Block(next_block(&genesis));
    let mut state = State::from(genesis.clone());
    assert!(matches!(Executor::new().execute_block(&block, &mut state), Ok(())));
    let after: BeaconState = state.into();
    assert_eq!(after.slot, genesis.slot + 1);
    assert_eq!(after.latest_block_header.slot, block.0.slot);
    assert_eq!(after.latest_block_header.previous_block_root, block.0.previous_block_root);
    assert_eq!(after.eth1_data_votes.len(), 1);
    assert!(after.validator_registry == genesis.validator_registry);
}

#[test]
fn execution_is_the_engine_under_the_full_profile() {
    let genesis = chain_state(64, 5);
    let block = next_block(&genesis);
    let mut expected = genesis.clone();
    beacon::execute_block(&block, &mut expected, &NoVerificationConfig::full()).unwrap();
    let mut state = State::from(genesis);
    assert!(matches!(Executor::new().execute_block(&Block(block), &mut state), Ok(())));
    assert!(*state.state() == expected);
}

#[test]
fn same_block_on_equal_states_ends_the_same() {
    let genesis = chain_state(64, 0);
    let block = Block(next_block(&genesis));
    let mut first = State::from(genesis.clone());
    let mut second = State::from(genesis);
    assert!(matches!(Executor::new().execute_block(&block, &mut first), Ok(())));
    assert!(matches!(Executor::new().execute_block(&block, &mut second), Ok(())));
    assert!(*first.state() == *second.state());
}

#[test]
fn block_on_the_wrong_parent_state_is_rejected() {
    let parent = chain_state(64, 0);
    let stranger = chain_state(64, 1);
    let block = Block(next_block(&parent));

    let mut control = State::from(parent);
    assert!(matches!(Executor::new().execute_block(&block, &mut control), Ok(())));

    let mut wrong = State::from(stranger);
    let answer = Executor::new().execute_block(&block, &mut wrong);
    assert!(matches!(answer, Err(Error::Beacon(BeaconError::BlockPreviousRootInvalid))));
}

#[test]
fn rejected_block_leaves_other_states_alone() {
    let parent = chain_state(64, 0);
    let block = Block(next_block(&parent));
    let kept = State::from(chain_state(64, 1));
    let mut tried = kept.clone();
    let answer = Executor::new().execute_block(&block, &mut tried);
    assert!(matches!(answer, Err(Error::Beacon(BeaconError::BlockPreviousRootInvalid))));
    let kept: BeaconState = kept.into();
    assert!(kept == chain_state(64, 1));
}

#[test]
fn block_is_executed_through_any_handle() {
    let genesis = chain_state(64, 0);
    let block = Block(next_block(&genesis));
    let executor = Executor::new();
    let mut state = State::from(genesis.clone());
    {
        let handle: &mut dyn StateExternalities = state.as_externalities();
        assert!(matches!(executor.execute_block(&block, handle), Ok(())));
        assert_eq!(executor.justified_block_id(handle).unwrap(), [0u8; 32]);
    }
    assert_eq!(state.state().slot, genesis.slot + 1);
}

#[test]
fn one_executor_serves_many_calls() {
    let executor = Executor::new();
    let genesis = chain_state(64, 0);
    let mut state = State::from(genesis.clone());
    let first = Block(next_block(state.state()));
    assert!(matches!(executor.execute_block(&first, &mut state), Ok(())));
    let second = Block(next_block(state.state()));
    assert!(matches!(executor.execute_block(&second, &mut state), Ok(())));
    assert_eq!(state.state().slot, genesis.slot + 2);
    let validators = executor.justified_active_validators(&mut state).unwrap();
    assert_eq!(validators.len(), 64);
}

#[test]
fn block_with_too_many_deposits_is_rejected_with_the_cause() {
    let genesis = chain_state(64, 0);
    let mut block = next_block(&genesis);
    let deposit = beacon::Deposit {
        proof: Default::default(),
        index: 0,
        deposit_data: beacon::DepositData {
            amount: 0,
            timestamp: 0,
            deposit_input: beacon::DepositInput {
                pubkey: ValidatorId::default(),
                withdrawal_credentials: H256::default(),
                proof_of_possession: Signature::default(),
            },
        },
    };
    for _ in 0..17 {
        block.body.deposits.push(deposit.clone());
    }
    let mut state = State::from(genesis);
    let answer = Executor::new().execute_block(&Block(block), &mut state);
    assert!(matches!(answer, Err(Error::Beacon(BeaconError::TooManyDeposits))));
}

#[test]
fn chain_of_two_blocks() {
    let genesis = chain_state(64, 0);
    let first = Block(genesis_block(&genesis));
    let mut state = State::from(genesis);
    assert!(matches!(Executor::new().execute_block(&first, &mut state), Ok(())));
    assert_eq!(first.parent_id(), None);

    let second = Block(next_block(state.state()));
    assert!(second.parent_id().is_some());
    assert!(matches!(Executor::new().execute_block(&second, &mut state), Ok(())));

    let third = Block(next_block(state.state()));
    assert!(matches!(Executor::new().execute_block(&third, &mut state), Ok(())));
    assert_eq!(state.state().slot, first.0.slot + 2);

    let justified = Executor::new().justified_block_id(&mut state).unwrap();
    assert_eq!(Executor::new().justified_block_id(&mut state).unwrap(), justified);
    assert_eq!(justified, state.state().current_justified_root.to_fixed_bytes());
}

#[test]
fn justified_block_id_is_the_justified_root() {
    let mut inner = chain_state(0, 0);
    inner.current_justified_root = H256::from([7u8; 32]);
    inner.previous_justified_root = H256::from([6u8; 32]);
    inner.finalized_root = H256::from([5u8; 32]);
    let mut state = State::from(inner.clone());
    assert_eq!(Executor::new().justified_block_id(&mut state).unwrap(), [7u8; 32]);
    assert_eq!(Executor::new().justified_block_id(&mut state).unwrap(), [7u8; 32]);
    assert!(*state.state() == inner);
}

#[test]
fn justified_block_id_of_a_fresh_chain_is_the_sentinel() {
    let mut state = State::from(chain_state(0, 0));
    assert_eq!(Executor::new().justified_block_id(&mut state).unwrap(), [0u8; 32]);
}

#[test]
fn justified_active_validators_are_those_active_in_the_justified_epoch() {
    let mut inner = chain_state(0, 0);
    inner.current_justified_epoch = 10;
    inner.validator_registry = vec![
        validator(0, u64::max_value()),
        validator(10, 11),
        validator(11, u64::max_value()),
        validator(3, 10),
        validator(u64::max_value(), u64::max_value()),
        validator(9, 20),
        validator(10, 10),
    ];
    let mut state = State::from(inner.clone());
    let answer = Executor::new().justified_active_validators(&mut state).unwrap();
    assert_eq!(answer, vec![0, 1, 5]);
    assert!(*state.state() == inner);
}

#[test]
fn justified_active_validators_of_an_empty_registry() {
    let mut state = State::from(chain_state(0, 0));
    assert_eq!(Executor::new().justified_active_validators(&mut state).unwrap(), Vec::<u64>::new());
}

#[test]
fn justified_active_validators_are_the_same_on_every_call() {
    let mut state = State::from(chain_state(64, 0));
    let first = Executor::new().justified_active_validators(&mut state).unwrap();
    let second = Executor::new().justified_active_validators(&mut state).unwrap();
    assert_eq!(first, second);
    assert_eq!(first, (0..64).collect::<Vec<u64>>());
}

#[test]
fn justified_active_validators_agree_with_the_engine() {
    let mut inner = chain_state(0, 0);
    for i in 0..40u64 {
        inner.validator_registry.push(validator(i % 7, 3 + i % 5));
    }
    for epoch in 0..9u64 {
        inner.current_justified_epoch = epoch;
        let expected = inner.active_validator_indices(epoch);
        let mut state = State::from(inner.clone());
        assert_eq!(Executor::new().justified_active_validators(&mut state).unwrap(), expected);
    }
}

#[test]
fn validators_rise_strictly() {
    let mut inner = chain_state(0, 0);
    for i in 0..40u64 {
        inner.validator_registry.push(validator(i % 3, 2 + i % 4));
    }
    inner.current_justified_epoch = 2;
    let mut state = State::from(inner);
    let answer = Executor::new().justified_active_validators(&mut state).unwrap();
    assert!(!answer.is_empty());
    for pair in answer.windows(2) {
        assert!(pair[0] < pair[1]);
    }
}
