use consensus_core::chain_spec::{ChainSpec, ForkName};
use consensus_core::errors::{BlockProcessingError, StateError};
use consensus_core::slashing::slash_validator;
use consensus_core::state::{ChainState, Checkpoint};
use consensus_core::validator::Validator;

fn test_spec() -> ChainSpec {
    ChainSpec {
        far_future_epoch: u64::MAX,
        slots_per_epoch: 8,
        epochs_per_slashings_vector: 64,
        effective_balance_increment: 1_000_000_000,
        max_effective_balance: 32_000_000_000,
        max_effective_balance_electra: 2_048_000_000_000,
        min_activation_balance: 32_000_000_000,
        eth1_address_withdrawal_prefix_byte: 0x01,
        compounding_withdrawal_prefix_byte: 0x02,
        forced_electra_mode: false,
        min_slashing_penalty_quotient: 64,
        min_slashing_penalty_quotient_altair: 64,
        min_slashing_penalty_quotient_bellatrix: 32,
        min_epochs_to_inactivity_penalty: 4,
        inactivity_penalty_quotient: 33_554_432,
        base_rewards_per_epoch: 4,
        base_reward_factor: 64,
    }
}

fn active_validator(pubkey: u64, effective_balance: u64) -> Validator {
    Validator {
        pubkey,
        effective_balance,
        activation_epoch: 0,
        ..Validator::default()
    }
}

fn state_with_validators(n: usize, slot: u64) -> ChainState {
    let validators: Vec<Validator> = (0..n)
        .map(|i| active_validator(i as u64 + 1, 32_000_000_000))
        .collect();
    ChainState {
        fork: ForkName::Base,
        slot,
        balances: vec![32_000_000_000; n],
        previous_epoch_participation: vec![0; n],
        current_epoch_participation: vec![0; n],
        validators,
        slashings: vec![0; 64],
        current_sync_committee: Vec::new(),
        previous_block_root: 0,
        current_justified_checkpoint: Checkpoint { epoch: 0, root: 0 },
        previous_justified_checkpoint: Checkpoint { epoch: 0, root: 0 },
        finalized_checkpoint: Checkpoint { epoch: 0, root: 0 },
        committees: Vec::new(),
        proposers: Vec::new(),
    }
}

#[test]
fn slashing_applies_full_penalty() {
    // A validator with a 32-native-unit effective balance slashed under a
    // quotient of 64 loses exactly 500_000_000, and its withdrawable epoch
    // reaches at least current_epoch + slashings_vector_length + 1.
    let spec = test_spec();
    let mut state = state_with_validators(4, 3 * spec.slots_per_epoch);
    let current_epoch = 3;

    let result = slash_validator(&mut state, 2, None, &spec);
    assert!(result.is_ok());

    assert_eq!(state.balances[2], 32_000_000_000 - 500_000_000);
    assert!(state.validators[2].slashed);
    assert!(
        state.validators[2].withdrawable_epoch
            >= current_epoch + spec.epochs_per_slashings_vector + 1
    );
    // The slashed effective balance lands in the current epoch's bucket.
    assert_eq!(state.slashings[(current_epoch % 64) as usize], 32_000_000_000);
    // Nobody else is touched.
    assert_eq!(state.balances[0], 32_000_000_000);
    assert!(!state.validators[0].slashed);
}

#[test]
fn slashing_is_idempotent() {
    // The second slashing of the same validator returns an error, and the
    // rejected call changes neither the slashed flag nor the withdrawable
    // epoch nor anything else.
    let spec = test_spec();
    let mut state = state_with_validators(4, 16);

    slash_validator(&mut state, 1, None, &spec).unwrap();
    let flag_after_first = state.validators[1].slashed;
    let withdrawable_after_first = state.validators[1].withdrawable_epoch;
    let balance_after_first = state.balances[1];
    let bucket_after_first = state.slashings.clone();

    let second = slash_validator(&mut state, 1, Some(0), &spec);
    assert_eq!(
        second,
        Err(BlockProcessingError::State(StateError::ValidatorAlreadySlashed))
    );
    assert_eq!(state.validators[1].slashed, flag_after_first);
    assert_eq!(state.validators[1].withdrawable_epoch, withdrawable_after_first);
    assert_eq!(state.balances[1], balance_after_first);
    assert_eq!(state.slashings, bucket_after_first);
}

#[test]
fn slashing_unknown_validator_is_rejected() {
    let spec = test_spec();
    let mut state = state_with_validators(2, 0);
    let before = state.balances.clone();

    let result = slash_validator(&mut state, 9, None, &spec);
    assert_eq!(
        result,
        Err(BlockProcessingError::State(StateError::UnknownValidator(9)))
    );
    assert_eq!(state.balances, before);
    assert!(!state.validators[0].slashed && !state.validators[1].slashed);
}

#[test]
fn slashing_extends_but_never_shortens_withdrawable_epoch() {
    let spec = test_spec();
    let mut state = state_with_validators(2, 0);
    // A withdrawable epoch already far in the future is kept as it is.
    state.validators[0].withdrawable_epoch = 10_000;
    slash_validator(&mut state, 0, None, &spec).unwrap();
    assert_eq!(state.validators[0].withdrawable_epoch, 10_000);

    // A near withdrawable epoch is raised to the end of the ring buffer.
    state.validators[1].withdrawable_epoch = 3;
    slash_validator(&mut state, 1, None, &spec).unwrap();
    assert_eq!(state.validators[1].withdrawable_epoch, 65);
}

#[test]
fn slashing_penalty_saturates_at_zero() {
    // A penalty larger than the remaining balance clamps it to zero.
    let spec = test_spec();
    let mut state = state_with_validators(1, 0);
    state.balances[0] = 100_000_000;
    slash_validator(&mut state, 0, None, &spec).unwrap();
    assert_eq!(state.balances[0], 0);
}

#[test]
fn slashing_uses_fork_quotient() {
    // From the merge fork on the penalty quotient halves, doubling the
    // penalty.
    let spec = test_spec();
    let mut state = state_with_validators(1, 0);
    state.fork = ForkName::Bellatrix;
    slash_validator(&mut state, 0, None, &spec).unwrap();
    assert_eq!(state.balances[0], 32_000_000_000 - 1_000_000_000);
}
