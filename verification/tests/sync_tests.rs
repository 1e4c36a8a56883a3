use consensus_core::attestation::VerifySignatures;
use consensus_core::chain_spec::{ChainSpec, ForkName};
use consensus_core::errors::SyncAggregateError;
use consensus_core::sync_committee::{
    compute_sync_aggregate_rewards, process_sync_aggregate, SyncAggregate,
};
use consensus_core::state::{ChainState, Checkpoint};
use consensus_core::validator::Validator;

fn test_spec() -> ChainSpec {
    ChainSpec {
        far_future_epoch: u64::MAX,
        slots_per_epoch: 8,
        epochs_per_slashings_vector: 64,
        effective_balance_increment: 1_000_000_000,
        max_effective_balance: 32_000_000_000,
        max_effective_balance_electra: 2_048_000_000_000,
        min_activation_balance: 32_000_000_000,
        eth1_address_withdrawal_prefix_byte: 0x01,
        compounding_withdrawal_prefix_byte: 0x02,
        forced_electra_mode: false,
        min_slashing_penalty_quotient: 64,
        min_slashing_penalty_quotient_altair: 64,
        min_slashing_penalty_quotient_bellatrix: 32,
        min_epochs_to_inactivity_penalty: 4,
        inactivity_penalty_quotient: 33_554_432,
        base_rewards_per_epoch: 4,
        base_reward_factor: 64,
    }
}

fn state_with_sync_committee() -> ChainState {
    let n = 5;
    let validators: Vec<Validator> = (0..n)
        .map(|i| Validator {
            pubkey: i as u64 + 1,
            activation_epoch: 0,
            effective_balance: 32_000_000_000,
            ..Validator::default()
        })
        .collect();
    ChainState {
        fork: ForkName::Altair,
        slot: 16,
        balances: vec![1_000; n],
        previous_epoch_participation: vec![0; n],
        current_epoch_participation: vec![0; n],
        validators,
        slashings: vec![0; 64],
        // Seats for validators 2, 4 and 1, in that committee order.
        current_sync_committee: vec![3, 5, 2],
        previous_block_root: 7,
        current_justified_checkpoint: Checkpoint { epoch: 0, root: 0 },
        previous_justified_checkpoint: Checkpoint { epoch: 0, root: 0 },
        finalized_checkpoint: Checkpoint { epoch: 0, root: 0 },
        committees: Vec::new(),
        proposers: Vec::new(),
    }
}

#[test]
fn zero_bits_verify_vacuously() {
    // A sync aggregate with no bit set must verify successfully even under
    // a negative signature verdict — the empty aggregate is vacuously
    // valid — and credit zero validators.
    let spec = test_spec();
    let state = state_with_sync_committee();
    let aggregate = SyncAggregate {
        sync_committee_bits: vec![false, false, false],
        signature_valid: false,
    };
    let participants =
        process_sync_aggregate(&state, &aggregate, 0, VerifySignatures::True, &spec).unwrap();
    assert_eq!(participants, Vec::<usize>::new());
}

#[test]
fn participants_resolve_by_committee_pubkey() {
    let spec = test_spec();
    let state = state_with_sync_committee();
    let aggregate = SyncAggregate {
        sync_committee_bits: vec![true, false, true],
        signature_valid: true,
    };
    let participants =
        process_sync_aggregate(&state, &aggregate, 0, VerifySignatures::True, &spec).unwrap();
    assert_eq!(participants, vec![2, 1]);
}

#[test]
fn invalid_signature_is_rejected_when_bits_are_set() {
    let spec = test_spec();
    let state = state_with_sync_committee();
    let aggregate = SyncAggregate {
        sync_committee_bits: vec![true, false, false],
        signature_valid: false,
    };
    let checked = process_sync_aggregate(&state, &aggregate, 0, VerifySignatures::True, &spec);
    assert_eq!(checked, Err(SyncAggregateError::SignatureInvalid));

    // With verification switched off the verdict is not consulted.
    let skipped = process_sync_aggregate(&state, &aggregate, 0, VerifySignatures::False, &spec);
    assert!(skipped.is_ok());
}

#[test]
fn pre_altair_state_is_rejected() {
    let spec = test_spec();
    let mut state = state_with_sync_committee();
    state.fork = ForkName::Base;
    let aggregate = SyncAggregate {
        sync_committee_bits: vec![false, false, false],
        signature_valid: true,
    };
    let result = process_sync_aggregate(&state, &aggregate, 0, VerifySignatures::True, &spec);
    assert_eq!(result, Err(SyncAggregateError::IncorrectStateVariant));
}

#[test]
fn bitfield_length_must_match_committee() {
    let spec = test_spec();
    let state = state_with_sync_committee();
    let aggregate = SyncAggregate {
        sync_committee_bits: vec![true, false],
        signature_valid: true,
    };
    let result = process_sync_aggregate(&state, &aggregate, 0, VerifySignatures::True, &spec);
    assert_eq!(
        result,
        Err(SyncAggregateError::BitfieldLengthMismatch { bits: 2, committee: 3 })
    );
}

#[test]
fn unknown_committee_pubkey_is_rejected() {
    let spec = test_spec();
    let mut state = state_with_sync_committee();
    state.current_sync_committee = vec![3, 999, 2];
    let aggregate = SyncAggregate {
        sync_committee_bits: vec![false, false, false],
        signature_valid: true,
    };
    let result = process_sync_aggregate(&state, &aggregate, 0, VerifySignatures::True, &spec);
    assert_eq!(result, Err(SyncAggregateError::UnknownValidatorPubkey(999)));
}

#[test]
fn sync_rewards_follow_the_default_policy() {
    let spec = test_spec();
    let mut state = state_with_sync_committee();
    // Epoch 2 lies in the initial-incentive regime.
    state.slot = 2 * spec.slots_per_epoch;
    assert_eq!(
        compute_sync_aggregate_rewards(&state, &spec),
        Ok((100_000, 2_600_000_000))
    );
    // Epoch 3 lies in the steady-state regime.
    state.slot = 3 * spec.slots_per_epoch;
    assert_eq!(compute_sync_aggregate_rewards(&state, &spec), Ok((0, 0)));
}
