use consensus_core::attestation::{Attestation, AttestationData, VerifySignatures};
use consensus_core::chain_spec::{ChainSpec, ForkName};
use consensus_core::errors::{AttestationError, BlockProcessingError, StateError};
use consensus_core::rewards::{PolicyStep, RewardAmounts, RewardConfig, RewardSink};
use consensus_core::state::{ChainState, Checkpoint, Committee, SlotProposer};
use consensus_core::sync_committee::SyncAggregate;
use consensus_core::transition::{
    process_block_operations, process_epoch, BlockBody, SlashingProof,
};
use consensus_core::validator::Validator;

fn test_spec() -> ChainSpec {
    ChainSpec {
        far_future_epoch: u64::MAX,
        slots_per_epoch: 8,
        epochs_per_slashings_vector: 64,
        effective_balance_increment: 1_000_000_000,
        max_effective_balance: 32_000_000_000,
        max_effective_balance_electra: 2_048_000_000_000,
        min_activation_balance: 32_000_000_000,
        eth1_address_withdrawal_prefix_byte: 0x01,
        compounding_withdrawal_prefix_byte: 0x02,
        forced_electra_mode: false,
        min_slashing_penalty_quotient: 64,
        min_slashing_penalty_quotient_altair: 64,
        min_slashing_penalty_quotient_bellatrix: 32,
        min_epochs_to_inactivity_penalty: 4,
        inactivity_penalty_quotient: 33_554_432,
        base_rewards_per_epoch: 4,
        base_reward_factor: 64,
    }
}

fn zero_config() -> RewardConfig {
    RewardConfig {
        schedule: Vec::new(),
        steady_amounts: RewardAmounts {
            proposer_reward: 0,
            attestation_reward: 0,
            sync_committee_reward: 0,
        },
        validator_percentage: 100,
        sinks: Vec::new(),
    }
}

/// A state in epoch 5 with a committee at slot 40 and a sync committee.
fn block_state() -> ChainState {
    let n = 6;
    let validators: Vec<Validator> = (0..n)
        .map(|i| Validator {
            pubkey: i as u64 + 1,
            activation_epoch: 0,
            effective_balance: 32_000_000_000,
            ..Validator::default()
        })
        .collect();
    ChainState {
        fork: ForkName::Altair,
        slot: 5 * 8,
        balances: vec![32_000_000_000; n],
        previous_epoch_participation: vec![0; n],
        current_epoch_participation: vec![0; n],
        validators,
        slashings: vec![0; 64],
        current_sync_committee: vec![1, 2],
        previous_block_root: 7,
        current_justified_checkpoint: Checkpoint { epoch: 4, root: 100 },
        previous_justified_checkpoint: Checkpoint { epoch: 3, root: 99 },
        finalized_checkpoint: Checkpoint { epoch: 3, root: 99 },
        committees: vec![Committee {
            slot: 40,
            index: 0,
            members: vec![5, 3],
        }],
        proposers: Vec::new(),
    }
}

fn valid_attestation() -> Attestation {
    Attestation {
        data: AttestationData {
            slot: 40,
            index: 0,
            beacon_block_root: 55,
            source: Checkpoint { epoch: 4, root: 100 },
            target: Checkpoint { epoch: 5, root: 101 },
        },
        aggregation_bits: vec![true, true],
        signature_valid: true,
    }
}

#[test]
fn block_operations_apply_everything() {
    let spec = test_spec();
    let config = zero_config();
    let mut state = block_state();
    let body = BlockBody {
        proposer_index: 0,
        attestations: vec![valid_attestation()],
        sync_aggregate: Some(SyncAggregate {
            sync_committee_bits: vec![true, false],
            signature_valid: true,
        }),
        slashing_proofs: vec![SlashingProof {
            slashed_index: 4,
            whistleblower_index: None,
        }],
    };

    let failures =
        process_block_operations(&mut state, &body, VerifySignatures::True, &spec, &config)
            .unwrap();
    assert!(failures.is_empty());
    assert!(state.validators[4].slashed);
    assert_eq!(state.balances[4], 32_000_000_000 - 500_000_000);
    assert_eq!(state.slashings[5], 32_000_000_000);
}

#[test]
fn block_operations_reject_bad_attestation() {
    let spec = test_spec();
    let config = zero_config();
    let mut state = block_state();
    let mut attestation = valid_attestation();
    attestation.data.source = Checkpoint { epoch: 6, root: 1 };
    let body = BlockBody {
        proposer_index: 0,
        attestations: vec![attestation],
        sync_aggregate: None,
        slashing_proofs: Vec::new(),
    };

    let result =
        process_block_operations(&mut state, &body, VerifySignatures::True, &spec, &config);
    assert!(matches!(
        result,
        Err(BlockProcessingError::Attestation(AttestationError::SourceEpochIncorrect { .. }))
    ));
}

#[test]
fn block_operations_reject_double_slash() {
    let spec = test_spec();
    let config = zero_config();
    let mut state = block_state();
    let body = BlockBody {
        proposer_index: 0,
        attestations: Vec::new(),
        sync_aggregate: None,
        slashing_proofs: vec![
            SlashingProof { slashed_index: 4, whistleblower_index: None },
            SlashingProof { slashed_index: 4, whistleblower_index: None },
        ],
    };

    let result =
        process_block_operations(&mut state, &body, VerifySignatures::True, &spec, &config);
    assert_eq!(
        result,
        Err(BlockProcessingError::State(StateError::ValidatorAlreadySlashed))
    );
}

#[test]
fn block_operations_apply_policy_rewards() {
    let spec = test_spec();
    let config = RewardConfig {
        schedule: vec![PolicyStep {
            last_epoch: 10,
            amounts: RewardAmounts {
                proposer_reward: 1_000,
                attestation_reward: 0,
                sync_committee_reward: 0,
            },
        }],
        steady_amounts: RewardAmounts {
            proposer_reward: 0,
            attestation_reward: 0,
            sync_committee_reward: 0,
        },
        validator_percentage: 70,
        sinks: vec![
            RewardSink { index: 0, percentage: 20 },
            RewardSink { index: 1, percentage: 10 },
        ],
    };
    let mut state = block_state();
    state.previous_epoch_participation[3] = 1;
    let body = BlockBody {
        proposer_index: 2,
        attestations: Vec::new(),
        sync_aggregate: None,
        slashing_proofs: Vec::new(),
    };

    let failures =
        process_block_operations(&mut state, &body, VerifySignatures::True, &spec, &config)
            .unwrap();
    assert!(failures.is_empty());
    assert_eq!(state.balances[2], 32_000_000_000 + 700);
    assert_eq!(state.balances[0], 32_000_000_000 + 200);
    assert_eq!(state.balances[1], 32_000_000_000 + 100);
}

#[test]
fn epoch_summary_reports_totals_and_attesters() {
    let spec = test_spec();
    let config = zero_config();
    let mut state = block_state();
    // Validator 1 voted target in the current epoch; validator 3 voted
    // target and head in the previous epoch; validator 5 is exited.
    state.current_epoch_participation[1] = 2;
    state.previous_epoch_participation[3] = 6;
    state.validators[5].exit_epoch = 4;

    let summary = process_epoch(&mut state, &spec, &config).unwrap();
    assert!(summary.reward_failures.is_empty());
    assert_eq!(summary.current_epoch_total_active_balance, 5 * 32_000_000_000);
    assert_eq!(summary.current_epoch_target_attesting_balance, 32_000_000_000);
    assert_eq!(summary.previous_epoch_target_attesting_balance, 32_000_000_000);
    assert_eq!(summary.previous_epoch_head_attesting_balance, 32_000_000_000);
    assert_eq!(summary.validators.len(), 6);
    assert!(summary.validators[1].is_current_epoch_target_attester);
    assert!(!summary.validators[1].is_previous_epoch_target_attester);
    assert!(summary.validators[3].is_previous_epoch_target_attester);
    assert!(summary.validators[3].is_previous_epoch_head_attester);
    assert!(!summary.validators[5].is_active_unslashed_in_current_epoch);
}

#[test]
fn epoch_processing_applies_policy_rewards() {
    let spec = test_spec();
    let mut state = block_state();
    state.slot = 0;
    state.proposers = vec![SlotProposer { slot: 1, validator_index: 0 }];
    let config = RewardConfig {
        schedule: vec![PolicyStep {
            last_epoch: 0,
            amounts: RewardAmounts {
                proposer_reward: 40,
                attestation_reward: 0,
                sync_committee_reward: 0,
            },
        }],
        steady_amounts: RewardAmounts {
            proposer_reward: 0,
            attestation_reward: 0,
            sync_committee_reward: 0,
        },
        validator_percentage: 100,
        sinks: Vec::new(),
    };

    let summary = process_epoch(&mut state, &spec, &config).unwrap();
    assert!(summary.reward_failures.is_empty());
    assert_eq!(state.balances[0], 32_000_000_000 + 40);
}
