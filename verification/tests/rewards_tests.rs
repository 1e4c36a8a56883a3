use consensus_core::chain_spec::{ChainSpec, ForkName};
use consensus_core::errors::RewardError;
use consensus_core::rewards::{
    apply_all_rewards, apply_attestation_rewards, apply_proposer_reward,
    apply_sync_committee_rewards, calculate_reward_amounts, collect_attesting_validators,
    split_reward, PolicyStep, RewardAmounts, RewardConfig, RewardSink,
};
use consensus_core::state::{ChainState, Checkpoint};
use consensus_core::sync_committee::SyncAggregate;
use consensus_core::validator::Validator;

fn test_spec() -> ChainSpec {
    ChainSpec {
        far_future_epoch: u64::MAX,
        slots_per_epoch: 8,
        epochs_per_slashings_vector: 64,
        effective_balance_increment: 1_000_000_000,
        max_effective_balance: 32_000_000_000,
        max_effective_balance_electra: 2_048_000_000_000,
        min_activation_balance: 32_000_000_000,
        eth1_address_withdrawal_prefix_byte: 0x01,
        compounding_withdrawal_prefix_byte: 0x02,
        forced_electra_mode: false,
        min_slashing_penalty_quotient: 64,
        min_slashing_penalty_quotient_altair: 64,
        min_slashing_penalty_quotient_bellatrix: 32,
        min_epochs_to_inactivity_penalty: 4,
        inactivity_penalty_quotient: 33_554_432,
        base_rewards_per_epoch: 4,
        base_reward_factor: 64,
    }
}

fn state_with_validators(n: usize, slot: u64) -> ChainState {
    let validators: Vec<Validator> = (0..n)
        .map(|i| Validator {
            pubkey: i as u64 + 1,
            activation_epoch: 0,
            effective_balance: 32_000_000_000,
            ..Validator::default()
        })
        .collect();
    ChainState {
        fork: ForkName::Altair,
        slot,
        balances: vec![1_000; n],
        previous_epoch_participation: vec![0; n],
        current_epoch_participation: vec![0; n],
        validators,
        slashings: vec![0; 64],
        current_sync_committee: Vec::new(),
        previous_block_root: 0,
        current_justified_checkpoint: Checkpoint { epoch: 0, root: 0 },
        previous_justified_checkpoint: Checkpoint { epoch: 0, root: 0 },
        finalized_checkpoint: Checkpoint { epoch: 0, root: 0 },
        committees: Vec::new(),
        proposers: Vec::new(),
    }
}

#[test]
fn default_policy_has_two_regimes() {
    let config = RewardConfig::default();
    let initial = calculate_reward_amounts(0, &config);
    assert_eq!(initial.proposer_reward, 2_600_000_000);
    assert_eq!(initial.attestation_reward, 100_000);
    assert_eq!(initial.sync_committee_reward, 100_000);
    assert_eq!(calculate_reward_amounts(2, &config), initial);

    let steady = calculate_reward_amounts(3, &config);
    assert_eq!(steady.proposer_reward, 0);
    assert_eq!(steady.attestation_reward, 0);
    assert_eq!(steady.sync_committee_reward, 0);
    assert_eq!(calculate_reward_amounts(1_000_000, &config), steady);
}

#[test]
fn reward_policy_is_monotone_in_the_epoch() {
    // For the default policy, the magnitudes at epoch e + 1 never exceed
    // those at epoch e; the regime boundary is where they drop.
    let config = RewardConfig::default();
    for e in 0..10u64 {
        let here = calculate_reward_amounts(e, &config);
        let next = calculate_reward_amounts(e + 1, &config);
        assert!(next.proposer_reward <= here.proposer_reward);
        assert!(next.attestation_reward <= here.attestation_reward);
        assert!(next.sync_committee_reward <= here.sync_committee_reward);
    }
}

#[test]
fn custom_schedule_is_consulted_first_match() {
    let config = RewardConfig {
        schedule: vec![
            PolicyStep {
                last_epoch: 1,
                amounts: RewardAmounts {
                    proposer_reward: 500,
                    attestation_reward: 50,
                    sync_committee_reward: 5,
                },
            },
            PolicyStep {
                last_epoch: 9,
                amounts: RewardAmounts {
                    proposer_reward: 300,
                    attestation_reward: 30,
                    sync_committee_reward: 3,
                },
            },
        ],
        steady_amounts: RewardAmounts {
            proposer_reward: 100,
            attestation_reward: 10,
            sync_committee_reward: 1,
        },
        validator_percentage: 70,
        sinks: vec![
            RewardSink { index: 0, percentage: 20 },
            RewardSink { index: 1, percentage: 10 },
        ],
    };
    assert_eq!(calculate_reward_amounts(1, &config).proposer_reward, 500);
    assert_eq!(calculate_reward_amounts(2, &config).proposer_reward, 300);
    assert_eq!(calculate_reward_amounts(9, &config).proposer_reward, 300);
    assert_eq!(calculate_reward_amounts(10, &config).proposer_reward, 100);
}

#[test]
fn split_conserves_every_amount() {
    // The validator share plus all sink shares sum to exactly the base
    // reward, for amounts divisible by 100 and not.
    let config = RewardConfig::default();
    for amount in [0u64, 1, 99, 100, 101, 12_345, 2_600_000_000, u64::MAX] {
        let split = split_reward(amount, &config);
        let sink_total: u64 = split.sink_shares.iter().sum();
        assert_eq!(split.validator_share + sink_total, amount);
    }
}

#[test]
fn split_follows_configured_percentages() {
    let config = RewardConfig::default();
    let split = split_reward(1_000, &config);
    assert_eq!(split.sink_shares, vec![200, 100]);
    assert_eq!(split.validator_share, 700);

    // The rounding remainder stays with the rewarded validator.
    let odd = split_reward(101, &config);
    assert_eq!(odd.sink_shares, vec![20, 10]);
    assert_eq!(odd.validator_share, 71);
}

#[test]
fn proposer_reward_is_split_across_sinks() {
    let config = RewardConfig::default();
    let mut state = state_with_validators(4, 0);
    let failures = apply_proposer_reward(&mut state, 3, 1_000, &config);
    assert!(failures.is_empty());
    assert_eq!(state.balances, vec![1_200, 1_100, 1_000, 1_700]);
}

#[test]
fn proposer_reward_of_zero_is_a_no_op() {
    let config = RewardConfig::default();
    let mut state = state_with_validators(4, 0);
    let failures = apply_proposer_reward(&mut state, 3, 0, &config);
    assert!(failures.is_empty());
    assert_eq!(state.balances, vec![1_000; 4]);
}

#[test]
fn unresolvable_reward_target_is_reported_and_skipped() {
    // A sink index outside the registry is reported but does not abort the
    // remaining credits.
    let config = RewardConfig {
        schedule: Vec::new(),
        steady_amounts: RewardAmounts {
            proposer_reward: 0,
            attestation_reward: 0,
            sync_committee_reward: 0,
        },
        validator_percentage: 70,
        sinks: vec![
            RewardSink { index: 99, percentage: 20 },
            RewardSink { index: 1, percentage: 10 },
        ],
    };
    let mut state = state_with_validators(4, 0);
    let failures = apply_proposer_reward(&mut state, 0, 1_000, &config);
    assert_eq!(failures, vec![RewardError::TargetOutOfRange(99)]);
    // The proposer and the in-range sink are still credited.
    assert_eq!(state.balances, vec![1_700, 1_100, 1_000, 1_000]);
}

#[test]
fn collect_prefers_flagged_validators() {
    let spec = test_spec();
    let mut state = state_with_validators(4, 0);
    state.previous_epoch_participation[1] = 1;
    state.current_epoch_participation[3] = 4;
    let collected = collect_attesting_validators(&state, &spec);
    assert_eq!(collected, vec![1, 3]);
}

#[test]
fn collect_falls_back_to_active_validators() {
    // With no participation flag set anywhere, every validator active in
    // the current epoch is collected instead of nobody.
    let spec = test_spec();
    let mut state = state_with_validators(4, 0);
    state.validators[2].activation_epoch = 7;
    let collected = collect_attesting_validators(&state, &spec);
    assert_eq!(collected, vec![0, 1, 3]);
}

#[test]
fn attestation_rewards_aggregate_sink_shares() {
    let config = RewardConfig::default();
    let spec = test_spec();
    let mut state = state_with_validators(4, 0);
    state.previous_epoch_participation[2] = 1;
    state.current_epoch_participation[3] = 2;

    let failures = apply_attestation_rewards(&mut state, 1_000, &config, &spec);
    assert!(failures.is_empty());
    // Attesters 2 and 3 each get 700; sink 0 gets 200 * 2 and sink 1 gets
    // 100 * 2, applied once per sink.
    assert_eq!(state.balances, vec![1_400, 1_200, 1_700, 1_700]);
}

#[test]
fn sync_committee_rewards_resolve_by_pubkey() {
    let config = RewardConfig::default();
    let mut state = state_with_validators(4, 0);
    // The committee lists keys of validators 3 and 1, in that order, plus a
    // key nobody carries (skipped by the lenient economic layer).
    state.current_sync_committee = vec![4, 2, 999];
    let aggregate = SyncAggregate {
        sync_committee_bits: vec![true, true, true],
        signature_valid: true,
    };
    let failures = apply_sync_committee_rewards(&mut state, &aggregate, 1_000, &config);
    assert!(failures.is_empty());
    assert_eq!(state.balances, vec![1_400, 1_900, 1_000, 1_700]);
}

#[test]
fn all_rewards_in_one_pass() {
    let config = RewardConfig::default();
    let spec = test_spec();
    let mut state = state_with_validators(4, 0);
    state.current_epoch_participation[2] = 1;
    let custom = RewardConfig {
        schedule: vec![PolicyStep {
            last_epoch: 2,
            amounts: RewardAmounts {
                proposer_reward: 1_000,
                attestation_reward: 100,
                sync_committee_reward: 0,
            },
        }],
        ..config
    };

    let failures = apply_all_rewards(&mut state, 3, None, 0, 0, &custom, &spec);
    assert!(failures.is_empty());
    // Proposer 3: 700. Attester 2: 70. Sinks: proposer pass 200 + 100 and
    // attestation pass 20 + 10 (one attester).
    assert_eq!(state.balances, vec![1_220, 1_110, 1_070, 1_700]);
}
