use consensus_core::chain_spec::{ChainSpec, ForkName};
use consensus_core::epoch_rewards::{
    get_attestation_component_delta, get_attestation_deltas_all, get_attestation_deltas_subset,
    get_base_reward, get_inactivity_penalty_delta, get_inclusion_delay_delta, get_proposer_reward,
    process_rewards_and_penalties, AttestationDelta, Delta, InclusionInfo,
    ProposerRewardCalculation, SqrtTotalActiveBalance, TotalBalances, ValidatorStatus,
    ValidatorStatuses,
};
use consensus_core::errors::EpochProcessingError;
use consensus_core::math::{
    integer_sqrt, safe_add, safe_sub, saturating_add, saturating_sub, ArithError,
};
use consensus_core::rewards::{PolicyStep, RewardAmounts, RewardConfig};
use consensus_core::state::{ChainState, Checkpoint, SlotProposer};
use consensus_core::validator::Validator;

fn test_spec() -> ChainSpec {
    ChainSpec {
        far_future_epoch: u64::MAX,
        slots_per_epoch: 8,
        epochs_per_slashings_vector: 64,
        effective_balance_increment: 1_000_000_000,
        max_effective_balance: 32_000_000_000,
        max_effective_balance_electra: 2_048_000_000_000,
        min_activation_balance: 32_000_000_000,
        eth1_address_withdrawal_prefix_byte: 0x01,
        compounding_withdrawal_prefix_byte: 0x02,
        forced_electra_mode: false,
        min_slashing_penalty_quotient: 64,
        min_slashing_penalty_quotient_altair: 64,
        min_slashing_penalty_quotient_bellatrix: 32,
        min_epochs_to_inactivity_penalty: 4,
        inactivity_penalty_quotient: 33_554_432,
        base_rewards_per_epoch: 4,
        base_reward_factor: 64,
    }
}

fn total_balances() -> TotalBalances {
    TotalBalances {
        current_epoch: 16_000_000_000_000,
        previous_epoch_attesters: 32_000_000_000,
        previous_epoch_target_attesters: 32_000_000_000,
        previous_epoch_head_attesters: 32_000_000_000,
    }
}

fn attester_status() -> ValidatorStatus {
    ValidatorStatus {
        is_eligible: true,
        is_slashed: false,
        is_previous_epoch_attester: true,
        is_previous_epoch_target_attester: true,
        is_previous_epoch_head_attester: true,
        current_epoch_effective_balance: 32_000_000_000,
        inclusion_info: Some(InclusionInfo { delay: 1, proposer_index: 1 }),
    }
}

fn idle_status() -> ValidatorStatus {
    ValidatorStatus {
        is_eligible: true,
        is_slashed: false,
        is_previous_epoch_attester: false,
        is_previous_epoch_target_attester: false,
        is_previous_epoch_head_attester: false,
        current_epoch_effective_balance: 32_000_000_000,
        inclusion_info: None,
    }
}

fn delta_state(n: usize) -> ChainState {
    let validators: Vec<Validator> = (0..n)
        .map(|i| Validator {
            pubkey: i as u64 + 1,
            activation_epoch: 0,
            effective_balance: 32_000_000_000,
            ..Validator::default()
        })
        .collect();
    ChainState {
        fork: ForkName::Base,
        slot: 5 * 8,
        balances: vec![1_000; n],
        previous_epoch_participation: vec![0; n],
        current_epoch_participation: vec![0; n],
        validators,
        slashings: vec![0; 64],
        current_sync_committee: Vec::new(),
        previous_block_root: 0,
        current_justified_checkpoint: Checkpoint { epoch: 4, root: 1 },
        previous_justified_checkpoint: Checkpoint { epoch: 3, root: 1 },
        finalized_checkpoint: Checkpoint { epoch: 4, root: 1 },
        committees: Vec::new(),
        proposers: Vec::new(),
    }
}

#[test]
fn base_reward_formula() {
    // 32e9 * 64 / sqrt(16e12) / 4 == 128_000.
    let spec = test_spec();
    let sqrt = SqrtTotalActiveBalance::new(16_000_000_000_000);
    assert_eq!(sqrt.as_u64(), 4_000_000);
    assert_eq!(get_base_reward(32_000_000_000, sqrt, &spec), Ok(128_000));
}

#[test]
fn proposer_reward_is_fixed_at_zero() {
    let spec = test_spec();
    assert_eq!(get_proposer_reward(128_000, &spec), Ok(0));
}

#[test]
fn component_delta_values() {
    let spec = test_spec();
    let tb = total_balances();

    // A member of the attesting set under short finality delay earns a
    // stake-proportional reward: 128000 * 32 / 16000 == 256.
    let in_set =
        get_attestation_component_delta(true, 32_000_000_000, &tb, 128_000, 0, &spec).unwrap();
    assert_eq!(in_set, Delta { rewards: 256, penalties: 0 });

    // Under a long finality delay the full base reward is compensated.
    let delayed =
        get_attestation_component_delta(true, 32_000_000_000, &tb, 128_000, 5, &spec).unwrap();
    assert_eq!(delayed, Delta { rewards: 128_000, penalties: 0 });

    // A non-member forfeits the full base reward.
    let out =
        get_attestation_component_delta(false, 32_000_000_000, &tb, 128_000, 0, &spec).unwrap();
    assert_eq!(out, Delta { rewards: 0, penalties: 128_000 });
}

#[test]
fn inclusion_delay_delta_shrinks_with_delay() {
    let spec = test_spec();
    let status = attester_status();
    let (delta, proposer) = get_inclusion_delay_delta(&status, 128_000, &spec).unwrap();
    assert_eq!(delta, Delta { rewards: 128_000, penalties: 0 });
    assert_eq!(proposer, Some((1, Delta { rewards: 0, penalties: 0 })));

    let slow = ValidatorStatus {
        inclusion_info: Some(InclusionInfo { delay: 4, proposer_index: 1 }),
        ..status
    };
    let (slow_delta, _) = get_inclusion_delay_delta(&slow, 128_000, &spec).unwrap();
    assert_eq!(slow_delta, Delta { rewards: 32_000, penalties: 0 });

    let (none_delta, none_proposer) =
        get_inclusion_delay_delta(&idle_status(), 128_000, &spec).unwrap();
    assert_eq!(none_delta, Delta { rewards: 0, penalties: 0 });
    assert_eq!(none_proposer, None);
}

#[test]
fn inactivity_penalty_values() {
    let spec = test_spec();

    // No penalty while finality is quick.
    let quick = get_inactivity_penalty_delta(&idle_status(), 128_000, 0, &spec).unwrap();
    assert_eq!(quick, Delta { rewards: 0, penalties: 0 });

    // Under a long delay an optimal attester forfeits its base rewards.
    let optimal = get_inactivity_penalty_delta(&attester_status(), 128_000, 5, &spec).unwrap();
    assert_eq!(optimal, Delta { rewards: 0, penalties: 512_000 });

    // A missing target vote is penalized extra in proportion to stake and
    // delay: 32e9 * 5 / 33_554_432 == 4768.
    let idle = get_inactivity_penalty_delta(&idle_status(), 128_000, 5, &spec).unwrap();
    assert_eq!(idle, Delta { rewards: 0, penalties: 512_000 + 4_768 });
}

#[test]
fn flatten_combines_all_components() {
    let d = AttestationDelta {
        source_delta: Delta { rewards: 256, penalties: 0 },
        target_delta: Delta { rewards: 256, penalties: 0 },
        head_delta: Delta { rewards: 256, penalties: 10 },
        inclusion_delay_delta: Delta { rewards: 128_000, penalties: 0 },
        inactivity_penalty_delta: Delta { rewards: 0, penalties: 20 },
    };
    assert_eq!(d.flatten(), Ok(Delta { rewards: 128_768, penalties: 30 }));
}

#[test]
fn attestation_deltas_for_all_validators() {
    let spec = test_spec();
    let state = delta_state(2);
    let statuses = ValidatorStatuses {
        statuses: vec![attester_status(), idle_status()],
        total_balances: total_balances(),
    };

    let deltas =
        get_attestation_deltas_all(&state, &statuses, ProposerRewardCalculation::Include, &spec)
            .unwrap();
    assert_eq!(deltas.len(), 2);
    assert_eq!(
        deltas[0].flatten(),
        Ok(Delta { rewards: 256 * 3 + 128_000, penalties: 0 })
    );
    assert_eq!(deltas[1].flatten(), Ok(Delta { rewards: 0, penalties: 3 * 128_000 }));
}

#[test]
fn attestation_deltas_for_a_subset() {
    let spec = test_spec();
    let state = delta_state(2);
    let statuses = ValidatorStatuses {
        statuses: vec![attester_status(), idle_status()],
        total_balances: total_balances(),
    };

    let pairs = get_attestation_deltas_subset(
        &state,
        &statuses,
        ProposerRewardCalculation::Include,
        &vec![1],
        &spec,
    )
    .unwrap();
    assert_eq!(pairs.len(), 1);
    assert_eq!(pairs[0].0, 1);
    assert_eq!(pairs[0].1.flatten(), Ok(Delta { rewards: 0, penalties: 3 * 128_000 }));
}

#[test]
fn arithmetic_helpers_saturate_and_check() {
    assert_eq!(safe_add(u64::MAX, 1), Err(ArithError::Overflow));
    assert_eq!(safe_add(1, 2), Ok(3));
    assert_eq!(safe_sub(1, 2), Err(ArithError::Overflow));
    assert_eq!(saturating_add(u64::MAX - 1, 5), u64::MAX);
    assert_eq!(saturating_sub(3, 5), 0);
    assert_eq!(integer_sqrt(0), 0);
    assert_eq!(integer_sqrt(15), 3);
    assert_eq!(integer_sqrt(16), 4);
    assert_eq!(integer_sqrt(u64::MAX), 4_294_967_295);
}

#[test]
fn base_reward_requires_active_stake() {
    // An empty chain has a zero total active balance, whose square root of
    // zero makes the base reward a division by zero: fatal, never
    // truncated.
    let spec = test_spec();
    let sqrt = SqrtTotalActiveBalance::new(0);
    assert_eq!(
        get_base_reward(32_000_000_000, sqrt, &spec),
        Err(EpochProcessingError::Arith(ArithError::DivisionByZero))
    );
}

#[test]
fn delta_overflow_is_an_error() {
    let d = AttestationDelta {
        source_delta: Delta { rewards: u64::MAX, penalties: 0 },
        target_delta: Delta { rewards: 1, penalties: 0 },
        head_delta: Delta { rewards: 0, penalties: 0 },
        inclusion_delay_delta: Delta { rewards: 0, penalties: 0 },
        inactivity_penalty_delta: Delta { rewards: 0, penalties: 0 },
    };
    assert_eq!(
        d.flatten(),
        Err(EpochProcessingError::Arith(ArithError::Overflow))
    );
}

#[test]
fn deltas_reject_finalized_checkpoint_past_previous_epoch() {
    let spec = test_spec();
    let mut state = delta_state(2);
    state.finalized_checkpoint.epoch = 9;
    let statuses = ValidatorStatuses {
        statuses: vec![attester_status()],
        total_balances: total_balances(),
    };
    let result =
        get_attestation_deltas_all(&state, &statuses, ProposerRewardCalculation::Exclude, &spec);
    assert_eq!(
        result,
        Err(EpochProcessingError::Arith(ArithError::Overflow))
    );
}

#[test]
fn epoch_rewards_fall_back_to_active_validators() {
    // Processing an epoch with an empty participation-flags sequence for
    // all validators credits every active validator, not zero validators.
    let spec = test_spec();
    let mut state = delta_state(4);
    state.slot = 0;
    state.validators[2].activation_epoch = 7;
    let statuses = ValidatorStatuses {
        statuses: Vec::new(),
        total_balances: total_balances(),
    };
    let config = RewardConfig {
        schedule: vec![PolicyStep {
            last_epoch: 2,
            amounts: RewardAmounts {
                proposer_reward: 0,
                attestation_reward: 7,
                sync_committee_reward: 0,
            },
        }],
        steady_amounts: RewardAmounts {
            proposer_reward: 0,
            attestation_reward: 0,
            sync_committee_reward: 0,
        },
        validator_percentage: 100,
        sinks: Vec::new(),
    };

    let failures = process_rewards_and_penalties(&mut state, &statuses, &spec, &config);
    assert!(failures.is_empty());
    assert_eq!(state.balances, vec![1_007, 1_007, 1_000, 1_007]);
}

#[test]
fn epoch_rewards_credit_proposers_per_slot() {
    let spec = test_spec();
    let mut state = delta_state(4);
    state.slot = 0;
    // Proposers resolved for three of the eight slots of epoch 0.
    state.proposers = vec![
        SlotProposer { slot: 0, validator_index: 1 },
        SlotProposer { slot: 3, validator_index: 1 },
        SlotProposer { slot: 7, validator_index: 2 },
    ];
    // Mark participation so the attestation pass touches only validator 0.
    state.current_epoch_participation[0] = 1;
    let statuses = ValidatorStatuses {
        statuses: Vec::new(),
        total_balances: total_balances(),
    };
    let config = RewardConfig {
        schedule: vec![PolicyStep {
            last_epoch: 2,
            amounts: RewardAmounts {
                proposer_reward: 50,
                attestation_reward: 3,
                sync_committee_reward: 0,
            },
        }],
        steady_amounts: RewardAmounts {
            proposer_reward: 0,
            attestation_reward: 0,
            sync_committee_reward: 0,
        },
        validator_percentage: 100,
        sinks: Vec::new(),
    };

    let failures = process_rewards_and_penalties(&mut state, &statuses, &spec, &config);
    assert!(failures.is_empty());
    // Validator 1 proposed twice, validator 2 once; slots without a
    // resolved proposer are skipped, not fatal.
    assert_eq!(state.balances, vec![1_003, 1_100, 1_050, 1_000]);
}

#[test]
fn epoch_rewards_credit_all_sync_committee_members() {
    let spec = test_spec();
    let mut state = delta_state(4);
    state.slot = 0;
    state.fork = ForkName::Altair;
    state.current_sync_committee = vec![2, 4, 999];
    state.current_epoch_participation[3] = 1;
    let statuses = ValidatorStatuses {
        statuses: Vec::new(),
        total_balances: total_balances(),
    };
    let config = RewardConfig {
        schedule: vec![PolicyStep {
            last_epoch: 2,
            amounts: RewardAmounts {
                proposer_reward: 0,
                attestation_reward: 0,
                sync_committee_reward: 11,
            },
        }],
        steady_amounts: RewardAmounts {
            proposer_reward: 0,
            attestation_reward: 0,
            sync_committee_reward: 0,
        },
        validator_percentage: 100,
        sinks: Vec::new(),
    };

    let failures = process_rewards_and_penalties(&mut state, &statuses, &spec, &config);
    assert!(failures.is_empty());
    // Committee keys 2 and 4 resolve to validators 1 and 3; the unknown
    // key is skipped.
    assert_eq!(state.balances, vec![1_000, 1_011, 1_000, 1_011]);
}
