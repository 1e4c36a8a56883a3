use consensus_core::chain_spec::{ChainSpec, ForkName};
use consensus_core::state::{ChainState, Checkpoint};
use consensus_core::validator::{is_compounding_withdrawal_credential, DepositData, Validator};

fn test_spec() -> ChainSpec {
    ChainSpec {
        far_future_epoch: u64::MAX,
        slots_per_epoch: 8,
        epochs_per_slashings_vector: 64,
        effective_balance_increment: 1_000_000_000,
        max_effective_balance: 32_000_000_000,
        max_effective_balance_electra: 2_048_000_000_000,
        min_activation_balance: 32_000_000_000,
        eth1_address_withdrawal_prefix_byte: 0x01,
        compounding_withdrawal_prefix_byte: 0x02,
        forced_electra_mode: false,
        min_slashing_penalty_quotient: 64,
        min_slashing_penalty_quotient_altair: 64,
        min_slashing_penalty_quotient_bellatrix: 32,
        min_epochs_to_inactivity_penalty: 4,
        inactivity_penalty_quotient: 33_554_432,
        base_rewards_per_epoch: 4,
        base_reward_factor: 64,
    }
}

fn credentials_with_prefix(prefix: u8) -> Vec<u8> {
    let mut bytes = vec![0u8; 32];
    bytes[0] = prefix;
    for (i, b) in bytes.iter_mut().enumerate().skip(12) {
        *b = i as u8;
    }
    bytes
}

#[test]
fn default() {
    let v = Validator::default();

    let epoch = 0u64;

    assert!(!v.is_active_at(epoch));
    assert!(!v.is_exited_at(epoch));
    assert!(!v.is_withdrawable_at(epoch));
    assert!(!v.slashed);
}

#[test]
fn is_active_at() {
    let epoch = 10u64;

    let v = Validator {
        activation_epoch: epoch,
        ..Validator::default()
    };

    assert!(!v.is_active_at(epoch - 1));
    assert!(v.is_active_at(epoch));
    assert!(v.is_active_at(epoch + 1));
}

#[test]
fn is_exited_at() {
    let epoch = 10u64;

    let v = Validator {
        exit_epoch: epoch,
        ..Validator::default()
    };

    assert!(!v.is_exited_at(epoch - 1));
    assert!(v.is_exited_at(epoch));
    assert!(v.is_exited_at(epoch + 1));
}

#[test]
fn is_withdrawable_at() {
    let epoch = 10u64;

    let v = Validator {
        withdrawable_epoch: epoch,
        ..Validator::default()
    };

    assert!(!v.is_withdrawable_at(epoch - 1));
    assert!(v.is_withdrawable_at(epoch));
    assert!(v.is_withdrawable_at(epoch + 1));
}

#[test]
fn is_slashable_window() {
    let v = Validator {
        activation_epoch: 5,
        withdrawable_epoch: 20,
        ..Validator::default()
    };
    assert!(!v.is_slashable_at(4));
    assert!(v.is_slashable_at(5));
    assert!(v.is_slashable_at(19));
    assert!(!v.is_slashable_at(20));

    let slashed = Validator {
        slashed: true,
        ..v
    };
    assert!(!slashed.is_slashable_at(10));
}

#[test]
fn activation_queue_eligibility() {
    let spec = test_spec();
    let v = Validator {
        effective_balance: spec.max_effective_balance,
        ..Validator::default()
    };
    assert!(v.is_eligible_for_activation_queue(&spec, ForkName::Base));

    let short = Validator {
        effective_balance: spec.max_effective_balance - 1,
        ..Validator::default()
    };
    assert!(!short.is_eligible_for_activation_queue(&spec, ForkName::Base));
    // Once compounding is enabled the minimum activation balance suffices.
    assert!(!short.is_eligible_for_activation_queue(&spec, ForkName::Electra));
    let compounding = Validator {
        effective_balance: spec.min_activation_balance,
        ..Validator::default()
    };
    assert!(compounding.is_eligible_for_activation_queue(&spec, ForkName::Electra));
}

#[test]
fn activation_eligibility_with_finalized_checkpoint() {
    let spec = test_spec();
    let v = Validator {
        activation_eligibility_epoch: 3,
        ..Validator::default()
    };
    let finalized = Checkpoint { epoch: 3, root: 7 };
    assert!(v.is_eligible_for_activation_with_finalized_checkpoint(&finalized, &spec));
    let early = Checkpoint { epoch: 2, root: 7 };
    assert!(!v.is_eligible_for_activation_with_finalized_checkpoint(&early, &spec));

    let activated = Validator {
        activation_eligibility_epoch: 3,
        activation_epoch: 9,
        ..Validator::default()
    };
    assert!(!activated.is_eligible_for_activation_with_finalized_checkpoint(&finalized, &spec));

    assert!(v.could_be_eligible_for_activation_at(4, &spec));
    assert!(!v.could_be_eligible_for_activation_at(3, &spec));
}

#[test]
fn withdrawal_credential_prefixes() {
    let spec = test_spec();
    let eth1 = Validator {
        withdrawal_credentials: credentials_with_prefix(0x01),
        ..Validator::default()
    };
    assert!(eth1.has_eth1_withdrawal_credential(&spec));
    assert!(!eth1.has_compounding_withdrawal_credential(&spec));
    assert!(eth1.has_execution_withdrawal_credential(&spec));

    let compounding = Validator {
        withdrawal_credentials: credentials_with_prefix(0x02),
        ..Validator::default()
    };
    assert!(!compounding.has_eth1_withdrawal_credential(&spec));
    assert!(compounding.has_compounding_withdrawal_credential(&spec));
    assert!(compounding.has_execution_withdrawal_credential(&spec));
    assert!(is_compounding_withdrawal_credential(
        &credentials_with_prefix(0x02),
        &spec
    ));

    let bls = Validator::default();
    assert!(!bls.has_execution_withdrawal_credential(&spec));
}

#[test]
fn execution_withdrawal_address_extraction() {
    let spec = test_spec();
    let v = Validator {
        withdrawal_credentials: credentials_with_prefix(0x01),
        ..Validator::default()
    };
    let address = v.get_execution_withdrawal_address(&spec).unwrap();
    assert_eq!(address.len(), 20);
    assert_eq!(address[0], 12);
    assert_eq!(address[19], 31);

    let bls = Validator::default();
    assert!(bls.get_execution_withdrawal_address(&spec).is_none());
}

#[test]
fn change_withdrawal_credentials_sets_prefix_and_address() {
    let spec = test_spec();
    let mut v = Validator::default();
    let address: Vec<u8> = (100u8..120u8).collect();
    v.change_withdrawal_credentials(&address, &spec);
    assert_eq!(v.withdrawal_credentials.len(), 32);
    assert_eq!(v.withdrawal_credentials[0], 0x01);
    for i in 1..12 {
        assert_eq!(v.withdrawal_credentials[i], 0);
    }
    assert_eq!(&v.withdrawal_credentials[12..], &address[..]);
}

#[test]
fn max_effective_balance_per_fork() {
    let spec = test_spec();
    let plain = Validator {
        withdrawal_credentials: credentials_with_prefix(0x01),
        ..Validator::default()
    };
    assert_eq!(
        plain.get_max_effective_balance(&spec, ForkName::Base),
        32_000_000_000
    );
    assert_eq!(
        plain.get_max_effective_balance(&spec, ForkName::Electra),
        spec.min_activation_balance
    );

    let compounding = Validator {
        withdrawal_credentials: credentials_with_prefix(0x02),
        ..Validator::default()
    };
    assert_eq!(
        compounding.get_max_effective_balance(&spec, ForkName::Electra),
        spec.max_effective_balance_electra
    );

    let mut forced = test_spec();
    forced.forced_electra_mode = true;
    assert_eq!(
        plain.get_max_effective_balance(&forced, ForkName::Base),
        forced.max_effective_balance_electra
    );
}

#[test]
fn active_balance_is_capped() {
    let spec = test_spec();
    let v = Validator {
        withdrawal_credentials: credentials_with_prefix(0x01),
        ..Validator::default()
    };
    assert_eq!(v.get_active_balance(10_000_000_000, &spec, ForkName::Base), 10_000_000_000);
    assert_eq!(v.get_active_balance(40_000_000_000, &spec, ForkName::Base), 32_000_000_000);
}

#[test]
fn effective_balance_for_rewards_uses_fork_cap() {
    let spec = test_spec();
    let v = Validator {
        effective_balance: 17,
        ..Validator::default()
    };
    assert_eq!(
        v.get_effective_balance_for_rewards(&spec, ForkName::Base),
        spec.max_effective_balance
    );
    assert_eq!(
        v.get_effective_balance_for_rewards(&spec, ForkName::Electra),
        spec.max_effective_balance_electra
    );
}

#[test]
fn from_deposit_quantizes_and_caps() {
    let spec = test_spec();
    let deposit = DepositData {
        pubkey: 42,
        withdrawal_credentials: credentials_with_prefix(0x01),
    };
    let v = Validator::from_deposit(&deposit, 17_500_000_123, ForkName::Base, &spec);
    assert_eq!(v.pubkey, 42);
    assert_eq!(v.effective_balance, 17_000_000_000);
    assert_eq!(v.activation_epoch, spec.far_future_epoch);
    assert_eq!(v.exit_epoch, spec.far_future_epoch);
    assert!(!v.slashed);

    let rich = Validator::from_deposit(&deposit, 99_000_000_000, ForkName::Base, &spec);
    assert_eq!(rich.effective_balance, spec.max_effective_balance);

    let mut forced = test_spec();
    forced.forced_electra_mode = true;
    let forced_v = Validator::from_deposit(&deposit, 1, ForkName::Base, &forced);
    assert_eq!(forced_v.effective_balance, forced.max_effective_balance_electra);
}

#[test]
fn withdrawability_checks() {
    let spec = test_spec();
    let v = Validator {
        withdrawal_credentials: credentials_with_prefix(0x01),
        withdrawable_epoch: 10,
        ..Validator::default()
    };
    assert!(v.is_fully_withdrawable_at(1, 10, &spec, ForkName::Capella));
    assert!(!v.is_fully_withdrawable_at(0, 10, &spec, ForkName::Capella));
    assert!(!v.is_fully_withdrawable_at(1, 9, &spec, ForkName::Capella));

    assert!(v.is_partially_withdrawable_validator(32_000_000_001, &spec, ForkName::Capella));
    assert!(!v.is_partially_withdrawable_validator(32_000_000_000, &spec, ForkName::Capella));
}

#[test]
fn eligibility_via_state_checkpoint() {
    let spec = test_spec();
    let state = ChainState {
        fork: ForkName::Base,
        slot: 0,
        validators: Vec::new(),
        balances: Vec::new(),
        slashings: vec![0; 64],
        previous_epoch_participation: Vec::new(),
        current_epoch_participation: Vec::new(),
        current_sync_committee: Vec::new(),
        previous_block_root: 0,
        current_justified_checkpoint: Checkpoint { epoch: 0, root: 0 },
        previous_justified_checkpoint: Checkpoint { epoch: 0, root: 0 },
        finalized_checkpoint: Checkpoint { epoch: 5, root: 9 },
        committees: Vec::new(),
        proposers: Vec::new(),
    };
    let v = Validator {
        activation_eligibility_epoch: 4,
        ..Validator::default()
    };
    assert!(v.is_eligible_for_activation(&state, &spec));
}
