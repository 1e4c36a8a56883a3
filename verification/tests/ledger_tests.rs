use consensus_core::chain_spec::ForkName;
use consensus_core::errors::StateError;
use consensus_core::ledger::{decrease_balance, increase_balance};
use consensus_core::state::{ChainState, Checkpoint};
use consensus_core::validator::Validator;

fn ledger_state(balances: Vec<u64>) -> ChainState {
    let n = balances.len();
    let validators: Vec<Validator> = (0..n)
        .map(|i| Validator {
            pubkey: i as u64 + 1,
            activation_epoch: 0,
            ..Validator::default()
        })
        .collect();
    ChainState {
        fork: ForkName::Base,
        slot: 0,
        balances,
        previous_epoch_participation: vec![0; n],
        current_epoch_participation: vec![0; n],
        validators,
        slashings: vec![0; 64],
        current_sync_committee: Vec::new(),
        previous_block_root: 0,
        current_justified_checkpoint: Checkpoint { epoch: 0, root: 0 },
        previous_justified_checkpoint: Checkpoint { epoch: 0, root: 0 },
        finalized_checkpoint: Checkpoint { epoch: 0, root: 0 },
        committees: Vec::new(),
        proposers: Vec::new(),
    }
}

#[test]
fn any_sequence_of_ledger_operations_keeps_balances_non_negative() {
    // A decrease below zero saturates at exactly zero, and later
    // operations proceed from there: no sequence of increases and
    // decreases ever produces a negative balance.
    let mut state = ledger_state(vec![100, 50]);
    decrease_balance(&mut state, 0, 70).unwrap();
    decrease_balance(&mut state, 0, 70).unwrap();
    assert_eq!(state.balances[0], 0);
    increase_balance(&mut state, 0, 25).unwrap();
    decrease_balance(&mut state, 0, 5).unwrap();
    assert_eq!(state.balances[0], 20);
    decrease_balance(&mut state, 1, u64::MAX).unwrap();
    assert_eq!(state.balances[1], 0);
}

#[test]
fn increase_saturates_at_numeric_width() {
    let mut state = ledger_state(vec![u64::MAX - 10]);
    increase_balance(&mut state, 0, 25).unwrap();
    assert_eq!(state.balances[0], u64::MAX);
}

#[test]
fn ledger_rejects_out_of_bounds_indices() {
    let mut state = ledger_state(vec![5]);
    assert_eq!(
        increase_balance(&mut state, 3, 1),
        Err(StateError::BalancesOutOfBounds(3))
    );
    assert_eq!(
        decrease_balance(&mut state, 3, 1),
        Err(StateError::BalancesOutOfBounds(3))
    );
    assert_eq!(state.balances, vec![5]);
}
