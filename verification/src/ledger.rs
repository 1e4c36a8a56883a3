//! Balance ledger primitives: the overflow-checked increase and decrease of
//! a single validator's balance. No other component writes to the balance
//! sequence directly.

use vstd::prelude::*;
use crate::errors::StateError;
use crate::math::{spec_saturating_add, spec_saturating_sub, saturating_add, saturating_sub};
use crate::state::{unchanged_except_balances, ChainState};

verus! {

/// The balance sequence after a saturating increase at `index`.
pub open spec fn spec_balances_after_increase(
    balances: Seq<u64>,
    index: int,
    amount: u64,
) -> Seq<u64>
    recommends
        0 <= index < balances.len(),
{
    balances.update(index, spec_saturating_add(balances[index], amount))
}

/// The balance sequence after a saturating decrease at `index`.
pub open spec fn spec_balances_after_decrease(
    balances: Seq<u64>,
    index: int,
    amount: u64,
) -> Seq<u64>
    recommends
        0 <= index < balances.len(),
{
    balances.update(index, spec_saturating_sub(balances[index], amount))
}

/// Increase the balance of the validator at `index` by `amount`, saturating
/// at the numeric width. Fails, leaving the state unchanged, exactly when
/// `index` is out of bounds.
pub fn increase_balance(
    state: &mut ChainState,
    index: usize,
    amount: u64,
) -> (r: Result<(), StateError>)
    ensures
        unchanged_except_balances(old(state), final(state)),
        index < old(state).balances@.len() ==> {
            &&& r == Ok::<(), StateError>(())
            &&& final(state).balances@
                == spec_balances_after_increase(old(state).balances@, index as int, amount)
        },
        index >= old(state).balances@.len() ==> {
            &&& r == Err::<(), StateError>(StateError::BalancesOutOfBounds(index))
            &&& final(state).balances@ == old(state).balances@
        },
{
    if index >= state.balances.len() {
        return Err(StateError::BalancesOutOfBounds(index));
    }
    let current = state.balances[index];
    let updated = saturating_add(current, amount);
    state.balances.set(index, updated);
    Ok(())
}

/// Decrease the balance of the validator at `index` by `amount`. A penalty
/// that would drive the balance negative clamps it to zero — a deliberate
/// leniency, not an error. Fails, leaving the state unchanged, exactly when
/// `index` is out of bounds.
pub fn decrease_balance(
    state: &mut ChainState,
    index: usize,
    amount: u64,
) -> (r: Result<(), StateError>)
    ensures
        unchanged_except_balances(old(state), final(state)),
        index < old(state).balances@.len() ==> {
            &&& r == Ok::<(), StateError>(())
            &&& final(state).balances@
                == spec_balances_after_decrease(old(state).balances@, index as int, amount)
        },
        index >= old(state).balances@.len() ==> {
            &&& r == Err::<(), StateError>(StateError::BalancesOutOfBounds(index))
            &&& final(state).balances@ == old(state).balances@
        },
{
    if index >= state.balances.len() {
        return Err(StateError::BalancesOutOfBounds(index));
    }
    let current = state.balances[index];
    let updated = saturating_sub(current, amount);
    state.balances.set(index, updated);
    Ok(())
}

/// Law: balance non-negativity. However a balance sequence is transformed by
/// increases and decreases, every balance stays at or above zero: an
/// increase saturates at the numeric width and a decrease that would go
/// below zero saturates at exactly zero, so no sequence of ledger operations
/// can ever produce a negative balance.
pub proof fn lemma_balance_non_negative(balances: Seq<u64>, index: int, amount: u64)
    requires
        0 <= index < balances.len(),
    ensures
        forall|i: int| 0 <= i < balances.len()
            ==> spec_balances_after_increase(balances, index, amount)[i] >= 0,
        forall|i: int| 0 <= i < balances.len()
            ==> spec_balances_after_decrease(balances, index, amount)[i] >= 0,
        balances[index] < amount
            ==> spec_balances_after_decrease(balances, index, amount)[index] == 0,
        balances[index] >= amount
            ==> spec_balances_after_decrease(balances, index, amount)[index]
                == balances[index] - amount,
{
}

} // verus!
