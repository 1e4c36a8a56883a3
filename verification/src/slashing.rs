//! The validator slasher: the one-time slashing transition on a validator
//! index. It marks the validator slashed, extends its withdrawable epoch,
//! records the effective balance in the slashings ring buffer and applies
//! the balance penalty through the ledger.

use vstd::prelude::*;
use crate::chain_spec::ChainSpec;
use crate::errors::{BlockProcessingError, StateError};
use crate::ledger::{decrease_balance, spec_balances_after_decrease};
use crate::math::{safe_add, safe_div, ArithError};
use crate::state::{unchanged_except_slashing_fields, ChainState};
use crate::validator::Validator;

verus! {

/// The epoch from which a validator slashed at `epoch` may withdraw: its
/// previous withdrawable epoch, extended — never shortened — to the end of
/// the slashings ring buffer.
pub open spec fn spec_slashed_withdrawable_epoch(
    old_withdrawable: u64,
    epoch: u64,
    spec: &ChainSpec,
) -> int {
    let extended = epoch + spec.epochs_per_slashings_vector + 1;
    if old_withdrawable >= extended {
        old_withdrawable as int
    } else {
        extended
    }
}

/// The validator record after a successful slashing at `epoch`.
pub open spec fn spec_slashed_validator(v: Validator, epoch: u64, spec: &ChainSpec) -> Validator {
    Validator {
        slashed: true,
        withdrawable_epoch: spec_slashed_withdrawable_epoch(
            v.withdrawable_epoch,
            epoch,
            spec,
        ) as u64,
        ..v
    }
}

/// The slashings-ring-buffer bucket that a slashing at `epoch` writes.
pub open spec fn spec_slashings_bucket(epoch: u64, spec: &ChainSpec) -> int
    recommends
        spec.wf(),
{
    epoch as int % spec.epochs_per_slashings_vector as int
}

/// Why slashing `slashed_index` would be rejected against the given
/// registry, slashings buffer, epoch and fork, if it would: the error, or
/// `None` where the slashing succeeds. The conditions are tested in this
/// order.
pub open spec fn spec_slash_image_error(
    validators: Seq<Validator>,
    slashings: Seq<u64>,
    epoch: u64,
    fork: crate::chain_spec::ForkName,
    slashed_index: usize,
    spec: &ChainSpec,
) -> Option<BlockProcessingError>
    recommends
        spec.wf(),
{
    if slashed_index >= validators.len() {
        Some(BlockProcessingError::State(StateError::UnknownValidator(slashed_index)))
    } else if validators[slashed_index as int].slashed {
        Some(BlockProcessingError::State(StateError::ValidatorAlreadySlashed))
    } else if epoch + spec.epochs_per_slashings_vector + 1 > u64::MAX {
        Some(BlockProcessingError::Arith(ArithError::Overflow))
    } else if slashings[spec_slashings_bucket(epoch, spec)]
        + validators[slashed_index as int].effective_balance > u64::MAX {
        Some(BlockProcessingError::Arith(ArithError::Overflow))
    } else if spec.spec_slashing_penalty_quotient_for_fork(fork) == 0 {
        Some(BlockProcessingError::Arith(ArithError::DivisionByZero))
    } else {
        None
    }
}

/// Why `slash_validator` would reject the request, if it would: the error it
/// returns, or `None` where the slashing succeeds.
pub open spec fn spec_slash_error(
    state: &ChainState,
    slashed_index: usize,
    spec: &ChainSpec,
) -> Option<BlockProcessingError>
    recommends
        state.wf(spec),
        spec.wf(),
{
    spec_slash_image_error(
        state.validators@,
        state.slashings@,
        state.spec_current_epoch(spec),
        state.fork,
        slashed_index,
        spec,
    )
}

/// Slash the validator with index `slashed_index`.
///
/// Fails with `ValidatorAlreadySlashed` if the validator's slashed flag is
/// already set: slashing is strictly a one-time transition. On success it
/// sets the flag, raises the withdrawable epoch to at least
/// `current_epoch + epochs_per_slashings_vector + 1`, adds the effective
/// balance into the current slashings bucket and decreases the balance by
/// `effective_balance / slashing_penalty_quotient` for the state's fork.
/// On any failure the state is left unchanged, so the caller's copy stays
/// usable.
///
/// No whistleblower reward is paid here: whistleblower incentives, if any,
/// are the reward engine's concern, which keeps slashing idempotent-per-call
/// and minimal in side effects.
pub fn slash_validator(
    state: &mut ChainState,
    slashed_index: usize,
    opt_whistleblower_index: Option<usize>,
    spec: &ChainSpec,
) -> (r: Result<(), BlockProcessingError>)
    requires
        old(state).wf(spec),
        spec.wf(),
    ensures
        final(state).wf(spec),
        unchanged_except_slashing_fields(old(state), final(state)),
        match spec_slash_error(old(state), slashed_index, spec) {
            Some(e) => r == Err::<(), BlockProcessingError>(e) && *final(state) == *old(state),
            None => {
                let epoch = old(state).spec_current_epoch(spec);
                let v = old(state).validators@[slashed_index as int];
                let bucket = spec_slashings_bucket(epoch, spec);
                let quotient = spec.spec_slashing_penalty_quotient_for_fork(old(state).fork);
                &&& r == Ok::<(), BlockProcessingError>(())
                &&& final(state).validators@ == old(state).validators@.update(
                    slashed_index as int,
                    spec_slashed_validator(v, epoch, spec),
                )
                &&& final(state).slashings@ == old(state).slashings@.update(
                    bucket,
                    (old(state).slashings@[bucket] + v.effective_balance) as u64,
                )
                &&& final(state).balances@ == spec_balances_after_decrease(
                    old(state).balances@,
                    slashed_index as int,
                    (v.effective_balance as int / quotient as int) as u64,
                )
            },
        },
{
    let epoch = state.current_epoch(spec);

    // Avoid slashing a validator twice.
    if slashed_index >= state.validators.len() {
        return Err(BlockProcessingError::State(StateError::UnknownValidator(slashed_index)));
    }
    if state.validators[slashed_index].slashed {
        return Err(BlockProcessingError::State(StateError::ValidatorAlreadySlashed));
    }

    // Compute every fallible quantity before mutating anything, so that a
    // failed slashing leaves the state exactly as it was.
    let extended = match safe_add(epoch, spec.epochs_per_slashings_vector) {
        Ok(s) => match safe_add(s, 1) {
            Ok(s1) => s1,
            Err(e) => {
                proof {
                    assert(epoch + spec.epochs_per_slashings_vector + 1 > u64::MAX);
                    assert(spec_slash_error(state, slashed_index, spec)
                        == Some(BlockProcessingError::Arith(ArithError::Overflow)));
                }
                return Err(BlockProcessingError::Arith(e));
            },
        },
        Err(e) => {
            proof {
                assert(epoch + spec.epochs_per_slashings_vector + 1 > u64::MAX);
                assert(spec_slash_error(state, slashed_index, spec)
                    == Some(BlockProcessingError::Arith(ArithError::Overflow)));
            }
            return Err(BlockProcessingError::Arith(e));
        },
    };

    let effective_balance = state.validators[slashed_index].effective_balance;
    let slashings_len = state.slashings.len();
    proof {
        assert(epoch % spec.epochs_per_slashings_vector < spec.epochs_per_slashings_vector);
        assert(spec.epochs_per_slashings_vector == slashings_len);
    }
    let slashings_index = (epoch % spec.epochs_per_slashings_vector) as usize;
    let bucket_total = match safe_add(state.slashings[slashings_index], effective_balance) {
        Ok(t) => t,
        Err(e) => {
            return Err(BlockProcessingError::Arith(e));
        },
    };

    let quotient = spec.slashing_penalty_quotient_for_fork(state.fork);
    let penalty = match safe_div(effective_balance, quotient) {
        Ok(p) => p,
        Err(e) => {
            return Err(BlockProcessingError::Arith(e));
        },
    };

    // Set the slashed flag and extend — never shorten — the withdrawable
    // epoch.
    let old_withdrawable = state.validators[slashed_index].withdrawable_epoch;
    let new_withdrawable = if old_withdrawable >= extended {
        old_withdrawable
    } else {
        extended
    };
    let mut updated = Validator::default();
    state.validators.set_and_swap(slashed_index, &mut updated);
    updated.slashed = true;
    updated.withdrawable_epoch = new_withdrawable;
    state.validators.set(slashed_index, updated);
    proof {
        assert(state.validators@ =~= old(state).validators@.update(
            slashed_index as int,
            spec_slashed_validator(
                old(state).validators@[slashed_index as int],
                old(state).spec_current_epoch(spec),
                spec,
            ),
        ));
    }

    // Record the slashed effective balance in the current bucket.
    state.slashings.set(slashings_index, bucket_total);

    // Apply the slashing penalty through the ledger.
    let ledger_result = decrease_balance(state, slashed_index, penalty);
    proof {
        assert(ledger_result is Ok);
    }

    // No whistleblower reward is paid by this component.
    let _ = opt_whistleblower_index;

    Ok(())
}

/// Law: slashing idempotency. Once a slashing of `slashed_index` has
/// succeeded, a second request to slash the same validator is rejected with
/// `ValidatorAlreadySlashed`; and since `slash_validator` leaves the state
/// unchanged on every rejection, the validator's slashed flag and
/// withdrawable epoch are unchanged by the rejected second call.
pub proof fn lemma_slash_validator_idempotent(
    pre: &ChainState,
    post: &ChainState,
    slashed_index: usize,
    spec: &ChainSpec,
)
    requires
        pre.wf(spec),
        spec.wf(),
        spec_slash_error(pre, slashed_index, spec) is None,
        post.validators@ == pre.validators@.update(
            slashed_index as int,
            spec_slashed_validator(
                pre.validators@[slashed_index as int],
                pre.spec_current_epoch(spec),
                spec,
            ),
        ),
    ensures
        spec_slash_error(post, slashed_index, spec)
            == Some(BlockProcessingError::State(StateError::ValidatorAlreadySlashed)),
        post.validators@[slashed_index as int].slashed,
        post.validators@[slashed_index as int].withdrawable_epoch
            >= pre.spec_current_epoch(spec) + spec.epochs_per_slashings_vector + 1,
{
}

} // verus!
