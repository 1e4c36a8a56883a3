//! The transition orchestrator: sequences attestation validation,
//! sync-aggregate verification, slashing and reward application per block,
//! and epoch-boundary bookkeeping and rewards per epoch.
//!
//! A transition either runs to completion, or fails and the caller must
//! discard the mutated working copy and retry from the last known-good
//! snapshot: nothing here is partially committed on behalf of the caller.

use vstd::prelude::*;
use crate::attestation::{
    spec_block_inclusion_error, verify_attestation_for_block_inclusion, Attestation,
    VerifySignatures,
};
use crate::chain_spec::{ChainSpec, ForkName};
use crate::errors::{BlockProcessingError, RewardError};
use crate::ledger::spec_balances_after_decrease;
use crate::epoch_rewards::apply_epoch_policy_rewards;
use crate::rewards::{
    apply_all_rewards, spec_apply_credits, spec_attestation_credits, spec_failed_credits,
    spec_proposer_credits, spec_reward_amounts_at, spec_sync_reward_credits, RewardConfig,
};
use crate::slashing::{
    slash_validator, spec_slash_image_error, spec_slashed_validator, spec_slashings_bucket,
};
use crate::state::{unchanged_except_slashing_fields, ChainState};
use crate::sync_committee::{process_sync_aggregate, spec_sync_aggregate_error, SyncAggregate};
use crate::validator::Validator;

verus! {

/// Participation-flag bit marking a timely target vote.
pub const TIMELY_TARGET_FLAG_MASK: u8 = 2;

/// Participation-flag bit marking a timely head vote.
pub const TIMELY_HEAD_FLAG_MASK: u8 = 4;

/// One externally adjudicated proof of equivocation: the index to slash and
/// the optional whistleblower. The cryptographic check of the proof itself
/// is the external signature primitive's work; this core applies its
/// verdict.
#[derive(Clone, Copy, Debug, PartialEq, Eq, Structural)]
pub struct SlashingProof {
    pub slashed_index: usize,
    pub whistleblower_index: Option<usize>,
}

/// The operations a block embeds, as far as the state transition applies
/// them.
#[derive(Clone, Debug)]
pub struct BlockBody {
    /// The block's proposer.
    pub proposer_index: u64,
    /// The attestations the block carries.
    pub attestations: Vec<Attestation>,
    /// The sync aggregate, from the sync-committee fork on.
    pub sync_aggregate: Option<SyncAggregate>,
    /// Equivocation proofs to apply.
    pub slashing_proofs: Vec<SlashingProof>,
}

/// The registry, balance and slashings sequences of a state: the fields the
/// slasher writes, folded over a block's slashing proofs.
pub struct LedgerImage {
    pub validators: Seq<Validator>,
    pub balances: Seq<u64>,
    pub slashings: Seq<u64>,
}

/// One slashing applied to a ledger image, or the error that rejects it.
pub open spec fn spec_slash_step(
    img: LedgerImage,
    slashed_index: usize,
    epoch: u64,
    fork: ForkName,
    spec: &ChainSpec,
) -> Result<LedgerImage, BlockProcessingError>
    recommends
        spec.wf(),
{
    match spec_slash_image_error(img.validators, img.slashings, epoch, fork, slashed_index, spec) {
        Some(e) => Err(e),
        None => {
            let v = img.validators[slashed_index as int];
            let bucket = spec_slashings_bucket(epoch, spec);
            let quotient = spec.spec_slashing_penalty_quotient_for_fork(fork);
            Ok(LedgerImage {
                validators: img.validators.update(
                    slashed_index as int,
                    spec_slashed_validator(v, epoch, spec),
                ),
                slashings: img.slashings.update(
                    bucket,
                    (img.slashings[bucket] + v.effective_balance) as u64,
                ),
                balances: spec_balances_after_decrease(
                    img.balances,
                    slashed_index as int,
                    (v.effective_balance as int / quotient as int) as u64,
                ),
            })
        },
    }
}

/// A ledger image after the slashing proofs from `i` on are applied in
/// order, or the first error.
pub open spec fn spec_slash_fold(
    img: LedgerImage,
    proofs: Seq<SlashingProof>,
    i: int,
    epoch: u64,
    fork: ForkName,
    spec: &ChainSpec,
) -> Result<LedgerImage, BlockProcessingError>
    decreases proofs.len() - i,
{
    if i < 0 || i >= proofs.len() {
        Ok(img)
    } else {
        match spec_slash_step(img, proofs[i].slashed_index, epoch, fork, spec) {
            Err(e) => Err(e),
            Ok(img2) => spec_slash_fold(img2, proofs, i + 1, epoch, fork, spec),
        }
    }
}

/// Validate and apply all operations a block embeds: verify each
/// attestation for inclusion, verify the sync aggregate, apply the slashing
/// proofs in order, and finally apply the block's rewards under the given
/// policy. Returns the absorbed policy-application failures on success; on
/// any validation or arithmetic error the caller must discard the mutated
/// working copy.
pub fn process_block_operations(
    state: &mut ChainState,
    block_body: &BlockBody,
    verify_signatures: VerifySignatures,
    spec: &ChainSpec,
    config: &RewardConfig,
) -> (r: Result<Vec<RewardError>, BlockProcessingError>)
    requires
        old(state).wf(spec),
        spec.wf(),
        config.split_wf(),
    ensures
        unchanged_except_slashing_fields(old(state), final(state)),
        final(state).wf(spec),
        ({
            let img0 = (LedgerImage {
                validators: old(state).validators@,
                balances: old(state).balances@,
                slashings: old(state).slashings@,
            });
            let epoch = old(state).spec_current_epoch(spec);
            match r {
                Ok(reward_failures) => {
                    &&& forall|k: int| 0 <= k < block_body.attestations@.len()
                        ==> spec_block_inclusion_error(
                            old(state),
                            &block_body.attestations@[k],
                            verify_signatures,
                            spec,
                        ) is None
                    &&& (block_body.sync_aggregate matches Some(agg)
                        ==> spec_sync_aggregate_error(old(state), &agg, verify_signatures)
                            is None)
                    &&& spec_slash_fold(
                        img0,
                        block_body.slashing_proofs@,
                        0,
                        epoch,
                        old(state).fork,
                        spec,
                    ) matches Ok(img) && ({
                        let amounts = spec_reward_amounts_at(
                            config.schedule@,
                            config.steady_amounts,
                            epoch,
                        );
                        let pc = spec_proposer_credits(
                            block_body.proposer_index,
                            amounts.proposer_reward,
                            config,
                        );
                        let ac = spec_attestation_credits(
                            img.validators,
                            old(state).previous_epoch_participation@,
                            old(state).current_epoch_participation@,
                            epoch,
                            amounts.attestation_reward,
                            config,
                        );
                        let after_proposer = spec_apply_credits(img.balances, pc);
                        let after_attestation = spec_apply_credits(after_proposer, ac);
                        let n = old(state).balances@.len();
                        &&& final(state).validators@ == img.validators
                        &&& final(state).slashings@ == img.slashings
                        &&& match block_body.sync_aggregate {
                            Some(agg) => {
                                let sc = spec_sync_reward_credits(
                                    old(state).fork,
                                    old(state).current_sync_committee@,
                                    img.validators,
                                    agg.sync_committee_bits@,
                                    amounts.sync_committee_reward,
                                    config,
                                );
                                &&& final(state).balances@
                                    == spec_apply_credits(after_attestation, sc)
                                &&& reward_failures@ == spec_failed_credits(n, pc)
                                    + spec_failed_credits(n, ac) + spec_failed_credits(n, sc)
                            },
                            None => {
                                &&& final(state).balances@ == after_attestation
                                &&& reward_failures@ == spec_failed_credits(n, pc)
                                    + spec_failed_credits(n, ac)
                            },
                        }
                    })
                },
                Err(e) => {
                    ||| exists|k: int|
                        #![trigger block_body.attestations@[k]]
                        0 <= k < block_body.attestations@.len()
                        && (forall|j: int| 0 <= j < k ==> spec_block_inclusion_error(
                            old(state),
                            &block_body.attestations@[j],
                            verify_signatures,
                            spec,
                        ) is None)
                        && (spec_block_inclusion_error(
                            old(state),
                            &block_body.attestations@[k],
                            verify_signatures,
                            spec,
                        ) matches Some(ae) && e == BlockProcessingError::Attestation(ae))
                    ||| {
                        &&& forall|k: int| 0 <= k < block_body.attestations@.len()
                            ==> spec_block_inclusion_error(
                                old(state),
                                &block_body.attestations@[k],
                                verify_signatures,
                                spec,
                            ) is None
                        &&& block_body.sync_aggregate matches Some(agg)
                        &&& spec_sync_aggregate_error(old(state), &agg, verify_signatures)
                            matches Some(se)
                        &&& e == BlockProcessingError::SyncAggregate(se)
                    }
                    ||| {
                        &&& forall|k: int| 0 <= k < block_body.attestations@.len()
                            ==> spec_block_inclusion_error(
                                old(state),
                                &block_body.attestations@[k],
                                verify_signatures,
                                spec,
                            ) is None
                        &&& (block_body.sync_aggregate matches Some(agg)
                            ==> spec_sync_aggregate_error(old(state), &agg, verify_signatures)
                                is None)
                        &&& spec_slash_fold(
                            img0,
                            block_body.slashing_proofs@,
                            0,
                            epoch,
                            old(state).fork,
                            spec,
                        ) == Err::<LedgerImage, BlockProcessingError>(e)
                    }
                },
            }
        }),
{
    // Validate every embedded attestation against the pre-state.
    let mut a: usize = 0;
    while a < block_body.attestations.len()
        invariant
            0 <= a <= block_body.attestations@.len(),
            spec.wf(),
            *state == *old(state),
            state.wf(spec),
            forall|j: int| 0 <= j < a ==> spec_block_inclusion_error(
                state,
                &block_body.attestations@[j],
                verify_signatures,
                spec,
            ) is None,
        decreases block_body.attestations@.len() - a,
    {
        match verify_attestation_for_block_inclusion(
            state,
            &block_body.attestations[a],
            verify_signatures,
            spec,
        ) {
            Ok(_) => {},
            Err(e) => {
                return Err(BlockProcessingError::Attestation(e));
            },
        }
        a = a + 1;
    }

    // Verify the sync aggregate, where the block carries one.
    match &block_body.sync_aggregate {
        Some(aggregate) => {
            match process_sync_aggregate(
                state,
                aggregate,
                block_body.proposer_index,
                verify_signatures,
                spec,
            ) {
                Ok(_) => {},
                Err(e) => {
                    return Err(BlockProcessingError::SyncAggregate(e));
                },
            }
        },
        None => {},
    }

    // Apply the slashing proofs in order.
    let ghost img0 = (LedgerImage {
        validators: state.validators@,
        balances: state.balances@,
        slashings: state.slashings@,
    });
    let current_epoch = state.current_epoch(spec);
    let mut k: usize = 0;
    while k < block_body.slashing_proofs.len()
        invariant
            0 <= k <= block_body.slashing_proofs@.len(),
            spec.wf(),
            state.wf(spec),
            unchanged_except_slashing_fields(old(state), state),
            current_epoch == old(state).spec_current_epoch(spec),
            current_epoch == state.spec_current_epoch(spec),
            img0 == (LedgerImage {
                validators: old(state).validators@,
                balances: old(state).balances@,
                slashings: old(state).slashings@,
            }),
            forall|j: int| 0 <= j < block_body.attestations@.len()
                ==> spec_block_inclusion_error(
                    old(state),
                    &block_body.attestations@[j],
                    verify_signatures,
                    spec,
                ) is None,
            block_body.sync_aggregate matches Some(agg)
                ==> spec_sync_aggregate_error(old(state), &agg, verify_signatures) is None,
            spec_slash_fold(
                img0,
                block_body.slashing_proofs@,
                0,
                current_epoch,
                old(state).fork,
                spec,
            ) == spec_slash_fold(
                (LedgerImage {
                    validators: state.validators@,
                    balances: state.balances@,
                    slashings: state.slashings@,
                }),
                block_body.slashing_proofs@,
                k as int,
                current_epoch,
                old(state).fork,
                spec,
            ),
        decreases block_body.slashing_proofs@.len() - k,
    {
        let p = block_body.slashing_proofs[k];
        let ghost pre_img = (LedgerImage {
            validators: state.validators@,
            balances: state.balances@,
            slashings: state.slashings@,
        });
        let step = slash_validator(state, p.slashed_index, p.whistleblower_index, spec);
        proof {
            assert(spec_slash_fold(
                pre_img,
                block_body.slashing_proofs@,
                k as int,
                current_epoch,
                old(state).fork,
                spec,
            ) == match spec_slash_step(
                pre_img,
                block_body.slashing_proofs@[k as int].slashed_index,
                current_epoch,
                old(state).fork,
                spec,
            ) {
                Err(e) => Err::<LedgerImage, BlockProcessingError>(e),
                Ok(img2) => spec_slash_fold(
                    img2,
                    block_body.slashing_proofs@,
                    k + 1,
                    current_epoch,
                    old(state).fork,
                    spec,
                ),
            });
        }
        match step {
            Ok(()) => {},
            Err(e) => {
                return Err(e);
            },
        }
        k = k + 1;
    }

    // Apply the block's rewards; policy-application failures are absorbed
    // and reported, never escalated.
    let slot = state.slot;
    let reward_failures = apply_all_rewards(
        state,
        block_body.proposer_index,
        block_body.sync_aggregate.as_ref(),
        current_epoch,
        slot,
        config,
        spec,
    );

    Ok(reward_failures)
}

/// What the epoch transition recorded about one validator, for external
/// reporting: activity and which votes its participation flags mark.
#[derive(Clone, Copy, Debug, PartialEq, Eq, Structural)]
pub struct ValidatorSummary {
    pub is_active_unslashed_in_current_epoch: bool,
    pub is_active_unslashed_in_previous_epoch: bool,
    pub is_current_epoch_target_attester: bool,
    pub is_previous_epoch_target_attester: bool,
    pub is_previous_epoch_head_attester: bool,
}

/// A read-only summary of one epoch transition: active-balance totals,
/// per-validator attester facts, and the reward-policy failures that were
/// absorbed — so external reporting code can query them without
/// re-deriving anything.
#[derive(Clone, Debug)]
pub struct EpochSummary {
    /// Total effective balance of the validators active in the current
    /// epoch (saturating sum).
    pub current_epoch_total_active_balance: u64,
    /// Total effective balance of current-epoch target attesters.
    pub current_epoch_target_attesting_balance: u64,
    /// Total effective balance of previous-epoch target attesters.
    pub previous_epoch_target_attesting_balance: u64,
    /// Total effective balance of previous-epoch head attesters.
    pub previous_epoch_head_attesting_balance: u64,
    /// One summary per validator, index-aligned with the registry.
    pub validators: Vec<ValidatorSummary>,
    /// The policy-application failures absorbed by the reward pass.
    pub reward_failures: Vec<RewardError>,
}

/// The summary of validator `i`: active and unslashed in each epoch, and
/// an attester where its participation byte carries the matching flag bit.
pub open spec fn spec_validator_summary(
    validators: Seq<Validator>,
    prev: Seq<u8>,
    cur: Seq<u8>,
    current_epoch: u64,
    previous_epoch: u64,
    i: int,
) -> ValidatorSummary {
    let v = validators[i];
    let active_cur = v.spec_is_active_at(current_epoch) && !v.slashed;
    let active_prev = v.spec_is_active_at(previous_epoch) && !v.slashed;
    ValidatorSummary {
        is_active_unslashed_in_current_epoch: active_cur,
        is_active_unslashed_in_previous_epoch: active_prev,
        is_current_epoch_target_attester: active_cur && 0 <= i < cur.len()
            && cur[i] & TIMELY_TARGET_FLAG_MASK != 0,
        is_previous_epoch_target_attester: active_prev && 0 <= i < prev.len()
            && prev[i] & TIMELY_TARGET_FLAG_MASK != 0,
        is_previous_epoch_head_attester: active_prev && 0 <= i < prev.len()
            && prev[i] & TIMELY_HEAD_FLAG_MASK != 0,
    }
}

/// The saturating total effective balance of the validators active at
/// `epoch`, over the first `k` of them.
pub open spec fn spec_active_balance_upto(
    validators: Seq<Validator>,
    epoch: u64,
    k: int,
) -> u64
    decreases k,
{
    if k <= 0 {
        0
    } else {
        let rest = spec_active_balance_upto(validators, epoch, k - 1);
        if validators[k - 1].spec_is_active_at(epoch) {
            crate::math::spec_saturating_add(rest, validators[k - 1].effective_balance)
        } else {
            rest
        }
    }
}

/// The saturating total effective balance of active, unslashed validators
/// whose participation byte carries `mask`, over the first `k` of them.
pub open spec fn spec_attesting_balance_upto(
    validators: Seq<Validator>,
    participation: Seq<u8>,
    mask: u8,
    epoch: u64,
    k: int,
) -> u64
    decreases k,
{
    if k <= 0 {
        0
    } else {
        let rest = spec_attesting_balance_upto(validators, participation, mask, epoch, k - 1);
        if validators[k - 1].spec_is_active_at(epoch) && !validators[k - 1].slashed
            && k - 1 < participation.len() && participation[k - 1] & mask != 0 {
            crate::math::spec_saturating_add(rest, validators[k - 1].effective_balance)
        } else {
            rest
        }
    }
}

/// Run epoch-boundary bookkeeping and reward application: compute the
/// epoch summary from the pre-state, then apply the policy's epoch rewards
/// through the ledger. The summary's totals and per-validator facts
/// describe the state as it stood at the epoch boundary.
pub fn process_epoch(
    state: &mut ChainState,
    spec: &ChainSpec,
    config: &RewardConfig,
) -> (r: Result<EpochSummary, BlockProcessingError>)
    requires
        old(state).wf(spec),
        spec.wf(),
    ensures
        crate::state::unchanged_except_balances(old(state), final(state)),
        final(state).wf(spec),
        ({
            let n = old(state).validators@.len() as int;
            let cur_epoch = old(state).spec_current_epoch(spec);
            let prev_epoch = old(state).spec_previous_epoch(spec);
            match r {
                Ok(summary) => {
                    &&& summary.current_epoch_total_active_balance
                        == spec_active_balance_upto(old(state).validators@, cur_epoch, n)
                    &&& summary.current_epoch_target_attesting_balance
                        == spec_attesting_balance_upto(
                        old(state).validators@,
                        old(state).current_epoch_participation@,
                        TIMELY_TARGET_FLAG_MASK,
                        cur_epoch,
                        n,
                    )
                    &&& summary.previous_epoch_target_attesting_balance
                        == spec_attesting_balance_upto(
                        old(state).validators@,
                        old(state).previous_epoch_participation@,
                        TIMELY_TARGET_FLAG_MASK,
                        prev_epoch,
                        n,
                    )
                    &&& summary.previous_epoch_head_attesting_balance
                        == spec_attesting_balance_upto(
                        old(state).validators@,
                        old(state).previous_epoch_participation@,
                        TIMELY_HEAD_FLAG_MASK,
                        prev_epoch,
                        n,
                    )
                    &&& summary.validators@.len() == n
                    &&& forall|i: int| 0 <= i < n ==> summary.validators@[i]
                        == spec_validator_summary(
                        old(state).validators@,
                        old(state).previous_epoch_participation@,
                        old(state).current_epoch_participation@,
                        cur_epoch,
                        prev_epoch,
                        i,
                    )
                },
                Err(_) => false,
            }
        }),
{
    let current_epoch = state.current_epoch(spec);
    let previous_epoch = state.previous_epoch(spec);
    let n = state.validators.len();

    let mut total_active: u64 = 0;
    let mut cur_target: u64 = 0;
    let mut prev_target: u64 = 0;
    let mut prev_head: u64 = 0;
    let mut summaries: Vec<ValidatorSummary> = Vec::new();

    let mut i: usize = 0;
    while i < n
        invariant
            0 <= i <= n,
            n == state.validators@.len(),
            state.wf(spec),
            total_active == spec_active_balance_upto(
                state.validators@,
                current_epoch,
                i as int,
            ),
            cur_target == spec_attesting_balance_upto(
                state.validators@,
                state.current_epoch_participation@,
                TIMELY_TARGET_FLAG_MASK,
                current_epoch,
                i as int,
            ),
            prev_target == spec_attesting_balance_upto(
                state.validators@,
                state.previous_epoch_participation@,
                TIMELY_TARGET_FLAG_MASK,
                previous_epoch,
                i as int,
            ),
            prev_head == spec_attesting_balance_upto(
                state.validators@,
                state.previous_epoch_participation@,
                TIMELY_HEAD_FLAG_MASK,
                previous_epoch,
                i as int,
            ),
            summaries@.len() == i,
            forall|j: int| 0 <= j < i ==> summaries@[j] == spec_validator_summary(
                state.validators@,
                state.previous_epoch_participation@,
                state.current_epoch_participation@,
                current_epoch,
                previous_epoch,
                j,
            ),
        decreases n - i,
    {
        let v = &state.validators[i];
        let active_cur = v.is_active_at(current_epoch) && !v.slashed;
        let active_prev = v.is_active_at(previous_epoch) && !v.slashed;
        let cur_flags = state.current_epoch_participation[i];
        let prev_flags = state.previous_epoch_participation[i];

        if v.is_active_at(current_epoch) {
            total_active = crate::math::saturating_add(total_active, v.effective_balance);
        }
        if active_cur && cur_flags & TIMELY_TARGET_FLAG_MASK != 0 {
            cur_target = crate::math::saturating_add(cur_target, v.effective_balance);
        }
        if active_prev && prev_flags & TIMELY_TARGET_FLAG_MASK != 0 {
            prev_target = crate::math::saturating_add(prev_target, v.effective_balance);
        }
        if active_prev && prev_flags & TIMELY_HEAD_FLAG_MASK != 0 {
            prev_head = crate::math::saturating_add(prev_head, v.effective_balance);
        }
        summaries.push(ValidatorSummary {
            is_active_unslashed_in_current_epoch: active_cur,
            is_active_unslashed_in_previous_epoch: active_prev,
            is_current_epoch_target_attester: active_cur
                && cur_flags & TIMELY_TARGET_FLAG_MASK != 0,
            is_previous_epoch_target_attester: active_prev
                && prev_flags & TIMELY_TARGET_FLAG_MASK != 0,
            is_previous_epoch_head_attester: active_prev
                && prev_flags & TIMELY_HEAD_FLAG_MASK != 0,
        });
        i = i + 1;
    }

    // Apply the policy's epoch rewards, absorbing policy failures into the
    // summary for the caller to log.
    let reward_failures = apply_epoch_policy_rewards(state, spec, config);

    Ok(EpochSummary {
        current_epoch_total_active_balance: total_active,
        current_epoch_target_attesting_balance: cur_target,
        previous_epoch_target_attesting_balance: prev_target,
        previous_epoch_head_attesting_balance: prev_head,
        validators: summaries,
        reward_failures,
    })
}

} // verus!
