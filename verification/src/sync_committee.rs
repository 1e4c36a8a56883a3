//! The sync-committee processor: verifies a sync aggregate against the
//! state and records which validators participated. Verification ends here;
//! reward computation for participation is the reward engine's job, so the
//! economic policy can change without touching validity code.
//!
//! The aggregate signature is opaque to this core: the external
//! signature-verification primitive's verdict over
//! `(slot, previous_block_root)` is carried in `signature_valid`, and an
//! aggregate with no bit set is vacuously valid.

use vstd::prelude::*;
use crate::attestation::VerifySignatures;
use crate::chain_spec::ChainSpec;
use crate::errors::SyncAggregateError;
use crate::rewards::{calculate_reward_amounts, spec_reward_amounts_at, RewardAmounts, RewardConfig};
use crate::state::ChainState;

verus! {

/// A sync aggregate: one bit per sync-committee seat, index-aligned with
/// the committee's public-key list, plus the external verdict on the
/// aggregate signature covering all set bits.
#[derive(Clone, Debug, PartialEq, Eq)]
pub struct SyncAggregate {
    pub sync_committee_bits: Vec<bool>,
    /// Verdict of the external signature-verification primitive for the
    /// aggregate signature over the previous block root.
    pub signature_valid: bool,
}

/// Some bit of the bitlist is set.
pub open spec fn spec_any_bit_set(bits: Seq<bool>) -> bool {
    exists|i: int| 0 <= i < bits.len() && bits[i]
}

/// The committee seat at `i` resolves to a validator of the registry.
pub open spec fn spec_sync_seat_resolved(
    committee: Seq<u64>,
    validators: Seq<crate::validator::Validator>,
    i: int,
) -> bool {
    crate::state::spec_index_of_pubkey(validators, committee[i]) is Some
}

/// The participant indices recorded for the first `k` committee seats:
/// for each set bit whose seat resolves, the validator index its public key
/// resolves to.
pub open spec fn spec_sync_participants_upto(
    committee: Seq<u64>,
    validators: Seq<crate::validator::Validator>,
    bits: Seq<bool>,
    k: int,
) -> Seq<usize>
    decreases k,
{
    if k <= 0 {
        Seq::empty()
    } else {
        let rest = spec_sync_participants_upto(committee, validators, bits, k - 1);
        if 0 <= k - 1 < bits.len() && bits[k - 1]
            && spec_sync_seat_resolved(committee, validators, k - 1) {
            rest.push(
                crate::state::spec_index_of_pubkey(validators, committee[k - 1]).unwrap(),
            )
        } else {
            rest
        }
    }
}

/// Returns `true` if any bit of the bitlist is set.
fn any_bit_set(bits: &Vec<bool>) -> (r: bool)
    ensures
        r == spec_any_bit_set(bits@),
{
    let mut i: usize = 0;
    while i < bits.len()
        invariant
            0 <= i <= bits@.len(),
            forall|j: int| 0 <= j < i ==> !bits@[j],
        decreases bits@.len() - i,
    {
        if bits[i] {
            return true;
        }
        i = i + 1;
    }
    false
}

/// Why verifying a sync aggregate against a state rejects it, if it does.
/// The conditions are tested in this order: the state's protocol version
/// must support sync committees, the bitlist must give one bit per
/// committee seat, the signature verdict must be positive where
/// verification is requested and any bit is set (an aggregate with no bit
/// set is vacuously valid), and every committee seat must resolve to a
/// registered validator.
pub open spec fn spec_sync_aggregate_error(
    state: &ChainState,
    aggregate: &SyncAggregate,
    verify_signatures: VerifySignatures,
) -> Option<SyncAggregateError> {
    let committee = state.current_sync_committee@;
    let validators = state.validators@;
    let bits = aggregate.sync_committee_bits@;
    if state.fork.order() < crate::chain_spec::ForkName::Altair.order() {
        Some(SyncAggregateError::IncorrectStateVariant)
    } else if bits.len() != committee.len() {
        Some(SyncAggregateError::BitfieldLengthMismatch {
            bits: bits.len() as usize,
            committee: committee.len() as usize,
        })
    } else if verify_signatures is True && spec_any_bit_set(bits) && !aggregate.signature_valid {
        Some(SyncAggregateError::SignatureInvalid)
    } else if exists|i: int| 0 <= i < committee.len()
        && !spec_sync_seat_resolved(committee, validators, i) {
        let i = choose|i: int| 0 <= i < committee.len()
            && !spec_sync_seat_resolved(committee, validators, i)
            && forall|j: int| 0 <= j < i ==> spec_sync_seat_resolved(committee, validators, j);
        Some(SyncAggregateError::UnknownValidatorPubkey(committee[i]))
    } else {
        None
    }
}

/// Verify a sync aggregate against the state and record, for bookkeeping
/// and observability only, which validators participated — this moves no
/// balances.
///
/// Fails with an incorrect-state-variant error against a state from before
/// the fork that introduced sync committees; with a length mismatch where
/// the bitlist does not give one bit per committee seat; with a
/// signature-invalid error where verification is requested, at least one
/// bit is set and the signature verdict is negative (an aggregate with no
/// bit set is vacuously valid); and with an unknown-public-key error where
/// a committee seat resolves to no registered validator.
pub fn process_sync_aggregate(
    state: &ChainState,
    aggregate: &SyncAggregate,
    proposer_index: u64,
    verify_signatures: VerifySignatures,
    spec: &ChainSpec,
) -> (r: Result<Vec<usize>, SyncAggregateError>)
    requires
        spec.wf(),
    ensures
        match spec_sync_aggregate_error(state, aggregate, verify_signatures) {
            Some(e) => r == Err::<Vec<usize>, SyncAggregateError>(e),
            None => r matches Ok(participants) && participants@ == spec_sync_participants_upto(
                state.current_sync_committee@,
                state.validators@,
                aggregate.sync_committee_bits@,
                state.current_sync_committee@.len() as int,
            ),
        },
{
    // Sync aggregates are only meaningful from the fork that introduced
    // them onward.
    if !state.fork.altair_enabled() {
        return Err(SyncAggregateError::IncorrectStateVariant);
    }

    // One bit per committee seat.
    if aggregate.sync_committee_bits.len() != state.current_sync_committee.len() {
        return Err(SyncAggregateError::BitfieldLengthMismatch {
            bits: aggregate.sync_committee_bits.len(),
            committee: state.current_sync_committee.len(),
        });
    }

    // Verify the aggregate signature over the previous block root when
    // requested. An aggregate with no participant is vacuously valid.
    if verify_signatures.is_true() {
        if any_bit_set(&aggregate.sync_committee_bits) && !aggregate.signature_valid {
            return Err(SyncAggregateError::SignatureInvalid);
        }
    }

    // Walk the committee bit-by-bit against the ordered public-key list and
    // record the participants.
    let mut participants: Vec<usize> = Vec::new();
    let mut i: usize = 0;
    while i < state.current_sync_committee.len()
        invariant
            0 <= i <= state.current_sync_committee@.len(),
            state.fork.order() >= crate::chain_spec::ForkName::Altair.order(),
            aggregate.sync_committee_bits@.len() == state.current_sync_committee@.len(),
            !(verify_signatures is True && spec_any_bit_set(aggregate.sync_committee_bits@)
                && !aggregate.signature_valid),
            forall|j: int| 0 <= j < i
                ==> spec_sync_seat_resolved(state.current_sync_committee@, state.validators@, j),
            participants@ == spec_sync_participants_upto(
                state.current_sync_committee@,
                state.validators@,
                aggregate.sync_committee_bits@,
                i as int,
            ),
        decreases state.current_sync_committee@.len() - i,
    {
        let pubkey = state.current_sync_committee[i];
        match state.get_validator_index(pubkey) {
            Some(validator_index) => {
                if aggregate.sync_committee_bits[i] {
                    participants.push(validator_index);
                }
                proof {
                    assert(state.spec_validator_index_of(pubkey) == Some(validator_index));
                }
            },
            None => {
                proof {
                    let committee = state.current_sync_committee@;
                    let validators = state.validators@;
                    assert(state.spec_validator_index_of(pubkey) is None);
                    assert(!spec_sync_seat_resolved(committee, validators, i as int));
                    // The loop invariant makes seat `i` the first
                    // unresolved one, so it is the one the error names.
                    let c = choose|x: int| 0 <= x < committee.len()
                        && !spec_sync_seat_resolved(committee, validators, x)
                        && forall|j: int| 0 <= j < x
                            ==> spec_sync_seat_resolved(committee, validators, j);
                    if c < i as int {
                        assert(spec_sync_seat_resolved(committee, validators, c));
                    } else if c > i as int {
                        assert(spec_sync_seat_resolved(committee, validators, i as int));
                    }
                    assert(c == i as int);
                }
                return Err(SyncAggregateError::UnknownValidatorPubkey(pubkey));
            },
        }
        i = i + 1;
    }

    let _ = proposer_index;
    Ok(participants)
}

/// The default policy's magnitudes at an epoch: the initial-incentive
/// amounts through epoch 2, zero from epoch 3 on.
pub open spec fn spec_default_reward_amounts(epoch: u64) -> RewardAmounts {
    if epoch <= 2 {
        RewardAmounts {
            proposer_reward: 2_600_000_000,
            attestation_reward: 100_000,
            sync_committee_reward: 100_000,
        }
    } else {
        RewardAmounts { proposer_reward: 0, attestation_reward: 0, sync_committee_reward: 0 }
    }
}

/// Compute the `(participant_reward, proposer_reward)` for a sync
/// aggregate, by evaluating the default reward policy at the state's
/// current epoch. Kept for interface compatibility: callers configuring
/// their own policy evaluate it through the reward engine instead.
pub fn compute_sync_aggregate_rewards(state: &ChainState, spec: &ChainSpec) -> (r: Result<
    (u64, u64),
    SyncAggregateError,
>)
    requires
        spec.wf(),
    ensures
        r == Ok::<(u64, u64), SyncAggregateError>(
            (
                spec_default_reward_amounts(state.spec_current_epoch(spec)).sync_committee_reward,
                spec_default_reward_amounts(state.spec_current_epoch(spec)).proposer_reward,
            ),
        ),
{
    let current_epoch = state.current_epoch(spec);
    let reward_config = RewardConfig::default();
    let rewards = calculate_reward_amounts(current_epoch, &reward_config);
    proof {
        reveal_with_fuel(spec_reward_amounts_at, 3);
        assert(reward_config.schedule@.drop_first().len() == 0);
        assert(rewards == spec_default_reward_amounts(current_epoch));
    }
    Ok((rewards.sync_committee_reward, rewards.proposer_reward))
}

} // verus!
