//! Per-epoch attestation reward and penalty deltas.
//!
//! A `Delta` keeps its reward and penalty totals separate; deltas from
//! independent rule checks are combined by addition and never cancelled
//! early, to avoid order-dependent rounding. The epoch-level reward pass
//! itself is the policy engine's job (`process_rewards_and_penalties`).

use vstd::prelude::*;
use crate::chain_spec::ChainSpec;
use crate::errors::{EpochProcessingError, RewardError};
use crate::math::{
    is_integer_sqrt, integer_sqrt, safe_add, safe_div, safe_mul, safe_sub, spec_integer_sqrt,
    ArithError,
};
use crate::rewards::{
    apply_credits, calculate_reward_amounts, collect_attesting_validators, spec_apply_credits,
    spec_attester_credits, spec_collected_attesters, spec_failed_credits, spec_reward_amounts_at,
    Credit, RewardConfig,
};
use crate::state::{
    spec_proposer_for_slot, unchanged_except_balances, ChainState, SlotProposer,
};

verus! {

/// A signed accumulator attached to a validator index: separate unsigned
/// reward and penalty totals.
#[derive(Clone, Copy, Debug, PartialEq, Eq, Structural)]
pub struct Delta {
    pub rewards: u64,
    pub penalties: u64,
}

impl Default for Delta {
    /// The neutral delta: nothing rewarded, nothing penalized.
    fn default() -> (d: Delta)
        ensures
            d.rewards == 0,
            d.penalties == 0,
    {
        Delta { rewards: 0, penalties: 0 }
    }
}

impl Delta {
    /// The combination of two deltas: both totals added, or an overflow
    /// error.
    pub open spec fn spec_combine(self, other: Delta) -> Result<Delta, EpochProcessingError> {
        if self.rewards + other.rewards <= u64::MAX
            && self.penalties + other.penalties <= u64::MAX {
            Ok(Delta {
                rewards: (self.rewards + other.rewards) as u64,
                penalties: (self.penalties + other.penalties) as u64,
            })
        } else {
            Err(EpochProcessingError::Arith(ArithError::Overflow))
        }
    }

    /// Add to the reward total; overflow is an error and leaves the delta
    /// unchanged.
    pub fn reward(&mut self, amount: u64) -> (r: Result<(), EpochProcessingError>)
        ensures
            old(self).rewards + amount <= u64::MAX ==> {
                &&& r == Ok::<(), EpochProcessingError>(())
                &&& final(self).rewards == old(self).rewards + amount
                &&& final(self).penalties == old(self).penalties
            },
            old(self).rewards + amount > u64::MAX ==> {
                &&& r == Err::<(), EpochProcessingError>(
                    EpochProcessingError::Arith(ArithError::Overflow),
                )
                &&& *final(self) == *old(self)
            },
    {
        match safe_add(self.rewards, amount) {
            Ok(total) => {
                self.rewards = total;
                Ok(())
            },
            Err(e) => Err(EpochProcessingError::Arith(e)),
        }
    }

    /// Add to the penalty total; overflow is an error and leaves the delta
    /// unchanged.
    pub fn penalize(&mut self, amount: u64) -> (r: Result<(), EpochProcessingError>)
        ensures
            old(self).penalties + amount <= u64::MAX ==> {
                &&& r == Ok::<(), EpochProcessingError>(())
                &&& final(self).penalties == old(self).penalties + amount
                &&& final(self).rewards == old(self).rewards
            },
            old(self).penalties + amount > u64::MAX ==> {
                &&& r == Err::<(), EpochProcessingError>(
                    EpochProcessingError::Arith(ArithError::Overflow),
                )
                &&& *final(self) == *old(self)
            },
    {
        match safe_add(self.penalties, amount) {
            Ok(total) => {
                self.penalties = total;
                Ok(())
            },
            Err(e) => Err(EpochProcessingError::Arith(e)),
        }
    }

    /// Combine another delta into this one; on overflow the delta is left
    /// unchanged.
    pub fn combine(&mut self, other: Delta) -> (r: Result<(), EpochProcessingError>)
        ensures
            match old(self).spec_combine(other) {
                Ok(d) => r == Ok::<(), EpochProcessingError>(()) && *final(self) == d,
                Err(e) => r == Err::<(), EpochProcessingError>(e) && *final(self) == *old(self),
            },
    {
        let rewards = match safe_add(self.rewards, other.rewards) {
            Ok(t) => t,
            Err(e) => {
                return Err(EpochProcessingError::Arith(e));
            },
        };
        let penalties = match safe_add(self.penalties, other.penalties) {
            Ok(t) => t,
            Err(e) => {
                return Err(EpochProcessingError::Arith(e));
            },
        };
        self.rewards = rewards;
        self.penalties = penalties;
        Ok(())
    }
}

/// The deltas of the different components of an attestation reward.
#[derive(Clone, Copy, Debug, PartialEq, Eq, Structural)]
pub struct AttestationDelta {
    pub source_delta: Delta,
    pub target_delta: Delta,
    pub head_delta: Delta,
    pub inclusion_delay_delta: Delta,
    pub inactivity_penalty_delta: Delta,
}

/// A sequence of all-zero attestation deltas, one per validator.
pub open spec fn spec_zero_deltas(n: nat) -> Seq<AttestationDelta> {
    Seq::new(n, |i: int| spec_zero_attestation_delta())
}

/// The all-zero attestation delta.
pub open spec fn spec_zero_attestation_delta() -> AttestationDelta {
    AttestationDelta {
        source_delta: Delta { rewards: 0, penalties: 0 },
        target_delta: Delta { rewards: 0, penalties: 0 },
        head_delta: Delta { rewards: 0, penalties: 0 },
        inclusion_delay_delta: Delta { rewards: 0, penalties: 0 },
        inactivity_penalty_delta: Delta { rewards: 0, penalties: 0 },
    }
}

impl Default for AttestationDelta {
    /// The neutral attestation delta: every component zero.
    fn default() -> (d: AttestationDelta)
        ensures
            d == spec_zero_attestation_delta(),
    {
        AttestationDelta {
            source_delta: Delta { rewards: 0, penalties: 0 },
            target_delta: Delta { rewards: 0, penalties: 0 },
            head_delta: Delta { rewards: 0, penalties: 0 },
            inclusion_delay_delta: Delta { rewards: 0, penalties: 0 },
            inactivity_penalty_delta: Delta { rewards: 0, penalties: 0 },
        }
    }
}

impl AttestationDelta {
    /// The flattening of the five components into one delta, combining them
    /// in component order; an overflow anywhere is an error.
    pub open spec fn spec_flatten(self) -> Result<Delta, EpochProcessingError> {
        match (Delta { rewards: 0, penalties: 0 }).spec_combine(self.source_delta) {
            Err(e) => Err(e),
            Ok(d1) => match d1.spec_combine(self.target_delta) {
                Err(e) => Err(e),
                Ok(d2) => match d2.spec_combine(self.head_delta) {
                    Err(e) => Err(e),
                    Ok(d3) => match d3.spec_combine(self.inclusion_delay_delta) {
                        Err(e) => Err(e),
                        Ok(d4) => d4.spec_combine(self.inactivity_penalty_delta),
                    },
                },
            },
        }
    }

    /// Flatten into a single delta.
    pub fn flatten(self) -> (r: Result<Delta, EpochProcessingError>)
        ensures
            r == self.spec_flatten(),
    {
        let AttestationDelta {
            source_delta,
            target_delta,
            head_delta,
            inclusion_delay_delta,
            inactivity_penalty_delta,
        } = self;
        let mut result = Delta::default();
        if let Err(e) = result.combine(source_delta) {
            return Err(e);
        }
        if let Err(e) = result.combine(target_delta) {
            return Err(e);
        }
        if let Err(e) = result.combine(head_delta) {
            return Err(e);
        }
        if let Err(e) = result.combine(inclusion_delay_delta) {
            return Err(e);
        }
        if let Err(e) = result.combine(inactivity_penalty_delta) {
            return Err(e);
        }
        Ok(result)
    }
}

/// Whether the epoch-level delta computation should fold the proposer's
/// inclusion rewards into the deltas or leave them out.
#[derive(Clone, Copy, Debug, PartialEq, Eq, Structural)]
pub enum ProposerRewardCalculation {
    Include,
    Exclude,
}

/// When and how a previous-epoch attestation was included in a block.
#[derive(Clone, Copy, Debug, PartialEq, Eq, Structural)]
pub struct InclusionInfo {
    /// Slots between the attested slot and its inclusion.
    pub delay: u64,
    /// The proposer that included the attestation.
    pub proposer_index: usize,
}

/// What the epoch transition recorded about one validator's attestation
/// performance, as the external status-accumulation pass computed it.
#[derive(Clone, Copy, Debug, PartialEq, Eq, Structural)]
pub struct ValidatorStatus {
    /// Whether the validator is eligible for rewards and penalties at all.
    pub is_eligible: bool,
    /// Whether the validator is slashed.
    pub is_slashed: bool,
    /// Whether it attested with a matching source in the previous epoch.
    pub is_previous_epoch_attester: bool,
    /// Whether its previous-epoch attestation matched the target.
    pub is_previous_epoch_target_attester: bool,
    /// Whether its previous-epoch attestation matched the head.
    pub is_previous_epoch_head_attester: bool,
    /// Its effective balance in the current epoch.
    pub current_epoch_effective_balance: u64,
    /// Inclusion information of its previous-epoch attestation, if any.
    pub inclusion_info: Option<InclusionInfo>,
}

/// Balance totals over classes of attesters, index-free.
#[derive(Clone, Copy, Debug, PartialEq, Eq, Structural)]
pub struct TotalBalances {
    /// Total active balance of the current epoch.
    pub current_epoch: u64,
    /// Total balance of previous-epoch source attesters.
    pub previous_epoch_attesters: u64,
    /// Total balance of previous-epoch target attesters.
    pub previous_epoch_target_attesters: u64,
    /// Total balance of previous-epoch head attesters.
    pub previous_epoch_head_attesters: u64,
}

/// Per-validator statuses and the balance totals over them.
#[derive(Clone, Debug, PartialEq, Eq)]
pub struct ValidatorStatuses {
    pub statuses: Vec<ValidatorStatus>,
    pub total_balances: TotalBalances,
}

/// The integer square root of the total active balance, computed once per
/// epoch and shared across base-reward computations.
#[derive(Clone, Copy, Debug, PartialEq, Eq, Structural)]
pub struct SqrtTotalActiveBalance {
    pub sqrt: u64,
}

impl SqrtTotalActiveBalance {
    /// The square root this value carries.
    pub open spec fn spec_sqrt(&self) -> u64 {
        self.sqrt
    }

    /// Compute the integer square root of the total active balance.
    pub fn new(total_active_balance: u64) -> (r: Self)
        ensures
            r.spec_sqrt() == spec_integer_sqrt(total_active_balance),
            is_integer_sqrt(total_active_balance, r.spec_sqrt()),
    {
        SqrtTotalActiveBalance { sqrt: integer_sqrt(total_active_balance) }
    }

    /// The square root as a plain number.
    pub fn as_u64(&self) -> (r: u64)
        ensures
            r == self.spec_sqrt(),
    {
        self.sqrt
    }
}

/// The base reward of one validator:
/// `effective_balance * base_reward_factor
///  / sqrt(total_active_balance) / base_rewards_per_epoch`,
/// or the arithmetic error the computation runs into, in evaluation order.
pub open spec fn spec_base_reward(
    effective_balance: u64,
    sqrt: u64,
    spec: &ChainSpec,
) -> Result<u64, EpochProcessingError> {
    if effective_balance * spec.base_reward_factor > u64::MAX {
        Err(EpochProcessingError::Arith(ArithError::Overflow))
    } else if sqrt == 0 {
        Err(EpochProcessingError::Arith(ArithError::DivisionByZero))
    } else if spec.base_rewards_per_epoch == 0 {
        Err(EpochProcessingError::Arith(ArithError::DivisionByZero))
    } else {
        Ok(
            (((effective_balance * spec.base_reward_factor) / (sqrt as int))
                / (spec.base_rewards_per_epoch as int)) as u64,
        )
    }
}

/// Compute one validator's base reward from its effective balance and the
/// square root of the total active balance.
pub fn get_base_reward(
    effective_balance: u64,
    sqrt_total_active_balance: SqrtTotalActiveBalance,
    spec: &ChainSpec,
) -> (r: Result<u64, EpochProcessingError>)
    ensures
        r == spec_base_reward(effective_balance, sqrt_total_active_balance.spec_sqrt(), spec),
{
    let numerator = match safe_mul(effective_balance, spec.base_reward_factor) {
        Ok(n) => n,
        Err(e) => {
            return Err(EpochProcessingError::Arith(e));
        },
    };
    let per_sqrt = match safe_div(numerator, sqrt_total_active_balance.as_u64()) {
        Ok(q) => q,
        Err(e) => {
            return Err(EpochProcessingError::Arith(e));
        },
    };
    match safe_div(per_sqrt, spec.base_rewards_per_epoch) {
        Ok(q) => Ok(q),
        Err(e) => Err(EpochProcessingError::Arith(e)),
    }
}

/// Compute the reward awarded to a proposer for including an attestation.
///
/// Returns a fixed zero: proposer incentives are managed centrally by the
/// reward engine's policy, not by the per-attestation delta pass.
pub fn get_proposer_reward(_base_reward: u64, _spec: &ChainSpec) -> (r: Result<
    u64,
    EpochProcessingError,
>)
    ensures
        r == Ok::<u64, EpochProcessingError>(0u64),
{
    Ok(0)
}

/// The delta of one attestation component: full base reward under a long
/// finality delay, a stake-proportional reward otherwise, and the full base
/// reward as a penalty for a validator outside the attesting set — or the
/// arithmetic error the computation runs into, in evaluation order.
pub open spec fn spec_attestation_component_delta(
    index_in_unslashed_attesting_indices: bool,
    attesting_balance: u64,
    total_balances: TotalBalances,
    base_reward: u64,
    finality_delay: u64,
    spec: &ChainSpec,
) -> Result<Delta, EpochProcessingError> {
    if !index_in_unslashed_attesting_indices {
        Ok(Delta { rewards: 0, penalties: base_reward })
    } else if finality_delay > spec.min_epochs_to_inactivity_penalty {
        Ok(Delta { rewards: base_reward, penalties: 0 })
    } else if spec.effective_balance_increment == 0 {
        Err(EpochProcessingError::Arith(ArithError::DivisionByZero))
    } else if base_reward * (attesting_balance as int / spec.effective_balance_increment as int)
        > u64::MAX {
        Err(EpochProcessingError::Arith(ArithError::Overflow))
    } else if total_balances.current_epoch as int / spec.effective_balance_increment as int == 0 {
        Err(EpochProcessingError::Arith(ArithError::DivisionByZero))
    } else {
        Ok(Delta {
            rewards: ((base_reward * (attesting_balance as int
                / spec.effective_balance_increment as int))
                / (total_balances.current_epoch as int
                    / spec.effective_balance_increment as int)) as u64,
            penalties: 0,
        })
    }
}

/// Compute the delta of one attestation component (source, target or head)
/// from membership in the attesting set and the attesting balance.
pub fn get_attestation_component_delta(
    index_in_unslashed_attesting_indices: bool,
    attesting_balance: u64,
    total_balances: &TotalBalances,
    base_reward: u64,
    finality_delay: u64,
    spec: &ChainSpec,
) -> (r: Result<Delta, EpochProcessingError>)
    ensures
        r == spec_attestation_component_delta(
            index_in_unslashed_attesting_indices,
            attesting_balance,
            *total_balances,
            base_reward,
            finality_delay,
            spec,
        ),
{
    let mut delta = Delta::default();

    let total_balance = total_balances.current_epoch;

    if index_in_unslashed_attesting_indices {
        if finality_delay > spec.min_epochs_to_inactivity_penalty {
            // Since the full base reward will be cancelled out by the
            // inactivity penalty deltas, optimal participation receives the
            // full base reward compensation here.
            if let Err(e) = delta.reward(base_reward) {
                return Err(e);
            }
        } else {
            let attesting_increments = match safe_div(
                attesting_balance,
                spec.effective_balance_increment,
            ) {
                Ok(q) => q,
                Err(e) => {
                    return Err(EpochProcessingError::Arith(e));
                },
            };
            let reward_numerator = match safe_mul(base_reward, attesting_increments) {
                Ok(n) => n,
                Err(e) => {
                    return Err(EpochProcessingError::Arith(e));
                },
            };
            let total_increments = match safe_div(
                total_balance,
                spec.effective_balance_increment,
            ) {
                Ok(q) => q,
                Err(e) => {
                    return Err(EpochProcessingError::Arith(e));
                },
            };
            let reward = match safe_div(reward_numerator, total_increments) {
                Ok(q) => q,
                Err(e) => {
                    return Err(EpochProcessingError::Arith(e));
                },
            };
            if let Err(e) = delta.reward(reward) {
                return Err(e);
            }
        }
    } else {
        if let Err(e) = delta.penalize(base_reward) {
            return Err(e);
        }
    }

    Ok(delta)
}

/// The source-component delta of one validator.
pub open spec fn spec_source_delta(
    validator: ValidatorStatus,
    base_reward: u64,
    total_balances: TotalBalances,
    finality_delay: u64,
    spec: &ChainSpec,
) -> Result<Delta, EpochProcessingError> {
    spec_attestation_component_delta(
        validator.is_previous_epoch_attester && !validator.is_slashed,
        total_balances.previous_epoch_attesters,
        total_balances,
        base_reward,
        finality_delay,
        spec,
    )
}

/// Compute the source-component delta of one validator.
fn get_source_delta(
    validator: &ValidatorStatus,
    base_reward: u64,
    total_balances: &TotalBalances,
    finality_delay: u64,
    spec: &ChainSpec,
) -> (r: Result<Delta, EpochProcessingError>)
    ensures
        r == spec_source_delta(*validator, base_reward, *total_balances, finality_delay, spec),
{
    get_attestation_component_delta(
        validator.is_previous_epoch_attester && !validator.is_slashed,
        total_balances.previous_epoch_attesters,
        total_balances,
        base_reward,
        finality_delay,
        spec,
    )
}

/// The target-component delta of one validator.
pub open spec fn spec_target_delta(
    validator: ValidatorStatus,
    base_reward: u64,
    total_balances: TotalBalances,
    finality_delay: u64,
    spec: &ChainSpec,
) -> Result<Delta, EpochProcessingError> {
    spec_attestation_component_delta(
        validator.is_previous_epoch_target_attester && !validator.is_slashed,
        total_balances.previous_epoch_target_attesters,
        total_balances,
        base_reward,
        finality_delay,
        spec,
    )
}

/// Compute the target-component delta of one validator.
fn get_target_delta(
    validator: &ValidatorStatus,
    base_reward: u64,
    total_balances: &TotalBalances,
    finality_delay: u64,
    spec: &ChainSpec,
) -> (r: Result<Delta, EpochProcessingError>)
    ensures
        r == spec_target_delta(*validator, base_reward, *total_balances, finality_delay, spec),
{
    get_attestation_component_delta(
        validator.is_previous_epoch_target_attester && !validator.is_slashed,
        total_balances.previous_epoch_target_attesters,
        total_balances,
        base_reward,
        finality_delay,
        spec,
    )
}

/// The head-component delta of one validator.
pub open spec fn spec_head_delta(
    validator: ValidatorStatus,
    base_reward: u64,
    total_balances: TotalBalances,
    finality_delay: u64,
    spec: &ChainSpec,
) -> Result<Delta, EpochProcessingError> {
    spec_attestation_component_delta(
        validator.is_previous_epoch_head_attester && !validator.is_slashed,
        total_balances.previous_epoch_head_attesters,
        total_balances,
        base_reward,
        finality_delay,
        spec,
    )
}

/// Compute the head-component delta of one validator.
fn get_head_delta(
    validator: &ValidatorStatus,
    base_reward: u64,
    total_balances: &TotalBalances,
    finality_delay: u64,
    spec: &ChainSpec,
) -> (r: Result<Delta, EpochProcessingError>)
    ensures
        r == spec_head_delta(*validator, base_reward, *total_balances, finality_delay, spec),
{
    get_attestation_component_delta(
        validator.is_previous_epoch_head_attester && !validator.is_slashed,
        total_balances.previous_epoch_head_attesters,
        total_balances,
        base_reward,
        finality_delay,
        spec,
    )
}

/// The inclusion-delay delta of one validator: an attester's reward shrinks
/// with its inclusion delay, and the proposer that included the attestation
/// is noted beside it. The proposer reward itself is fixed at zero here.
pub open spec fn spec_inclusion_delay_delta(
    validator: ValidatorStatus,
    base_reward: u64,
    spec: &ChainSpec,
) -> Result<(Delta, Option<(usize, Delta)>), EpochProcessingError> {
    if validator.is_previous_epoch_attester && !validator.is_slashed {
        match validator.inclusion_info {
            None => Err(EpochProcessingError::ValidatorStatusesInconsistent),
            Some(info) => {
                if info.delay == 0 {
                    Err(EpochProcessingError::Arith(ArithError::DivisionByZero))
                } else {
                    Ok(
                        (
                            Delta { rewards: (base_reward as int / info.delay as int) as u64, penalties: 0 },
                            Some((info.proposer_index, Delta { rewards: 0, penalties: 0 })),
                        ),
                    )
                }
            },
        }
    } else {
        Ok((Delta { rewards: 0, penalties: 0 }, None))
    }
}

/// Compute the inclusion-delay delta of one unslashed previous-epoch
/// attester, and the delta owed to the proposer that included its
/// attestation.
pub fn get_inclusion_delay_delta(
    validator: &ValidatorStatus,
    base_reward: u64,
    spec: &ChainSpec,
) -> (r: Result<(Delta, Option<(usize, Delta)>), EpochProcessingError>)
    ensures
        r == spec_inclusion_delay_delta(*validator, base_reward, spec),
{
    if validator.is_previous_epoch_attester && !validator.is_slashed {
        let mut delta = Delta::default();
        let mut proposer_delta = Delta::default();

        let inclusion_info = match validator.inclusion_info {
            Some(info) => info,
            None => {
                return Err(EpochProcessingError::ValidatorStatusesInconsistent);
            },
        };

        let proposer_reward = match get_proposer_reward(base_reward, spec) {
            Ok(p) => p,
            Err(e) => {
                return Err(e);
            },
        };
        if let Err(e) = proposer_delta.reward(proposer_reward) {
            return Err(e);
        }
        let max_attester_reward = match safe_sub(base_reward, proposer_reward) {
            Ok(m) => m,
            Err(e) => {
                return Err(EpochProcessingError::Arith(e));
            },
        };
        let attester_reward = match safe_div(max_attester_reward, inclusion_info.delay) {
            Ok(q) => q,
            Err(e) => {
                return Err(EpochProcessingError::Arith(e));
            },
        };
        if let Err(e) = delta.reward(attester_reward) {
            return Err(e);
        }

        let proposer_index = inclusion_info.proposer_index;
        Ok((delta, Some((proposer_index, proposer_delta))))
    } else {
        Ok((Delta::default(), None))
    }
}

/// The inactivity-penalty delta of one validator: under a long finality
/// delay every validator forfeits its base rewards, and one whose target
/// vote did not match is penalized extra in proportion to its stake and
/// the delay.
pub open spec fn spec_inactivity_penalty_delta(
    validator: ValidatorStatus,
    base_reward: u64,
    finality_delay: u64,
    spec: &ChainSpec,
) -> Result<Delta, EpochProcessingError> {
    if finality_delay > spec.min_epochs_to_inactivity_penalty {
        if spec.base_rewards_per_epoch * base_reward > u64::MAX {
            Err(EpochProcessingError::Arith(ArithError::Overflow))
        } else {
            let first = spec.base_rewards_per_epoch * base_reward;
            if validator.is_slashed || !validator.is_previous_epoch_target_attester {
                if validator.current_epoch_effective_balance * finality_delay > u64::MAX {
                    Err(EpochProcessingError::Arith(ArithError::Overflow))
                } else if spec.inactivity_penalty_quotient == 0 {
                    Err(EpochProcessingError::Arith(ArithError::DivisionByZero))
                } else {
                    let extra = (validator.current_epoch_effective_balance * finality_delay)
                        / (spec.inactivity_penalty_quotient as int);
                    if first + extra > u64::MAX {
                        Err(EpochProcessingError::Arith(ArithError::Overflow))
                    } else {
                        Ok(Delta { rewards: 0, penalties: (first + extra) as u64 })
                    }
                }
            } else {
                Ok(Delta { rewards: 0, penalties: first as u64 })
            }
        }
    } else {
        Ok(Delta { rewards: 0, penalties: 0 })
    }
}

/// Compute the inactivity-penalty delta of one validator.
pub fn get_inactivity_penalty_delta(
    validator: &ValidatorStatus,
    base_reward: u64,
    finality_delay: u64,
    spec: &ChainSpec,
) -> (r: Result<Delta, EpochProcessingError>)
    ensures
        r == spec_inactivity_penalty_delta(*validator, base_reward, finality_delay, spec),
{
    let mut delta = Delta::default();

    if finality_delay > spec.min_epochs_to_inactivity_penalty {
        // If the validator is performing optimally this cancels all rewards
        // for a neutral balance.
        let all_rewards = match safe_mul(spec.base_rewards_per_epoch, base_reward) {
            Ok(p) => p,
            Err(e) => {
                return Err(EpochProcessingError::Arith(e));
            },
        };
        let proposer_reward = match get_proposer_reward(base_reward, spec) {
            Ok(p) => p,
            Err(e) => {
                return Err(e);
            },
        };
        let neutral_penalty = match safe_sub(all_rewards, proposer_reward) {
            Ok(d) => d,
            Err(e) => {
                return Err(EpochProcessingError::Arith(e));
            },
        };
        if let Err(e) = delta.penalize(neutral_penalty) {
            return Err(e);
        }

        // Additionally, all validators whose FFG target did not match are
        // penalized extra.
        if validator.is_slashed || !validator.is_previous_epoch_target_attester {
            let scaled = match safe_mul(
                validator.current_epoch_effective_balance,
                finality_delay,
            ) {
                Ok(p) => p,
                Err(e) => {
                    return Err(EpochProcessingError::Arith(e));
                },
            };
            let extra = match safe_div(scaled, spec.inactivity_penalty_quotient) {
                Ok(q) => q,
                Err(e) => {
                    return Err(EpochProcessingError::Arith(e));
                },
            };
            if let Err(e) = delta.penalize(extra) {
                return Err(e);
            }
        }
    }

    Ok(delta)
}

/// Whether a delta for validator `idx` is wanted: always, unless a subset
/// was requested and `idx` is outside it.
pub open spec fn spec_include_validator(subset: Option<Seq<usize>>, idx: usize) -> bool {
    match subset {
        None => true,
        Some(s) => s.contains(idx),
    }
}

/// The subset argument as a ghost value.
pub open spec fn spec_subset_view(subset: Option<&Vec<usize>>) -> Option<Seq<usize>> {
    match subset {
        None => None,
        Some(v) => Some(v@),
    }
}

/// The delta sequence after one validator's status is processed: nothing
/// for an ineligible validator; otherwise its base reward, its four
/// component deltas and its inclusion-delay delta are combined into its
/// entry (where included), and the proposer that included its attestation
/// is credited its (zero) inclusion delta — or the first error the
/// computation runs into.
pub open spec fn spec_status_applied(
    deltas: Seq<AttestationDelta>,
    index: usize,
    status: ValidatorStatus,
    total_balances: TotalBalances,
    sqrt: u64,
    finality_delay: u64,
    include_proposer: bool,
    subset: Option<Seq<usize>>,
    spec: &ChainSpec,
) -> Result<Seq<AttestationDelta>, EpochProcessingError> {
    if !status.is_eligible {
        Ok(deltas)
    } else {
        match spec_base_reward(status.current_epoch_effective_balance, sqrt, spec) {
            Err(e) => Err(e),
            Ok(base_reward) => match spec_inclusion_delay_delta(status, base_reward, spec) {
                Err(e) => Err(e),
                Ok((inclusion_delay_delta, proposer_delta)) => {
                    let step1 = if spec_include_validator(subset, index) {
                        match spec_source_delta(
                            status,
                            base_reward,
                            total_balances,
                            finality_delay,
                            spec,
                        ) {
                            Err(e) => Err(e),
                            Ok(source) => match spec_target_delta(
                                status,
                                base_reward,
                                total_balances,
                                finality_delay,
                                spec,
                            ) {
                                Err(e) => Err(e),
                                Ok(target) => match spec_head_delta(
                                    status,
                                    base_reward,
                                    total_balances,
                                    finality_delay,
                                    spec,
                                ) {
                                    Err(e) => Err(e),
                                    Ok(head) => match spec_inactivity_penalty_delta(
                                        status,
                                        base_reward,
                                        finality_delay,
                                        spec,
                                    ) {
                                        Err(e) => Err(e),
                                        Ok(inactivity) => {
                                            if index >= deltas.len() {
                                                Err(EpochProcessingError::DeltaOutOfBounds(index))
                                            } else {
                                                let d = deltas[index as int];
                                                match d.source_delta.spec_combine(source) {
                                                    Err(e) => Err(e),
                                                    Ok(sd) => match d.target_delta.spec_combine(
                                                        target,
                                                    ) {
                                                        Err(e) => Err(e),
                                                        Ok(td) => match d.head_delta.spec_combine(
                                                            head,
                                                        ) {
                                                            Err(e) => Err(e),
                                                            Ok(hd) => match d.inclusion_delay_delta
                                                                .spec_combine(
                                                                inclusion_delay_delta,
                                                            ) {
                                                                Err(e) => Err(e),
                                                                Ok(id) => match d
                                                                    .inactivity_penalty_delta
                                                                    .spec_combine(inactivity) {
                                                                    Err(e) => Err(e),
                                                                    Ok(ia) => Ok(deltas.update(
                                                                        index as int,
                                                                        AttestationDelta {
                                                                            source_delta: sd,
                                                                            target_delta: td,
                                                                            head_delta: hd,
                                                                            inclusion_delay_delta: id,
                                                                            inactivity_penalty_delta: ia,
                                                                        },
                                                                    )),
                                                                },
                                                            },
                                                        },
                                                    },
                                                }
                                            }
                                        },
                                    },
                                },
                            },
                        }
                    } else {
                        Ok(deltas)
                    };
                    match step1 {
                        Err(e) => Err(e),
                        Ok(deltas1) => {
                            if include_proposer {
                                match proposer_delta {
                                    Some((proposer_index, pd)) => {
                                        if spec_include_validator(subset, proposer_index) {
                                            if proposer_index >= deltas1.len() {
                                                Err(
                                                    EpochProcessingError::ValidatorStatusesInconsistent,
                                                )
                                            } else {
                                                match deltas1[proposer_index as int]
                                                    .inclusion_delay_delta
                                                    .spec_combine(pd) {
                                                    Err(e) => Err(e),
                                                    Ok(nd) => Ok(deltas1.update(
                                                        proposer_index as int,
                                                        AttestationDelta {
                                                            inclusion_delay_delta: nd,
                                                            ..deltas1[proposer_index as int]
                                                        },
                                                    )),
                                                }
                                            }
                                        } else {
                                            Ok(deltas1)
                                        }
                                    },
                                    None => Ok(deltas1),
                                }
                            } else {
                                Ok(deltas1)
                            }
                        },
                    }
                },
            },
        }
    }
}

/// The delta sequence after the statuses from `i` on are processed in
/// order, or the first error.
pub open spec fn spec_attestation_deltas_from(
    deltas: Seq<AttestationDelta>,
    statuses: Seq<ValidatorStatus>,
    i: int,
    total_balances: TotalBalances,
    sqrt: u64,
    finality_delay: u64,
    include_proposer: bool,
    subset: Option<Seq<usize>>,
    spec: &ChainSpec,
) -> Result<Seq<AttestationDelta>, EpochProcessingError>
    decreases statuses.len() - i,
{
    if i < 0 || i >= statuses.len() {
        Ok(deltas)
    } else {
        match spec_status_applied(
            deltas,
            i as usize,
            statuses[i],
            total_balances,
            sqrt,
            finality_delay,
            include_proposer,
            subset,
            spec,
        ) {
            Err(e) => Err(e),
            Ok(deltas1) => spec_attestation_deltas_from(
                deltas1,
                statuses,
                i + 1,
                total_balances,
                sqrt,
                finality_delay,
                include_proposer,
                subset,
                spec,
            ),
        }
    }
}

/// The attestation deltas of the whole registry: one delta per validator,
/// every eligible status folded in — or the first error, starting with an
/// underflow where the finalized epoch lies past the previous epoch.
pub open spec fn spec_get_attestation_deltas(
    validators_len: int,
    statuses: Seq<ValidatorStatus>,
    total_balances: TotalBalances,
    previous_epoch: u64,
    finalized_epoch: u64,
    include_proposer: bool,
    subset: Option<Seq<usize>>,
    spec: &ChainSpec,
) -> Result<Seq<AttestationDelta>, EpochProcessingError> {
    if previous_epoch < finalized_epoch {
        Err(EpochProcessingError::Arith(ArithError::Overflow))
    } else {
        spec_attestation_deltas_from(
            spec_zero_deltas(validators_len as nat),
            statuses,
            0,
            total_balances,
            spec_integer_sqrt(total_balances.current_epoch),
            (previous_epoch - finalized_epoch) as u64,
            include_proposer,
            subset,
            spec,
        )
    }
}

/// Returns `true` if the vector contains the index.
fn contains_index(v: &Vec<usize>, x: usize) -> (r: bool)
    ensures
        r == v@.contains(x),
{
    let mut i: usize = 0;
    while i < v.len()
        invariant
            0 <= i <= v@.len(),
            forall|j: int| 0 <= j < i ==> v@[j] != x,
        decreases v@.len() - i,
    {
        if v[i] == x {
            return true;
        }
        i = i + 1;
    }
    proof {
        assert(!v@.contains(x));
    }
    false
}

/// Whether a delta for validator `idx` is wanted by the caller.
fn include_validator_delta(subset: Option<&Vec<usize>>, idx: usize) -> (r: bool)
    ensures
        r == spec_include_validator(spec_subset_view(subset), idx),
{
    match subset {
        None => true,
        Some(v) => contains_index(v, idx),
    }
}

/// Process one validator's status into the delta vector. On an error the
/// computation is abandoned (the vector may hold the validator's own
/// combined entry already; the caller discards it).
fn apply_status(
    deltas: &mut Vec<AttestationDelta>,
    index: usize,
    status: &ValidatorStatus,
    total_balances: &TotalBalances,
    sqrt: SqrtTotalActiveBalance,
    finality_delay: u64,
    include_proposer: bool,
    subset: Option<&Vec<usize>>,
    spec: &ChainSpec,
) -> (r: Result<(), EpochProcessingError>)
    ensures
        match spec_status_applied(
            old(deltas)@,
            index,
            *status,
            *total_balances,
            sqrt.spec_sqrt(),
            finality_delay,
            include_proposer,
            spec_subset_view(subset),
            spec,
        ) {
            Ok(d) => r == Ok::<(), EpochProcessingError>(()) && final(deltas)@ == d,
            Err(e) => r == Err::<(), EpochProcessingError>(e),
        },
{
    if !status.is_eligible {
        return Ok(());
    }

    let base_reward = match get_base_reward(
        status.current_epoch_effective_balance,
        sqrt,
        spec,
    ) {
        Ok(b) => b,
        Err(e) => {
            return Err(e);
        },
    };

    let (inclusion_delay_delta, proposer_delta) = match get_inclusion_delay_delta(
        status,
        base_reward,
        spec,
    ) {
        Ok(p) => p,
        Err(e) => {
            return Err(e);
        },
    };

    if include_validator_delta(subset, index) {
        let source_delta = match get_source_delta(
            status,
            base_reward,
            total_balances,
            finality_delay,
            spec,
        ) {
            Ok(d) => d,
            Err(e) => {
                return Err(e);
            },
        };
        let target_delta = match get_target_delta(
            status,
            base_reward,
            total_balances,
            finality_delay,
            spec,
        ) {
            Ok(d) => d,
            Err(e) => {
                return Err(e);
            },
        };
        let head_delta = match get_head_delta(
            status,
            base_reward,
            total_balances,
            finality_delay,
            spec,
        ) {
            Ok(d) => d,
            Err(e) => {
                return Err(e);
            },
        };
        let inactivity_penalty_delta = match get_inactivity_penalty_delta(
            status,
            base_reward,
            finality_delay,
            spec,
        ) {
            Ok(d) => d,
            Err(e) => {
                return Err(e);
            },
        };
        if index >= deltas.len() {
            return Err(EpochProcessingError::DeltaOutOfBounds(index));
        }
        let mut d = deltas[index];
        if let Err(e) = d.source_delta.combine(source_delta) {
            return Err(e);
        }
        if let Err(e) = d.target_delta.combine(target_delta) {
            return Err(e);
        }
        if let Err(e) = d.head_delta.combine(head_delta) {
            return Err(e);
        }
        if let Err(e) = d.inclusion_delay_delta.combine(inclusion_delay_delta) {
            return Err(e);
        }
        if let Err(e) = d.inactivity_penalty_delta.combine(inactivity_penalty_delta) {
            return Err(e);
        }
        deltas.set(index, d);
    }

    if include_proposer {
        if let Some((proposer_index, pd)) = proposer_delta {
            if include_validator_delta(subset, proposer_index) {
                if proposer_index >= deltas.len() {
                    return Err(EpochProcessingError::ValidatorStatusesInconsistent);
                }
                let mut entry = deltas[proposer_index];
                if let Err(e) = entry.inclusion_delay_delta.combine(pd) {
                    return Err(e);
                }
                deltas.set(proposer_index, entry);
            }
        }
    }

    Ok(())
}

/// Compute rewards for participation in attestations during the previous
/// epoch. If `maybe_validators_subset` is given, only the deltas of the
/// subset's validators are filled in; deltas of all validators are
/// computed otherwise.
fn get_attestation_deltas(
    state: &ChainState,
    validator_statuses: &ValidatorStatuses,
    proposer_reward: &ProposerRewardCalculation,
    maybe_validators_subset: Option<&Vec<usize>>,
    spec: &ChainSpec,
) -> (r: Result<Vec<AttestationDelta>, EpochProcessingError>)
    requires
        spec.wf(),
    ensures
        ({
            let expected = spec_get_attestation_deltas(
                state.validators@.len() as int,
                validator_statuses.statuses@,
                validator_statuses.total_balances,
                state.spec_previous_epoch(spec),
                state.finalized_checkpoint.epoch,
                *proposer_reward is Include,
                spec_subset_view(maybe_validators_subset),
                spec,
            );
            match r {
                Ok(v) => expected == Ok::<Seq<AttestationDelta>, EpochProcessingError>(v@),
                Err(e) => expected == Err::<Seq<AttestationDelta>, EpochProcessingError>(e),
            }
        }),
{
    let previous_epoch = state.previous_epoch(spec);
    let finality_delay = match safe_sub(previous_epoch, state.finalized_checkpoint.epoch) {
        Ok(d) => d,
        Err(e) => {
            return Err(EpochProcessingError::Arith(e));
        },
    };

    let n = state.validators.len();
    let mut deltas: Vec<AttestationDelta> = Vec::new();
    let mut k: usize = 0;
    while k < n
        invariant
            0 <= k <= n,
            deltas@.len() == k,
            forall|j: int| 0 <= j < k ==> deltas@[j] == spec_zero_attestation_delta(),
        decreases n - k,
    {
        deltas.push(AttestationDelta::default());
        k = k + 1;
    }
    proof {
        assert(deltas@ =~= spec_zero_deltas(state.validators@.len()));
    }

    let sqrt_total_active_balance = SqrtTotalActiveBalance::new(
        validator_statuses.total_balances.current_epoch,
    );
    let include_proposer = match proposer_reward {
        ProposerRewardCalculation::Include => true,
        ProposerRewardCalculation::Exclude => false,
    };

    let ghost initial_deltas = deltas@;
    let mut i: usize = 0;
    while i < validator_statuses.statuses.len()
        invariant
            0 <= i <= validator_statuses.statuses@.len(),
            spec.wf(),
            state.spec_previous_epoch(spec) >= state.finalized_checkpoint.epoch,
            finality_delay == state.spec_previous_epoch(spec)
                - state.finalized_checkpoint.epoch,
            initial_deltas == spec_zero_deltas(state.validators@.len()),
            sqrt_total_active_balance.spec_sqrt() == spec_integer_sqrt(
                validator_statuses.total_balances.current_epoch,
            ),
            include_proposer == (*proposer_reward is Include),
            spec_attestation_deltas_from(
                deltas@,
                validator_statuses.statuses@,
                i as int,
                validator_statuses.total_balances,
                sqrt_total_active_balance.spec_sqrt(),
                finality_delay,
                include_proposer,
                spec_subset_view(maybe_validators_subset),
                spec,
            ) == spec_attestation_deltas_from(
                initial_deltas,
                validator_statuses.statuses@,
                0,
                validator_statuses.total_balances,
                sqrt_total_active_balance.spec_sqrt(),
                finality_delay,
                include_proposer,
                spec_subset_view(maybe_validators_subset),
                spec,
            ),
        decreases validator_statuses.statuses@.len() - i,
    {
        let status = &validator_statuses.statuses[i];
        let ghost pre_deltas = deltas@;
        let step = apply_status(
            &mut deltas,
            i,
            status,
            &validator_statuses.total_balances,
            sqrt_total_active_balance,
            finality_delay,
            include_proposer,
            maybe_validators_subset,
            spec,
        );
        proof {
            assert(spec_attestation_deltas_from(
                pre_deltas,
                validator_statuses.statuses@,
                i as int,
                validator_statuses.total_balances,
                sqrt_total_active_balance.spec_sqrt(),
                finality_delay,
                include_proposer,
                spec_subset_view(maybe_validators_subset),
                spec,
            ) == match spec_status_applied(
                pre_deltas,
                i,
                validator_statuses.statuses@[i as int],
                validator_statuses.total_balances,
                sqrt_total_active_balance.spec_sqrt(),
                finality_delay,
                include_proposer,
                spec_subset_view(maybe_validators_subset),
                spec,
            ) {
                Err(e) => Err::<Seq<AttestationDelta>, EpochProcessingError>(e),
                Ok(d1) => spec_attestation_deltas_from(
                    d1,
                    validator_statuses.statuses@,
                    i + 1,
                    validator_statuses.total_balances,
                    sqrt_total_active_balance.spec_sqrt(),
                    finality_delay,
                    include_proposer,
                    spec_subset_view(maybe_validators_subset),
                    spec,
                ),
            });
        }
        match step {
            Ok(()) => {},
            Err(e) => {
                return Err(e);
            },
        }
        i = i + 1;
    }

    Ok(deltas)
}

/// Compute rewards for participation in attestations during the previous
/// epoch, for all validators.
pub fn get_attestation_deltas_all(
    state: &ChainState,
    validator_statuses: &ValidatorStatuses,
    proposer_reward: ProposerRewardCalculation,
    spec: &ChainSpec,
) -> (r: Result<Vec<AttestationDelta>, EpochProcessingError>)
    requires
        spec.wf(),
    ensures
        ({
            let expected = spec_get_attestation_deltas(
                state.validators@.len() as int,
                validator_statuses.statuses@,
                validator_statuses.total_balances,
                state.spec_previous_epoch(spec),
                state.finalized_checkpoint.epoch,
                proposer_reward is Include,
                None,
                spec,
            );
            match r {
                Ok(v) => expected == Ok::<Seq<AttestationDelta>, EpochProcessingError>(v@),
                Err(e) => expected == Err::<Seq<AttestationDelta>, EpochProcessingError>(e),
            }
        }),
{
    get_attestation_deltas(state, validator_statuses, &proposer_reward, None, spec)
}

/// The `(index, delta)` pairs of the subset's validators, in index order.
pub open spec fn spec_subset_pairs(
    deltas: Seq<AttestationDelta>,
    subset: Seq<usize>,
    k: int,
) -> Seq<(usize, AttestationDelta)>
    decreases k,
{
    if k <= 0 {
        Seq::empty()
    } else {
        let rest = spec_subset_pairs(deltas, subset, k - 1);
        if subset.contains((k - 1) as usize) {
            rest.push(((k - 1) as usize, deltas[k - 1]))
        } else {
            rest
        }
    }
}

/// Compute rewards for participation in attestations during the previous
/// epoch, returning `(index, delta)` pairs for the given subset of
/// validators only.
pub fn get_attestation_deltas_subset(
    state: &ChainState,
    validator_statuses: &ValidatorStatuses,
    proposer_reward: ProposerRewardCalculation,
    validators_subset: &Vec<usize>,
    spec: &ChainSpec,
) -> (r: Result<Vec<(usize, AttestationDelta)>, EpochProcessingError>)
    requires
        spec.wf(),
    ensures
        ({
            let expected = spec_get_attestation_deltas(
                state.validators@.len() as int,
                validator_statuses.statuses@,
                validator_statuses.total_balances,
                state.spec_previous_epoch(spec),
                state.finalized_checkpoint.epoch,
                proposer_reward is Include,
                Some(validators_subset@),
                spec,
            );
            match r {
                Ok(v) => expected matches Ok(d)
                    && v@ == spec_subset_pairs(d, validators_subset@, d.len() as int),
                Err(e) => expected == Err::<Seq<AttestationDelta>, EpochProcessingError>(e),
            }
        }),
{
    let deltas = match get_attestation_deltas(
        state,
        validator_statuses,
        &proposer_reward,
        Some(validators_subset),
        spec,
    ) {
        Ok(d) => d,
        Err(e) => {
            return Err(e);
        },
    };

    let mut pairs: Vec<(usize, AttestationDelta)> = Vec::new();
    let mut i: usize = 0;
    while i < deltas.len()
        invariant
            0 <= i <= deltas@.len(),
            pairs@ == spec_subset_pairs(deltas@, validators_subset@, i as int),
        decreases deltas@.len() - i,
    {
        if contains_index(validators_subset, i) {
            pairs.push((i, deltas[i]));
        }
        i = i + 1;
    }
    Ok(pairs)
}

/// The proposer credits of the first `k` slots of an epoch: the policy's
/// proposer magnitude to each slot's resolved proposer; a slot whose
/// proposer cannot be resolved (or whose number overflows) is skipped.
pub open spec fn spec_epoch_proposer_credits_upto(
    proposers: Seq<SlotProposer>,
    epoch_start: u64,
    amount: u64,
    k: int,
) -> Seq<Credit>
    decreases k,
{
    if k <= 0 {
        Seq::empty()
    } else {
        let rest = spec_epoch_proposer_credits_upto(proposers, epoch_start, amount, k - 1);
        if epoch_start + (k - 1) <= u64::MAX
            && spec_proposer_for_slot(proposers, (epoch_start + k - 1) as u64) is Some {
            rest.push(
                Credit {
                    index: spec_proposer_for_slot(
                        proposers,
                        (epoch_start + k - 1) as u64,
                    ).unwrap() as u64,
                    amount,
                },
            )
        } else {
            rest
        }
    }
}

/// The proposer credits of a whole epoch; a zero magnitude credits nobody.
pub open spec fn spec_epoch_proposer_credits(
    proposers: Seq<SlotProposer>,
    epoch_start: u64,
    amount: u64,
    slots_per_epoch: u64,
) -> Seq<Credit> {
    if amount == 0 {
        Seq::empty()
    } else {
        spec_epoch_proposer_credits_upto(proposers, epoch_start, amount, slots_per_epoch as int)
    }
}

/// The attester credits of an epoch: the policy's attestation magnitude to
/// every collected attester; a zero magnitude credits nobody.
pub open spec fn spec_epoch_attester_credits(
    validators: Seq<crate::validator::Validator>,
    prev: Seq<u8>,
    cur: Seq<u8>,
    epoch: u64,
    amount: u64,
) -> Seq<Credit> {
    if amount == 0 {
        Seq::empty()
    } else {
        spec_attester_credits(spec_collected_attesters(validators, prev, cur, epoch), amount)
    }
}

/// The sync-committee member credits of the first `k` seats: one credit
/// per seat whose public key resolves to a validator.
pub open spec fn spec_epoch_sync_member_credits_upto(
    committee: Seq<u64>,
    validators: Seq<crate::validator::Validator>,
    amount: u64,
    k: int,
) -> Seq<Credit>
    decreases k,
{
    if k <= 0 {
        Seq::empty()
    } else {
        let rest = spec_epoch_sync_member_credits_upto(committee, validators, amount, k - 1);
        match crate::state::spec_index_of_pubkey(validators, committee[k - 1]) {
            Some(idx) => rest.push(Credit { index: idx as u64, amount }),
            None => rest,
        }
    }
}

/// The sync-committee credits of an epoch: the policy's sync magnitude to
/// every committee member whose key resolves — resolved via public key,
/// never by raw bit position. A zero magnitude, or a state from before the
/// sync-committee fork, credits nobody.
pub open spec fn spec_epoch_sync_credits(
    fork: crate::chain_spec::ForkName,
    committee: Seq<u64>,
    validators: Seq<crate::validator::Validator>,
    amount: u64,
) -> Seq<Credit> {
    if amount == 0 || fork.order() < crate::chain_spec::ForkName::Altair.order() {
        Seq::empty()
    } else {
        spec_epoch_sync_member_credits_upto(committee, validators, amount, committee.len() as int)
    }
}

/// Apply attester, proposer and sync-committee rewards for the current
/// epoch, as the configured policy directs: the policy is evaluated once,
/// each slot's resolved proposer is credited the proposer magnitude, every
/// collected attester the attestation magnitude, and every resolved sync
/// committee member the sync magnitude — all through the saturating
/// ledger. A slot whose proposer cannot be resolved is skipped, and a
/// credit whose target is out of range is reported in the returned
/// failures and skipped, never escalated.
pub(crate) fn apply_epoch_policy_rewards(
    state: &mut ChainState,
    spec: &ChainSpec,
    config: &RewardConfig,
) -> (failures: Vec<RewardError>)
    requires
        old(state).wf(spec),
        spec.wf(),
    ensures
        unchanged_except_balances(old(state), final(state)),
        final(state).balances@.len() == old(state).balances@.len(),
        ({
            let amounts = spec_reward_amounts_at(
                config.schedule@,
                config.steady_amounts,
                old(state).spec_current_epoch(spec),
            );
            let epoch_start = (old(state).spec_current_epoch(spec)
                * spec.slots_per_epoch) as u64;
            let pc = spec_epoch_proposer_credits(
                old(state).proposers@,
                epoch_start,
                amounts.proposer_reward,
                spec.slots_per_epoch,
            );
            let ac = spec_epoch_attester_credits(
                old(state).validators@,
                old(state).previous_epoch_participation@,
                old(state).current_epoch_participation@,
                old(state).spec_current_epoch(spec),
                amounts.attestation_reward,
            );
            let sc = spec_epoch_sync_credits(
                old(state).fork,
                old(state).current_sync_committee@,
                old(state).validators@,
                amounts.sync_committee_reward,
            );
            let n = old(state).balances@.len();
            &&& final(state).balances@ == spec_apply_credits(
                spec_apply_credits(spec_apply_credits(old(state).balances@, pc), ac),
                sc,
            )
            &&& failures@ == spec_failed_credits(n, pc) + spec_failed_credits(n, ac)
                + spec_failed_credits(n, sc)
        }),
{
    let current_epoch = state.current_epoch(spec);
    let reward_amounts = calculate_reward_amounts(current_epoch, config);

    // The first slot of the current epoch. The product cannot overflow:
    // it is at most the state's own slot.
    proof {
        vstd::arithmetic::div_mod::lemma_fundamental_div_mod(
            state.slot as int,
            spec.slots_per_epoch as int,
        );
        assert(spec.slots_per_epoch * (state.slot as int / spec.slots_per_epoch as int)
            <= state.slot);
        assert(current_epoch * spec.slots_per_epoch
            == spec.slots_per_epoch * (state.slot as int / spec.slots_per_epoch as int))
            by (nonlinear_arith)
            requires current_epoch == state.slot as int / spec.slots_per_epoch as int,
        ;
    }
    let epoch_start = current_epoch * spec.slots_per_epoch;

    // Credit each slot's resolved proposer.
    let mut proposer_credits: Vec<Credit> = Vec::new();
    if reward_amounts.proposer_reward > 0 {
        let mut k: u64 = 0;
        while k < spec.slots_per_epoch
            invariant
                0 <= k <= spec.slots_per_epoch,
                proposer_credits@ == spec_epoch_proposer_credits_upto(
                    state.proposers@,
                    epoch_start,
                    reward_amounts.proposer_reward,
                    k as int,
                ),
            decreases spec.slots_per_epoch - k,
        {
            match epoch_start.checked_add(k) {
                Some(slot) => {
                    match state.get_beacon_proposer_index(slot) {
                        Some(proposer_index) => {
                            proposer_credits.push(Credit {
                                index: proposer_index as u64,
                                amount: reward_amounts.proposer_reward,
                            });
                        },
                        None => {},
                    }
                },
                None => {},
            }
            k = k + 1;
        }
    }
    let mut failures = apply_credits(state, &proposer_credits);

    // Credit every collected attester.
    let mut attester_credits: Vec<Credit> = Vec::new();
    if reward_amounts.attestation_reward > 0 {
        let attesters = collect_attesting_validators(state, spec);
        let mut i: usize = 0;
        while i < attesters.len()
            invariant
                0 <= i <= attesters@.len(),
                attester_credits@.len() == i,
                forall|j: int| 0 <= j < i ==> attester_credits@[j] == (Credit {
                    index: attesters@[j] as u64,
                    amount: reward_amounts.attestation_reward,
                }),
            decreases attesters@.len() - i,
        {
            attester_credits.push(Credit {
                index: attesters[i] as u64,
                amount: reward_amounts.attestation_reward,
            });
            i = i + 1;
        }
        proof {
            assert(attester_credits@ =~= spec_attester_credits(
                attesters@,
                reward_amounts.attestation_reward,
            ));
        }
    }
    let mut attester_failures = apply_credits(state, &attester_credits);
    failures.append(&mut attester_failures);

    // Credit every resolved sync-committee member.
    let mut sync_credits: Vec<Credit> = Vec::new();
    if reward_amounts.sync_committee_reward > 0 && state.fork.altair_enabled() {
        let mut i: usize = 0;
        while i < state.current_sync_committee.len()
            invariant
                0 <= i <= state.current_sync_committee@.len(),
                sync_credits@ == spec_epoch_sync_member_credits_upto(
                    state.current_sync_committee@,
                    state.validators@,
                    reward_amounts.sync_committee_reward,
                    i as int,
                ),
            decreases state.current_sync_committee@.len() - i,
        {
            let pubkey = state.current_sync_committee[i];
            match state.get_validator_index(pubkey) {
                Some(validator_index) => {
                    sync_credits.push(Credit {
                        index: validator_index as u64,
                        amount: reward_amounts.sync_committee_reward,
                    });
                    proof {
                        assert(crate::state::spec_index_of_pubkey(state.validators@, pubkey)
                            == Some(validator_index));
                    }
                },
                None => {
                    proof {
                        assert(crate::state::spec_index_of_pubkey(state.validators@, pubkey)
                            is None);
                    }
                },
            }
            i = i + 1;
        }
    }
    let mut sync_failures = apply_credits(state, &sync_credits);
    failures.append(&mut sync_failures);

    failures
}

/// Apply attester, proposer and sync-committee rewards for the current
/// epoch, as the configured policy directs. The validator statuses drive
/// the delta-based scoring path (`get_attestation_deltas_all`) and are not
/// consulted by the policy engine; the parameter is kept so both passes
/// share one interface.
pub fn process_rewards_and_penalties(
    state: &mut ChainState,
    validator_statuses: &ValidatorStatuses,
    spec: &ChainSpec,
    config: &RewardConfig,
) -> (failures: Vec<RewardError>)
    requires
        old(state).wf(spec),
        spec.wf(),
    ensures
        unchanged_except_balances(old(state), final(state)),
        final(state).balances@.len() == old(state).balances@.len(),
        ({
            let amounts = spec_reward_amounts_at(
                config.schedule@,
                config.steady_amounts,
                old(state).spec_current_epoch(spec),
            );
            let epoch_start = (old(state).spec_current_epoch(spec)
                * spec.slots_per_epoch) as u64;
            let pc = spec_epoch_proposer_credits(
                old(state).proposers@,
                epoch_start,
                amounts.proposer_reward,
                spec.slots_per_epoch,
            );
            let ac = spec_epoch_attester_credits(
                old(state).validators@,
                old(state).previous_epoch_participation@,
                old(state).current_epoch_participation@,
                old(state).spec_current_epoch(spec),
                amounts.attestation_reward,
            );
            let sc = spec_epoch_sync_credits(
                old(state).fork,
                old(state).current_sync_committee@,
                old(state).validators@,
                amounts.sync_committee_reward,
            );
            let n = old(state).balances@.len();
            &&& final(state).balances@ == spec_apply_credits(
                spec_apply_credits(spec_apply_credits(old(state).balances@, pc), ac),
                sc,
            )
            &&& failures@ == spec_failed_credits(n, pc) + spec_failed_credits(n, ac)
                + spec_failed_credits(n, sc)
        }),
{
    let _ = validator_statuses;
    apply_epoch_policy_rewards(state, spec, config)
}

} // verus!
