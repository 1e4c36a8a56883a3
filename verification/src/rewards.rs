//! The reward engine's policy layer: an epoch-indexed, non-increasing step
//! function giving the proposer, attester and sync-committee magnitudes,
//! an optional percentage split of each credit across the rewarded
//! validator and configured fee sinks, and the saturating application of
//! credits to the ledger.
//!
//! The exact magnitudes are deployment configuration, not protocol
//! constants: callers supply a `RewardConfig` rather than this crate baking
//! a table in.

use vstd::prelude::*;
use vstd::arithmetic::div_mod::{
    lemma_div_is_ordered, lemma_div_multiples_vanish, lemma_fundamental_div_mod,
};
use crate::chain_spec::ChainSpec;
use crate::errors::RewardError;
use crate::math::spec_saturating_add;
use crate::state::{unchanged_except_balances, ChainState};

verus! {

/// The three reward magnitudes a policy yields for one epoch, in the
/// chain's smallest balance unit.
#[derive(Clone, Copy, Debug, PartialEq, Eq, Structural)]
pub struct RewardAmounts {
    pub proposer_reward: u64,
    pub attestation_reward: u64,
    pub sync_committee_reward: u64,
}

/// One step of the policy's epoch-indexed step function: these amounts
/// apply through `last_epoch` inclusive.
#[derive(Clone, Copy, Debug, PartialEq, Eq, Structural)]
pub struct PolicyStep {
    pub last_epoch: u64,
    pub amounts: RewardAmounts,
}

/// One protocol-designated fee sink: a reserved validator index and the
/// percentage of each credit it receives.
#[derive(Clone, Copy, Debug, PartialEq, Eq, Structural)]
pub struct RewardSink {
    pub index: usize,
    pub percentage: u64,
}

/// The reward policy: a step schedule of magnitudes by epoch, the steady
/// amounts that apply past the schedule, and the percentage split of each
/// credit between the rewarded validator and the fee sinks.
#[derive(Clone, Debug)]
pub struct RewardConfig {
    /// Epoch-range steps, consulted first-match; each step applies through
    /// its `last_epoch` inclusive.
    pub schedule: Vec<PolicyStep>,
    /// The amounts in force past every scheduled step.
    pub steady_amounts: RewardAmounts,
    /// The rewarded validator's percentage of each credit.
    pub validator_percentage: u64,
    /// The fee sinks and their percentages.
    pub sinks: Vec<RewardSink>,
}

/// Componentwise comparison of reward magnitudes.
pub open spec fn spec_amounts_le(a: RewardAmounts, b: RewardAmounts) -> bool {
    &&& a.proposer_reward <= b.proposer_reward
    &&& a.attestation_reward <= b.attestation_reward
    &&& a.sync_committee_reward <= b.sync_committee_reward
}

/// The sum of the sink percentages.
pub open spec fn spec_pct_sum(sinks: Seq<RewardSink>) -> int
    decreases sinks.len(),
{
    if sinks.len() == 0 {
        0
    } else {
        spec_pct_sum(sinks.drop_last()) + sinks.last().percentage
    }
}

impl RewardConfig {
    /// The percentage split is exact: the validator share and all sink
    /// shares sum to exactly 100.
    pub open spec fn split_wf(&self) -> bool {
        self.validator_percentage + spec_pct_sum(self.sinks@) == 100
    }

    /// The step function is non-increasing: along the schedule the
    /// magnitudes never grow, and the steady amounts are at or below every
    /// step.
    pub open spec fn schedule_monotone(&self) -> bool {
        &&& forall|i: int, j: int| 0 <= i < j < self.schedule@.len()
            ==> spec_amounts_le(self.schedule@[j].amounts, self.schedule@[i].amounts)
        &&& forall|i: int| 0 <= i < self.schedule@.len()
            ==> spec_amounts_le(self.steady_amounts, #[trigger] self.schedule@[i].amounts)
    }

    /// A valid policy: an exact split and a non-increasing step function.
    pub open spec fn wf(&self) -> bool {
        self.split_wf() && self.schedule_monotone()
    }
}

impl Default for RewardConfig {
    /// The default policy has exactly two regimes: an initial-incentive
    /// regime through epoch 2, and a steady-state regime of zero magnitudes
    /// from epoch 3 on. Credits split 70% to the rewarded validator and 20%
    /// and 10% to the two reserved sink indices.
    fn default() -> (c: RewardConfig)
        ensures
            c.schedule@.len() == 1,
            c.schedule@[0] == (PolicyStep {
                last_epoch: 2,
                amounts: RewardAmounts {
                    proposer_reward: 2_600_000_000,
                    attestation_reward: 100_000,
                    sync_committee_reward: 100_000,
                },
            }),
            c.steady_amounts == (RewardAmounts {
                proposer_reward: 0,
                attestation_reward: 0,
                sync_committee_reward: 0,
            }),
            c.validator_percentage == 70,
            c.sinks@.len() == 2,
            c.sinks@[0] == (RewardSink { index: 0, percentage: 20 }),
            c.sinks@[1] == (RewardSink { index: 1, percentage: 10 }),
            c.wf(),
    {
        let mut schedule: Vec<PolicyStep> = Vec::new();
        schedule.push(PolicyStep {
            last_epoch: 2,
            amounts: RewardAmounts {
                proposer_reward: 2_600_000_000,
                attestation_reward: 100_000,
                sync_committee_reward: 100_000,
            },
        });
        let mut sinks: Vec<RewardSink> = Vec::new();
        sinks.push(RewardSink { index: 0, percentage: 20 });
        sinks.push(RewardSink { index: 1, percentage: 10 });
        let c = RewardConfig {
            schedule,
            steady_amounts: RewardAmounts {
                proposer_reward: 0,
                attestation_reward: 0,
                sync_committee_reward: 0,
            },
            validator_percentage: 70,
            sinks,
        };
        proof {
            reveal_with_fuel(spec_pct_sum, 3);
            assert(c.sinks@.drop_last().drop_last() =~= Seq::<RewardSink>::empty());
            assert(spec_pct_sum(c.sinks@) == 30);
        }
        c
    }
}

/// The magnitudes a schedule yields at an epoch: the first step whose
/// `last_epoch` is at or past the epoch, or the steady amounts where no
/// step matches.
pub open spec fn spec_reward_amounts_at(
    schedule: Seq<PolicyStep>,
    steady: RewardAmounts,
    epoch: u64,
) -> RewardAmounts
    decreases schedule.len(),
{
    if schedule.len() == 0 {
        steady
    } else if epoch <= schedule[0].last_epoch {
        schedule[0].amounts
    } else {
        spec_reward_amounts_at(schedule.drop_first(), steady, epoch)
    }
}

/// Calculate the reward amounts for an epoch from the policy: its step
/// function evaluated once. Pure: the same epoch always yields the same
/// amounts.
pub fn calculate_reward_amounts(current_epoch: u64, config: &RewardConfig) -> (r: RewardAmounts)
    ensures
        r == spec_reward_amounts_at(config.schedule@, config.steady_amounts, current_epoch),
{
    let mut i: usize = 0;
    proof {
        assert(config.schedule@.skip(0) =~= config.schedule@);
    }
    while i < config.schedule.len()
        invariant
            0 <= i <= config.schedule@.len(),
            spec_reward_amounts_at(config.schedule@.skip(i as int), config.steady_amounts, current_epoch)
                == spec_reward_amounts_at(config.schedule@, config.steady_amounts, current_epoch),
            forall|j: int| 0 <= j < i ==> current_epoch > #[trigger] config.schedule@[j].last_epoch,
        decreases config.schedule@.len() - i,
    {
        if current_epoch <= config.schedule[i].last_epoch {
            proof {
                assert(config.schedule@.skip(i as int)[0] == config.schedule@[i as int]);
            }
            return config.schedule[i].amounts;
        }
        proof {
            assert(config.schedule@.skip(i as int).drop_first() =~= config.schedule@.skip(i + 1));
            assert(config.schedule@.skip(i as int)[0] == config.schedule@[i as int]);
        }
        i = i + 1;
    }
    proof {
        assert(config.schedule@.skip(config.schedule@.len() as int).len() == 0);
    }
    config.steady_amounts
}

/// Whatever epoch a monotone schedule is evaluated at, the result is at or
/// below its first step's amounts (or the steady amounts where it has no
/// step).
proof fn lemma_policy_amounts_bounded(schedule: Seq<PolicyStep>, steady: RewardAmounts, epoch: u64)
    requires
        forall|i: int, j: int| 0 <= i < j < schedule.len()
            ==> spec_amounts_le(schedule[j].amounts, schedule[i].amounts),
        forall|i: int| 0 <= i < schedule.len()
            ==> spec_amounts_le(steady, #[trigger] schedule[i].amounts),
    ensures
        schedule.len() == 0 ==> spec_reward_amounts_at(schedule, steady, epoch) == steady,
        schedule.len() > 0 ==> spec_amounts_le(
            spec_reward_amounts_at(schedule, steady, epoch),
            schedule[0].amounts,
        ),
    decreases schedule.len(),
{
    if schedule.len() == 0 {
    } else if epoch <= schedule[0].last_epoch {
    } else {
        let rest = schedule.drop_first();
        assert forall|i: int, j: int| 0 <= i < j < rest.len()
            implies spec_amounts_le(rest[j].amounts, rest[i].amounts) by {
            assert(rest[i] == schedule[i + 1]);
            assert(rest[j] == schedule[j + 1]);
        }
        assert forall|i: int| 0 <= i < rest.len()
            implies spec_amounts_le(steady, #[trigger] rest[i].amounts) by {
            assert(rest[i] == schedule[i + 1]);
        }
        lemma_policy_amounts_bounded(rest, steady, epoch);
        if rest.len() > 0 {
            assert(rest[0] == schedule[1]);
            assert(spec_amounts_le(schedule[1].amounts, schedule[0].amounts));
        }
    }
}

/// Law: reward-policy monotonicity. For any valid policy — the default one
/// included — the reward magnitudes at epoch `e + 1` are never greater than
/// the magnitudes at epoch `e`, in each of the three reward classes.
pub proof fn lemma_reward_policy_monotone(config: &RewardConfig, e: u64)
    requires
        config.wf(),
        e < u64::MAX,
    ensures
        spec_amounts_le(
            spec_reward_amounts_at(config.schedule@, config.steady_amounts, (e + 1) as u64),
            spec_reward_amounts_at(config.schedule@, config.steady_amounts, e),
        ),
{
    lemma_reward_schedule_monotone(config.schedule@, config.steady_amounts, e);
}

/// The step-function evaluation is non-increasing in the epoch, for any
/// monotone schedule.
proof fn lemma_reward_schedule_monotone(schedule: Seq<PolicyStep>, steady: RewardAmounts, e: u64)
    requires
        e < u64::MAX,
        forall|i: int, j: int| 0 <= i < j < schedule.len()
            ==> spec_amounts_le(schedule[j].amounts, schedule[i].amounts),
        forall|i: int| 0 <= i < schedule.len()
            ==> spec_amounts_le(steady, #[trigger] schedule[i].amounts),
    ensures
        spec_amounts_le(
            spec_reward_amounts_at(schedule, steady, (e + 1) as u64),
            spec_reward_amounts_at(schedule, steady, e),
        ),
    decreases schedule.len(),
{
    if schedule.len() == 0 {
    } else if e + 1 <= schedule[0].last_epoch {
    } else {
        let rest = schedule.drop_first();
        assert forall|i: int, j: int| 0 <= i < j < rest.len()
            implies spec_amounts_le(rest[j].amounts, rest[i].amounts) by {
            assert(rest[i] == schedule[i + 1]);
            assert(rest[j] == schedule[j + 1]);
        }
        assert forall|i: int| 0 <= i < rest.len()
            implies spec_amounts_le(steady, #[trigger] rest[i].amounts) by {
            assert(rest[i] == schedule[i + 1]);
        }
        if e <= schedule[0].last_epoch {
            // The epoch steps off this schedule entry: whatever the rest
            // yields, it is bounded by this entry's amounts.
            lemma_policy_amounts_bounded(rest, steady, (e + 1) as u64);
            if rest.len() > 0 {
                assert(rest[0] == schedule[1]);
                assert(spec_amounts_le(schedule[1].amounts, schedule[0].amounts));
            }
        } else {
            lemma_reward_schedule_monotone(rest, steady, e);
        }
    }
}

/// The share a percentage takes of an amount, rounded down.
pub open spec fn spec_sink_share(amount: u64, percentage: u64) -> int {
    (amount * percentage) / 100
}

/// The sum of all sink shares of an amount.
pub open spec fn spec_sink_shares_sum(amount: u64, sinks: Seq<RewardSink>) -> int
    decreases sinks.len(),
{
    if sinks.len() == 0 {
        0
    } else {
        spec_sink_shares_sum(amount, sinks.drop_last())
            + spec_sink_share(amount, sinks.last().percentage)
    }
}

/// For non-negative numerators, the sum of two floored hundredths is at
/// most the floored hundredth of the sum.
proof fn lemma_div100_sum_le(x: int, y: int)
    requires
        x >= 0,
        y >= 0,
    ensures
        x / 100 + y / 100 <= (x + y) / 100,
{
    lemma_fundamental_div_mod(x, 100);
    lemma_fundamental_div_mod(y, 100);
    assert(x + y >= 100 * (x / 100 + y / 100));
    lemma_div_multiples_vanish(x / 100 + y / 100, 100);
    lemma_div_is_ordered(100 * (x / 100 + y / 100), x + y, 100);
}

/// A share of at most 100 percent is at most the amount, and non-negative.
proof fn lemma_share_le_amount(amount: u64, pct: u64)
    requires
        pct <= 100,
    ensures
        0 <= spec_sink_share(amount, pct) <= amount,
{
    assert(0 <= amount * pct <= amount * 100) by (nonlinear_arith)
        requires 0 <= pct <= 100, amount >= 0,
    ;
    lemma_div_is_ordered(0, amount * pct, 100);
    lemma_div_is_ordered(amount * pct, amount * 100, 100);
    assert(amount * 100 == 100 * amount) by (nonlinear_arith);
    lemma_div_multiples_vanish(amount as int, 100);
}

/// Every percentage of a split-valid sink list is at most 100, and so is
/// any prefix sum.
proof fn lemma_pct_prefix(sinks: Seq<RewardSink>, i: int)
    requires
        0 <= i < sinks.len(),
    ensures
        spec_pct_sum(sinks.take(i + 1)) == spec_pct_sum(sinks.take(i)) + sinks[i].percentage,
        spec_pct_sum(sinks.take(i)) >= 0,
    decreases sinks.len(),
{
    assert(sinks.take(i + 1).drop_last() =~= sinks.take(i));
    assert(sinks.take(i + 1).last() == sinks[i]);
    lemma_pct_sum_nonneg(sinks.take(i));
}

/// Percentage sums are non-negative.
proof fn lemma_pct_sum_nonneg(sinks: Seq<RewardSink>)
    ensures
        spec_pct_sum(sinks) >= 0,
    decreases sinks.len(),
{
    if sinks.len() > 0 {
        lemma_pct_sum_nonneg(sinks.drop_last());
    }
}

/// A prefix percentage sum never exceeds the whole sum.
proof fn lemma_pct_prefix_le_total(sinks: Seq<RewardSink>, i: int)
    requires
        0 <= i <= sinks.len(),
    ensures
        spec_pct_sum(sinks.take(i)) <= spec_pct_sum(sinks),
    decreases sinks.len() - i,
{
    if i == sinks.len() {
        assert(sinks.take(i) =~= sinks);
    } else {
        lemma_pct_prefix(sinks, i);
        lemma_pct_prefix_le_total(sinks, i + 1);
    }
}

/// The split of one credit: the rewarded validator's share and one share
/// per configured sink.
pub struct RewardSplit {
    pub validator_share: u64,
    pub sink_shares: Vec<u64>,
}

/// Split an amount between the rewarded validator and the fee sinks: each
/// sink takes its percentage rounded down, and the validator takes all the
/// rest, so that the shares always sum to exactly the amount — no balance
/// is lost or fabricated, whatever the rounding.
pub fn split_reward(amount: u64, config: &RewardConfig) -> (r: RewardSplit)
    requires
        config.split_wf(),
    ensures
        r.sink_shares@.len() == config.sinks@.len(),
        forall|i: int| 0 <= i < config.sinks@.len()
            ==> r.sink_shares@[i] == spec_sink_share(amount, config.sinks@[i].percentage),
        r.validator_share + spec_sink_shares_sum(amount, config.sinks@) == amount,
{
    let mut sink_shares: Vec<u64> = Vec::new();
    let mut total_sink: u64 = 0;
    let mut i: usize = 0;
    while i < config.sinks.len()
        invariant
            0 <= i <= config.sinks@.len(),
            config.split_wf(),
            sink_shares@.len() == i,
            forall|j: int| 0 <= j < i
                ==> sink_shares@[j] == spec_sink_share(amount, config.sinks@[j].percentage),
            total_sink == spec_sink_shares_sum(amount, config.sinks@.take(i as int)),
            total_sink <= (amount * spec_pct_sum(config.sinks@.take(i as int))) / 100,
            spec_pct_sum(config.sinks@.take(i as int)) <= 100,
        decreases config.sinks@.len() - i,
    {
        let pct = config.sinks[i].percentage;
        proof {
            lemma_pct_prefix(config.sinks@, i as int);
            lemma_pct_prefix_le_total(config.sinks@, i + 1);
            lemma_pct_sum_nonneg(config.sinks@);
            assert(spec_pct_sum(config.sinks@.take(i + 1)) <= 100);
            assert(pct <= 100);
            lemma_share_le_amount(amount, pct);
        }
        proof {
            assert((amount as u128) * (pct as u128) <= u128::MAX) by (nonlinear_arith)
                requires amount <= u64::MAX, pct <= u64::MAX,
            ;
        }
        let wide = (amount as u128) * (pct as u128);
        let share = (wide / 100) as u64;
        proof {
            assert(share == spec_sink_share(amount, pct));
            // The running total stays within the running percentage share
            // of the amount.
            let p_before = spec_pct_sum(config.sinks@.take(i as int));
            let p_after = spec_pct_sum(config.sinks@.take(i + 1));
            assert(amount * p_before >= 0 && amount * pct >= 0) by (nonlinear_arith)
                requires p_before >= 0, pct >= 0, amount >= 0,
            ;
            lemma_div100_sum_le(amount * p_before, amount * pct);
            assert(amount * p_before + amount * pct == amount * p_after) by (nonlinear_arith)
                requires p_after == p_before + pct,
            ;
            assert(total_sink + share <= (amount * p_after) / 100);
            assert(amount * p_after <= amount * 100) by (nonlinear_arith)
                requires p_after <= 100, amount >= 0,
            ;
            lemma_div_is_ordered(amount * p_after, amount * 100, 100);
            assert(amount * 100 == 100 * amount) by (nonlinear_arith);
            lemma_div_multiples_vanish(amount as int, 100);
            assert(total_sink + share <= amount);
            assert(config.sinks@.take(i + 1).drop_last() =~= config.sinks@.take(i as int));
        }
        total_sink = total_sink + share;
        sink_shares.push(share);
        i = i + 1;
    }
    proof {
        assert(config.sinks@.take(config.sinks@.len() as int) =~= config.sinks@);
        lemma_pct_sum_nonneg(config.sinks@);
        assert(amount * spec_pct_sum(config.sinks@) <= amount * 100) by (nonlinear_arith)
            requires spec_pct_sum(config.sinks@) <= 100, amount >= 0,
        ;
        lemma_div_is_ordered(amount * spec_pct_sum(config.sinks@), amount * 100, 100);
        assert(amount * 100 == 100 * amount) by (nonlinear_arith);
        lemma_div_multiples_vanish(amount as int, 100);
    }
    let validator_share = amount - total_sink;
    RewardSplit { validator_share, sink_shares }
}

/// One pending credit: a target balance index and a saturating amount.
#[derive(Clone, Copy, Debug, PartialEq, Eq, Structural)]
pub struct Credit {
    pub index: u64,
    pub amount: u64,
}

/// One credit applied to a balance sequence: a saturating increase where
/// the target is in range, and no change at all where it is not.
pub open spec fn spec_credit(balances: Seq<u64>, c: Credit) -> Seq<u64> {
    if c.index < balances.len() {
        balances.update(c.index as int, spec_saturating_add(balances[c.index as int], c.amount))
    } else {
        balances
    }
}

/// A list of credits applied in order.
pub open spec fn spec_apply_credits(balances: Seq<u64>, credits: Seq<Credit>) -> Seq<u64>
    decreases credits.len(),
{
    if credits.len() == 0 {
        balances
    } else {
        spec_apply_credits(spec_credit(balances, credits[0]), credits.drop_first())
    }
}

/// The failures a list of credits reports: one per out-of-range target, in
/// order.
pub open spec fn spec_failed_credits(balances_len: nat, credits: Seq<Credit>) -> Seq<RewardError>
    decreases credits.len(),
{
    if credits.len() == 0 {
        Seq::empty()
    } else {
        let rest = spec_failed_credits(balances_len, credits.drop_first());
        if credits[0].index >= balances_len {
            seq![RewardError::TargetOutOfRange(credits[0].index)] + rest
        } else {
            rest
        }
    }
}

/// Apply a list of credits to the ledger, in order. Each credit is an
/// independent saturating increase; a target out of range is reported in
/// the returned failures and skipped — partial application is acceptable
/// because each credit is idempotent to skip and independent to apply.
pub fn apply_credits(state: &mut ChainState, credits: &Vec<Credit>) -> (failures: Vec<RewardError>)
    ensures
        unchanged_except_balances(old(state), final(state)),
        final(state).balances@.len() == old(state).balances@.len(),
        final(state).balances@ == spec_apply_credits(old(state).balances@, credits@),
        failures@ == spec_failed_credits(old(state).balances@.len(), credits@),
{
    let ghost orig_balances = state.balances@;
    let mut failures: Vec<RewardError> = Vec::new();
    let mut i: usize = 0;
    proof {
        assert(credits@.skip(0) =~= credits@);
        assert(failures@ + spec_failed_credits(orig_balances.len(), credits@)
            =~= spec_failed_credits(orig_balances.len(), credits@));
    }
    while i < credits.len()
        invariant
            0 <= i <= credits@.len(),
            unchanged_except_balances(old(state), state),
            state.balances@.len() == orig_balances.len(),
            orig_balances == old(state).balances@,
            spec_apply_credits(state.balances@, credits@.skip(i as int))
                == spec_apply_credits(orig_balances, credits@),
            failures@ + spec_failed_credits(orig_balances.len(), credits@.skip(i as int))
                == spec_failed_credits(orig_balances.len(), credits@),
        decreases credits@.len() - i,
    {
        let c = credits[i];
        proof {
            assert(credits@.skip(i as int).drop_first() =~= credits@.skip(i + 1));
            assert(credits@.skip(i as int)[0] == credits@[i as int]);
        }
        if c.index < state.balances.len() as u64 {
            let target = c.index as usize;
            let current = state.balances[target];
            let updated = crate::math::saturating_add(current, c.amount);
            state.balances.set(target, updated);
        } else {
            let ghost pre_failures = failures@;
            failures.push(RewardError::TargetOutOfRange(c.index));
            proof {
                assert(failures@ + spec_failed_credits(orig_balances.len(), credits@.skip(i + 1))
                    =~= pre_failures + (seq![RewardError::TargetOutOfRange(c.index)]
                        + spec_failed_credits(orig_balances.len(), credits@.skip(i + 1))));
            }
        }
        i = i + 1;
    }
    proof {
        assert(credits@.skip(credits@.len() as int).len() == 0);
        assert(failures@ + Seq::<RewardError>::empty() =~= failures@);
    }
    failures
}

/// The validator at `i` has any participation flag bit set for the
/// previous or the current epoch.
pub open spec fn spec_has_participation_flags(prev: Seq<u8>, cur: Seq<u8>, i: int) -> bool {
    ||| (0 <= i < prev.len() && prev[i] > 0)
    ||| (0 <= i < cur.len() && cur[i] > 0)
}

/// Some validator of the registry has a participation flag set.
pub open spec fn spec_any_participation(n: int, prev: Seq<u8>, cur: Seq<u8>) -> bool {
    exists|i: int| 0 <= i < n && spec_has_participation_flags(prev, cur, i)
}

/// Whether the attestation-reward pass collects validator `i`: any
/// validator with a participation flag set — or, where no validator has
/// one (the degenerate-state fallback), any validator active in the
/// current epoch, so the policy still has a non-empty target.
pub open spec fn spec_collects_attester(
    validators: Seq<crate::validator::Validator>,
    prev: Seq<u8>,
    cur: Seq<u8>,
    epoch: u64,
    i: int,
) -> bool {
    if spec_any_participation(validators.len() as int, prev, cur) {
        spec_has_participation_flags(prev, cur, i)
    } else {
        validators[i].spec_is_active_at(epoch)
    }
}

/// The collected attesters among the first `k` validators, ascending.
pub open spec fn spec_collected_upto(
    validators: Seq<crate::validator::Validator>,
    prev: Seq<u8>,
    cur: Seq<u8>,
    epoch: u64,
    k: int,
) -> Seq<usize>
    decreases k,
{
    if k <= 0 {
        Seq::empty()
    } else {
        let rest = spec_collected_upto(validators, prev, cur, epoch, k - 1);
        if spec_collects_attester(validators, prev, cur, epoch, k - 1) {
            rest.push((k - 1) as usize)
        } else {
            rest
        }
    }
}

/// All validator indices the attestation-reward pass collects, ascending.
pub open spec fn spec_collected_attesters(
    validators: Seq<crate::validator::Validator>,
    prev: Seq<u8>,
    cur: Seq<u8>,
    epoch: u64,
) -> Seq<usize> {
    spec_collected_upto(validators, prev, cur, epoch, validators.len() as int)
}

/// Collect all validator indices eligible for attestation rewards: those
/// with any participation flag set in the previous or current epoch — or,
/// if no validator has one, every validator active in the current epoch,
/// so that rewards continue even if participation tracking has issues.
pub fn collect_attesting_validators(state: &ChainState, spec: &ChainSpec) -> (r: Vec<usize>)
    requires
        state.wf(spec),
        spec.wf(),
    ensures
        r@ == spec_collected_attesters(
            state.validators@,
            state.previous_epoch_participation@,
            state.current_epoch_participation@,
            state.spec_current_epoch(spec),
        ),
{
    let n = state.validators.len();
    let mut any: bool = false;
    let mut i: usize = 0;
    while i < n
        invariant
            0 <= i <= n,
            n == state.validators@.len(),
            state.wf(spec),
            any ==> spec_any_participation(
                n as int,
                state.previous_epoch_participation@,
                state.current_epoch_participation@,
            ),
            !any ==> forall|j: int| 0 <= j < i ==> !spec_has_participation_flags(
                state.previous_epoch_participation@,
                state.current_epoch_participation@,
                j,
            ),
        decreases n - i,
    {
        if state.previous_epoch_participation[i] > 0 || state.current_epoch_participation[i] > 0 {
            proof {
                assert(spec_has_participation_flags(
                    state.previous_epoch_participation@,
                    state.current_epoch_participation@,
                    i as int,
                ));
            }
            any = true;
        }
        i = i + 1;
    }
    proof {
        assert(any == spec_any_participation(
            n as int,
            state.previous_epoch_participation@,
            state.current_epoch_participation@,
        ));
    }

    let current_epoch = state.current_epoch(spec);
    let mut r: Vec<usize> = Vec::new();
    let mut k: usize = 0;
    while k < n
        invariant
            0 <= k <= n,
            n == state.validators@.len(),
            state.wf(spec),
            spec.wf(),
            current_epoch == state.spec_current_epoch(spec),
            any == spec_any_participation(
                n as int,
                state.previous_epoch_participation@,
                state.current_epoch_participation@,
            ),
            r@ == spec_collected_upto(
                state.validators@,
                state.previous_epoch_participation@,
                state.current_epoch_participation@,
                current_epoch,
                k as int,
            ),
        decreases n - k,
    {
        let collected = if any {
            state.previous_epoch_participation[k] > 0
                || state.current_epoch_participation[k] > 0
        } else {
            state.validators[k].is_active_at(current_epoch)
        };
        if collected {
            r.push(k);
        }
        k = k + 1;
    }
    r
}

/// The share of each credit that stays with the rewarded validator: the
/// whole amount less the sink shares, so rounding remainders are never
/// lost.
pub open spec fn spec_validator_share(amount: u64, config: &RewardConfig) -> u64 {
    (amount - spec_sink_shares_sum(amount, config.sinks@)) as u64
}

/// One credit per configured sink: its share of the amount, multiplied by
/// the number of rewarded validators (saturating), applied once per sink.
pub open spec fn spec_split_sink_credits(amount: u64, config: &RewardConfig, count: u64) -> Seq<
    Credit,
> {
    Seq::new(
        config.sinks@.len(),
        |i: int| Credit {
            index: config.sinks@[i].index as u64,
            amount: crate::math::spec_saturating_mul(
                spec_sink_share(amount, config.sinks@[i].percentage) as u64,
                count,
            ),
        },
    )
}

/// One credit per rewarded validator, all of the same share.
pub open spec fn spec_attester_credits(attesters: Seq<usize>, share: u64) -> Seq<Credit> {
    Seq::new(
        attesters.len(),
        |i: int| Credit { index: attesters[i] as u64, amount: share },
    )
}

/// The credits a proposer reward issues: the validator share to the
/// proposer, then each sink's share, in configuration order. A zero amount
/// issues nothing.
pub open spec fn spec_proposer_credits(
    proposer_index: u64,
    amount: u64,
    config: &RewardConfig,
) -> Seq<Credit> {
    if amount == 0 {
        Seq::empty()
    } else {
        seq![Credit { index: proposer_index, amount: spec_validator_share(amount, config) }]
            + spec_split_sink_credits(amount, config, 1)
    }
}

/// Apply the proposer reward for one block, split between the proposer and
/// the configured fee sinks. Unresolvable targets are reported in the
/// returned failures and skipped, never escalated.
pub fn apply_proposer_reward(
    state: &mut ChainState,
    proposer_index: u64,
    reward_amount: u64,
    config: &RewardConfig,
) -> (failures: Vec<RewardError>)
    requires
        config.split_wf(),
    ensures
        unchanged_except_balances(old(state), final(state)),
        final(state).balances@.len() == old(state).balances@.len(),
        final(state).balances@ == spec_apply_credits(
            old(state).balances@,
            spec_proposer_credits(proposer_index, reward_amount, config),
        ),
        failures@ == spec_failed_credits(
            old(state).balances@.len(),
            spec_proposer_credits(proposer_index, reward_amount, config),
        ),
{
    if reward_amount == 0 {
        return Vec::new();
    }
    let split = split_reward(reward_amount, config);
    let mut credits: Vec<Credit> = Vec::new();
    credits.push(Credit { index: proposer_index, amount: split.validator_share });
    let mut i: usize = 0;
    while i < config.sinks.len()
        invariant
            0 <= i <= config.sinks@.len(),
            split.sink_shares@.len() == config.sinks@.len(),
            credits@.len() == 1 + i,
            credits@[0] == (Credit { index: proposer_index, amount: split.validator_share }),
            forall|j: int| 0 <= j < i ==> credits@[j + 1] == (Credit {
                index: config.sinks@[j].index as u64,
                amount: split.sink_shares@[j],
            }),
        decreases config.sinks@.len() - i,
    {
        credits.push(Credit {
            index: config.sinks[i].index as u64,
            amount: split.sink_shares[i],
        });
        i = i + 1;
    }
    proof {
        let expected = spec_proposer_credits(proposer_index, reward_amount, config);
        assert forall|k: int| 0 <= k < credits@.len() implies credits@[k] == expected[k] by {
            if k > 0 {
                assert(credits@[k] == (Credit {
                    index: config.sinks@[k - 1].index as u64,
                    amount: split.sink_shares@[k - 1],
                }));
                assert(split.sink_shares@[k - 1]
                    == spec_sink_share(reward_amount, config.sinks@[k - 1].percentage));
            }
        }
        assert(credits@ =~= expected);
    }
    apply_credits(state, &credits)
}

/// The credits an attestation reward issues: the validator share to every
/// collected attester, then each sink's share aggregated over the number
/// of attesters. A zero amount issues nothing.
pub open spec fn spec_attestation_credits(
    validators: Seq<crate::validator::Validator>,
    prev: Seq<u8>,
    cur: Seq<u8>,
    epoch: u64,
    amount: u64,
    config: &RewardConfig,
) -> Seq<Credit> {
    if amount == 0 {
        Seq::empty()
    } else {
        let attesters = spec_collected_attesters(validators, prev, cur, epoch);
        spec_attester_credits(attesters, spec_validator_share(amount, config))
            + spec_split_sink_credits(amount, config, attesters.len() as u64)
    }
}

/// Apply attestation rewards to all eligible validators, split between the
/// attesters and the configured fee sinks: the sink shares are aggregated
/// across all rewarded validators and applied once per sink. Unresolvable
/// targets are reported in the returned failures and skipped.
pub fn apply_attestation_rewards(
    state: &mut ChainState,
    reward_amount: u64,
    config: &RewardConfig,
    spec: &ChainSpec,
) -> (failures: Vec<RewardError>)
    requires
        old(state).wf(spec),
        spec.wf(),
        config.split_wf(),
    ensures
        unchanged_except_balances(old(state), final(state)),
        final(state).balances@.len() == old(state).balances@.len(),
        final(state).balances@ == spec_apply_credits(
            old(state).balances@,
            spec_attestation_credits(
                old(state).validators@,
                old(state).previous_epoch_participation@,
                old(state).current_epoch_participation@,
                old(state).spec_current_epoch(spec),
                reward_amount,
                config,
            ),
        ),
        failures@ == spec_failed_credits(
            old(state).balances@.len(),
            spec_attestation_credits(
                old(state).validators@,
                old(state).previous_epoch_participation@,
                old(state).current_epoch_participation@,
                old(state).spec_current_epoch(spec),
                reward_amount,
                config,
            ),
        ),
{
    if reward_amount == 0 {
        return Vec::new();
    }
    let attesters = collect_attesting_validators(state, spec);
    let split = split_reward(reward_amount, config);
    let count = attesters.len() as u64;
    let mut credits: Vec<Credit> = Vec::new();
    let mut i: usize = 0;
    while i < attesters.len()
        invariant
            0 <= i <= attesters@.len(),
            credits@.len() == i,
            forall|j: int| 0 <= j < i ==> credits@[j] == (Credit {
                index: attesters@[j] as u64,
                amount: split.validator_share,
            }),
        decreases attesters@.len() - i,
    {
        credits.push(Credit { index: attesters[i] as u64, amount: split.validator_share });
        i = i + 1;
    }
    let mut s: usize = 0;
    while s < config.sinks.len()
        invariant
            0 <= s <= config.sinks@.len(),
            split.sink_shares@.len() == config.sinks@.len(),
            credits@.len() == attesters@.len() + s,
            forall|j: int| 0 <= j < attesters@.len() ==> credits@[j] == (Credit {
                index: attesters@[j] as u64,
                amount: split.validator_share,
            }),
            forall|j: int| 0 <= j < s ==> credits@[attesters@.len() + j] == (Credit {
                index: config.sinks@[j].index as u64,
                amount: crate::math::spec_saturating_mul(split.sink_shares@[j], count),
            }),
        decreases config.sinks@.len() - s,
    {
        let total = crate::math::saturating_mul(split.sink_shares[s], count);
        credits.push(Credit { index: config.sinks[s].index as u64, amount: total });
        s = s + 1;
    }
    proof {
        let expected = spec_attestation_credits(
            state.validators@,
            state.previous_epoch_participation@,
            state.current_epoch_participation@,
            state.spec_current_epoch(spec),
            reward_amount,
            config,
        );
        assert forall|k: int| 0 <= k < credits@.len() implies credits@[k] == expected[k] by {
            if k >= attesters@.len() {
                assert(credits@[k] == (Credit {
                    index: config.sinks@[k - attesters@.len()].index as u64,
                    amount: crate::math::spec_saturating_mul(
                        split.sink_shares@[k - attesters@.len()],
                        count,
                    ),
                }));
                assert(split.sink_shares@[k - attesters@.len()] == spec_sink_share(
                    reward_amount,
                    config.sinks@[k - attesters@.len()].percentage,
                ));
            }
        }
        assert(credits@ =~= expected);
    }
    apply_credits(state, &credits)
}

/// The credits a sync-committee reward issues: the validator share to each
/// participant the sync aggregate's set bits resolve to, then each sink's
/// share aggregated over the participant count. Unresolvable committee
/// keys are skipped here — the lenient economic layer — and a state from
/// before the sync-committee fork yields no participants. A zero amount
/// issues nothing.
pub open spec fn spec_sync_reward_credits(
    fork: crate::chain_spec::ForkName,
    committee: Seq<u64>,
    validators: Seq<crate::validator::Validator>,
    bits: Seq<bool>,
    amount: u64,
    config: &RewardConfig,
) -> Seq<Credit> {
    if amount == 0 {
        Seq::empty()
    } else {
        let participants = if fork.order() >= crate::chain_spec::ForkName::Altair.order() {
            crate::sync_committee::spec_sync_participants_upto(
                committee,
                validators,
                bits,
                committee.len() as int,
            )
        } else {
            Seq::empty()
        };
        spec_attester_credits(participants, spec_validator_share(amount, config))
            + spec_split_sink_credits(amount, config, participants.len() as u64)
    }
}

/// Apply sync-committee rewards for the participants a sync aggregate's
/// set bits resolve to — resolved via committee public key, never by raw
/// bit position — split between them and the configured fee sinks.
/// Unresolvable targets are reported in the returned failures and skipped.
pub fn apply_sync_committee_rewards(
    state: &mut ChainState,
    sync_aggregate: &crate::sync_committee::SyncAggregate,
    reward_amount: u64,
    config: &RewardConfig,
) -> (failures: Vec<RewardError>)
    requires
        config.split_wf(),
    ensures
        unchanged_except_balances(old(state), final(state)),
        final(state).balances@.len() == old(state).balances@.len(),
        final(state).balances@ == spec_apply_credits(
            old(state).balances@,
            spec_sync_reward_credits(
                old(state).fork,
                old(state).current_sync_committee@,
                old(state).validators@,
                sync_aggregate.sync_committee_bits@,
                reward_amount,
                config,
            ),
        ),
        failures@ == spec_failed_credits(
            old(state).balances@.len(),
            spec_sync_reward_credits(
                old(state).fork,
                old(state).current_sync_committee@,
                old(state).validators@,
                sync_aggregate.sync_committee_bits@,
                reward_amount,
                config,
            ),
        ),
{
    if reward_amount == 0 {
        return Vec::new();
    }
    let mut participants: Vec<usize> = Vec::new();
    if state.fork.altair_enabled() {
        let mut i: usize = 0;
        while i < state.current_sync_committee.len()
            invariant
                0 <= i <= state.current_sync_committee@.len(),
                participants@ == crate::sync_committee::spec_sync_participants_upto(
                    state.current_sync_committee@,
                    state.validators@,
                    sync_aggregate.sync_committee_bits@,
                    i as int,
                ),
            decreases state.current_sync_committee@.len() - i,
        {
            let participated = if i < sync_aggregate.sync_committee_bits.len() {
                sync_aggregate.sync_committee_bits[i]
            } else {
                false
            };
            if participated {
                let pubkey = state.current_sync_committee[i];
                match state.get_validator_index(pubkey) {
                    Some(validator_index) => {
                        participants.push(validator_index);
                        proof {
                            assert(crate::state::spec_index_of_pubkey(state.validators@, pubkey)
                                == Some(validator_index));
                        }
                    },
                    None => {
                        proof {
                            assert(crate::state::spec_index_of_pubkey(state.validators@, pubkey)
                                is None);
                        }
                    },
                }
            }
            i = i + 1;
        }
    }
    let split = split_reward(reward_amount, config);
    let count = participants.len() as u64;
    let mut credits: Vec<Credit> = Vec::new();
    let mut p: usize = 0;
    while p < participants.len()
        invariant
            0 <= p <= participants@.len(),
            credits@.len() == p,
            forall|j: int| 0 <= j < p ==> credits@[j] == (Credit {
                index: participants@[j] as u64,
                amount: split.validator_share,
            }),
        decreases participants@.len() - p,
    {
        credits.push(Credit { index: participants[p] as u64, amount: split.validator_share });
        p = p + 1;
    }
    let mut s: usize = 0;
    while s < config.sinks.len()
        invariant
            0 <= s <= config.sinks@.len(),
            split.sink_shares@.len() == config.sinks@.len(),
            credits@.len() == participants@.len() + s,
            forall|j: int| 0 <= j < participants@.len() ==> credits@[j] == (Credit {
                index: participants@[j] as u64,
                amount: split.validator_share,
            }),
            forall|j: int| 0 <= j < s ==> credits@[participants@.len() + j] == (Credit {
                index: config.sinks@[j].index as u64,
                amount: crate::math::spec_saturating_mul(split.sink_shares@[j], count),
            }),
        decreases config.sinks@.len() - s,
    {
        let total = crate::math::saturating_mul(split.sink_shares[s], count);
        credits.push(Credit { index: config.sinks[s].index as u64, amount: total });
        s = s + 1;
    }
    proof {
        let expected = spec_sync_reward_credits(
            state.fork,
            state.current_sync_committee@,
            state.validators@,
            sync_aggregate.sync_committee_bits@,
            reward_amount,
            config,
        );
        assert forall|k: int| 0 <= k < credits@.len() implies credits@[k] == expected[k] by {
            if k >= participants@.len() {
                assert(credits@[k] == (Credit {
                    index: config.sinks@[k - participants@.len()].index as u64,
                    amount: crate::math::spec_saturating_mul(
                        split.sink_shares@[k - participants@.len()],
                        count,
                    ),
                }));
                assert(split.sink_shares@[k - participants@.len()] == spec_sink_share(
                    reward_amount,
                    config.sinks@[k - participants@.len()].percentage,
                ));
            }
        }
        assert(credits@ =~= expected);
    }
    apply_credits(state, &credits)
}

/// Apply all three reward classes for one block in one consolidated pass:
/// the policy is evaluated once at the current epoch, then the proposer,
/// attestation and — where an aggregate is present — sync-committee
/// rewards are applied in that order. Policy-application failures are
/// collected and returned, never escalated: economic-layer partial
/// failures must not block protocol-critical validity.
pub fn apply_all_rewards(
    state: &mut ChainState,
    proposer_index: u64,
    sync_aggregate_opt: Option<&crate::sync_committee::SyncAggregate>,
    current_epoch: u64,
    slot: u64,
    config: &RewardConfig,
    spec: &ChainSpec,
) -> (failures: Vec<RewardError>)
    requires
        old(state).wf(spec),
        spec.wf(),
        config.split_wf(),
    ensures
        unchanged_except_balances(old(state), final(state)),
        final(state).balances@.len() == old(state).balances@.len(),
        ({
            let amounts = spec_reward_amounts_at(
                config.schedule@,
                config.steady_amounts,
                current_epoch,
            );
            let proposer_credits = spec_proposer_credits(
                proposer_index,
                amounts.proposer_reward,
                config,
            );
            let attestation_credits = spec_attestation_credits(
                old(state).validators@,
                old(state).previous_epoch_participation@,
                old(state).current_epoch_participation@,
                old(state).spec_current_epoch(spec),
                amounts.attestation_reward,
                config,
            );
            let after_proposer = spec_apply_credits(old(state).balances@, proposer_credits);
            let after_attestation = spec_apply_credits(after_proposer, attestation_credits);
            let n = old(state).balances@.len();
            match sync_aggregate_opt {
                Some(aggregate) => {
                    let sync_credits = spec_sync_reward_credits(
                        old(state).fork,
                        old(state).current_sync_committee@,
                        old(state).validators@,
                        aggregate.sync_committee_bits@,
                        amounts.sync_committee_reward,
                        config,
                    );
                    &&& final(state).balances@
                        == spec_apply_credits(after_attestation, sync_credits)
                    &&& failures@ == spec_failed_credits(n, proposer_credits)
                        + spec_failed_credits(n, attestation_credits)
                        + spec_failed_credits(n, sync_credits)
                },
                None => {
                    &&& final(state).balances@ == after_attestation
                    &&& failures@ == spec_failed_credits(n, proposer_credits)
                        + spec_failed_credits(n, attestation_credits)
                },
            }
        }),
{
    let reward_amounts = calculate_reward_amounts(current_epoch, config);

    let mut failures = apply_proposer_reward(
        state,
        proposer_index,
        reward_amounts.proposer_reward,
        config,
    );

    let mut attestation_failures = apply_attestation_rewards(
        state,
        reward_amounts.attestation_reward,
        config,
        spec,
    );
    failures.append(&mut attestation_failures);

    if let Some(sync_aggregate) = sync_aggregate_opt {
        let mut sync_failures = apply_sync_committee_rewards(
            state,
            sync_aggregate,
            reward_amounts.sync_committee_reward,
            config,
        );
        failures.append(&mut sync_failures);
    }

    let _ = slot;
    failures
}

} // verus!
