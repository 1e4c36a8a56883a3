//! The protocol-constant table and the ordered protocol-version ("fork")
//! variants that the state transition dispatches on.

use vstd::prelude::*;

verus! {

/// A protocol version. Variants are ordered: later forks are supersets of
/// earlier ones, and capability queries ask whether a fork is at or past the
/// version that introduced a feature.
#[derive(Clone, Copy, Debug, PartialEq, Eq, Structural)]
pub enum ForkName {
    Base,
    Altair,
    Bellatrix,
    Capella,
    Deneb,
    Electra,
}

impl ForkName {
    /// The position of this fork in the protocol-version order.
    pub open spec fn order(self) -> int {
        match self {
            ForkName::Base => 0,
            ForkName::Altair => 1,
            ForkName::Bellatrix => 2,
            ForkName::Capella => 3,
            ForkName::Deneb => 4,
            ForkName::Electra => 5,
        }
    }

    /// Does this fork support sync committees (introduced at Altair)?
    pub fn altair_enabled(&self) -> (r: bool)
        ensures
            r == (self.order() >= ForkName::Altair.order()),
    {
        match self {
            ForkName::Base => false,
            _ => true,
        }
    }

    /// Does this fork support compounding withdrawals (introduced at Electra)?
    pub fn electra_enabled(&self) -> (r: bool)
        ensures
            r == (self.order() >= ForkName::Electra.order()),
    {
        match self {
            ForkName::Electra => true,
            _ => false,
        }
    }
}

/// The immutable protocol-constant table: quotients, epoch lengths, balance
/// caps per fork, prefix bytes and the far-future-epoch sentinel.
#[derive(Clone, Debug)]
pub struct ChainSpec {
    /// Sentinel epoch meaning "not yet scheduled".
    pub far_future_epoch: u64,
    /// Number of slots in one epoch.
    pub slots_per_epoch: u64,
    /// Length of the ring buffer of recent slashings totals.
    pub epochs_per_slashings_vector: u64,
    /// Quantization step of effective balances.
    pub effective_balance_increment: u64,
    /// Cap on effective balance before the compounding-withdrawal fork.
    pub max_effective_balance: u64,
    /// Cap on effective balance for compounding validators.
    pub max_effective_balance_electra: u64,
    /// Minimum balance for activation once compounding is enabled.
    pub min_activation_balance: u64,
    /// Prefix byte of an execution-address withdrawal credential.
    pub eth1_address_withdrawal_prefix_byte: u8,
    /// Prefix byte of a compounding withdrawal credential.
    pub compounding_withdrawal_prefix_byte: u8,
    /// When set, every validator is treated as having the compounding-fork
    /// balance cap, regardless of credentials or fork.
    pub forced_electra_mode: bool,
    /// Slashing penalty quotient for the base fork.
    pub min_slashing_penalty_quotient: u64,
    /// Slashing penalty quotient from the sync-committee fork on.
    pub min_slashing_penalty_quotient_altair: u64,
    /// Slashing penalty quotient from the merge fork on.
    pub min_slashing_penalty_quotient_bellatrix: u64,
    /// Finality delay above which inactivity penalties apply.
    pub min_epochs_to_inactivity_penalty: u64,
    /// Quotient of the extra inactivity penalty.
    pub inactivity_penalty_quotient: u64,
    /// Number of base rewards one attestation can earn per epoch.
    pub base_rewards_per_epoch: u64,
    /// Numerator factor of the base-reward formula.
    pub base_reward_factor: u64,
}

impl ChainSpec {
    /// Structural validity of the constant table: the lengths that the state
    /// transition divides by are non-zero.
    pub open spec fn wf(&self) -> bool {
        &&& self.slots_per_epoch > 0
        &&& self.epochs_per_slashings_vector > 0
    }

    /// The effective-balance cap that reward computation uses for a fork.
    pub open spec fn spec_max_effective_balance_for_fork(&self, fork: ForkName) -> u64 {
        if self.forced_electra_mode {
            self.max_effective_balance_electra
        } else if fork.order() >= ForkName::Electra.order() {
            self.max_effective_balance_electra
        } else {
            self.max_effective_balance
        }
    }

    /// The effective-balance cap for a fork (forced mode always selects the
    /// compounding-fork cap).
    pub fn max_effective_balance_for_fork(&self, fork: ForkName) -> (r: u64)
        ensures
            r == self.spec_max_effective_balance_for_fork(fork),
    {
        if self.forced_electra_mode {
            self.max_effective_balance_electra
        } else if fork.electra_enabled() {
            self.max_effective_balance_electra
        } else {
            self.max_effective_balance
        }
    }

    /// The slashing penalty quotient that applies to a fork.
    pub open spec fn spec_slashing_penalty_quotient_for_fork(&self, fork: ForkName) -> u64 {
        if fork.order() == ForkName::Base.order() {
            self.min_slashing_penalty_quotient
        } else if fork.order() == ForkName::Altair.order() {
            self.min_slashing_penalty_quotient_altair
        } else {
            self.min_slashing_penalty_quotient_bellatrix
        }
    }

    /// The slashing penalty quotient that applies to a fork.
    pub fn slashing_penalty_quotient_for_fork(&self, fork: ForkName) -> (r: u64)
        ensures
            r == self.spec_slashing_penalty_quotient_for_fork(fork),
    {
        match fork {
            ForkName::Base => self.min_slashing_penalty_quotient,
            ForkName::Altair => self.min_slashing_penalty_quotient_altair,
            _ => self.min_slashing_penalty_quotient_bellatrix,
        }
    }
}

} // verus!
