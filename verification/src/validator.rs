//! The record of one chain validator and its lifecycle predicates.
//!
//! Public keys and block roots are carried as abstract 64-bit identifiers:
//! the transition logic only ever compares them for equality. Withdrawal
//! credentials are carried as their 32 bytes, since the logic reads the
//! prefix byte and the embedded execution address.

use vstd::prelude::*;
use crate::chain_spec::{ChainSpec, ForkName};
use crate::state::{ChainState, Checkpoint};

verus! {

/// The number of bytes of a withdrawal credential.
pub const WITHDRAWAL_CREDENTIAL_BYTES: usize = 32;

/// The number of bytes of an execution withdrawal address.
pub const EXECUTION_ADDRESS_BYTES: usize = 12;

/// Information about one chain validator.
#[derive(Clone, Debug, PartialEq, Eq)]
pub struct Validator {
    /// Identifier of the validator's public key.
    pub pubkey: u64,
    /// 32-byte withdrawal credential; the prefix byte selects the type.
    pub withdrawal_credentials: Vec<u8>,
    /// Quantized, capped snapshot of the balance used for weighting.
    pub effective_balance: u64,
    /// Whether the validator has been slashed. Monotonic: never reset.
    pub slashed: bool,
    /// Epoch at which the validator became eligible for activation.
    pub activation_eligibility_epoch: u64,
    /// Epoch at which the validator activates.
    pub activation_epoch: u64,
    /// Epoch at which the validator exits.
    pub exit_epoch: u64,
    /// Epoch from which the validator may withdraw. Non-decreasing.
    pub withdrawable_epoch: u64,
}

/// The data of one deposit, as far as validator creation reads it.
#[derive(Clone, Debug, PartialEq, Eq)]
pub struct DepositData {
    /// Identifier of the depositor's public key.
    pub pubkey: u64,
    /// 32-byte withdrawal credential chosen by the depositor.
    pub withdrawal_credentials: Vec<u8>,
}

/// Does a credential sequence carry the compounding prefix byte?
pub open spec fn spec_is_compounding_withdrawal_credential(
    withdrawal_credentials: Seq<u8>,
    spec: &ChainSpec,
) -> bool {
    withdrawal_credentials.len() > 0
        && withdrawal_credentials[0] == spec.compounding_withdrawal_prefix_byte
}

/// Returns `true` if the credential's prefix byte marks a compounding
/// withdrawal credential.
pub fn is_compounding_withdrawal_credential(
    withdrawal_credentials: &Vec<u8>,
    spec: &ChainSpec,
) -> (r: bool)
    ensures
        r == spec_is_compounding_withdrawal_credential(withdrawal_credentials@, spec),
{
    if withdrawal_credentials.len() == 0 {
        false
    } else {
        withdrawal_credentials[0] == spec.compounding_withdrawal_prefix_byte
    }
}

impl Validator {
    /// Structural validity: the credential holds exactly 32 bytes.
    pub open spec fn wf(&self) -> bool {
        self.withdrawal_credentials@.len() == WITHDRAWAL_CREDENTIAL_BYTES
    }

    /// The validator is active at `epoch`.
    pub open spec fn spec_is_active_at(&self, epoch: u64) -> bool {
        self.activation_epoch <= epoch < self.exit_epoch
    }

    /// Returns `true` if the validator is considered active at some epoch.
    pub fn is_active_at(&self, epoch: u64) -> (r: bool)
        ensures
            r == self.spec_is_active_at(epoch),
    {
        self.activation_epoch <= epoch && epoch < self.exit_epoch
    }

    /// The validator can still be slashed at `epoch`.
    pub open spec fn spec_is_slashable_at(&self, epoch: u64) -> bool {
        !self.slashed && self.activation_epoch <= epoch < self.withdrawable_epoch
    }

    /// Returns `true` if the validator is slashable at some epoch.
    pub fn is_slashable_at(&self, epoch: u64) -> (r: bool)
        ensures
            r == self.spec_is_slashable_at(epoch),
    {
        !self.slashed && self.activation_epoch <= epoch && epoch < self.withdrawable_epoch
    }

    /// The validator has exited at `epoch`.
    pub open spec fn spec_is_exited_at(&self, epoch: u64) -> bool {
        self.exit_epoch <= epoch
    }

    /// Returns `true` if the validator is considered exited at some epoch.
    pub fn is_exited_at(&self, epoch: u64) -> (r: bool)
        ensures
            r == self.spec_is_exited_at(epoch),
    {
        self.exit_epoch <= epoch
    }

    /// The validator may withdraw at `epoch`.
    pub open spec fn spec_is_withdrawable_at(&self, epoch: u64) -> bool {
        epoch >= self.withdrawable_epoch
    }

    /// Returns `true` if the validator is able to withdraw at some epoch.
    pub fn is_withdrawable_at(&self, epoch: u64) -> (r: bool)
        ensures
            r == self.spec_is_withdrawable_at(epoch),
    {
        epoch >= self.withdrawable_epoch
    }

    /// Eligibility to join the activation queue, before compounding.
    pub open spec fn spec_is_eligible_for_activation_queue_base(
        &self,
        spec: &ChainSpec,
    ) -> bool {
        self.activation_eligibility_epoch == spec.far_future_epoch
            && self.effective_balance == spec.max_effective_balance
    }

    /// Eligibility to join the activation queue, once compounding is enabled.
    pub open spec fn spec_is_eligible_for_activation_queue_electra(
        &self,
        spec: &ChainSpec,
    ) -> bool {
        self.activation_eligibility_epoch == spec.far_future_epoch
            && self.effective_balance >= spec.min_activation_balance
    }

    /// Eligibility to join the activation queue, per the given fork.
    pub open spec fn spec_is_eligible_for_activation_queue(
        &self,
        spec: &ChainSpec,
        current_fork: ForkName,
    ) -> bool {
        if current_fork.order() >= ForkName::Electra.order() {
            self.spec_is_eligible_for_activation_queue_electra(spec)
        } else {
            self.spec_is_eligible_for_activation_queue_base(spec)
        }
    }

    /// Returns `true` if the validator is eligible to join the activation
    /// queue, dispatching on the provided fork.
    pub fn is_eligible_for_activation_queue(
        &self,
        spec: &ChainSpec,
        current_fork: ForkName,
    ) -> (r: bool)
        ensures
            r == self.spec_is_eligible_for_activation_queue(spec, current_fork),
    {
        if current_fork.electra_enabled() {
            self.is_eligible_for_activation_queue_electra(spec)
        } else {
            self.is_eligible_for_activation_queue_base(spec)
        }
    }

    /// Returns `true` if the validator is eligible to join the activation
    /// queue under the pre-compounding rule.
    fn is_eligible_for_activation_queue_base(&self, spec: &ChainSpec) -> (r: bool)
        ensures
            r == self.spec_is_eligible_for_activation_queue_base(spec),
    {
        self.activation_eligibility_epoch == spec.far_future_epoch
            && self.effective_balance == spec.max_effective_balance
    }

    /// Returns `true` if the validator is eligible to join the activation
    /// queue under the compounding rule.
    fn is_eligible_for_activation_queue_electra(&self, spec: &ChainSpec) -> (r: bool)
        ensures
            r == self.spec_is_eligible_for_activation_queue_electra(spec),
    {
        self.activation_eligibility_epoch == spec.far_future_epoch
            && self.effective_balance >= spec.min_activation_balance
    }

    /// Eligibility to be activated, given the finalized checkpoint.
    pub open spec fn spec_is_eligible_for_activation_with_finalized_checkpoint(
        &self,
        finalized_checkpoint: &Checkpoint,
        spec: &ChainSpec,
    ) -> bool {
        self.activation_eligibility_epoch <= finalized_checkpoint.epoch
            && self.activation_epoch == spec.far_future_epoch
    }

    /// Returns `true` if the validator is eligible to be activated.
    pub fn is_eligible_for_activation(
        &self,
        state: &ChainState,
        spec: &ChainSpec,
    ) -> (r: bool)
        ensures
            r == self.spec_is_eligible_for_activation_with_finalized_checkpoint(
                &state.finalized_checkpoint,
                spec,
            ),
    {
        self.is_eligible_for_activation_with_finalized_checkpoint(
            &state.finalized_checkpoint,
            spec,
        )
    }

    /// Returns `true` if the validator is eligible to be activated: its
    /// placement in the queue is finalized and it has not yet been activated.
    pub fn is_eligible_for_activation_with_finalized_checkpoint(
        &self,
        finalized_checkpoint: &Checkpoint,
        spec: &ChainSpec,
    ) -> (r: bool)
        ensures
            r == self.spec_is_eligible_for_activation_with_finalized_checkpoint(
                finalized_checkpoint,
                spec,
            ),
    {
        // Placement in queue is finalized
        self.activation_eligibility_epoch <= finalized_checkpoint.epoch
        // Has not yet been activated
        && self.activation_epoch == spec.far_future_epoch
    }

    /// Returns `true` if the validator *could* be eligible for activation at
    /// `epoch`, assuming best-possible finalization. A necessary but not
    /// sufficient condition for activation at the end of `epoch`.
    pub fn could_be_eligible_for_activation_at(&self, epoch: u64, spec: &ChainSpec) -> (r: bool)
        ensures
            r == (self.activation_epoch == spec.far_future_epoch
                && self.activation_eligibility_epoch < epoch),
    {
        // Has not yet been activated
        self.activation_epoch == spec.far_future_epoch
        // Placement in queue could be finalized. The distance is 1 rather
        // than 2 because activations are considered at the *end* of `epoch`,
        // after justification and finalization have been updated.
        && self.activation_eligibility_epoch < epoch
    }

    /// The credential carries the execution-address prefix byte.
    pub open spec fn spec_has_eth1_withdrawal_credential(&self, spec: &ChainSpec) -> bool {
        self.withdrawal_credentials@.len() > 0
            && self.withdrawal_credentials@[0] == spec.eth1_address_withdrawal_prefix_byte
    }

    /// Returns `true` if the validator has an execution-address withdrawal
    /// credential.
    pub fn has_eth1_withdrawal_credential(&self, spec: &ChainSpec) -> (r: bool)
        ensures
            r == self.spec_has_eth1_withdrawal_credential(spec),
    {
        if self.withdrawal_credentials.len() == 0 {
            false
        } else {
            self.withdrawal_credentials[0] == spec.eth1_address_withdrawal_prefix_byte
        }
    }

    /// The credential carries the compounding prefix byte.
    pub open spec fn spec_has_compounding_withdrawal_credential(
        &self,
        spec: &ChainSpec,
    ) -> bool {
        spec_is_compounding_withdrawal_credential(self.withdrawal_credentials@, spec)
    }

    /// Returns `true` if the validator has a compounding withdrawal
    /// credential.
    pub fn has_compounding_withdrawal_credential(&self, spec: &ChainSpec) -> (r: bool)
        ensures
            r == self.spec_has_compounding_withdrawal_credential(spec),
    {
        is_compounding_withdrawal_credential(&self.withdrawal_credentials, spec)
    }

    /// The credential is either kind of execution withdrawal credential.
    pub open spec fn spec_has_execution_withdrawal_credential(&self, spec: &ChainSpec) -> bool {
        self.spec_has_compounding_withdrawal_credential(spec)
            || self.spec_has_eth1_withdrawal_credential(spec)
    }

    /// Returns `true` if the validator has an execution-address or a
    /// compounding withdrawal credential.
    pub fn has_execution_withdrawal_credential(&self, spec: &ChainSpec) -> (r: bool)
        ensures
            r == self.spec_has_execution_withdrawal_credential(spec),
    {
        self.has_compounding_withdrawal_credential(spec)
            || self.has_eth1_withdrawal_credential(spec)
    }

    /// Get the execution withdrawal address if this validator has one
    /// initialized: the last 20 bytes of the credential.
    pub fn get_execution_withdrawal_address(&self, spec: &ChainSpec) -> (r: Option<Vec<u8>>)
        requires
            self.wf(),
        ensures
            match r {
                Some(address) => self.spec_has_execution_withdrawal_credential(spec)
                    && address@ == self.withdrawal_credentials@.subrange(
                        EXECUTION_ADDRESS_BYTES as int,
                        WITHDRAWAL_CREDENTIAL_BYTES as int,
                    ),
                None => !self.spec_has_execution_withdrawal_credential(spec),
            },
    {
        if !self.has_execution_withdrawal_credential(spec) {
            return None;
        }
        let mut address: Vec<u8> = Vec::new();
        let mut i: usize = EXECUTION_ADDRESS_BYTES;
        while i < WITHDRAWAL_CREDENTIAL_BYTES
            invariant
                EXECUTION_ADDRESS_BYTES <= i <= WITHDRAWAL_CREDENTIAL_BYTES,
                self.wf(),
                address@ == self.withdrawal_credentials@.subrange(
                    EXECUTION_ADDRESS_BYTES as int,
                    i as int,
                ),
            decreases WITHDRAWAL_CREDENTIAL_BYTES - i,
        {
            address.push(self.withdrawal_credentials[i]);
            proof {
                assert(address@ =~= self.withdrawal_credentials@.subrange(
                    EXECUTION_ADDRESS_BYTES as int,
                    i + 1,
                ));
            }
            i = i + 1;
        }
        Some(address)
    }

    /// Changes withdrawal credentials to the provided execution address:
    /// the execution prefix byte, eleven zero bytes, then the address.
    ///
    /// This function does no validation of the address itself.
    pub fn change_withdrawal_credentials(
        &mut self,
        execution_address: &Vec<u8>,
        spec: &ChainSpec,
    )
        requires
            execution_address@.len() == WITHDRAWAL_CREDENTIAL_BYTES - EXECUTION_ADDRESS_BYTES,
        ensures
            final(self).withdrawal_credentials@.len() == WITHDRAWAL_CREDENTIAL_BYTES,
            final(self).withdrawal_credentials@[0]
                == spec.eth1_address_withdrawal_prefix_byte,
            forall|i: int| 1 <= i < EXECUTION_ADDRESS_BYTES
                ==> final(self).withdrawal_credentials@[i] == 0u8,
            forall|i: int| EXECUTION_ADDRESS_BYTES <= i < WITHDRAWAL_CREDENTIAL_BYTES
                ==> final(self).withdrawal_credentials@[i]
                    == execution_address@[i - EXECUTION_ADDRESS_BYTES],
            final(self).pubkey == old(self).pubkey,
            final(self).effective_balance == old(self).effective_balance,
            final(self).slashed == old(self).slashed,
            final(self).activation_eligibility_epoch == old(self).activation_eligibility_epoch,
            final(self).activation_epoch == old(self).activation_epoch,
            final(self).exit_epoch == old(self).exit_epoch,
            final(self).withdrawable_epoch == old(self).withdrawable_epoch,
    {
        let mut bytes: Vec<u8> = Vec::new();
        bytes.push(spec.eth1_address_withdrawal_prefix_byte);
        let mut i: usize = 1;
        while i < EXECUTION_ADDRESS_BYTES
            invariant
                1 <= i <= EXECUTION_ADDRESS_BYTES,
                bytes@.len() == i,
                bytes@[0] == spec.eth1_address_withdrawal_prefix_byte,
                forall|j: int| 1 <= j < i ==> bytes@[j] == 0u8,
            decreases EXECUTION_ADDRESS_BYTES - i,
        {
            bytes.push(0u8);
            i = i + 1;
        }
        let mut k: usize = 0;
        while k < WITHDRAWAL_CREDENTIAL_BYTES - EXECUTION_ADDRESS_BYTES
            invariant
                0 <= k <= WITHDRAWAL_CREDENTIAL_BYTES - EXECUTION_ADDRESS_BYTES,
                execution_address@.len() == WITHDRAWAL_CREDENTIAL_BYTES - EXECUTION_ADDRESS_BYTES,
                bytes@.len() == EXECUTION_ADDRESS_BYTES + k,
                bytes@[0] == spec.eth1_address_withdrawal_prefix_byte,
                forall|j: int| 1 <= j < EXECUTION_ADDRESS_BYTES ==> bytes@[j] == 0u8,
                forall|j: int| 0 <= j < k
                    ==> bytes@[EXECUTION_ADDRESS_BYTES + j] == execution_address@[j],
            decreases WITHDRAWAL_CREDENTIAL_BYTES - EXECUTION_ADDRESS_BYTES - k,
        {
            bytes.push(execution_address[k]);
            k = k + 1;
        }
        self.withdrawal_credentials = bytes;
    }

    /// Full withdrawability before the compounding fork.
    pub open spec fn spec_is_fully_withdrawable_at_capella(
        &self,
        balance: u64,
        epoch: u64,
        spec: &ChainSpec,
    ) -> bool {
        self.spec_has_eth1_withdrawal_credential(spec)
            && self.withdrawable_epoch <= epoch
            && balance > 0
    }

    /// Full withdrawability from the compounding fork on.
    pub open spec fn spec_is_fully_withdrawable_at_electra(
        &self,
        balance: u64,
        epoch: u64,
        spec: &ChainSpec,
    ) -> bool {
        self.spec_has_execution_withdrawal_credential(spec)
            && self.withdrawable_epoch <= epoch
            && balance > 0
    }

    /// Full withdrawability, per the given fork.
    pub open spec fn spec_is_fully_withdrawable_at(
        &self,
        balance: u64,
        epoch: u64,
        spec: &ChainSpec,
        current_fork: ForkName,
    ) -> bool {
        if current_fork.order() >= ForkName::Electra.order() {
            self.spec_is_fully_withdrawable_at_electra(balance, epoch, spec)
        } else {
            self.spec_is_fully_withdrawable_at_capella(balance, epoch, spec)
        }
    }

    /// Returns `true` if the validator is fully withdrawable at some epoch,
    /// dispatching on the provided fork.
    pub fn is_fully_withdrawable_at(
        &self,
        balance: u64,
        epoch: u64,
        spec: &ChainSpec,
        current_fork: ForkName,
    ) -> (r: bool)
        ensures
            r == self.spec_is_fully_withdrawable_at(balance, epoch, spec, current_fork),
    {
        if current_fork.electra_enabled() {
            self.is_fully_withdrawable_at_electra(balance, epoch, spec)
        } else {
            self.is_fully_withdrawable_at_capella(balance, epoch, spec)
        }
    }

    /// Returns `true` if the validator is fully withdrawable at some epoch,
    /// under the pre-compounding rule.
    fn is_fully_withdrawable_at_capella(
        &self,
        balance: u64,
        epoch: u64,
        spec: &ChainSpec,
    ) -> (r: bool)
        ensures
            r == self.spec_is_fully_withdrawable_at_capella(balance, epoch, spec),
    {
        self.has_eth1_withdrawal_credential(spec) && self.withdrawable_epoch <= epoch
            && balance > 0
    }

    /// Returns `true` if the validator is fully withdrawable at some epoch,
    /// under the compounding rule.
    fn is_fully_withdrawable_at_electra(
        &self,
        balance: u64,
        epoch: u64,
        spec: &ChainSpec,
    ) -> (r: bool)
        ensures
            r == self.spec_is_fully_withdrawable_at_electra(balance, epoch, spec),
    {
        self.has_execution_withdrawal_credential(spec) && self.withdrawable_epoch <= epoch
            && balance > 0
    }

    /// The effective-balance cap for this validator under the given fork.
    pub open spec fn spec_get_max_effective_balance(
        &self,
        spec: &ChainSpec,
        current_fork: ForkName,
    ) -> u64 {
        if spec.forced_electra_mode {
            spec.max_effective_balance_electra
        } else if current_fork.order() >= ForkName::Electra.order() {
            if self.spec_has_compounding_withdrawal_credential(spec) {
                spec.max_effective_balance_electra
            } else {
                spec.min_activation_balance
            }
        } else {
            spec.max_effective_balance
        }
    }

    /// Returns the max effective balance for this validator, in the chain's
    /// smallest balance unit.
    pub fn get_max_effective_balance(
        &self,
        spec: &ChainSpec,
        current_fork: ForkName,
    ) -> (r: u64)
        ensures
            r == self.spec_get_max_effective_balance(spec, current_fork),
    {
        if spec.forced_electra_mode {
            // Forced mode always selects the compounding-fork cap, regardless
            // of withdrawal credentials or fork state.
            spec.max_effective_balance_electra
        } else if current_fork.electra_enabled() {
            if self.has_compounding_withdrawal_credential(spec) {
                spec.max_effective_balance_electra
            } else {
                spec.min_activation_balance
            }
        } else {
            spec.max_effective_balance
        }
    }

    /// Partial withdrawability before the compounding fork: an execution
    /// credential and a balance above the base-fork cap.
    pub open spec fn spec_is_partially_withdrawable_validator_capella(
        &self,
        balance: u64,
        spec: &ChainSpec,
    ) -> bool {
        self.spec_has_eth1_withdrawal_credential(spec)
            && balance > spec.spec_max_effective_balance_for_fork(ForkName::Base)
    }

    /// Partial withdrawability from the compounding fork on.
    pub open spec fn spec_is_partially_withdrawable_validator_electra(
        &self,
        balance: u64,
        spec: &ChainSpec,
        current_fork: ForkName,
    ) -> bool {
        if spec.forced_electra_mode {
            self.spec_has_execution_withdrawal_credential(spec)
                && balance > spec.min_activation_balance
        } else {
            self.spec_has_execution_withdrawal_credential(spec)
                && balance > self.spec_get_max_effective_balance(spec, current_fork)
        }
    }

    /// Partial withdrawability, per the given fork.
    pub open spec fn spec_is_partially_withdrawable_validator(
        &self,
        balance: u64,
        spec: &ChainSpec,
        current_fork: ForkName,
    ) -> bool {
        if current_fork.order() >= ForkName::Electra.order() {
            self.spec_is_partially_withdrawable_validator_electra(balance, spec, current_fork)
        } else {
            self.spec_is_partially_withdrawable_validator_capella(balance, spec)
        }
    }

    /// Returns `true` if the validator is partially withdrawable, dispatching
    /// on the provided fork.
    pub fn is_partially_withdrawable_validator(
        &self,
        balance: u64,
        spec: &ChainSpec,
        current_fork: ForkName,
    ) -> (r: bool)
        ensures
            r == self.spec_is_partially_withdrawable_validator(balance, spec, current_fork),
    {
        if current_fork.electra_enabled() {
            self.is_partially_withdrawable_validator_electra(balance, spec, current_fork)
        } else {
            self.is_partially_withdrawable_validator_capella(balance, spec)
        }
    }

    /// Returns `true` if the validator is partially withdrawable, under the
    /// pre-compounding rule.
    fn is_partially_withdrawable_validator_capella(
        &self,
        balance: u64,
        spec: &ChainSpec,
    ) -> (r: bool)
        ensures
            r == self.spec_is_partially_withdrawable_validator_capella(balance, spec),
    {
        let max_effective_balance = spec.max_effective_balance_for_fork(ForkName::Base);
        self.has_eth1_withdrawal_credential(spec) && balance > max_effective_balance
    }

    /// Returns `true` if the validator is partially withdrawable, under the
    /// compounding rule. In forced mode any balance above the minimum
    /// activation balance counts as excess.
    pub fn is_partially_withdrawable_validator_electra(
        &self,
        balance: u64,
        spec: &ChainSpec,
        current_fork: ForkName,
    ) -> (r: bool)
        ensures
            r == self.spec_is_partially_withdrawable_validator_electra(
                balance,
                spec,
                current_fork,
            ),
    {
        if spec.forced_electra_mode {
            let has_excess_balance = balance > spec.min_activation_balance;
            return self.has_execution_withdrawal_credential(spec) && has_excess_balance;
        }
        let max_effective_balance = self.get_max_effective_balance(spec, current_fork);
        let has_excess_balance = balance > max_effective_balance;
        self.has_execution_withdrawal_credential(spec) && has_excess_balance
    }

    /// The portion of a balance that counts as active stake.
    pub open spec fn spec_get_active_balance(
        &self,
        validator_balance: u64,
        spec: &ChainSpec,
        current_fork: ForkName,
    ) -> u64 {
        let cap = self.spec_get_max_effective_balance(spec, current_fork);
        if validator_balance < cap {
            validator_balance
        } else {
            cap
        }
    }

    /// Returns the balance capped at this validator's max effective balance.
    pub fn get_active_balance(
        &self,
        validator_balance: u64,
        spec: &ChainSpec,
        current_fork: ForkName,
    ) -> (r: u64)
        ensures
            r == self.spec_get_active_balance(validator_balance, spec, current_fork),
    {
        let max_effective_balance = self.get_max_effective_balance(spec, current_fork);
        if validator_balance < max_effective_balance {
            validator_balance
        } else {
            max_effective_balance
        }
    }

    /// Get the effective balance used for reward calculations: always the
    /// fork-wide cap, so reward weights do not depend on individual stake.
    pub fn get_effective_balance_for_rewards(
        &self,
        spec: &ChainSpec,
        current_fork: ForkName,
    ) -> (r: u64)
        ensures
            r == spec.spec_max_effective_balance_for_fork(current_fork),
    {
        spec.max_effective_balance_for_fork(current_fork)
    }

    /// Creates a validator from deposit data: lifecycle epochs start at the
    /// far-future sentinel, and the effective balance is the deposit amount
    /// rounded down to the balance increment and capped — or the full cap in
    /// forced mode.
    pub fn from_deposit(
        deposit_data: &DepositData,
        amount: u64,
        fork_name: ForkName,
        spec: &ChainSpec,
    ) -> (v: Validator)
        requires
            spec.effective_balance_increment > 0,
        ensures
            v.pubkey == deposit_data.pubkey,
            v.withdrawal_credentials@ == deposit_data.withdrawal_credentials@,
            v.activation_eligibility_epoch == spec.far_future_epoch,
            v.activation_epoch == spec.far_future_epoch,
            v.exit_epoch == spec.far_future_epoch,
            v.withdrawable_epoch == spec.far_future_epoch,
            !v.slashed,
            v.effective_balance == {
                let cap = v.spec_get_max_effective_balance(spec, fork_name);
                if spec.forced_electra_mode {
                    cap
                } else {
                    let quantized = amount - (amount as int % spec.effective_balance_increment as int);
                    if quantized < cap { quantized as u64 } else { cap }
                }
            },
    {
        let mut validator = Validator {
            pubkey: deposit_data.pubkey,
            withdrawal_credentials: deposit_data.withdrawal_credentials.clone(),
            activation_eligibility_epoch: spec.far_future_epoch,
            activation_epoch: spec.far_future_epoch,
            exit_epoch: spec.far_future_epoch,
            withdrawable_epoch: spec.far_future_epoch,
            effective_balance: 0,
            slashed: false,
        };

        let max_effective_balance = validator.get_max_effective_balance(spec, fork_name);
        if spec.forced_electra_mode {
            // Forced mode gives every validator the full cap from genesis.
            validator.effective_balance = max_effective_balance;
        } else {
            proof {
                assert(amount % spec.effective_balance_increment <= amount)
                    by (nonlinear_arith)
                    requires spec.effective_balance_increment > 0,
                ;
            }
            let quantized = amount - (amount % spec.effective_balance_increment);
            validator.effective_balance = if quantized < max_effective_balance {
                quantized
            } else {
                max_effective_balance
            };
        }

        validator
    }
}

impl Default for Validator {
    /// Yields a "default" validator: empty key, zeroed credential, sentinel
    /// epochs and maximal effective balance. Primarily used for testing.
    fn default() -> (v: Validator)
        ensures
            v.pubkey == 0,
            v.withdrawal_credentials@.len() == WITHDRAWAL_CREDENTIAL_BYTES,
            forall|i: int| 0 <= i < WITHDRAWAL_CREDENTIAL_BYTES
                ==> v.withdrawal_credentials@[i] == 0u8,
            v.effective_balance == u64::MAX,
            !v.slashed,
            v.activation_eligibility_epoch == u64::MAX,
            v.activation_epoch == u64::MAX,
            v.exit_epoch == u64::MAX,
            v.withdrawable_epoch == u64::MAX,
            v.wf(),
    {
        let mut credentials: Vec<u8> = Vec::new();
        let mut i: usize = 0;
        while i < WITHDRAWAL_CREDENTIAL_BYTES
            invariant
                0 <= i <= WITHDRAWAL_CREDENTIAL_BYTES,
                credentials@.len() == i,
                forall|j: int| 0 <= j < i ==> credentials@[j] == 0u8,
            decreases WITHDRAWAL_CREDENTIAL_BYTES - i,
        {
            credentials.push(0u8);
            i = i + 1;
        }
        Validator {
            pubkey: 0,
            withdrawal_credentials: credentials,
            activation_eligibility_epoch: u64::MAX,
            activation_epoch: u64::MAX,
            exit_epoch: u64::MAX,
            withdrawable_epoch: u64::MAX,
            slashed: false,
            effective_balance: u64::MAX,
        }
    }
}

} // verus!
