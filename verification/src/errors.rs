//! Error classes of the state transition.
//!
//! Validation errors are fatal to the block or attestation being checked but
//! not to the process; arithmetic and indexing errors are fatal to the whole
//! transition; policy-application errors are reported and absorbed inside
//! the reward engine.

use vstd::prelude::*;
use crate::math::ArithError;
use crate::state::Checkpoint;

verus! {

/// A state-consistency failure: bad indices or an operation that the state's
/// protocol version or validator lifecycle rules out.
#[derive(Clone, Copy, Debug, PartialEq, Eq, Structural)]
pub enum StateError {
    /// A validator index at or past the registry length.
    UnknownValidator(usize),
    /// A balance index at or past the balance sequence length.
    BalancesOutOfBounds(usize),
    /// A slashings-bucket index at or past the ring-buffer length.
    SlashingsOutOfBounds(usize),
    /// The one-time slashing transition was requested a second time.
    ValidatorAlreadySlashed,
    /// The state's protocol version does not support the operation.
    IncorrectStateVariant,
}

/// Why an attestation was rejected.
#[derive(Clone, Copy, Debug, PartialEq, Eq, Structural)]
pub enum AttestationError {
    /// The target epoch is neither the state's current epoch nor the one
    /// before it, or the referenced committee is missing or empty.
    TargetEpochIncorrect { target_epoch: u64, current_epoch: u64 },
    /// The source checkpoint does not match the checkpoint the state holds
    /// justified for the target epoch, or the vote is structurally
    /// nonsensical (source epoch past target epoch).
    SourceEpochIncorrect { source: Checkpoint, target_epoch: u64, expected_source: Checkpoint },
    /// No committee is scheduled for the referenced slot and index.
    NoCommittee { slot: u64, index: u64 },
    /// The aggregation bitlist length does not match the committee size.
    BitfieldLengthMismatch { bits: usize, committee: usize },
    /// The indexed form lists no attester.
    IndicesEmpty,
    /// The indexed form's attester list is not sorted and unique.
    IndicesNotSortedAndUnique,
    /// An attester index at or past the registry length.
    UnknownValidator(usize),
    /// The aggregate signature does not verify.
    SignatureInvalid,
}

/// Why a sync aggregate was rejected.
#[derive(Clone, Copy, Debug, PartialEq, Eq, Structural)]
pub enum SyncAggregateError {
    /// The state's protocol version predates sync committees.
    IncorrectStateVariant,
    /// The participation bitlist length does not match the committee size.
    BitfieldLengthMismatch { bits: usize, committee: usize },
    /// A committee public key that no validator carries.
    UnknownValidatorPubkey(u64),
    /// The aggregate signature does not verify.
    SignatureInvalid,
}

/// A policy-application failure inside the reward engine: reported to the
/// caller, never escalated, since economic-layer partial failures must not
/// block protocol-critical validity.
#[derive(Clone, Copy, Debug, PartialEq, Eq, Structural)]
pub enum RewardError {
    /// A reward target (rewarded validator or fee sink) whose index lies at
    /// or past the balance sequence length; its credit was skipped.
    TargetOutOfRange(u64),
}

/// An error of per-epoch delta computation.
#[derive(Clone, Copy, Debug, PartialEq, Eq, Structural)]
pub enum EpochProcessingError {
    Arith(ArithError),
    /// A delta index at or past the delta sequence length.
    DeltaOutOfBounds(usize),
    /// Validator statuses contradict themselves (a recorded attester without
    /// inclusion information, or a proposer index out of range).
    ValidatorStatusesInconsistent,
}

/// Any failure of applying a block's operations or an epoch transition.
#[derive(Clone, Copy, Debug, PartialEq, Eq, Structural)]
pub enum BlockProcessingError {
    State(StateError),
    Arith(ArithError),
    Attestation(AttestationError),
    SyncAggregate(SyncAggregateError),
}

} // verus!
