//! The attestation validator: structural and semantic checks of an
//! attestation against a state, including the Casper-style finality-vote
//! rule, and the conversion of the committee-relative bitlist form into the
//! canonical indexed form.
//!
//! The aggregate signature itself is opaque to this core: the external
//! signature-verification primitive's verdict is carried in
//! `signature_valid` and is consulted only where the caller requests
//! signature verification.

use vstd::prelude::*;
use crate::chain_spec::ChainSpec;
use crate::errors::AttestationError;
use crate::state::{ChainState, Checkpoint, Committee};

verus! {

/// Whether the caller requests the expensive signature check; trusted replay
/// paths may skip it.
#[derive(Clone, Copy, Debug, PartialEq, Eq, Structural)]
pub enum VerifySignatures {
    True,
    False,
}

impl VerifySignatures {
    /// Whether signature verification was requested.
    pub fn is_true(&self) -> (r: bool)
        ensures
            r == (*self is True),
    {
        match self {
            VerifySignatures::True => true,
            VerifySignatures::False => false,
        }
    }
}

/// The vote an attestation casts: a (source, target) checkpoint pair for a
/// slot and committee index.
#[derive(Clone, Copy, Debug, PartialEq, Eq, Structural)]
pub struct AttestationData {
    /// The slot the attested block occupies.
    pub slot: u64,
    /// The committee index within that slot.
    pub index: u64,
    /// Identifier of the attested block root.
    pub beacon_block_root: u64,
    /// The checkpoint the vote treats as already justified.
    pub source: Checkpoint,
    /// The checkpoint the vote wants to justify.
    pub target: Checkpoint,
}

/// An attestation in raw form: a committee-relative bitlist plus the
/// external verdict on its aggregate signature.
#[derive(Clone, Debug, PartialEq, Eq)]
pub struct Attestation {
    pub data: AttestationData,
    /// One bit per committee member, index-aligned with the committee.
    pub aggregation_bits: Vec<bool>,
    /// Verdict of the external signature-verification primitive for this
    /// attestation's aggregate signature.
    pub signature_valid: bool,
}

/// An attestation in canonical indexed form: the participating validators
/// listed explicitly, sorted and unique. Derived from the raw form via
/// committee lookup; never constructed directly from untrusted input.
#[derive(Clone, Debug, PartialEq, Eq)]
pub struct IndexedAttestation {
    pub attesting_indices: Vec<usize>,
    pub data: AttestationData,
    /// Verdict of the external signature-verification primitive, carried
    /// over from the raw form.
    pub signature_valid: bool,
}

/// The checkpoint the state considers justified for a target epoch: the
/// current-justified checkpoint if the target is the current epoch, the
/// previous-justified checkpoint otherwise.
pub open spec fn spec_expected_source(
    state: &ChainState,
    data: AttestationData,
    spec: &ChainSpec,
) -> Checkpoint {
    if data.target.epoch == state.spec_current_epoch(spec) {
        state.current_justified_checkpoint
    } else {
        state.previous_justified_checkpoint
    }
}

/// Why the strict Casper FFG vote check rejects an attestation, if it does.
/// The conditions are tested in this order:
/// 1. `source.epoch` must never exceed `target.epoch`: such a vote is
///    structurally nonsensical and fails immediately, before any
///    checkpoint-equality check.
/// 2. The target epoch must equal the state's current or previous epoch.
/// 3. The source checkpoint must equal — exactly — the checkpoint the state
///    holds justified for the target epoch.
pub open spec fn spec_ffg_error(
    state: &ChainState,
    data: AttestationData,
    spec: &ChainSpec,
) -> Option<AttestationError> {
    let expected_source = spec_expected_source(state, data, spec);
    if data.source.epoch > data.target.epoch {
        Some(AttestationError::SourceEpochIncorrect {
            source: data.source,
            target_epoch: data.target.epoch,
            expected_source,
        })
    } else if data.target.epoch != state.spec_current_epoch(spec)
        && data.target.epoch != state.spec_previous_epoch(spec) {
        Some(AttestationError::TargetEpochIncorrect {
            target_epoch: data.target.epoch,
            current_epoch: state.spec_current_epoch(spec),
        })
    } else if data.source != expected_source {
        Some(AttestationError::SourceEpochIncorrect {
            source: data.source,
            target_epoch: data.target.epoch,
            expected_source,
        })
    } else {
        None
    }
}

/// Check target epoch and source checkpoint of an attestation's vote, with
/// strict source-checkpoint equality: the safe default.
pub fn verify_casper_ffg_vote(
    attestation: &Attestation,
    state: &ChainState,
    spec: &ChainSpec,
) -> (r: Result<(), AttestationError>)
    requires
        spec.wf(),
    ensures
        match spec_ffg_error(state, attestation.data, spec) {
            Some(e) => r == Err::<(), AttestationError>(e),
            None => r == Ok::<(), AttestationError>(()),
        },
{
    let data = &attestation.data;
    let current_epoch = state.current_epoch(spec);
    let expected_source = if data.target.epoch == current_epoch {
        state.current_justified_checkpoint
    } else {
        state.previous_justified_checkpoint
    };

    // A vote whose source epoch exceeds its target epoch is structurally
    // nonsensical: fail immediately, before the checkpoint-equality check.
    if data.source.epoch > data.target.epoch {
        return Err(AttestationError::SourceEpochIncorrect {
            source: data.source,
            target_epoch: data.target.epoch,
            expected_source,
        });
    }

    // Attestation target epoch matches current epoch or previous epoch.
    if data.target.epoch != current_epoch && data.target.epoch != state.previous_epoch(spec) {
        return Err(AttestationError::TargetEpochIncorrect {
            target_epoch: data.target.epoch,
            current_epoch,
        });
    }

    // The source must equal the checkpoint the state holds justified for the
    // target epoch.
    if data.source != expected_source {
        return Err(AttestationError::SourceEpochIncorrect {
            source: data.source,
            target_epoch: data.target.epoch,
            expected_source,
        });
    }

    Ok(())
}

/// Why the tolerant FFG vote check rejects an attestation, if it does. In
/// place of strict source equality it only rejects a source epoch more than
/// `tolerance` epochs behind the expected one — and ignores the source root.
pub open spec fn spec_ffg_error_with_tolerance(
    state: &ChainState,
    data: AttestationData,
    tolerance: u64,
    spec: &ChainSpec,
) -> Option<AttestationError> {
    let expected_source = spec_expected_source(state, data, spec);
    if data.source.epoch > data.target.epoch {
        Some(AttestationError::SourceEpochIncorrect {
            source: data.source,
            target_epoch: data.target.epoch,
            expected_source,
        })
    } else if data.target.epoch != state.spec_current_epoch(spec)
        && data.target.epoch != state.spec_previous_epoch(spec) {
        Some(AttestationError::TargetEpochIncorrect {
            target_epoch: data.target.epoch,
            current_epoch: state.spec_current_epoch(spec),
        })
    } else if data.source.epoch + tolerance < expected_source.epoch {
        Some(AttestationError::SourceEpochIncorrect {
            source: data.source,
            target_epoch: data.target.epoch,
            expected_source,
        })
    } else {
        None
    }
}

/// Check target epoch and source checkpoint with an explicit epoch-distance
/// tolerance on the source check. A tolerance relaxes protocol safety:
/// strict equality (`verify_casper_ffg_vote`) is the safe default, and this
/// variant exists only so that a deployment choosing a drift tolerance does
/// so as visible configuration.
pub fn verify_casper_ffg_vote_with_tolerance(
    attestation: &Attestation,
    state: &ChainState,
    tolerance: u64,
    spec: &ChainSpec,
) -> (r: Result<(), AttestationError>)
    requires
        spec.wf(),
    ensures
        match spec_ffg_error_with_tolerance(state, attestation.data, tolerance, spec) {
            Some(e) => r == Err::<(), AttestationError>(e),
            None => r == Ok::<(), AttestationError>(()),
        },
{
    let data = &attestation.data;
    let current_epoch = state.current_epoch(spec);
    let expected_source = if data.target.epoch == current_epoch {
        state.current_justified_checkpoint
    } else {
        state.previous_justified_checkpoint
    };

    if data.source.epoch > data.target.epoch {
        return Err(AttestationError::SourceEpochIncorrect {
            source: data.source,
            target_epoch: data.target.epoch,
            expected_source,
        });
    }

    if data.target.epoch != current_epoch && data.target.epoch != state.previous_epoch(spec) {
        return Err(AttestationError::TargetEpochIncorrect {
            target_epoch: data.target.epoch,
            current_epoch,
        });
    }

    // Accept a source epoch within `tolerance` epochs of the expected one.
    let within = match data.source.epoch.checked_add(tolerance) {
        Some(s) => s >= expected_source.epoch,
        None => true,
    };
    if !within {
        return Err(AttestationError::SourceEpochIncorrect {
            source: data.source,
            target_epoch: data.target.epoch,
            expected_source,
        });
    }

    Ok(())
}

/// Law: FFG vote rejection. An attestation whose source epoch exceeds its
/// target epoch is rejected — with a source-epoch error, before any other
/// check is consulted — for every state, every configuration, and under the
/// tolerant variant for every tolerance as well.
pub proof fn lemma_ffg_rejects_source_past_target(
    state: &ChainState,
    data: AttestationData,
    tolerance: u64,
    spec: &ChainSpec,
)
    requires
        data.source.epoch > data.target.epoch,
    ensures
        spec_ffg_error(state, data, spec) == Some(AttestationError::SourceEpochIncorrect {
            source: data.source,
            target_epoch: data.target.epoch,
            expected_source: spec_expected_source(state, data, spec),
        }),
        spec_ffg_error_with_tolerance(state, data, tolerance, spec)
            == Some(AttestationError::SourceEpochIncorrect {
                source: data.source,
                target_epoch: data.target.epoch,
                expected_source: spec_expected_source(state, data, spec),
            }),
{
}

/// The same state with another current-justified checkpoint.
pub open spec fn spec_with_current_justified(state: ChainState, cp: Checkpoint) -> ChainState {
    ChainState { current_justified_checkpoint: cp, ..state }
}

/// Law: checkpoint consistency. An attestation whose target epoch equals the
/// state's current epoch passes the FFG check only if its source equals the
/// state's current-justified checkpoint; and changing the justified
/// checkpoint and resubmitting the same attestation flips the verdict — the
/// vote that passed is rejected once the state justifies any other
/// checkpoint, and passes again once the state justifies its source.
pub proof fn lemma_ffg_checkpoint_consistency(
    state: ChainState,
    data: AttestationData,
    other: Checkpoint,
    spec: &ChainSpec,
)
    requires
        spec.wf(),
        data.target.epoch == state.spec_current_epoch(spec),
        spec_ffg_error(&state, data, spec) is None,
        other != data.source,
    ensures
        data.source == state.current_justified_checkpoint,
        spec_ffg_error(&spec_with_current_justified(state, other), data, spec)
            is Some,
        spec_ffg_error(
            &spec_with_current_justified(state, data.source),
            data,
            spec,
        ) is None,
{
}

/// The committee members selected by the set bits, in committee order.
pub open spec fn spec_selected_members(members: Seq<usize>, bits: Seq<bool>) -> Seq<usize>
    recommends
        members.len() == bits.len(),
    decreases members.len(),
{
    if members.len() == 0 {
        Seq::empty()
    } else {
        let rest = spec_selected_members(members.drop_last(), bits.drop_last());
        if bits.len() > 0 && bits.last() {
            rest.push(members.last())
        } else {
            rest
        }
    }
}

/// Insertion of a value into a sorted sequence, keeping it sorted.
pub open spec fn spec_sorted_insert(s: Seq<usize>, v: usize) -> Seq<usize>
    decreases s.len(),
{
    if s.len() == 0 {
        seq![v]
    } else if s.last() <= v {
        s.push(v)
    } else {
        spec_sorted_insert(s.drop_last(), v).push(s.last())
    }
}

/// The sorted permutation of a sequence, by repeated sorted insertion.
pub open spec fn spec_sort(s: Seq<usize>) -> Seq<usize>
    decreases s.len(),
{
    if s.len() == 0 {
        Seq::empty()
    } else {
        spec_sorted_insert(spec_sort(s.drop_last()), s.last())
    }
}

/// The sequence is sorted in non-decreasing order.
pub open spec fn spec_sorted(s: Seq<usize>) -> bool {
    forall|i: int, j: int| 0 <= i < j < s.len() ==> s[i] <= s[j]
}

/// The sequence is strictly increasing: sorted and without duplicates.
pub open spec fn spec_strictly_increasing(s: Seq<usize>) -> bool {
    forall|i: int, j: int| 0 <= i < j < s.len() ==> s[i] < s[j]
}

/// Sorted insertion at the position `p` where everything at or past `p`
/// exceeds `v` and everything before `p` does not.
proof fn lemma_sorted_insert_at(s: Seq<usize>, v: usize, p: int)
    requires
        0 <= p <= s.len(),
        forall|i: int| p <= i < s.len() ==> s[i] > v,
        p > 0 ==> s[p - 1] <= v,
    ensures
        spec_sorted_insert(s, v) == s.insert(p, v),
    decreases s.len(),
{
    if s.len() == 0 {
        assert(spec_sorted_insert(s, v) =~= s.insert(0, v));
    } else if s.last() <= v {
        assert(p == s.len());
        assert(spec_sorted_insert(s, v) =~= s.insert(p, v));
    } else {
        lemma_sorted_insert_at(s.drop_last(), v, p);
        assert(spec_sorted_insert(s.drop_last(), v).push(s.last()) =~= s.insert(p, v));
    }
}

/// Sorted insertion keeps a sorted sequence sorted.
proof fn lemma_sorted_insert_sorted(s: Seq<usize>, v: usize)
    requires
        spec_sorted(s),
    ensures
        spec_sorted(spec_sorted_insert(s, v)),
        spec_sorted_insert(s, v).len() == s.len() + 1,
    decreases s.len(),
{
    if s.len() == 0 {
    } else if s.last() <= v {
    } else {
        assert(spec_sorted(s.drop_last()));
        lemma_sorted_insert_sorted(s.drop_last(), v);
        let r = spec_sorted_insert(s.drop_last(), v).push(s.last());
        assert forall|i: int, j: int| 0 <= i < j < r.len() implies r[i] <= r[j] by {
            lemma_sorted_insert_at_values(s.drop_last(), v);
            if j < r.len() - 1 {
            } else {
                if i < r.len() - 1 {
                    assert(r[i] == spec_sorted_insert(s.drop_last(), v)[i]);
                }
            }
        }
    }
}

/// Every value of a sorted insertion is either the inserted value or a value
/// of the original sequence.
proof fn lemma_sorted_insert_at_values(s: Seq<usize>, v: usize)
    ensures
        forall|i: int| 0 <= i < spec_sorted_insert(s, v).len()
            ==> #[trigger] spec_sorted_insert(s, v)[i] == v
                || exists|j: int| 0 <= j < s.len() && s[j] == spec_sorted_insert(s, v)[i],
        spec_sorted_insert(s, v).len() == s.len() + 1,
    decreases s.len(),
{
    if s.len() == 0 {
    } else if s.last() <= v {
    } else {
        lemma_sorted_insert_at_values(s.drop_last(), v);
        let r = spec_sorted_insert(s.drop_last(), v).push(s.last());
        assert forall|i: int| 0 <= i < r.len() implies #[trigger] r[i] == v
            || exists|j: int| 0 <= j < s.len() && s[j] == r[i] by {
            if i == r.len() - 1 {
                assert(s[s.len() - 1] == r[i]);
            } else {
                assert(r[i] == spec_sorted_insert(s.drop_last(), v)[i]);
                if r[i] != v {
                    let j = choose|j: int| 0 <= j < s.drop_last().len()
                        && s.drop_last()[j] == r[i];
                    assert(s[j] == r[i]);
                }
            }
        }
    }
}

/// Insert `v` into the sorted vector `s`, keeping it sorted.
fn sorted_insert(s: &mut Vec<usize>, v: usize)
    requires
        spec_sorted(old(s)@),
    ensures
        final(s)@ == spec_sorted_insert(old(s)@, v),
        spec_sorted(final(s)@),
        final(s)@.len() == old(s)@.len() + 1,
{
    proof {
        lemma_sorted_insert_sorted(s@, v);
    }
    let mut p: usize = s.len();
    while p > 0 && s[p - 1] > v
        invariant
            0 <= p <= s@.len(),
            spec_sorted(s@),
            forall|i: int| p <= i < s@.len() ==> s@[i] > v,
        decreases p,
    {
        p = p - 1;
    }
    proof {
        lemma_sorted_insert_at(s@, v, p as int);
    }
    s.insert(p, v);
}

/// Sort a sequence of validator indices.
fn sort_indices(input: Vec<usize>) -> (r: Vec<usize>)
    ensures
        r@ == spec_sort(input@),
        spec_sorted(r@),
{
    let mut out: Vec<usize> = Vec::new();
    let mut i: usize = 0;
    while i < input.len()
        invariant
            0 <= i <= input@.len(),
            out@ == spec_sort(input@.take(i as int)),
            out@.len() == i,
            spec_sorted(out@),
        decreases input@.len() - i,
    {
        sorted_insert(&mut out, input[i]);
        proof {
            assert(input@.take(i + 1).drop_last() =~= input@.take(i as int));
            assert(input@.take(i + 1).last() == input@[i as int]);
        }
        i = i + 1;
    }
    proof {
        assert(input@.take(input@.len() as int) =~= input@);
    }
    out
}

/// The canonical indexed form of an attestation against a committee: the
/// sorted selection of committee members whose bits are set.
pub open spec fn spec_attesting_indices(members: Seq<usize>, bits: Seq<bool>) -> Seq<usize> {
    spec_sort(spec_selected_members(members, bits))
}

/// Derive the sorted attester indices of an attestation from its committee.
/// Fails exactly when the bitlist length does not match the committee size.
pub fn get_attesting_indices(
    committee: &Committee,
    bits: &Vec<bool>,
) -> (r: Result<Vec<usize>, AttestationError>)
    ensures
        match r {
            Ok(indices) => bits@.len() == committee.members@.len()
                && indices@ == spec_attesting_indices(committee.members@, bits@)
                && spec_sorted(indices@),
            Err(e) => bits@.len() != committee.members@.len()
                && e == (AttestationError::BitfieldLengthMismatch {
                    bits: bits@.len() as usize,
                    committee: committee.members@.len() as usize,
                }),
        },
{
    if bits.len() != committee.members.len() {
        return Err(AttestationError::BitfieldLengthMismatch {
            bits: bits.len(),
            committee: committee.members.len(),
        });
    }
    let mut selected: Vec<usize> = Vec::new();
    let mut i: usize = 0;
    while i < committee.members.len()
        invariant
            0 <= i <= committee.members@.len(),
            bits@.len() == committee.members@.len(),
            selected@ == spec_selected_members(
                committee.members@.take(i as int),
                bits@.take(i as int),
            ),
            selected@.len() <= i,
        decreases committee.members@.len() - i,
    {
        if bits[i] {
            selected.push(committee.members[i]);
        }
        proof {
            assert(committee.members@.take(i + 1).drop_last()
                =~= committee.members@.take(i as int));
            assert(bits@.take(i + 1).drop_last() =~= bits@.take(i as int));
            assert(committee.members@.take(i + 1).last() == committee.members@[i as int]);
            assert(bits@.take(i + 1).last() == bits@[i as int]);
        }
        i = i + 1;
    }
    proof {
        assert(committee.members@.take(committee.members@.len() as int)
            =~= committee.members@);
        assert(bits@.take(bits@.len() as int) =~= bits@);
    }
    Ok(sort_indices(selected))
}

/// Why the indexed-form check rejects an attester list, if it does. The
/// conditions are tested in this order: the list must be non-empty, strictly
/// increasing (sorted and unique), within the registry, and — where
/// verification is requested — carry a valid signature.
pub open spec fn spec_indexed_error(
    state: &ChainState,
    indices: Seq<usize>,
    signature_valid: bool,
    verify_signatures: VerifySignatures,
) -> Option<AttestationError> {
    if indices.len() == 0 {
        Some(AttestationError::IndicesEmpty)
    } else if !spec_strictly_increasing(indices) {
        Some(AttestationError::IndicesNotSortedAndUnique)
    } else if indices.last() >= state.validators@.len() {
        Some(AttestationError::UnknownValidator(indices.last()))
    } else if verify_signatures is True && !signature_valid {
        Some(AttestationError::SignatureInvalid)
    } else {
        None
    }
}

/// Check an indexed attestation: non-empty, sorted and unique indices, all
/// within the registry, and — where requested — a valid aggregate signature
/// per the external primitive's verdict.
pub fn is_valid_indexed_attestation(
    state: &ChainState,
    indexed_attestation: &IndexedAttestation,
    verify_signatures: VerifySignatures,
) -> (r: Result<(), AttestationError>)
    ensures
        match spec_indexed_error(
            state,
            indexed_attestation.attesting_indices@,
            indexed_attestation.signature_valid,
            verify_signatures,
        ) {
            Some(e) => r == Err::<(), AttestationError>(e),
            None => r == Ok::<(), AttestationError>(()),
        },
{
    let indices = &indexed_attestation.attesting_indices;
    if indices.len() == 0 {
        return Err(AttestationError::IndicesEmpty);
    }
    let mut i: usize = 0;
    while i < indices.len() - 1
        invariant
            indices@ == indexed_attestation.attesting_indices@,
            indices@.len() >= 1,
            0 <= i < indices@.len(),
            forall|a: int, b: int| 0 <= a < b <= i ==> indices@[a] < indices@[b],
        decreases indices@.len() - i,
    {
        if indices[i] >= indices[i + 1] {
            proof {
                assert(!spec_strictly_increasing(indices@));
            }
            return Err(AttestationError::IndicesNotSortedAndUnique);
        }
        i = i + 1;
    }
    proof {
        assert forall|a: int, b: int| 0 <= a < b < indices@.len()
            implies indices@[a] < indices@[b] by {}
    }
    let last = indices[indices.len() - 1];
    if last >= state.validators.len() {
        return Err(AttestationError::UnknownValidator(last));
    }
    if verify_signatures.is_true() && !indexed_attestation.signature_valid {
        return Err(AttestationError::SignatureInvalid);
    }
    Ok(())
}

/// Why verifying an attestation for block inclusion rejects it, if it does:
/// the FFG vote rule first, then committee resolution, then the indexed-form
/// checks.
pub open spec fn spec_block_inclusion_error(
    state: &ChainState,
    attestation: &Attestation,
    verify_signatures: VerifySignatures,
    spec: &ChainSpec,
) -> Option<AttestationError> {
    match spec_ffg_error(state, attestation.data, spec) {
        Some(e) => Some(e),
        None => {
            if !state.spec_has_committee(attestation.data.slot, attestation.data.index) {
                Some(AttestationError::NoCommittee {
                    slot: attestation.data.slot,
                    index: attestation.data.index,
                })
            } else {
                let members = state.spec_committee_at(
                    attestation.data.slot,
                    attestation.data.index,
                ).members@;
                if attestation.aggregation_bits@.len() != members.len() {
                    Some(AttestationError::BitfieldLengthMismatch {
                        bits: attestation.aggregation_bits@.len() as usize,
                        committee: members.len() as usize,
                    })
                } else {
                    spec_indexed_error(
                        state,
                        spec_attesting_indices(members, attestation.aggregation_bits@),
                        attestation.signature_valid,
                        verify_signatures,
                    )
                }
            }
        },
    }
}

/// The indexed attestation that verification derives on success.
pub open spec fn spec_verified_indexed_attestation(
    state: &ChainState,
    attestation: &Attestation,
    indexed: &IndexedAttestation,
) -> bool {
    let members = state.spec_committee_at(
        attestation.data.slot,
        attestation.data.index,
    ).members@;
    &&& indexed.data == attestation.data
    &&& indexed.signature_valid == attestation.signature_valid
    &&& indexed.attesting_indices@
        == spec_attesting_indices(members, attestation.aggregation_bits@)
}

/// Returns the indexed form if the given attestation is valid to be included
/// in a block applied to `state`; otherwise a descriptive error.
///
/// Verifies the Casper FFG vote with strict source equality, locates the
/// committee, converts to indexed form, and checks the indexed form —
/// consulting the signature verdict only when `verify_signatures` asks.
pub fn verify_attestation_for_block_inclusion(
    state: &ChainState,
    attestation: &Attestation,
    verify_signatures: VerifySignatures,
    spec: &ChainSpec,
) -> (r: Result<IndexedAttestation, AttestationError>)
    requires
        spec.wf(),
    ensures
        match r {
            Ok(indexed) => spec_block_inclusion_error(state, attestation, verify_signatures, spec)
                is None
                && spec_verified_indexed_attestation(state, attestation, &indexed),
            Err(e) => Some(e) == spec_block_inclusion_error(
                state,
                attestation,
                verify_signatures,
                spec,
            ),
        },
{
    if let Err(e) = verify_casper_ffg_vote(attestation, state, spec) {
        return Err(e);
    }

    let committee = match state.get_beacon_committee(attestation.data.slot, attestation.data.index) {
        Some(c) => c,
        None => {
            return Err(AttestationError::NoCommittee {
                slot: attestation.data.slot,
                index: attestation.data.index,
            });
        },
    };

    let attesting_indices = match get_attesting_indices(committee, &attestation.aggregation_bits) {
        Ok(v) => v,
        Err(e) => {
            return Err(e);
        },
    };

    let indexed = IndexedAttestation {
        attesting_indices,
        data: attestation.data,
        signature_valid: attestation.signature_valid,
    };

    if let Err(e) = is_valid_indexed_attestation(state, &indexed, verify_signatures) {
        return Err(e);
    }

    Ok(indexed)
}

/// Why verifying an attestation against the state that followed it rejects
/// it, if it does: the FFG vote rule first, then that the committee index is
/// within the number of committees scheduled for the slot and the committee
/// is non-empty (both reported as a target-epoch error: the two causes are
/// symptom-equivalent to the caller), then the indexed-form checks.
pub open spec fn spec_for_state_error(
    state: &ChainState,
    attestation: &Attestation,
    verify_signatures: VerifySignatures,
    spec: &ChainSpec,
) -> Option<AttestationError> {
    match spec_ffg_error(state, attestation.data, spec) {
        Some(e) => Some(e),
        None => {
            if attestation.data.index >= state.spec_committee_count_at_slot(attestation.data.slot) {
                Some(AttestationError::TargetEpochIncorrect {
                    target_epoch: attestation.data.target.epoch,
                    current_epoch: state.spec_current_epoch(spec),
                })
            } else if !state.spec_has_committee(attestation.data.slot, attestation.data.index) {
                Some(AttestationError::NoCommittee {
                    slot: attestation.data.slot,
                    index: attestation.data.index,
                })
            } else if state.spec_committee_at(
                attestation.data.slot,
                attestation.data.index,
            ).members@.len() == 0 {
                Some(AttestationError::TargetEpochIncorrect {
                    target_epoch: attestation.data.target.epoch,
                    current_epoch: state.spec_current_epoch(spec),
                })
            } else {
                let members = state.spec_committee_at(
                    attestation.data.slot,
                    attestation.data.index,
                ).members@;
                if attestation.aggregation_bits@.len() != members.len() {
                    Some(AttestationError::BitfieldLengthMismatch {
                        bits: attestation.aggregation_bits@.len() as usize,
                        committee: members.len() as usize,
                    })
                } else {
                    spec_indexed_error(
                        state,
                        spec_attesting_indices(members, attestation.aggregation_bits@),
                        attestation.signature_valid,
                        verify_signatures,
                    )
                }
            }
        },
    }
}

/// Returns the indexed form if `attestation` is a valid attestation to the
/// chain that precedes the given `state`; otherwise a descriptive error.
/// Used for retroactive, epoch-level scoring.
///
/// Beyond block-inclusion verification this also checks that the committee
/// index is within the number of committees scheduled for the slot and that
/// the committee is non-empty.
pub fn verify_attestation_for_state(
    state: &ChainState,
    attestation: &Attestation,
    verify_signatures: VerifySignatures,
    spec: &ChainSpec,
) -> (r: Result<IndexedAttestation, AttestationError>)
    requires
        spec.wf(),
    ensures
        match r {
            Ok(indexed) => spec_for_state_error(state, attestation, verify_signatures, spec)
                is None
                && spec_verified_indexed_attestation(state, attestation, &indexed),
            Err(e) => Some(e) == spec_for_state_error(state, attestation, verify_signatures, spec),
        },
{
    if let Err(e) = verify_casper_ffg_vote(attestation, state, spec) {
        return Err(e);
    }

    // Verify that the committee index is valid for the given slot.
    let committees_per_slot = state.get_committee_count_at_slot(attestation.data.slot);
    if attestation.data.index >= committees_per_slot as u64 {
        return Err(AttestationError::TargetEpochIncorrect {
            target_epoch: attestation.data.target.epoch,
            current_epoch: state.current_epoch(spec),
        });
    }

    let committee = match state.get_beacon_committee(attestation.data.slot, attestation.data.index) {
        Some(c) => c,
        None => {
            return Err(AttestationError::NoCommittee {
                slot: attestation.data.slot,
                index: attestation.data.index,
            });
        },
    };

    // The committee must be non-empty; this failure is symptom-equivalent to
    // a bad target epoch from the caller's perspective.
    if committee.members.len() == 0 {
        return Err(AttestationError::TargetEpochIncorrect {
            target_epoch: attestation.data.target.epoch,
            current_epoch: state.current_epoch(spec),
        });
    }

    let attesting_indices = match get_attesting_indices(committee, &attestation.aggregation_bits) {
        Ok(v) => v,
        Err(e) => {
            return Err(e);
        },
    };

    let indexed = IndexedAttestation {
        attesting_indices,
        data: attestation.data,
        signature_valid: attestation.signature_valid,
    };

    if let Err(e) = is_valid_indexed_attestation(state, &indexed, verify_signatures) {
        return Err(e);
    }

    Ok(indexed)
}

} // verus!
