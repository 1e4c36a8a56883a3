//! The chain state: the versioned aggregate that the transition mutates,
//! together with checkpoints and the committee data that the external
//! committee-resolution and proposer-selection primitives supply.

use vstd::prelude::*;
use crate::chain_spec::{ChainSpec, ForkName};
use crate::validator::Validator;

verus! {

/// An (epoch, block-root) pair used to express justification and
/// finalization votes. The root is an abstract identifier of the 32-byte
/// block root; the transition only compares roots for equality.
#[derive(Clone, Copy, Debug, PartialEq, Eq, Structural)]
pub struct Checkpoint {
    pub epoch: u64,
    pub root: u64,
}

/// One beacon committee: the deterministic validator-index committee that
/// the external committee-resolution primitive computed for a slot and a
/// committee index.
#[derive(Clone, Debug, PartialEq, Eq)]
pub struct Committee {
    pub slot: u64,
    pub index: u64,
    pub members: Vec<usize>,
}

/// One slot's proposer, as the external proposer-selection primitive
/// resolved it. A slot with no entry has no resolvable proposer.
#[derive(Clone, Copy, Debug, PartialEq, Eq, Structural)]
pub struct SlotProposer {
    pub slot: u64,
    pub validator_index: usize,
}

/// The beacon state, modelled over plain values.
///
/// The committee and proposer schedules are data supplied by the external
/// committee-resolution and proposer-selection primitives; the sync
/// committee holds public-key identifiers, index-aligned with sync-aggregate
/// bitlists.
#[derive(Clone, Debug)]
pub struct ChainState {
    /// The protocol version this state is at.
    pub fork: ForkName,
    /// The current slot.
    pub slot: u64,
    /// The ordered validator registry.
    pub validators: Vec<Validator>,
    /// Balances, index-aligned with `validators`.
    pub balances: Vec<u64>,
    /// Ring buffer of recent slashings totals, indexed by epoch modulo its
    /// length.
    pub slashings: Vec<u64>,
    /// Previous-epoch participation flags, one byte per validator.
    pub previous_epoch_participation: Vec<u8>,
    /// Current-epoch participation flags, one byte per validator.
    pub current_epoch_participation: Vec<u8>,
    /// Public-key identifiers of the active sync committee, in committee
    /// order. Meaningful from the sync-committee fork on.
    pub current_sync_committee: Vec<u64>,
    /// The root of the block at the previous slot, which sync aggregates
    /// sign over.
    pub previous_block_root: u64,
    /// The checkpoint justified as of the current epoch.
    pub current_justified_checkpoint: Checkpoint,
    /// The checkpoint justified as of the previous epoch.
    pub previous_justified_checkpoint: Checkpoint,
    /// The last finalized checkpoint.
    pub finalized_checkpoint: Checkpoint,
    /// Committees resolved for recent slots.
    pub committees: Vec<Committee>,
    /// Proposers resolved for recent slots.
    pub proposers: Vec<SlotProposer>,
}

/// The index of the first validator of the registry whose public key
/// matches, if any.
pub open spec fn spec_index_of_pubkey(validators: Seq<Validator>, pubkey: u64) -> Option<usize> {
    if exists|i: int| 0 <= i < validators.len() && validators[i].pubkey == pubkey {
        let i = choose|i: int| 0 <= i < validators.len() && validators[i].pubkey == pubkey
            && forall|j: int| 0 <= j < i ==> validators[j].pubkey != pubkey;
        Some(i as usize)
    } else {
        None
    }
}

/// The proposer a schedule resolves for a slot, if any: the first entry
/// carrying that slot.
pub open spec fn spec_proposer_for_slot(proposers: Seq<SlotProposer>, slot: u64) -> Option<usize> {
    if exists|i: int| 0 <= i < proposers.len() && #[trigger] proposers[i].slot == slot {
        let i = choose|i: int| 0 <= i < proposers.len() && #[trigger] proposers[i].slot == slot
            && forall|j: int| 0 <= j < i ==> proposers[j].slot != slot;
        Some(proposers[i].validator_index)
    } else {
        None
    }
}

/// The two states agree on every field but the balance sequence.
pub open spec fn unchanged_except_balances(pre: &ChainState, post: &ChainState) -> bool {
    &&& post.fork == pre.fork
    &&& post.slot == pre.slot
    &&& post.validators == pre.validators
    &&& post.slashings == pre.slashings
    &&& post.previous_epoch_participation == pre.previous_epoch_participation
    &&& post.current_epoch_participation == pre.current_epoch_participation
    &&& post.current_sync_committee == pre.current_sync_committee
    &&& post.previous_block_root == pre.previous_block_root
    &&& post.current_justified_checkpoint == pre.current_justified_checkpoint
    &&& post.previous_justified_checkpoint == pre.previous_justified_checkpoint
    &&& post.finalized_checkpoint == pre.finalized_checkpoint
    &&& post.committees == pre.committees
    &&& post.proposers == pre.proposers
}

/// The two states agree on every field but the validator registry, the
/// balance sequence and the slashings ring buffer: the fields slashing
/// writes.
pub open spec fn unchanged_except_slashing_fields(pre: &ChainState, post: &ChainState) -> bool {
    &&& post.fork == pre.fork
    &&& post.slot == pre.slot
    &&& post.previous_epoch_participation == pre.previous_epoch_participation
    &&& post.current_epoch_participation == pre.current_epoch_participation
    &&& post.current_sync_committee == pre.current_sync_committee
    &&& post.previous_block_root == pre.previous_block_root
    &&& post.current_justified_checkpoint == pre.current_justified_checkpoint
    &&& post.previous_justified_checkpoint == pre.previous_justified_checkpoint
    &&& post.finalized_checkpoint == pre.finalized_checkpoint
    &&& post.committees == pre.committees
    &&& post.proposers == pre.proposers
}

impl ChainState {
    /// Structural validity: the index-aligned sequences all have one entry
    /// per validator, and the slashings ring buffer has the configured
    /// length. Indexing balances and validators interchangeably is
    /// load-bearing throughout the transition.
    pub open spec fn wf(&self, spec: &ChainSpec) -> bool {
        &&& self.balances@.len() == self.validators@.len()
        &&& self.previous_epoch_participation@.len() == self.validators@.len()
        &&& self.current_epoch_participation@.len() == self.validators@.len()
        &&& self.slashings@.len() == spec.epochs_per_slashings_vector
    }

    /// The epoch the state's slot lies in.
    pub open spec fn spec_current_epoch(&self, spec: &ChainSpec) -> u64
        recommends
            spec.wf(),
    {
        (self.slot as int / spec.slots_per_epoch as int) as u64
    }

    /// Returns the current epoch of the state.
    pub fn current_epoch(&self, spec: &ChainSpec) -> (r: u64)
        requires
            spec.wf(),
        ensures
            r == self.spec_current_epoch(spec),
    {
        self.slot / spec.slots_per_epoch
    }

    /// The epoch before the current one, saturating at genesis.
    pub open spec fn spec_previous_epoch(&self, spec: &ChainSpec) -> u64
        recommends
            spec.wf(),
    {
        let current = self.spec_current_epoch(spec);
        if current > 0 {
            (current - 1) as u64
        } else {
            0
        }
    }

    /// Returns the previous epoch of the state, saturating at genesis.
    pub fn previous_epoch(&self, spec: &ChainSpec) -> (r: u64)
        requires
            spec.wf(),
        ensures
            r == self.spec_previous_epoch(spec),
    {
        let current = self.current_epoch(spec);
        if current > 0 {
            current - 1
        } else {
            0
        }
    }

    /// The index of the first validator whose public key matches, if any.
    pub open spec fn spec_validator_index_of(&self, pubkey: u64) -> Option<usize> {
        spec_index_of_pubkey(self.validators@, pubkey)
    }

    /// Returns the index of the validator with the given public key, or
    /// `None` if no validator carries it.
    pub fn get_validator_index(&self, pubkey: u64) -> (r: Option<usize>)
        ensures
            match r {
                Some(i) => i < self.validators@.len()
                    && self.validators@[i as int].pubkey == pubkey
                    && forall|j: int| 0 <= j < i ==> self.validators@[j].pubkey != pubkey,
                None => forall|j: int| 0 <= j < self.validators@.len()
                    ==> self.validators@[j].pubkey != pubkey,
            },
    {
        let mut i: usize = 0;
        while i < self.validators.len()
            invariant
                0 <= i <= self.validators@.len(),
                forall|j: int| 0 <= j < i ==> self.validators@[j].pubkey != pubkey,
            decreases self.validators@.len() - i,
        {
            if self.validators[i].pubkey == pubkey {
                return Some(i);
            }
            i = i + 1;
        }
        None
    }

    /// How many committees the schedule holds for a slot.
    pub open spec fn spec_committee_count_at_slot(&self, slot: u64) -> nat {
        self.committees@.filter(|c: Committee| c.slot == slot).len()
    }

    /// Returns the number of committees scheduled at the given slot.
    pub fn get_committee_count_at_slot(&self, slot: u64) -> (r: usize)
        ensures
            r == self.spec_committee_count_at_slot(slot),
    {
        let mut count: usize = 0;
        let mut i: usize = 0;
        while i < self.committees.len()
            invariant
                0 <= i <= self.committees@.len(),
                count == self.committees@.take(i as int).filter(
                    |c: Committee| c.slot == slot,
                ).len(),
                count <= i,
            decreases self.committees@.len() - i,
        {
            proof {
                reveal_with_fuel(Seq::filter, 2);
                assert(self.committees@.take(i + 1).drop_last()
                    =~= self.committees@.take(i as int));
                assert(self.committees@.take(i + 1).last() == self.committees@[i as int]);
            }
            if self.committees[i].slot == slot {
                count = count + 1;
            }
            i = i + 1;
        }
        proof {
            assert(self.committees@.take(self.committees@.len() as int) =~= self.committees@);
        }
        count
    }

    /// Whether the schedule holds a committee for (slot, index).
    pub open spec fn spec_has_committee(&self, slot: u64, index: u64) -> bool {
        exists|i: int| 0 <= i < self.committees@.len()
            && #[trigger] self.committees@[i].slot == slot
            && self.committees@[i].index == index
    }

    /// The first scheduled committee for (slot, index).
    pub open spec fn spec_committee_at(&self, slot: u64, index: u64) -> Committee
        recommends
            self.spec_has_committee(slot, index),
    {
        let i = choose|i: int| 0 <= i < self.committees@.len()
            && #[trigger] self.committees@[i].slot == slot
            && self.committees@[i].index == index
            && forall|j: int| 0 <= j < i
                ==> !(self.committees@[j].slot == slot && self.committees@[j].index == index);
        self.committees@[i]
    }

    /// Returns the committee scheduled for the given slot and committee
    /// index, or `None` if the schedule holds none.
    pub fn get_beacon_committee(&self, slot: u64, index: u64) -> (r: Option<&Committee>)
        ensures
            match r {
                Some(c) => self.spec_has_committee(slot, index)
                    && *c == self.spec_committee_at(slot, index),
                None => !self.spec_has_committee(slot, index),
            },
    {
        let mut i: usize = 0;
        while i < self.committees.len()
            invariant
                0 <= i <= self.committees@.len(),
                forall|j: int| 0 <= j < i
                    ==> !(#[trigger] self.committees@[j].slot == slot
                        && self.committees@[j].index == index),
            decreases self.committees@.len() - i,
        {
            if self.committees[i].slot == slot && self.committees[i].index == index {
                return Some(&self.committees[i]);
            }
            i = i + 1;
        }
        None
    }

    /// The proposer the schedule resolves for a slot, if any.
    pub open spec fn spec_proposer_at(&self, slot: u64) -> Option<usize> {
        spec_proposer_for_slot(self.proposers@, slot)
    }

    /// Returns the proposer resolved for the given slot, or `None` where the
    /// proposer-selection primitive resolved none.
    pub fn get_beacon_proposer_index(&self, slot: u64) -> (r: Option<usize>)
        ensures
            r == self.spec_proposer_at(slot),
    {
        let mut i: usize = 0;
        while i < self.proposers.len()
            invariant
                0 <= i <= self.proposers@.len(),
                forall|j: int| 0 <= j < i ==> self.proposers@[j].slot != slot,
            decreases self.proposers@.len() - i,
        {
            if self.proposers[i].slot == slot {
                return Some(self.proposers[i].validator_index);
            }
            i = i + 1;
        }
        None
    }
}

} // verus!
