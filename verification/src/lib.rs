//! Verified core of a beacon-chain state transition: balance ledger
//! primitives, validator slashing, attestation and sync-aggregate
//! validation, a configurable reward-and-penalty engine, and the
//! orchestrator that sequences them per block and per epoch.
//!
//! Epochs, slots and balances are plain 64-bit numbers; public keys and
//! block roots are abstract 64-bit identifiers, since the transition only
//! ever compares them for equality. The external collaborators — signature
//! verification, committee resolution, proposer selection — enter as data:
//! verdict bits and resolved schedules carried in the inputs, so that
//! every decision taken on them is verified for every value they may take.

pub mod attestation;
pub mod chain_spec;
pub mod epoch_rewards;
pub mod errors;
pub mod ledger;
pub mod math;
pub mod rewards;
pub mod slashing;
pub mod state;
pub mod sync_committee;
pub mod transition;
pub mod validator;
