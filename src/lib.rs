//! Settlement and governance engine for a two-layer token bridge: Merkle
//! inclusion proofs, the lock/burn ledger, the validator registry with its
//! voting-power policy, proposal governance and state anchoring.

pub mod merkle;
pub mod errors;
pub mod ledger;
pub mod clock;
pub mod registry;
pub mod policies;
pub mod encoding;
pub mod anchoring;
pub mod sync;
pub mod validator_rewards_tokenomics;
pub mod governance;
pub mod validator;
pub mod bridge_finalization;
pub mod token;
pub mod governance_scalability;
pub mod finalize;
pub mod event_sync;
pub mod security;
pub mod rewards;
pub mod validator_rewards;
pub mod models;
pub mod bridge_module;
pub mod bridge_operations;
pub mod governance_module;
