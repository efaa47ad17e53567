//! Staged verification of beacon blocks: relevancy checks, gossip admission,
//! batched signature checks, execution-pending admission and the sync-side
//! dispatch that feeds blocks into the pipeline.

pub mod hash;
pub mod block;
pub mod chain_spec;
pub mod clock;
pub mod errors;
pub mod fork_choice;
pub mod observed;
pub mod caches;
pub mod relevancy;
pub mod parent;
pub mod signature;
pub mod gossip;
pub mod slash;
pub mod signature_stage;
pub mod execution;
pub mod payload;
pub mod sync;
pub mod import;
pub mod laws;
