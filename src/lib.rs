//! Client-layer logic of a Bitcoin SPV light client: the event mapper that
//! folds protocol events into a monotone sync narrative, the decisions the
//! client handle takes while waiting on events, and the store bootstrap rules.

pub mod bootstrap;
pub mod handle;
pub mod hash;
pub mod spv;
pub mod topics;
pub mod types;
