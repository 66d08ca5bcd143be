//! Resource monitoring core of a desktop application.
//!
//! A background sampler periodically reads host and process CPU and memory
//! counters and publishes a snapshot; readers ask for the latest snapshot at
//! any time without waiting for sampling work.
//!
//! - [`snapshot`]: the snapshot and how it is built from the readings of one
//!   pass.
//! - [`store`]: the cell that holds the latest snapshot, and what reads of
//!   it answer.
//! - [`shared_store`]: that cell behind a lock, shared by the sampler and
//!   the readers.
//! - [`sampler`]: the cadence of the sampler, as a state machine that the
//!   caller drives.
//! - [`float_bits`]: how floating-point readings are carried.
//! - [`store_manager`]: the persisted settings, their defaults and rules.
//! - [`commands`]: the remaining commands of the application shell.

pub mod commands;
pub mod float_bits;
pub mod sampler;
pub mod shared_store;
pub mod snapshot;
pub mod store;
pub mod store_manager;
