//! Synchronizes named secrets between a remote secret store and local files.
//!
//! A manifest declares entries, each mapping a local file path to a secret
//! name. Pulling copies every selected secret's current value into its file;
//! pushing copies every selected file's contents into its secret, creating the
//! secret on first push and updating only its value afterwards. Entries are
//! processed sequentially in declaration order, stopping at the first failure.
//!
//! The store and the filesystem are capabilities: traits whose contracts state
//! how each call changes the abstract store or file map and which events it
//! records. In-memory implementations of both are provided; they make the
//! contracts' obligations concrete and let tests observe a run's exact call
//! sequence. Code that drives a real store or filesystem takes its decisions
//! — path resolution, byte classification, entry selection, the upsert
//! protocol's fallback — from this crate's verified functions.

pub mod config;
pub mod error;
pub mod filter;
pub mod fs;
pub mod memory;
pub mod pull;
pub mod push;
pub mod secret;
pub mod store;
