//! A session-oriented middleware manager for dynamically loaded
//! hardware-service provider modules.
//!
//! The crate tracks application and service handles, resolves a logical
//! service name to a provider module through a configuration store, assigns
//! monotonically increasing request ids to dispatched operations, bridges
//! asynchronous provider completions into blocking calls, manages a
//! quota-bounded buffer heap with parent/child ownership, and keeps a
//! fixed-size registry of one-shot timer slots.

pub mod bridge;
pub mod config;
pub mod errors;
pub mod handles;
pub mod heap;
pub mod manager;
pub mod outptr;
pub mod provider;
pub mod seq_find;
pub mod session;
pub mod timer;
pub mod version;
