//! A small reminder/task library, hexagonally layered: the domain model with
//! its validation invariants, the repository and service ports with their
//! contracts, an in-memory repository, the classification of storage failures
//! into domain errors, and the mapping of domain outcomes onto protocol
//! responses. Each layer's behaviour is stated in its contracts and verified.
pub mod http;
pub mod memory;
pub mod readiness;
pub mod reminders;
pub mod storage;
pub mod task;
pub mod text;
