//! Task aggregate and typed-property core of a personal productivity backend.
//!
//! The library models per-task custom fields as a closed tagged union kept
//! consistent with a declared type tag, in-memory snapshots of the two
//! backing stores (categories on one side; tasks, properties, blocks and
//! chat threads on the other), a task repository with hierarchy rules, and
//! a builder that assembles one task's full view with bounded subtask
//! recursion.

pub mod builder;
pub mod dto;
pub mod ids;
pub mod laws;
pub mod model;
pub mod props;
pub mod repo;
pub mod stores;
