//! Core of a shard-routing proxy for a blockchain validator.
//!
//! The library classifies inbound protocol messages as local or
//! chain-addressed, answers local ones from a storage collaborator, and maps
//! chain identifiers deterministically to the internal shard that owns them.
//! Transport, serving loops and process bootstrap live outside the library.

pub mod blob;
pub mod config;
pub mod digest;
pub mod errors;
pub mod ids;
pub mod messages;
pub mod proxy;
pub mod runtime;
pub mod storage;
pub mod table;

use vstd::prelude::*;

verus! {

/// Milliseconds, used for the send and receive deadlines of a forward.
pub type Millis = u64;

} // verus!
