//! A Raft consensus library: cluster membership, commitment tracking,
//! node state and log storage, with their contracts checked by Verus.
#![allow(unused_imports)]

use vstd::prelude::*;

pub mod ch;
pub mod commands;
pub mod config;
pub mod discard_snapshot;
pub mod errors;
pub mod ext_types;
pub mod future;
pub mod commitment;
pub mod log;
pub mod mem_metrics;
pub mod stable;
pub mod mem_store;
pub mod names;
pub mod snapshot;
pub mod state;

verus! {

/// `Bytes` is an alias for `Vec<u8>`.
pub type Bytes = Vec<u8>;

} // verus!
