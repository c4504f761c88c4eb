//! A governance engine: a registry of members that changes only through
//! proposals that every member of a snapshot has signed, and a vault whose
//! outflows go through the same proposals while deposits are free.

pub mod keys;
pub mod error;
pub mod allocator;
pub mod registry;
pub mod consensus;
pub mod proposal;
pub mod vault;
pub mod governance;
pub mod laws;
pub mod staking;
