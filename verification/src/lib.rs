//! TeachLink rewards and validation logic.
//!
//! The library keeps the contract's reward bookkeeping as plain values
//! (`storage::RewardsState`) and states, for every operation, the exact
//! effect on that state and on the outside world (token transfers and
//! events), together with the invariants every operation keeps.

pub mod address;
pub mod errors;
pub mod events;
pub mod keyed;
pub mod laws;
pub mod reentrancy;
pub mod rewards;
pub mod storage;
pub mod types;
pub mod validation;

use vstd::prelude::*;

verus! {

/// Main TeachLink contract type.
pub struct TeachLinkBridge;

} // verus!
