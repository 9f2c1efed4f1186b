//! Proof-of-utility rewards for QPU shots and inspected eBPF packets.
//!
//! The reward itself is computed in floating point, by the application
//! layer; the engine type is shared.

use vstd::prelude::*;

verus! {

/// Calculator of utility rewards.
pub struct ProofOfUtilityEngine;

} // verus!
