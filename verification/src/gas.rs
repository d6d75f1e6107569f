//! The compute budget attached to each outgoing call.

use vstd::prelude::*;

verus! {

/// The budget of one regular execution.
pub const BASE: u64 = 25_000_000_000_000;

/// For the call that initializes a new tender: one execution, and one more for
/// what the initializer does with the owner's key.
pub const TENDER_NEW: u64 = BASE * 2;

/// For the factory's call back to itself once a provisioning chain has settled: one
/// execution, and one more for the call to the registry or the refund.
pub const CALLBACK: u64 = BASE * 2;

/// For the call that asks the registry to list a tender.
pub const VERIFY_TENDER: u64 = BASE;

} // verus!
