use vstd::prelude::*;

verus! {

/// The identifier of an actor, used as a map key everywhere.
pub type AccountId = String;

/// A non-negative quantity moved between accounts with checked arithmetic.
pub type Balance = u128;

/// The counter of executed blocks.
pub type BlockNumber = u32;

/// The per-account counter of submitted extrinsics.
pub type Nonce = u32;

/// A content fingerprint that one account at a time may claim.
pub type Content = String;

} // verus!
