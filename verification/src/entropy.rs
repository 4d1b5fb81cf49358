//! Trusted access to randomness. Nothing can be promised about a random
//! value, so the items here carry no `ensures`; every caller states what
//! holds of its own result whatever bytes came back.

use vstd::prelude::*;

verus! {

/// Relies on rand's `random`: one value drawn uniformly from the standard
/// distribution of `T`, from a cryptographically secure generator.
pub assume_specification<T>[ rand::random::<T> ]() -> (r: T)
    where
        rand::distributions::Standard: rand::distributions::Distribution<T>,
;

/// Relies on uuid's `Uuid::new_v4`: a fresh version-4 identifier built from
/// 122 bits of operating-system randomness, returned here as its raw 128-bit
/// value.
#[verifier::external_body]
pub fn fresh_u128() -> u128 {
    uuid::Uuid::new_v4().as_u128()
}

} // verus!
