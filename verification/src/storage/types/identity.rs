use vstd::prelude::*;

verus! {

/// An account known to the engine: the administrator, an owner, a renter or
/// the asset that rentals are paid in. The number stands for the account:
/// two identities are the same account exactly when the numbers are equal.
pub type Identity = u64;

} // verus!
