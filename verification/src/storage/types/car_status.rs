use vstd::prelude::*;

verus! {

/// Whether a car can be rented.
#[derive(Copy, Clone, Debug, PartialEq, Eq, Structural)]
pub enum CarStatus {
    /// The car is with its owner and can be rented.
    Available,
    /// The car is out with a renter.
    Rented,
}

} // verus!
