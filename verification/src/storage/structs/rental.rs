use vstd::prelude::*;

verus! {

/// Seconds in one day of rental.
pub const SECONDS_PER_DAY: u64 = 86400;

/// An active rental of one owner's car by one renter.
#[derive(Copy, Clone, Debug, PartialEq, Eq, Structural)]
pub struct Rental {
    /// Number of days the car is rented for.
    pub total_days_to_rent: u32,
    /// The deposit paid for the car, commission excluded.
    pub amount: i128,
    /// Time at which the rental started, in seconds.
    pub start_time: u64,
    /// Time at which the car is due back, in seconds.
    pub end_time: u64,
}

} // verus!
