use vstd::prelude::*;
use crate::storage::types::car_status::CarStatus;

verus! {

/// A listed car. There is at most one per owner.
#[derive(Copy, Clone, Debug, PartialEq, Eq, Structural)]
pub struct Car {
    /// Price of one day, in the smallest unit of the asset.
    pub price_per_day: i128,
    /// Whether the car can be rented.
    pub car_status: CarStatus,
    /// What the owner may claim from custody.
    pub available_to_withdraw: i128,
}

} // verus!
