use vstd::prelude::*;

verus! {

/// Every reason for which an operation of the engine can be refused.
#[derive(Copy, Clone, Debug, PartialEq, Eq, Structural)]
pub enum RentACarError {
    /// No car, rental or other record exists under the given key.
    NotFound,
    /// A record already exists under the given key.
    AlreadyExists,
    /// An amount is zero or negative.
    InvalidAmount,
    /// A price per day is zero or negative.
    InvalidPrice,
    /// A rental lasts zero days.
    InvalidDays,
    /// The payment differs from the price per day times the number of days.
    AmountMismatch,
    /// A withdrawal asks for more than is available.
    InsufficientFunds,
    /// The renter is the owner of the car.
    SelfRental,
    /// The car is not available.
    CarNotAvailable,
    /// The car is already rented.
    CarAlreadyRented,
    /// The car cannot be removed while it is rented.
    CarStillRented,
    /// The rental is not active.
    RentalNotActive,
    /// The required party did not authorize the operation.
    Unauthorized,
    /// The caller is not the administrator.
    NotAdmin,
    /// The caller is not the owner.
    NotOwner,
    /// The engine has already been initialized.
    AlreadyInitialized,
    /// The engine has not been initialized.
    NotInitialized,
    /// A sum does not fit the integer type that holds it.
    Overflow,
    /// A difference does not fit the integer type that holds it.
    Underflow,
}

impl RentACarError {
    /// The stable numeric code of each error, as reported to callers.
    pub open spec fn spec_code(self) -> u32 {
        match self {
            RentACarError::NotFound => 1,
            RentACarError::AlreadyExists => 2,
            RentACarError::InvalidAmount => 10,
            RentACarError::InvalidPrice => 11,
            RentACarError::InvalidDays => 12,
            RentACarError::AmountMismatch => 13,
            RentACarError::InsufficientFunds => 14,
            RentACarError::SelfRental => 15,
            RentACarError::CarNotAvailable => 20,
            RentACarError::CarAlreadyRented => 21,
            RentACarError::CarStillRented => 22,
            RentACarError::RentalNotActive => 23,
            RentACarError::Unauthorized => 30,
            RentACarError::NotAdmin => 31,
            RentACarError::NotOwner => 32,
            RentACarError::AlreadyInitialized => 40,
            RentACarError::NotInitialized => 41,
            RentACarError::Overflow => 50,
            RentACarError::Underflow => 51,
        }
    }

    /// The stable numeric code of this error.
    pub fn code(&self) -> (code: u32)
        ensures
            code == self.spec_code(),
    {
        match self {
            RentACarError::NotFound => 1,
            RentACarError::AlreadyExists => 2,
            RentACarError::InvalidAmount => 10,
            RentACarError::InvalidPrice => 11,
            RentACarError::InvalidDays => 12,
            RentACarError::AmountMismatch => 13,
            RentACarError::InsufficientFunds => 14,
            RentACarError::SelfRental => 15,
            RentACarError::CarNotAvailable => 20,
            RentACarError::CarAlreadyRented => 21,
            RentACarError::CarStillRented => 22,
            RentACarError::RentalNotActive => 23,
            RentACarError::Unauthorized => 30,
            RentACarError::NotAdmin => 31,
            RentACarError::NotOwner => 32,
            RentACarError::AlreadyInitialized => 40,
            RentACarError::NotInitialized => 41,
            RentACarError::Overflow => 50,
            RentACarError::Underflow => 51,
        }
    }
}

} // verus!
