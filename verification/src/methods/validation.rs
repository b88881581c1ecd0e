use vstd::prelude::*;
use crate::storage::types::errors::RentACarError;
use crate::storage::types::identity::Identity;

verus! {

/// What [`validate_positive_amount`] answers.
pub open spec fn positive_amount_verdict(amount: int) -> Result<(), RentACarError> {
    if amount <= 0 {
        Err(RentACarError::InvalidAmount)
    } else {
        Ok(())
    }
}

/// What [`validate_price`] answers.
pub open spec fn price_verdict(price_per_day: int) -> Result<(), RentACarError> {
    if price_per_day <= 0 {
        Err(RentACarError::InvalidPrice)
    } else {
        Ok(())
    }
}

/// What [`validate_rental_days`] answers.
pub open spec fn rental_days_verdict(days: int) -> Result<(), RentACarError> {
    if days == 0 {
        Err(RentACarError::InvalidDays)
    } else {
        Ok(())
    }
}

/// What [`validate_payment_amount`] answers. Every payment that differs from
/// the price per day times the days is a mismatch, whatever its sign. The
/// product is taken over the mathematical integers, so a price and a duration
/// whose product exceeds every representable amount match no payment. A
/// payment that equals the product is still refused where it is not
/// positive.
pub open spec fn payment_amount_verdict(amount: int, price_per_day: int, days: int) -> Result<
    (),
    RentACarError,
> {
    if amount != price_per_day * days {
        Err(RentACarError::AmountMismatch)
    } else if amount <= 0 {
        Err(RentACarError::InvalidAmount)
    } else {
        Ok(())
    }
}

/// What [`validate_withdrawal_amount`] answers.
pub open spec fn withdrawal_amount_verdict(amount: int, available: int) -> Result<
    (),
    RentACarError,
> {
    if amount <= 0 {
        Err(RentACarError::InvalidAmount)
    } else if amount > available {
        Err(RentACarError::InsufficientFunds)
    } else {
        Ok(())
    }
}

/// What [`validate_not_self_rental`] answers.
pub open spec fn not_self_rental_verdict(renter: Identity, owner: Identity) -> Result<
    (),
    RentACarError,
> {
    if renter == owner {
        Err(RentACarError::SelfRental)
    } else {
        Ok(())
    }
}

/// An amount of money must be strictly positive.
pub fn validate_positive_amount(amount: i128) -> (res: Result<(), RentACarError>)
    ensures
        res == positive_amount_verdict(amount as int),
{
    if amount <= 0 {
        return Err(RentACarError::InvalidAmount);
    }
    Ok(())
}

/// A price per day must be strictly positive.
pub fn validate_price(price_per_day: i128) -> (res: Result<(), RentACarError>)
    ensures
        res == price_verdict(price_per_day as int),
{
    if price_per_day <= 0 {
        return Err(RentACarError::InvalidPrice);
    }
    Ok(())
}

/// A rental must last at least one day.
pub fn validate_rental_days(days: u32) -> (res: Result<(), RentACarError>)
    ensures
        res == rental_days_verdict(days as int),
{
    if days == 0 {
        return Err(RentACarError::InvalidDays);
    }
    Ok(())
}

/// A payment must be equal to the price per day times the number of days,
/// exactly, and positive.
pub fn validate_payment_amount(amount: i128, price_per_day: i128, days: u32) -> (res: Result<
    (),
    RentACarError,
>)
    ensures
        res == payment_amount_verdict(amount as int, price_per_day as int, days as int),
{
    let days_wide: i128 = days as i128;
    let expected_amount: i128 = match price_per_day.checked_mul(days_wide) {
        Some(product) => product,
        None => {
            return Err(RentACarError::AmountMismatch);
        },
    };
    if amount != expected_amount {
        return Err(RentACarError::AmountMismatch);
    }
    validate_positive_amount(amount)
}

/// A withdrawal must be positive and within what is available.
pub fn validate_withdrawal_amount(amount: i128, available: i128) -> (res: Result<
    (),
    RentACarError,
>)
    ensures
        res == withdrawal_amount_verdict(amount as int, available as int),
{
    match validate_positive_amount(amount) {
        Err(e) => {
            return Err(e);
        },
        Ok(()) => {},
    }
    if amount > available {
        return Err(RentACarError::InsufficientFunds);
    }
    Ok(())
}

/// Nobody rents their own car.
pub fn validate_not_self_rental(renter: &Identity, owner: &Identity) -> (res: Result<
    (),
    RentACarError,
>)
    ensures
        res == not_self_rental_verdict(*renter, *owner),
{
    if *renter == *owner {
        return Err(RentACarError::SelfRental);
    }
    Ok(())
}

} // verus!
