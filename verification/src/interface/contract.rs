use vstd::prelude::*;
use crate::methods::auth::{Invocation, Party};
use crate::methods::token::Transfer;
use crate::storage::car_owners::add_car_owner_list;
use crate::storage::structs::car::Car;
use crate::storage::structs::rental::{Rental, SECONDS_PER_DAY};
use crate::storage::types::car_status::CarStatus;
use crate::storage::types::errors::RentACarError;
use crate::storage::types::identity::Identity;
use crate::storage::types::ledger::Ledger;
use crate::storage::types::record::without;

verus! {

/// Whether a number can be held as an amount.
pub open spec fn fits_i128(value: int) -> bool {
    i128::MIN <= value <= i128::MAX
}

/// The seconds that a rental of `days` days lasts.
pub open spec fn rental_seconds(days: u32) -> int {
    days * SECONDS_PER_DAY
}

/// What an operation answers: the refusal, or else the value it owes.
pub open spec fn answer<T>(refusal: Option<RentACarError>, value: T) -> Result<T, RentACarError> {
    match refusal {
        Some(e) => Err(e),
        None => Ok(value),
    }
}

/// The state after an operation: its effect, or what was there before where
/// the operation is refused.
pub open spec fn outcome(before: Ledger, refusal: Option<RentACarError>, effect: Ledger) -> Ledger {
    if refusal is None {
        effect
    } else {
        before
    }
}

/// What each operation of the engine means: for every state and every input,
/// the first check that refuses it, if any, the state it leaves, and the
/// value it answers with. Checks are listed in the order in which they
/// apply; a refused operation changes nothing.
impl Ledger {
    /// Initialization is refused once an administrator is set.
    pub open spec fn initialize_refusal(self) -> Option<RentACarError> {
        if self.admin is Some {
            Some(RentACarError::AlreadyInitialized)
        } else {
            None
        }
    }

    /// Initialization sets the administrator and the asset.
    pub open spec fn initialize_effect(self, admin: Identity, token: Identity) -> Ledger {
        Ledger { admin: Some(admin), token: Some(token), ..self }
    }

    /// What initialization answers with.
    pub open spec fn initialize_result(self) -> Result<(), RentACarError> {
        answer(self.initialize_refusal(), ())
    }

    /// The state that initialization leaves.
    pub open spec fn initialize_state(self, admin: Identity, token: Identity) -> Ledger {
        outcome(self, self.initialize_refusal(), self.initialize_effect(admin, token))
    }

    /// An operation reserved to the administrator is refused before
    /// initialization, and unless the administrator approved the call.
    pub open spec fn admin_refusal(self, call: Invocation) -> Option<RentACarError> {
        match self.admin {
            None => Some(RentACarError::NotInitialized),
            Some(admin) => if !call.authorizes(Party::Account(admin)) {
                Some(RentACarError::Unauthorized)
            } else {
                None
            },
        }
    }

    /// Listing a car takes the administrator, a positive price, and an owner
    /// without a car.
    pub open spec fn add_car_refusal(self, call: Invocation, owner: Identity, price_per_day: i128) -> Option<
        RentACarError,
    > {
        if self.admin_refusal(call) is Some {
            self.admin_refusal(call)
        } else if price_per_day <= 0 {
            Some(RentACarError::InvalidPrice)
        } else if self.cars.dom().contains(owner) {
            Some(RentACarError::AlreadyExists)
        } else {
            None
        }
    }

    /// A car is listed as available, with nothing to withdraw, and its owner
    /// joins the list of owners.
    pub open spec fn add_car_effect(self, owner: Identity, price_per_day: i128) -> Ledger {
        Ledger {
            car_owners: add_car_owner_list(self.car_owners, owner),
            cars: self.cars.insert(
                owner,
                Car { price_per_day, car_status: CarStatus::Available, available_to_withdraw: 0 },
            ),
            ..self
        }
    }

    /// What listing a car answers with.
    pub open spec fn add_car_result(self, call: Invocation, owner: Identity, price_per_day: i128) -> Result<
        (),
        RentACarError,
    > {
        answer(self.add_car_refusal(call, owner, price_per_day), ())
    }

    /// The state that listing a car leaves.
    pub open spec fn add_car_state(self, call: Invocation, owner: Identity, price_per_day: i128) -> Ledger {
        outcome(
            self,
            self.add_car_refusal(call, owner, price_per_day),
            self.add_car_effect(owner, price_per_day),
        )
    }

    /// Delisting a car takes the administrator and a listed car that is not
    /// out with a renter.
    pub open spec fn remove_car_refusal(self, call: Invocation, owner: Identity) -> Option<
        RentACarError,
    > {
        if self.admin_refusal(call) is Some {
            self.admin_refusal(call)
        } else if !self.cars.dom().contains(owner) {
            Some(RentACarError::NotFound)
        } else if self.cars[owner].car_status == CarStatus::Rented {
            Some(RentACarError::CarStillRented)
        } else {
            None
        }
    }

    /// A delisted car is gone, and its owner leaves the list of owners.
    pub open spec fn remove_car_effect(self, owner: Identity) -> Ledger {
        Ledger {
            car_owners: without(self.car_owners, owner),
            cars: self.cars.remove(owner),
            ..self
        }
    }

    /// What delisting a car answers with.
    pub open spec fn remove_car_result(self, call: Invocation, owner: Identity) -> Result<
        (),
        RentACarError,
    > {
        answer(self.remove_car_refusal(call, owner), ())
    }

    /// The state that delisting a car leaves.
    pub open spec fn remove_car_state(self, call: Invocation, owner: Identity) -> Ledger {
        outcome(self, self.remove_car_refusal(call, owner), self.remove_car_effect(owner))
    }

    /// Whether one of the sums that a rental forms cannot be held.
    pub open spec fn rental_overflows(
        self,
        call: Invocation,
        owner: Identity,
        days: u32,
        amount: i128,
    ) -> bool {
        ||| !fits_i128(amount + self.commission)
        ||| call.timestamp + rental_seconds(days) > u64::MAX
        ||| !fits_i128(self.cars[owner].available_to_withdraw + amount)
        ||| !fits_i128(self.contract_balance + amount + self.commission)
        ||| !fits_i128(self.admin_commission_balance + self.commission)
    }

    /// A rental takes the renter's approval, at least one day, a renter who
    /// is not the owner, a listed and available car, a payment of exactly the
    /// price per day times the days, which is positive, no rental by the same
    /// renter of the same owner's car, sums that can be held, and an asset to
    /// pay in.
    pub open spec fn rental_refusal(
        self,
        call: Invocation,
        renter: Identity,
        owner: Identity,
        days: u32,
        amount: i128,
    ) -> Option<RentACarError> {
        if !call.authorizes(Party::Account(renter)) {
            Some(RentACarError::Unauthorized)
        } else if days == 0 {
            Some(RentACarError::InvalidDays)
        } else if renter == owner {
            Some(RentACarError::SelfRental)
        } else if !self.cars.dom().contains(owner) {
            Some(RentACarError::NotFound)
        } else if self.cars[owner].car_status != CarStatus::Available {
            Some(RentACarError::CarNotAvailable)
        } else if amount != self.cars[owner].price_per_day * days {
            Some(RentACarError::AmountMismatch)
        } else if amount <= 0 {
            Some(RentACarError::InvalidAmount)
        } else if self.rentals.dom().contains((renter, owner)) {
            Some(RentACarError::AlreadyExists)
        } else if self.rental_overflows(call, owner, days, amount) {
            Some(RentACarError::Overflow)
        } else if self.token is None {
            Some(RentACarError::NotInitialized)
        } else {
            None
        }
    }

    /// The rental that a successful call records.
    pub open spec fn rental_record(call: Invocation, days: u32, amount: i128) -> Rental {
        Rental {
            total_days_to_rent: days,
            amount,
            start_time: call.timestamp,
            end_time: (call.timestamp + rental_seconds(days)) as u64,
        }
    }

    /// A rental marks the car as out, credits the payment to the owner,
    /// records the rental, and takes payment and commission into custody,
    /// the commission for the administrator.
    pub open spec fn rental_effect(
        self,
        call: Invocation,
        renter: Identity,
        owner: Identity,
        days: u32,
        amount: i128,
    ) -> Ledger {
        let car = self.cars[owner];
        Ledger {
            contract_balance: self.contract_balance + amount + self.commission,
            admin_commission_balance: self.admin_commission_balance + self.commission,
            cars: self.cars.insert(
                owner,
                Car {
                    price_per_day: car.price_per_day,
                    car_status: CarStatus::Rented,
                    available_to_withdraw: (car.available_to_withdraw + amount) as i128,
                },
            ),
            rentals: self.rentals.insert((renter, owner), Self::rental_record(call, days, amount)),
            ..self
        }
    }

    /// What the renter pays: payment and commission, to custody.
    pub open spec fn rental_transfer(self, renter: Identity, amount: i128) -> Transfer {
        Transfer {
            token: self.token->Some_0,
            from: Party::Account(renter),
            to: Party::Custody,
            amount: (amount + self.commission) as i128,
        }
    }

    /// What a rental answers with.
    pub open spec fn rental_result(
        self,
        call: Invocation,
        renter: Identity,
        owner: Identity,
        days: u32,
        amount: i128,
    ) -> Result<Transfer, RentACarError> {
        answer(
            self.rental_refusal(call, renter, owner, days, amount),
            self.rental_transfer(renter, amount),
        )
    }

    /// The state that a rental leaves.
    pub open spec fn rental_state(
        self,
        call: Invocation,
        renter: Identity,
        owner: Identity,
        days: u32,
        amount: i128,
    ) -> Ledger {
        outcome(
            self,
            self.rental_refusal(call, renter, owner, days, amount),
            self.rental_effect(call, renter, owner, days, amount),
        )
    }

    /// Ending a rental takes the renter's approval, the rental, and its car
    /// out with the renter.
    pub open spec fn end_rental_refusal(self, call: Invocation, renter: Identity, owner: Identity) -> Option<
        RentACarError,
    > {
        if !call.authorizes(Party::Account(renter)) {
            Some(RentACarError::Unauthorized)
        } else if !self.rentals.dom().contains((renter, owner)) {
            Some(RentACarError::NotFound)
        } else if !self.cars.dom().contains(owner) {
            Some(RentACarError::NotFound)
        } else if self.cars[owner].car_status != CarStatus::Rented {
            Some(RentACarError::RentalNotActive)
        } else {
            None
        }
    }

    /// Ending a rental makes the car available and deletes the rental. No
    /// value moves.
    pub open spec fn end_rental_effect(self, renter: Identity, owner: Identity) -> Ledger {
        let car = self.cars[owner];
        Ledger {
            cars: self.cars.insert(
                owner,
                Car {
                    price_per_day: car.price_per_day,
                    car_status: CarStatus::Available,
                    available_to_withdraw: car.available_to_withdraw,
                },
            ),
            rentals: self.rentals.remove((renter, owner)),
            ..self
        }
    }

    /// What ending a rental answers with.
    pub open spec fn end_rental_result(self, call: Invocation, renter: Identity, owner: Identity) -> Result<
        (),
        RentACarError,
    > {
        answer(self.end_rental_refusal(call, renter, owner), ())
    }

    /// The state that ending a rental leaves.
    pub open spec fn end_rental_state(self, call: Invocation, renter: Identity, owner: Identity) -> Ledger {
        outcome(
            self,
            self.end_rental_refusal(call, renter, owner),
            self.end_rental_effect(renter, owner),
        )
    }

    /// A payout takes the approval of the owner and of custody, a listed car
    /// that is back with its owner, a positive amount within what the owner
    /// may withdraw, custody that can give it, and an asset to pay in.
    pub open spec fn payout_owner_refusal(self, call: Invocation, owner: Identity, amount: i128) -> Option<
        RentACarError,
    > {
        if !call.authorizes(Party::Account(owner)) {
            Some(RentACarError::Unauthorized)
        } else if !call.authorizes(Party::Custody) {
            Some(RentACarError::Unauthorized)
        } else if !self.cars.dom().contains(owner) {
            Some(RentACarError::NotFound)
        } else if self.cars[owner].car_status != CarStatus::Available {
            Some(RentACarError::CarNotAvailable)
        } else if amount <= 0 {
            Some(RentACarError::InvalidAmount)
        } else if amount > self.cars[owner].available_to_withdraw {
            Some(RentACarError::InsufficientFunds)
        } else if !fits_i128(self.contract_balance - amount) {
            Some(RentACarError::Underflow)
        } else if self.token is None {
            Some(RentACarError::NotInitialized)
        } else {
            None
        }
    }

    /// A payout takes the amount off what the owner may withdraw and off
    /// custody.
    pub open spec fn payout_owner_effect(self, owner: Identity, amount: i128) -> Ledger {
        let car = self.cars[owner];
        Ledger {
            contract_balance: self.contract_balance - amount,
            cars: self.cars.insert(
                owner,
                Car {
                    price_per_day: car.price_per_day,
                    car_status: car.car_status,
                    available_to_withdraw: (car.available_to_withdraw - amount) as i128,
                },
            ),
            ..self
        }
    }

    /// What the owner is paid, from custody.
    pub open spec fn payout_owner_transfer(self, owner: Identity, amount: i128) -> Transfer {
        Transfer {
            token: self.token->Some_0,
            from: Party::Custody,
            to: Party::Account(owner),
            amount,
        }
    }

    /// What a payout answers with.
    pub open spec fn payout_owner_result(self, call: Invocation, owner: Identity, amount: i128) -> Result<
        Transfer,
        RentACarError,
    > {
        answer(
            self.payout_owner_refusal(call, owner, amount),
            self.payout_owner_transfer(owner, amount),
        )
    }

    /// The state that a payout leaves.
    pub open spec fn payout_owner_state(self, call: Invocation, owner: Identity, amount: i128) -> Ledger {
        outcome(
            self,
            self.payout_owner_refusal(call, owner, amount),
            self.payout_owner_effect(owner, amount),
        )
    }

    /// Setting the commission takes the administrator and a fee that is not
    /// negative.
    pub open spec fn set_commission_refusal(self, call: Invocation, commission: i128) -> Option<
        RentACarError,
    > {
        if self.admin_refusal(call) is Some {
            self.admin_refusal(call)
        } else if commission < 0 {
            Some(RentACarError::InvalidAmount)
        } else {
            None
        }
    }

    /// The new commission applies to the rentals that follow.
    pub open spec fn set_commission_effect(self, commission: i128) -> Ledger {
        Ledger { commission: commission as int, ..self }
    }

    /// What setting the commission answers with.
    pub open spec fn set_commission_result(self, call: Invocation, commission: i128) -> Result<
        (),
        RentACarError,
    > {
        answer(self.set_commission_refusal(call, commission), ())
    }

    /// The state that setting the commission leaves.
    pub open spec fn set_commission_state(self, call: Invocation, commission: i128) -> Ledger {
        outcome(
            self,
            self.set_commission_refusal(call, commission),
            self.set_commission_effect(commission),
        )
    }

    /// Withdrawing the commissions takes the administrator, something to
    /// withdraw, custody that can give it, and an asset to pay in.
    pub open spec fn withdraw_admin_commissions_refusal(self, call: Invocation) -> Option<
        RentACarError,
    > {
        if self.admin_refusal(call) is Some {
            self.admin_refusal(call)
        } else if self.admin_commission_balance <= 0 {
            Some(RentACarError::InsufficientFunds)
        } else if !fits_i128(self.contract_balance - self.admin_commission_balance) {
            Some(RentACarError::Underflow)
        } else if self.token is None {
            Some(RentACarError::NotInitialized)
        } else {
            None
        }
    }

    /// The withdrawal empties the collected commissions and takes them off
    /// custody.
    pub open spec fn withdraw_admin_commissions_effect(self) -> Ledger {
        Ledger {
            contract_balance: self.contract_balance - self.admin_commission_balance,
            admin_commission_balance: 0,
            ..self
        }
    }

    /// What the administrator is paid, from custody: all that was collected.
    pub open spec fn withdraw_admin_commissions_transfer(self) -> Transfer {
        Transfer {
            token: self.token->Some_0,
            from: Party::Custody,
            to: Party::Account(self.admin->Some_0),
            amount: self.admin_commission_balance as i128,
        }
    }

    /// What withdrawing the commissions answers with.
    pub open spec fn withdraw_admin_commissions_result(self, call: Invocation) -> Result<
        Transfer,
        RentACarError,
    > {
        answer(
            self.withdraw_admin_commissions_refusal(call),
            self.withdraw_admin_commissions_transfer(),
        )
    }

    /// The state that withdrawing the commissions leaves.
    pub open spec fn withdraw_admin_commissions_state(self, call: Invocation) -> Ledger {
        outcome(
            self,
            self.withdraw_admin_commissions_refusal(call),
            self.withdraw_admin_commissions_effect(),
        )
    }
}

} // verus!
