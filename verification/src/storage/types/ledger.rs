use vstd::prelude::*;
use crate::storage::structs::car::Car;
use crate::storage::structs::rental::{Rental, SECONDS_PER_DAY};
use crate::storage::types::car_status::CarStatus;
use crate::storage::types::errors::RentACarError;
use crate::storage::types::identity::Identity;

verus! {

/// The state of the engine as mathematics: what every contract of the crate
/// is stated over.
pub struct Ledger {
    /// The administrator, once the engine has been initialized.
    pub admin: Option<Identity>,
    /// The asset that rentals are paid in, once the engine has been initialized.
    pub token: Option<Identity>,
    /// The value held in custody.
    pub contract_balance: int,
    /// The fee added to every rental, for the administrator.
    pub commission: int,
    /// The fees collected and not yet withdrawn by the administrator.
    pub admin_commission_balance: int,
    /// The owners that have a car listed, in the order of listing.
    pub car_owners: Seq<Identity>,
    /// The listed cars, by owner.
    pub cars: Map<Identity, Car>,
    /// The active rentals, by renter and owner.
    pub rentals: Map<(Identity, Identity), Rental>,
}

/// The sum of what the given owners may withdraw.
pub open spec fn total_withdrawable(owners: Seq<Identity>, cars: Map<Identity, Car>) -> int
    decreases owners.len(),
{
    if owners.len() == 0 {
        0
    } else {
        total_withdrawable(owners.drop_last(), cars) + cars[owners.last()].available_to_withdraw
    }
}

impl Ledger {
    /// The state before initialization: nothing listed, nothing held.
    pub open spec fn blank() -> Ledger {
        Ledger {
            admin: None,
            token: None,
            contract_balance: 0,
            commission: 0,
            admin_commission_balance: 0,
            car_owners: Seq::empty(),
            cars: Map::empty(),
            rentals: Map::empty(),
        }
    }

    /// The administrator, or the refusal that a reader gets before
    /// initialization.
    pub open spec fn admin_lookup(self) -> Result<Identity, RentACarError> {
        match self.admin {
            Some(admin) => Ok(admin),
            None => Err(RentACarError::NotInitialized),
        }
    }

    /// The asset, or the refusal that a reader gets before initialization.
    pub open spec fn token_lookup(self) -> Result<Identity, RentACarError> {
        match self.token {
            Some(token) => Ok(token),
            None => Err(RentACarError::NotInitialized),
        }
    }

    /// The car of `owner`, or the refusal that a reader gets where there is
    /// none.
    pub open spec fn car_lookup(self, owner: Identity) -> Result<Car, RentACarError> {
        if self.cars.dom().contains(owner) {
            Ok(self.cars[owner])
        } else {
            Err(RentACarError::NotFound)
        }
    }

    /// The status of `owner`'s car, or the refusal that a reader gets where
    /// there is none.
    pub open spec fn car_status_lookup(self, owner: Identity) -> Result<CarStatus, RentACarError> {
        if self.cars.dom().contains(owner) {
            Ok(self.cars[owner].car_status)
        } else {
            Err(RentACarError::NotFound)
        }
    }

    /// What `owner` may withdraw, or the refusal that a reader gets where
    /// they have no car.
    pub open spec fn available_lookup(self, owner: Identity) -> Result<i128, RentACarError> {
        if self.cars.dom().contains(owner) {
            Ok(self.cars[owner].available_to_withdraw)
        } else {
            Err(RentACarError::NotFound)
        }
    }

    /// The rental of `owner`'s car by `renter`, or the refusal that a reader
    /// gets where there is none.
    pub open spec fn rental_lookup(self, renter: Identity, owner: Identity) -> Result<
        Rental,
        RentACarError,
    > {
        if self.rentals.dom().contains((renter, owner)) {
            Ok(self.rentals[(renter, owner)])
        } else {
            Err(RentACarError::NotFound)
        }
    }

    /// The sum of what all owners may withdraw.
    pub open spec fn owed_to_owners(self) -> int {
        total_withdrawable(self.car_owners, self.cars)
    }

    /// Custody holds exactly what owners and the administrator may claim.
    pub open spec fn balanced(self) -> bool {
        self.contract_balance == self.owed_to_owners() + self.admin_commission_balance
    }

    /// The list of owners names each owner of a listed car once, and nobody
    /// else.
    pub open spec fn owners_listed(self) -> bool {
        &&& self.car_owners.no_duplicates()
        &&& forall|owner: Identity|
            #![trigger self.cars.dom().contains(owner)]
            #![trigger self.car_owners.contains(owner)]
            self.cars.dom().contains(owner) <==> self.car_owners.contains(owner)
    }

    /// Every listed car has a positive price and owes its owner no negative
    /// amount.
    pub open spec fn cars_sound(self) -> bool {
        forall|owner: Identity| #[trigger]
            self.cars.dom().contains(owner) ==> {
                &&& self.cars[owner].price_per_day > 0
                &&& self.cars[owner].available_to_withdraw >= 0
            }
    }

    /// Whether the car of `owner` is listed and out with a renter.
    pub open spec fn is_out(self, owner: Identity) -> bool {
        self.cars.dom().contains(owner) && self.cars[owner].car_status == CarStatus::Rented
    }

    /// Whether somebody has an active rental of `owner`'s car.
    pub open spec fn has_renter(self, owner: Identity) -> bool {
        exists|renter: Identity| #[trigger] self.rentals.dom().contains((renter, owner))
    }

    /// The rental of `owner`'s car by `renter` is the rental of a listed car
    /// that is out, by somebody other than its owner, paid at the car's
    /// price, and due back when its days are over.
    pub open spec fn rental_sound(self, renter: Identity, owner: Identity) -> bool {
        let rental = self.rentals[(renter, owner)];
        &&& renter != owner
        &&& self.is_out(owner)
        &&& rental.total_days_to_rent > 0
        &&& rental.amount == self.cars[owner].price_per_day * rental.total_days_to_rent
        &&& rental.end_time == rental.start_time + rental.total_days_to_rent * SECONDS_PER_DAY
    }

    /// Rentals and car statuses agree: a rental is recorded exactly for the
    /// cars that are out, and for each of them exactly one.
    pub open spec fn rentals_match_cars(self) -> bool {
        &&& forall|renter: Identity, owner: Identity| #[trigger]
            self.rentals.dom().contains((renter, owner)) ==> self.rental_sound(renter, owner)
        &&& forall|owner: Identity| #[trigger] self.is_out(owner) ==> self.has_renter(owner)
        &&& forall|first: Identity, second: Identity, owner: Identity|
            #[trigger] self.rentals.dom().contains((first, owner))
                && #[trigger] self.rentals.dom().contains((second, owner)) ==> first == second
    }

    /// What holds of every state that the engine's operations can reach from
    /// the blank state.
    pub open spec fn inv(self) -> bool {
        &&& self.admin is Some <==> self.token is Some
        &&& self.admin is None ==> self.car_owners.len() == 0
        &&& self.owners_listed()
        &&& self.cars_sound()
        &&& self.rentals_match_cars()
        &&& self.commission >= 0
        &&& self.admin_commission_balance >= 0
        &&& self.owed_to_owners() + self.admin_commission_balance <= self.contract_balance
    }
}

} // verus!
