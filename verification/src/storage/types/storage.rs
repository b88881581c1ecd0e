use vstd::prelude::*;
use crate::storage::car_owners::get_car_owners;
use crate::storage::structs::car::Car;
use crate::storage::structs::rental::Rental;
use crate::storage::types::identity::Identity;
use crate::storage::types::ledger::Ledger;
use crate::storage::types::record::{copy_records, records_map, Record};

verus! {

/// A car as stored: under its owner.
pub type CarRecord = Record<Identity, Car>;

/// A rental as stored: under its renter and the owner of the car.
pub type RentalRecord = Record<(Identity, Identity), Rental>;

/// Everything the engine keeps between calls.
pub struct Storage {
    pub(crate) admin: Option<Identity>,
    pub(crate) token: Option<Identity>,
    pub(crate) contract_balance: i128,
    pub(crate) commission: i128,
    pub(crate) admin_commission_balance: i128,
    pub(crate) car_owners: Vec<Identity>,
    pub(crate) cars: Vec<CarRecord>,
    pub(crate) rentals: Vec<RentalRecord>,
}

impl Storage {
    /// The state that this store holds.
    pub open(crate) spec fn view(&self) -> Ledger {
        Ledger {
            admin: self.admin,
            token: self.token,
            contract_balance: self.contract_balance as int,
            commission: self.commission as int,
            admin_commission_balance: self.admin_commission_balance as int,
            car_owners: self.car_owners@,
            cars: records_map(self.cars@),
            rentals: records_map(self.rentals@),
        }
    }

    /// An empty store.
    pub fn new() -> (store: Storage)
        ensures
            store@ == Ledger::blank(),
    {
        Storage {
            admin: None,
            token: None,
            contract_balance: 0,
            commission: 0,
            admin_commission_balance: 0,
            car_owners: Vec::new(),
            cars: Vec::new(),
            rentals: Vec::new(),
        }
    }

    /// A second store that holds what this one holds now, and does not
    /// follow what is written to this one later.
    pub fn checkpoint(&self) -> (copy: Storage)
        ensures
            copy@ == self@,
    {
        Storage {
            admin: self.admin,
            token: self.token,
            contract_balance: self.contract_balance,
            commission: self.commission,
            admin_commission_balance: self.admin_commission_balance,
            car_owners: get_car_owners(self),
            cars: copy_records(&self.cars),
            rentals: copy_records(&self.rentals),
        }
    }
}

} // verus!
