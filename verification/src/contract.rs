use vstd::prelude::*;
use crate::interface::invariants::{
    lemma_add_car_keeps_inv, lemma_end_rental_keeps_inv, lemma_initialize_keeps_inv,
    lemma_payout_owner_keeps_inv, lemma_remove_car_keeps_balance, lemma_remove_car_keeps_inv,
    lemma_rental_keeps_inv, lemma_set_commission_keeps_inv,
    lemma_withdraw_admin_commissions_keeps_inv,
};
use crate::interface::contract::answer;
use crate::interface::laws::lemma_blank_is_sound;
use crate::methods::auth::{require_auth, Invocation, Party};
use crate::methods::token::{token_transfer, Transfer};
use crate::methods::validation::{
    validate_not_self_rental, validate_payment_amount, validate_price, validate_rental_days,
    validate_withdrawal_amount,
};
use crate::storage::admin::{has_admin, read_admin, write_admin};
use crate::storage::car::{has_car, read_car, remove_car, write_car};
use crate::storage::car_owners::{add_car_owner, remove_car_owner};
use crate::storage::commission::{
    read_admin_commission_balance, read_commission, write_admin_commission_balance,
    write_commission,
};
use crate::storage::contract_balance::{read_contract_balance, write_contract_balance};
use crate::storage::rental::{has_rental, read_rental, remove_rental, write_rental};
use crate::storage::structs::car::Car;
use crate::storage::structs::rental::{Rental, SECONDS_PER_DAY};
use crate::storage::token::write_token;
use crate::storage::types::car_status::CarStatus;
use crate::storage::types::errors::RentACarError;
use crate::storage::types::identity::Identity;
use crate::storage::types::ledger::Ledger;
use crate::storage::types::storage::Storage;

verus! {

/// The rental engine: the state it keeps and the operations that change it.
///
/// Every operation takes what the host established about the call, checks it,
/// and either applies all of its changes or refuses and changes nothing. An
/// operation that moves value answers with the transfer that the host must
/// carry out as the last step of the same call. Where the transfer fails,
/// the call must leave no trace: the host discards the changes with its own
/// transaction, or with [`RentACarContract::checkpoint`] and
/// [`RentACarContract::rollback`].
pub struct RentACarContract {
    storage: Storage,
}

impl RentACarContract {
    /// The state of the engine.
    pub closed spec fn view(&self) -> Ledger {
        self.storage@
    }

    /// An engine that has not been initialized.
    pub fn new() -> (contract: Self)
        ensures
            contract@ == Ledger::blank(),
            contract@.inv(),
            contract@.balanced(),
    {
        proof {
            lemma_blank_is_sound();
        }
        RentACarContract { storage: Storage::new() }
    }

    /// An engine initialized with its administrator and the asset that
    /// rentals are paid in.
    pub fn __constructor(admin: Identity, token: Identity) -> (contract: Self)
        ensures
            contract@ == Ledger::blank().initialize_effect(admin, token),
            contract@.inv(),
            contract@.balanced(),
    {
        proof {
            lemma_blank_is_sound();
            lemma_initialize_keeps_inv(Ledger::blank(), admin, token);
        }
        let mut storage = Storage::new();
        write_admin(&mut storage, &admin);
        write_token(&mut storage, &token);
        RentACarContract { storage }
    }

    /// The engine over what `storage` holds.
    pub fn from_storage(storage: Storage) -> (contract: Self)
        ensures
            contract@ == storage@,
    {
        RentACarContract { storage }
    }

    /// What the engine keeps between calls.
    pub fn storage(&self) -> (storage: &Storage)
        ensures
            storage@ == self@,
    {
        &self.storage
    }

    /// Gives up the engine for what it keeps between calls.
    pub fn into_storage(self) -> (storage: Storage)
        ensures
            storage@ == self@,
    {
        self.storage
    }

    /// The engine as it is now, to go back to. A host whose transfers can
    /// fail keeps one before an operation that orders a transfer, and goes
    /// back to it with [`Self::rollback`] where the transfer fails: then the
    /// operation has changed nothing.
    pub fn checkpoint(&self) -> (copy: Self)
        ensures
            copy@ == self@,
    {
        RentACarContract { storage: self.storage.checkpoint() }
    }

    /// Goes back to `checkpoint`: what was done since is undone.
    pub fn rollback(&mut self, checkpoint: Self)
        ensures
            final(self)@ == checkpoint@,
    {
        self.storage = checkpoint.storage;
    }

    /// Sets the administrator and the asset, once.
    pub fn initialize(&mut self, admin: Identity, token: Identity) -> (res: Result<
        (),
        RentACarError,
    >)
        ensures
            res == old(self)@.initialize_result(),
            final(self)@ == old(self)@.initialize_state(admin, token),
            res is Err ==> final(self)@ == old(self)@,
            old(self)@.inv() ==> final(self)@.inv(),
            old(self)@.inv() && old(self)@.balanced() ==> final(self)@.balanced(),
    {
        proof {
            if old(self)@.inv() {
                lemma_initialize_keeps_inv(old(self)@, admin, token);
            }
        }
        if has_admin(&self.storage) {
            return Err(RentACarError::AlreadyInitialized);
        }
        write_admin(&mut self.storage, &admin);
        write_token(&mut self.storage, &token);
        Ok(())
    }

    /// The administrator.
    pub fn get_admin(&self) -> (res: Result<Identity, RentACarError>)
        ensures
            res == self@.admin_lookup(),
    {
        read_admin(&self.storage)
    }

    /// Refuses the call unless it comes from the administrator.
    fn require_admin(&self, call: &Invocation) -> (res: Result<Identity, RentACarError>)
        ensures
            res == answer(self@.admin_refusal(*call), self@.admin->Some_0),
    {
        let admin = match read_admin(&self.storage) {
            Ok(admin) => admin,
            Err(e) => {
                return Err(e);
            },
        };
        match require_auth(call, &Party::Account(admin)) {
            Ok(()) => Ok(admin),
            Err(e) => Err(e),
        }
    }

    /// Lists the car of `owner` at `price_per_day`.
    pub fn add_car(&mut self, call: &Invocation, owner: Identity, price_per_day: i128) -> (res: Result<
        (),
        RentACarError,
    >)
        ensures
            res == old(self)@.add_car_result(*call, owner, price_per_day),
            final(self)@ == old(self)@.add_car_state(*call, owner, price_per_day),
            res is Err ==> final(self)@ == old(self)@,
            old(self)@.inv() ==> final(self)@.inv(),
            old(self)@.inv() && old(self)@.balanced() ==> final(self)@.balanced(),
    {
        proof {
            if old(self)@.inv() {
                lemma_add_car_keeps_inv(old(self)@, *call, owner, price_per_day);
            }
        }
        if let Err(e) = self.require_admin(call) {
            return Err(e);
        }
        if let Err(e) = validate_price(price_per_day) {
            return Err(e);
        }
        if has_car(&self.storage, &owner) {
            return Err(RentACarError::AlreadyExists);
        }
        add_car_owner(&mut self.storage, &owner);
        let car = Car { price_per_day, car_status: CarStatus::Available, available_to_withdraw: 0 };
        write_car(&mut self.storage, &owner, &car);
        Ok(())
    }

    /// Whether the car of `owner` can be rented.
    pub fn get_car_status(&self, owner: Identity) -> (res: Result<CarStatus, RentACarError>)
        ensures
            res == self@.car_status_lookup(owner),
    {
        match read_car(&self.storage, &owner) {
            Ok(car) => Ok(car.car_status),
            Err(e) => Err(e),
        }
    }

    /// Rents the car of `owner` to `renter` for `total_days_to_rent` days,
    /// against a payment of `amount`. The renter pays the commission on top.
    pub fn rental(
        &mut self,
        call: &Invocation,
        renter: Identity,
        owner: Identity,
        total_days_to_rent: u32,
        amount: i128,
    ) -> (res: Result<Transfer, RentACarError>)
        ensures
            res == old(self)@.rental_result(*call, renter, owner, total_days_to_rent, amount),
            final(self)@ == old(self)@.rental_state(*call, renter, owner, total_days_to_rent, amount),
            res is Err ==> final(self)@ == old(self)@,
            old(self)@.inv() ==> final(self)@.inv(),
            old(self)@.inv() && old(self)@.balanced() ==> final(self)@.balanced(),
    {
        proof {
            if old(self)@.inv() {
                lemma_rental_keeps_inv(old(self)@, *call, renter, owner, total_days_to_rent, amount);
            }
        }
        if let Err(e) = require_auth(call, &Party::Account(renter)) {
            return Err(e);
        }
        if let Err(e) = validate_rental_days(total_days_to_rent) {
            return Err(e);
        }
        if let Err(e) = validate_not_self_rental(&renter, &owner) {
            return Err(e);
        }
        let mut car = match read_car(&self.storage, &owner) {
            Ok(car) => car,
            Err(e) => {
                return Err(e);
            },
        };
        if car.car_status != CarStatus::Available {
            return Err(RentACarError::CarNotAvailable);
        }
        if let Err(e) = validate_payment_amount(amount, car.price_per_day, total_days_to_rent) {
            return Err(e);
        }
        if has_rental(&self.storage, &renter, &owner) {
            return Err(RentACarError::AlreadyExists);
        }
        let commission = read_commission(&self.storage);
        let total_amount = match amount.checked_add(commission) {
            Some(sum) => sum,
            None => {
                return Err(RentACarError::Overflow);
            },
        };
        let start_time: u64 = call.timestamp;
        let days_wide: u64 = total_days_to_rent as u64;
        let duration: u64 = days_wide * SECONDS_PER_DAY;
        let end_time = match start_time.checked_add(duration) {
            Some(sum) => sum,
            None => {
                return Err(RentACarError::Overflow);
            },
        };
        car.car_status = CarStatus::Rented;
        car.available_to_withdraw = match car.available_to_withdraw.checked_add(amount) {
            Some(sum) => sum,
            None => {
                return Err(RentACarError::Overflow);
            },
        };
        let rental = Rental { total_days_to_rent, amount, start_time, end_time };
        let contract_balance = match read_contract_balance(&self.storage).checked_add(
            total_amount,
        ) {
            Some(sum) => sum,
            None => {
                return Err(RentACarError::Overflow);
            },
        };
        let admin_commission_balance = match read_admin_commission_balance(
            &self.storage,
        ).checked_add(commission) {
            Some(sum) => sum,
            None => {
                return Err(RentACarError::Overflow);
            },
        };
        let transfer = match token_transfer(
            &self.storage,
            &Party::Account(renter),
            &Party::Custody,
            &total_amount,
        ) {
            Ok(transfer) => transfer,
            Err(e) => {
                return Err(e);
            },
        };
        write_admin_commission_balance(&mut self.storage, &admin_commission_balance);
        write_contract_balance(&mut self.storage, &contract_balance);
        write_car(&mut self.storage, &owner, &car);
        write_rental(&mut self.storage, &renter, &owner, &rental);
        Ok(transfer)
    }

    /// Delists the car of `owner`.
    pub fn remove_car(&mut self, call: &Invocation, owner: Identity) -> (res: Result<
        (),
        RentACarError,
    >)
        ensures
            res == old(self)@.remove_car_result(*call, owner),
            final(self)@ == old(self)@.remove_car_state(*call, owner),
            res is Err ==> final(self)@ == old(self)@,
            old(self)@.inv() ==> final(self)@.inv(),
            old(self)@.inv() && old(self)@.balanced() && (res is Ok ==> old(self)@.cars[owner].available_to_withdraw == 0) ==> final(self)@.balanced(),
    {
        proof {
            if old(self)@.inv() {
                lemma_remove_car_keeps_inv(old(self)@, *call, owner);
                if old(self)@.balanced() && old(self)@.remove_car_refusal(*call, owner) is None
                    && old(self)@.cars[owner].available_to_withdraw == 0 {
                    lemma_remove_car_keeps_balance(old(self)@, *call, owner);
                }
            }
        }
        if let Err(e) = self.require_admin(call) {
            return Err(e);
        }
        let car = match read_car(&self.storage, &owner) {
            Ok(car) => car,
            Err(e) => {
                return Err(e);
            },
        };
        if car.car_status == CarStatus::Rented {
            return Err(RentACarError::CarStillRented);
        }
        remove_car_owner(&mut self.storage, &owner);
        remove_car(&mut self.storage, &owner);
        Ok(())
    }

    /// Pays `amount` of what `owner` may withdraw out of custody.
    pub fn payout_owner(&mut self, call: &Invocation, owner: Identity, amount: i128) -> (res: Result<
        Transfer,
        RentACarError,
    >)
        ensures
            res == old(self)@.payout_owner_result(*call, owner, amount),
            final(self)@ == old(self)@.payout_owner_state(*call, owner, amount),
            res is Err ==> final(self)@ == old(self)@,
            old(self)@.inv() ==> final(self)@.inv(),
            old(self)@.inv() && old(self)@.balanced() ==> final(self)@.balanced(),
    {
        proof {
            if old(self)@.inv() {
                lemma_payout_owner_keeps_inv(old(self)@, *call, owner, amount);
            }
        }
        if let Err(e) = require_auth(call, &Party::Account(owner)) {
            return Err(e);
        }
        if let Err(e) = require_auth(call, &Party::Custody) {
            return Err(e);
        }
        let mut car = match read_car(&self.storage, &owner) {
            Ok(car) => car,
            Err(e) => {
                return Err(e);
            },
        };
        if car.car_status != CarStatus::Available {
            return Err(RentACarError::CarNotAvailable);
        }
        if let Err(e) = validate_withdrawal_amount(amount, car.available_to_withdraw) {
            return Err(e);
        }
        car.available_to_withdraw = match car.available_to_withdraw.checked_sub(amount) {
            Some(difference) => difference,
            None => {
                return Err(RentACarError::Underflow);
            },
        };
        let contract_balance = match read_contract_balance(&self.storage).checked_sub(amount) {
            Some(difference) => difference,
            None => {
                return Err(RentACarError::Underflow);
            },
        };
        let transfer = match token_transfer(
            &self.storage,
            &Party::Custody,
            &Party::Account(owner),
            &amount,
        ) {
            Ok(transfer) => transfer,
            Err(e) => {
                return Err(e);
            },
        };
        write_car(&mut self.storage, &owner, &car);
        write_contract_balance(&mut self.storage, &contract_balance);
        Ok(transfer)
    }

    /// The car of `owner`.
    pub fn get_car(&self, owner: Identity) -> (res: Result<Car, RentACarError>)
        ensures
            res == self@.car_lookup(owner),
    {
        read_car(&self.storage, &owner)
    }

    /// Whether `owner` has a car listed.
    pub fn has_car(&self, owner: Identity) -> (listed: bool)
        ensures
            listed == self@.cars.dom().contains(owner),
    {
        has_car(&self.storage, &owner)
    }

    /// The active rental of `owner`'s car by `renter`.
    pub fn get_rental(&self, renter: Identity, owner: Identity) -> (res: Result<
        Rental,
        RentACarError,
    >)
        ensures
            res == self@.rental_lookup(renter, owner),
    {
        read_rental(&self.storage, &renter, &owner)
    }

    /// Whether `renter` has an active rental of `owner`'s car.
    pub fn has_rental(&self, renter: Identity, owner: Identity) -> (active: bool)
        ensures
            active == self@.rentals.dom().contains((renter, owner)),
    {
        has_rental(&self.storage, &renter, &owner)
    }

    /// What `owner` may withdraw.
    pub fn get_available_to_withdraw(&self, owner: Identity) -> (res: Result<i128, RentACarError>)
        ensures
            res == self@.available_lookup(owner),
    {
        match read_car(&self.storage, &owner) {
            Ok(car) => Ok(car.available_to_withdraw),
            Err(e) => Err(e),
        }
    }

    /// Ends the rental of `owner`'s car by `renter`: the car is back.
    pub fn end_rental(&mut self, call: &Invocation, renter: Identity, owner: Identity) -> (res: Result<
        (),
        RentACarError,
    >)
        ensures
            res == old(self)@.end_rental_result(*call, renter, owner),
            final(self)@ == old(self)@.end_rental_state(*call, renter, owner),
            res is Err ==> final(self)@ == old(self)@,
            old(self)@.inv() ==> final(self)@.inv(),
            old(self)@.inv() && old(self)@.balanced() ==> final(self)@.balanced(),
    {
        proof {
            if old(self)@.inv() {
                lemma_end_rental_keeps_inv(old(self)@, *call, renter, owner);
            }
        }
        if let Err(e) = require_auth(call, &Party::Account(renter)) {
            return Err(e);
        }
        if let Err(e) = read_rental(&self.storage, &renter, &owner) {
            return Err(e);
        }
        let mut car = match read_car(&self.storage, &owner) {
            Ok(car) => car,
            Err(e) => {
                return Err(e);
            },
        };
        if car.car_status != CarStatus::Rented {
            return Err(RentACarError::RentalNotActive);
        }
        car.car_status = CarStatus::Available;
        write_car(&mut self.storage, &owner, &car);
        remove_rental(&mut self.storage, &renter, &owner);
        Ok(())
    }

    /// Sets the fee added to every rental that follows.
    pub fn set_commission(&mut self, call: &Invocation, commission: i128) -> (res: Result<
        (),
        RentACarError,
    >)
        ensures
            res == old(self)@.set_commission_result(*call, commission),
            final(self)@ == old(self)@.set_commission_state(*call, commission),
            res is Err ==> final(self)@ == old(self)@,
            old(self)@.inv() ==> final(self)@.inv(),
            old(self)@.inv() && old(self)@.balanced() ==> final(self)@.balanced(),
    {
        proof {
            if old(self)@.inv() {
                lemma_set_commission_keeps_inv(old(self)@, *call, commission);
            }
        }
        if let Err(e) = self.require_admin(call) {
            return Err(e);
        }
        if commission < 0 {
            return Err(RentACarError::InvalidAmount);
        }
        write_commission(&mut self.storage, &commission);
        Ok(())
    }

    /// The fee added to every rental.
    pub fn get_commission(&self) -> (commission: i128)
        ensures
            commission == self@.commission,
    {
        read_commission(&self.storage)
    }

    /// Pays all collected commissions to the administrator, out of custody.
    pub fn withdraw_admin_commissions(&mut self, call: &Invocation) -> (res: Result<
        Transfer,
        RentACarError,
    >)
        ensures
            res == old(self)@.withdraw_admin_commissions_result(*call),
            final(self)@ == old(self)@.withdraw_admin_commissions_state(*call),
            res is Err ==> final(self)@ == old(self)@,
            old(self)@.inv() ==> final(self)@.inv(),
            old(self)@.inv() && old(self)@.balanced() ==> final(self)@.balanced(),
    {
        proof {
            if old(self)@.inv() {
                lemma_withdraw_admin_commissions_keeps_inv(old(self)@, *call);
            }
        }
        let admin = match self.require_admin(call) {
            Ok(admin) => admin,
            Err(e) => {
                return Err(e);
            },
        };
        let amount_to_withdraw = read_admin_commission_balance(&self.storage);
        if amount_to_withdraw <= 0 {
            return Err(RentACarError::InsufficientFunds);
        }
        let contract_balance = match read_contract_balance(&self.storage).checked_sub(
            amount_to_withdraw,
        ) {
            Some(difference) => difference,
            None => {
                return Err(RentACarError::Underflow);
            },
        };
        let transfer = match token_transfer(
            &self.storage,
            &Party::Custody,
            &Party::Account(admin),
            &amount_to_withdraw,
        ) {
            Ok(transfer) => transfer,
            Err(e) => {
                return Err(e);
            },
        };
        write_admin_commission_balance(&mut self.storage, &0);
        write_contract_balance(&mut self.storage, &contract_balance);
        Ok(transfer)
    }

    /// The fees collected and not yet withdrawn.
    pub fn get_admin_commission_balance(&self) -> (amount: i128)
        ensures
            amount == self@.admin_commission_balance,
    {
        read_admin_commission_balance(&self.storage)
    }
}

} // verus!
