use rent_a_car::contract::RentACarContract;
use rent_a_car::methods::auth::{Invocation, Party};
use rent_a_car::storage::admin::write_admin;
use rent_a_car::storage::car::write_car;
use rent_a_car::storage::commission::write_admin_commission_balance;
use rent_a_car::storage::contract_balance::{read_contract_balance, write_contract_balance};
use rent_a_car::storage::rental::write_rental;
use rent_a_car::storage::structs::car::Car;
use rent_a_car::storage::structs::rental::Rental;
use rent_a_car::storage::token::write_token;
use rent_a_car::storage::types::car_status::CarStatus;
use rent_a_car::storage::types::errors::RentACarError;
use rent_a_car::storage::types::storage::Storage;

fn approved_by(parties: &[Party]) -> Invocation {
    let mut call = Invocation::new(0);
    for party in parties {
        call.authorize(*party);
    }
    call
}

fn initialized() -> Storage {
    let mut store = Storage::new();
    write_admin(&mut store, &1);
    write_token(&mut store, &2);
    store
}

fn car(status: CarStatus, available: i128) -> Car {
    Car { price_per_day: 1500, car_status: status, available_to_withdraw: available }
}

fn three_days() -> Rental {
    Rental { total_days_to_rent: 3, amount: 4500, start_time: 0, end_time: 259200 }
}

#[test]
fn end_rental_refuses_a_rental_whose_car_is_not_out() {
    let mut store = initialized();
    write_car(&mut store, &100, &car(CarStatus::Available, 4500));
    write_rental(&mut store, &200, &100, &three_days());
    let mut contract = RentACarContract::from_storage(store);

    let call = approved_by(&[Party::Account(200)]);
    assert_eq!(contract.end_rental(&call, 200, 100), Err(RentACarError::RentalNotActive));
    assert!(contract.has_rental(200, 100));
}

#[test]
fn end_rental_refuses_a_rental_without_a_car() {
    let mut store = initialized();
    write_rental(&mut store, &200, &100, &three_days());
    let mut contract = RentACarContract::from_storage(store);

    let call = approved_by(&[Party::Account(200)]);
    assert_eq!(contract.end_rental(&call, 200, 100), Err(RentACarError::NotFound));
    assert!(contract.has_rental(200, 100));
}

#[test]
fn rental_refuses_a_pair_that_has_a_rental_recorded() {
    let mut store = initialized();
    write_car(&mut store, &100, &car(CarStatus::Available, 0));
    write_rental(&mut store, &200, &100, &three_days());
    let mut contract = RentACarContract::from_storage(store);

    let call = approved_by(&[Party::Account(200)]);
    assert_eq!(contract.rental(&call, 200, 100, 3, 4500), Err(RentACarError::AlreadyExists));
    assert_eq!(contract.get_car_status(100), Ok(CarStatus::Available));
}

#[test]
fn payout_refuses_what_custody_cannot_give() {
    let mut store = initialized();
    write_car(&mut store, &100, &car(CarStatus::Available, 4500));
    write_contract_balance(&mut store, &(i128::MIN + 10));
    let mut contract = RentACarContract::from_storage(store);

    let call = approved_by(&[Party::Account(100), Party::Custody]);
    assert_eq!(contract.payout_owner(&call, 100, 11), Err(RentACarError::Underflow));
    assert_eq!(contract.get_available_to_withdraw(100), Ok(4500));
    assert_eq!(read_contract_balance(contract.storage()), i128::MIN + 10);

    assert!(contract.payout_owner(&call, 100, 10).is_ok());
    assert_eq!(read_contract_balance(contract.storage()), i128::MIN);
}

#[test]
fn withdrawal_refuses_what_custody_cannot_give() {
    let mut store = initialized();
    write_admin_commission_balance(&mut store, &5);
    write_contract_balance(&mut store, &(i128::MIN + 4));
    let mut contract = RentACarContract::from_storage(store);

    let call = approved_by(&[Party::Account(1)]);
    assert_eq!(contract.withdraw_admin_commissions(&call), Err(RentACarError::Underflow));
    assert_eq!(contract.get_admin_commission_balance(), 5);
}

#[test]
fn a_transfer_needs_an_asset() {
    let mut store = Storage::new();
    write_admin(&mut store, &1);
    write_car(&mut store, &100, &car(CarStatus::Available, 4500));
    write_contract_balance(&mut store, &4500);
    let mut contract = RentACarContract::from_storage(store);

    let renter_call = approved_by(&[Party::Account(200)]);
    assert_eq!(
        contract.rental(&renter_call, 200, 100, 3, 4500),
        Err(RentACarError::NotInitialized)
    );
    let owner_call = approved_by(&[Party::Account(100), Party::Custody]);
    assert_eq!(contract.payout_owner(&owner_call, 100, 4500), Err(RentACarError::NotInitialized));
    assert_eq!(contract.get_available_to_withdraw(100), Ok(4500));
    assert_eq!(contract.get_car_status(100), Ok(CarStatus::Available));
}

#[test]
fn rental_refuses_a_payment_that_matches_a_price_below_zero() {
    let mut store = initialized();
    let priced_below_zero =
        Car { price_per_day: -1500, car_status: CarStatus::Available, available_to_withdraw: 0 };
    write_car(&mut store, &100, &priced_below_zero);
    let mut contract = RentACarContract::from_storage(store);

    let call = approved_by(&[Party::Account(200)]);
    assert_eq!(contract.rental(&call, 200, 100, 3, -4500), Err(RentACarError::InvalidAmount));
    assert_eq!(contract.rental(&call, 200, 100, 3, 4500), Err(RentACarError::AmountMismatch));
    assert_eq!(contract.get_car_status(100), Ok(CarStatus::Available));
}
