use rent_a_car::contract::RentACarContract;
use rent_a_car::methods::auth::{Invocation, Party};
use rent_a_car::methods::token::Transfer;
use rent_a_car::storage::car_owners::get_car_owners;
use rent_a_car::storage::commission::read_admin_commission_balance;
use rent_a_car::storage::contract_balance::read_contract_balance;
use rent_a_car::storage::types::car_status::CarStatus;
use rent_a_car::storage::types::errors::RentACarError;
use rent_a_car::storage::types::identity::Identity;

const ADMIN: Identity = 1;
const TOKEN: Identity = 2;

fn approved_by(parties: &[Party]) -> Invocation {
    let mut call = Invocation::new(50);
    for party in parties {
        call.authorize(*party);
    }
    call
}

fn engine() -> RentACarContract {
    RentACarContract::__constructor(ADMIN, TOKEN)
}

/// Custody against the claims of all owners and of the administrator.
fn surplus(contract: &RentACarContract) -> i128 {
    let owners = get_car_owners(contract.storage());
    let mut owed = read_admin_commission_balance(contract.storage());
    for owner in owners {
        owed += contract.get_available_to_withdraw(owner).unwrap();
    }
    read_contract_balance(contract.storage()) - owed
}

/// Rentals and statuses agree for the given owners and renters.
fn rentals_match_cars(contract: &RentACarContract, owners: &[Identity], renters: &[Identity]) -> bool {
    owners.iter().all(|owner| {
        let active = renters.iter().filter(|renter| contract.has_rental(**renter, *owner)).count();
        match contract.get_car_status(*owner) {
            Ok(CarStatus::Rented) => active == 1,
            _ => active == 0,
        }
    })
}

#[test]
fn initialize_sets_admin_and_token_once() {
    let mut contract = RentACarContract::new();
    assert_eq!(contract.get_admin(), Err(RentACarError::NotInitialized));

    assert_eq!(contract.initialize(ADMIN, TOKEN), Ok(()));
    assert_eq!(contract.get_admin(), Ok(ADMIN));

    assert_eq!(contract.initialize(9, 8), Err(RentACarError::AlreadyInitialized));
    assert_eq!(contract.get_admin(), Ok(ADMIN));
}

#[test]
fn a_constructed_engine_is_initialized() {
    let mut contract = engine();
    assert_eq!(contract.get_admin(), Ok(ADMIN));
    assert_eq!(contract.initialize(9, 8), Err(RentACarError::AlreadyInitialized));
}

#[test]
fn rental_without_commission_then_payout() {
    let mut contract = engine();
    assert_eq!(contract.add_car(&approved_by(&[Party::Account(ADMIN)]), 100, 1500), Ok(()));
    let renter_call = approved_by(&[Party::Account(200)]);

    assert!(contract.rental(&renter_call, 200, 100, 3, 4500).is_ok());
    assert_eq!(read_contract_balance(contract.storage()), 4500);
    assert_eq!(contract.get_available_to_withdraw(100), Ok(4500));

    assert_eq!(contract.end_rental(&renter_call, 200, 100), Ok(()));
    let owner_call = approved_by(&[Party::Account(100), Party::Custody]);
    assert!(contract.payout_owner(&owner_call, 100, 4500).is_ok());
    assert_eq!(read_contract_balance(contract.storage()), 0);
    assert_eq!(contract.get_available_to_withdraw(100), Ok(0));
}

#[test]
fn rental_with_commission_then_withdrawal() {
    let mut contract = engine();
    let admin_call = approved_by(&[Party::Account(ADMIN)]);
    assert_eq!(contract.set_commission(&admin_call, 200), Ok(()));
    assert_eq!(contract.add_car(&admin_call, 100, 1500), Ok(()));

    let transfer = contract.rental(&approved_by(&[Party::Account(200)]), 200, 100, 3, 4500);
    assert_eq!(
        transfer,
        Ok(Transfer { token: TOKEN, from: Party::Account(200), to: Party::Custody, amount: 4700 })
    );
    assert_eq!(read_contract_balance(contract.storage()), 4700);
    assert_eq!(contract.get_admin_commission_balance(), 200);
    assert_eq!(contract.get_available_to_withdraw(100), Ok(4500));

    let transfer = contract.withdraw_admin_commissions(&admin_call);
    assert_eq!(
        transfer,
        Ok(Transfer { token: TOKEN, from: Party::Custody, to: Party::Account(ADMIN), amount: 200 })
    );
    assert_eq!(read_contract_balance(contract.storage()), 4500);
    assert_eq!(contract.get_admin_commission_balance(), 0);
}

#[test]
fn self_rental_changes_nothing() {
    let mut contract = engine();
    assert_eq!(contract.add_car(&approved_by(&[Party::Account(ADMIN)]), 100, 1500), Ok(()));

    let call = approved_by(&[Party::Account(100)]);
    assert_eq!(contract.rental(&call, 100, 100, 3, 4500), Err(RentACarError::SelfRental));

    assert_eq!(contract.get_car_status(100), Ok(CarStatus::Available));
    assert_eq!(read_contract_balance(contract.storage()), 0);
    assert!(!contract.has_rental(100, 100));
}

#[test]
fn second_rental_changes_no_balance() {
    let mut contract = engine();
    let admin_call = approved_by(&[Party::Account(ADMIN)]);
    assert_eq!(contract.set_commission(&admin_call, 200), Ok(()));
    assert_eq!(contract.add_car(&admin_call, 100, 1500), Ok(()));
    let renter_call = approved_by(&[Party::Account(200)]);
    assert!(contract.rental(&renter_call, 200, 100, 3, 4500).is_ok());

    assert!(contract.rental(&renter_call, 200, 100, 3, 4500).is_err());

    assert_eq!(read_contract_balance(contract.storage()), 4700);
    assert_eq!(contract.get_admin_commission_balance(), 200);
    assert_eq!(contract.get_available_to_withdraw(100), Ok(4500));
    assert_eq!(contract.get_rental(200, 100).unwrap().amount, 4500);
}

#[test]
fn custody_equals_claims_after_every_step_of_a_history() {
    let mut contract = engine();
    let admin_call = approved_by(&[Party::Account(ADMIN)]);
    let owners = [100, 101, 102];
    let renters = [200, 201];
    assert_eq!(surplus(&contract), 0);

    assert_eq!(contract.set_commission(&admin_call, 75), Ok(()));
    assert_eq!(surplus(&contract), 0);
    for (owner, price) in [(100, 1500_i128), (101, 1000), (102, 20)] {
        assert_eq!(contract.add_car(&admin_call, owner, price), Ok(()));
        assert_eq!(surplus(&contract), 0);
        assert!(rentals_match_cars(&contract, &owners, &renters));
    }

    assert!(contract.rental(&approved_by(&[Party::Account(200)]), 200, 100, 3, 4500).is_ok());
    assert_eq!(surplus(&contract), 0);
    assert!(rentals_match_cars(&contract, &owners, &renters));

    assert!(contract.rental(&approved_by(&[Party::Account(201)]), 201, 101, 7, 7000).is_ok());
    assert_eq!(surplus(&contract), 0);
    assert!(rentals_match_cars(&contract, &owners, &renters));

    assert!(contract.rental(&approved_by(&[Party::Account(201)]), 201, 100, 1, 1500).is_err());
    assert_eq!(surplus(&contract), 0);
    assert!(rentals_match_cars(&contract, &owners, &renters));

    assert_eq!(contract.end_rental(&approved_by(&[Party::Account(200)]), 200, 100), Ok(()));
    assert_eq!(surplus(&contract), 0);
    assert!(rentals_match_cars(&contract, &owners, &renters));

    let owner_call = approved_by(&[Party::Account(100), Party::Custody]);
    assert!(contract.payout_owner(&owner_call, 100, 4000).is_ok());
    assert_eq!(surplus(&contract), 0);

    assert!(contract.withdraw_admin_commissions(&admin_call).is_ok());
    assert_eq!(surplus(&contract), 0);

    assert_eq!(contract.remove_car(&admin_call, 102), Ok(()));
    assert_eq!(surplus(&contract), 0);
    assert!(rentals_match_cars(&contract, &owners, &renters));

    assert_eq!(read_contract_balance(contract.storage()), 500 + 7000);
    assert_eq!(contract.get_admin_commission_balance(), 0);
}

#[test]
fn delisting_a_car_with_unclaimed_funds_leaves_custody_above_the_claims() {
    let mut contract = engine();
    let admin_call = approved_by(&[Party::Account(ADMIN)]);
    assert_eq!(contract.add_car(&admin_call, 100, 1500), Ok(()));
    let renter_call = approved_by(&[Party::Account(200)]);
    assert!(contract.rental(&renter_call, 200, 100, 3, 4500).is_ok());
    assert_eq!(contract.end_rental(&renter_call, 200, 100), Ok(()));
    assert_eq!(surplus(&contract), 0);

    assert_eq!(contract.remove_car(&admin_call, 100), Ok(()));

    assert_eq!(surplus(&contract), 4500);
}

#[test]
fn a_refused_operation_leaves_the_state_as_it_was() {
    let mut contract = engine();
    let admin_call = approved_by(&[Party::Account(ADMIN)]);
    assert_eq!(contract.set_commission(&admin_call, 200), Ok(()));
    assert_eq!(contract.add_car(&admin_call, 100, 1500), Ok(()));
    let renter_call = approved_by(&[Party::Account(200)]);
    assert!(contract.rental(&renter_call, 200, 100, 3, 4500).is_ok());
    let car = contract.get_car(100).unwrap();
    let rental = contract.get_rental(200, 100).unwrap();

    let owner_call = approved_by(&[Party::Account(100), Party::Custody]);
    assert!(contract.rental(&renter_call, 200, 100, 1, 1).is_err());
    assert!(contract.payout_owner(&owner_call, 100, 100).is_err());
    assert!(contract.remove_car(&admin_call, 100).is_err());
    assert!(contract.add_car(&admin_call, 100, 1).is_err());
    assert!(contract.set_commission(&admin_call, -3).is_err());
    assert!(contract.end_rental(&renter_call, 201, 100).is_err());
    assert!(contract.initialize(7, 8).is_err());

    assert_eq!(contract.get_car(100), Ok(car));
    assert_eq!(contract.get_rental(200, 100), Ok(rental));
    assert_eq!(contract.get_commission(), 200);
    assert_eq!(contract.get_admin_commission_balance(), 200);
    assert_eq!(read_contract_balance(contract.storage()), 4700);
    assert_eq!(contract.get_admin(), Ok(ADMIN));
    assert_eq!(get_car_owners(contract.storage()).len(), 1);
}

#[test]
fn the_engine_can_be_taken_apart_and_put_together_again() {
    let mut contract = engine();
    assert_eq!(contract.add_car(&approved_by(&[Party::Account(ADMIN)]), 100, 1500), Ok(()));

    let storage = contract.into_storage();
    let contract = RentACarContract::from_storage(storage);

    assert_eq!(contract.get_admin(), Ok(ADMIN));
    assert_eq!(contract.get_car(100).unwrap().price_per_day, 1500);
}

#[test]
fn a_failed_transfer_is_undone_by_going_back_to_the_checkpoint() {
    let mut contract = engine();
    let admin_call = approved_by(&[Party::Account(ADMIN)]);
    assert_eq!(contract.set_commission(&admin_call, 200), Ok(()));
    assert_eq!(contract.add_car(&admin_call, 100, 1500), Ok(()));

    let checkpoint = contract.checkpoint();
    let renter_call = approved_by(&[Party::Account(200)]);
    assert!(contract.rental(&renter_call, 200, 100, 3, 4500).is_ok());
    assert_eq!(read_contract_balance(contract.storage()), 4700);
    assert_eq!(read_contract_balance(checkpoint.storage()), 0);
    assert_eq!(checkpoint.get_car_status(100), Ok(CarStatus::Available));

    contract.rollback(checkpoint);

    assert_eq!(read_contract_balance(contract.storage()), 0);
    assert_eq!(contract.get_admin_commission_balance(), 0);
    assert_eq!(contract.get_car_status(100), Ok(CarStatus::Available));
    assert_eq!(contract.get_available_to_withdraw(100), Ok(0));
    assert!(!contract.has_rental(200, 100));
    assert_eq!(contract.get_commission(), 200);
    assert_eq!(get_car_owners(contract.storage()).len(), 1);
    assert!(contract.rental(&renter_call, 200, 100, 3, 4500).is_ok());
}

#[test]
fn a_checkpoint_does_not_follow_the_listing_of_cars() {
    let mut contract = engine();
    let admin_call = approved_by(&[Party::Account(ADMIN)]);
    assert_eq!(contract.add_car(&admin_call, 100, 1500), Ok(()));
    let checkpoint = contract.checkpoint();

    assert_eq!(contract.add_car(&admin_call, 101, 1000), Ok(()));
    assert_eq!(contract.remove_car(&admin_call, 100), Ok(()));

    assert_eq!(get_car_owners(checkpoint.storage()).len(), 1);
    assert_eq!(get_car_owners(checkpoint.storage()).get(0), Some(&100));
    assert!(checkpoint.has_car(100));
    assert!(!checkpoint.has_car(101));
    assert_eq!(get_car_owners(contract.storage()).get(0), Some(&101));
}
