use rent_a_car::contract::RentACarContract;
use rent_a_car::methods::auth::{Invocation, Party};
use rent_a_car::storage::car::read_car;
use rent_a_car::storage::contract_balance::read_contract_balance;
use rent_a_car::storage::types::car_status::CarStatus;
use rent_a_car::storage::types::errors::RentACarError;
use rent_a_car::storage::types::identity::Identity;

const ADMIN: Identity = 1;
const TOKEN: Identity = 2;

fn approved_by(parties: &[Party]) -> Invocation {
    let mut call = Invocation::new(0);
    for party in parties {
        call.authorize(*party);
    }
    call
}

#[test]
pub fn test_payout_owner_fails_when_car_is_rented() {
    let mut contract = RentACarContract::__constructor(ADMIN, TOKEN);

    let owner: Identity = 100;
    let renter: Identity = 200;
    let price_per_day = 1500_i128;
    let total_days = 3;
    let amount = 4500_i128;

    let call = approved_by(&[Party::Account(ADMIN)]);
    assert_eq!(contract.add_car(&call, owner, price_per_day), Ok(()));

    let call = approved_by(&[Party::Account(renter)]);
    assert!(contract.rental(&call, renter, owner, total_days, amount).is_ok());

    let car = read_car(contract.storage(), &owner).unwrap();
    assert_eq!(car.car_status, CarStatus::Rented);

    let call = approved_by(&[Party::Account(owner), Party::Custody]);
    assert_eq!(contract.payout_owner(&call, owner, amount), Err(RentACarError::CarNotAvailable));

    assert_eq!(contract.get_available_to_withdraw(owner), Ok(amount));
    assert_eq!(read_contract_balance(contract.storage()), amount);
}

#[test]
fn payout_owner_fails_while_rented_whatever_the_amount() {
    let mut contract = RentACarContract::__constructor(ADMIN, TOKEN);
    assert_eq!(contract.add_car(&approved_by(&[Party::Account(ADMIN)]), 100, 1500), Ok(()));
    assert!(contract.rental(&approved_by(&[Party::Account(200)]), 200, 100, 3, 4500).is_ok());
    let call = approved_by(&[Party::Account(100), Party::Custody]);

    for amount in [1_i128, 4500, 4501, 0, -1, i128::MAX] {
        assert_eq!(
            contract.payout_owner(&call, 100, amount),
            Err(RentACarError::CarNotAvailable)
        );
    }
    assert_eq!(contract.get_available_to_withdraw(100), Ok(4500));
}

#[test]
pub fn test_payout_owner_succeeds_after_end_rental() {
    let mut contract = RentACarContract::__constructor(ADMIN, TOKEN);

    let owner: Identity = 100;
    let renter: Identity = 200;
    let price_per_day = 1500_i128;
    let total_days = 3;
    let amount = 4500_i128;

    let call = approved_by(&[Party::Account(ADMIN)]);
    assert_eq!(contract.add_car(&call, owner, price_per_day), Ok(()));

    let call = approved_by(&[Party::Account(renter)]);
    assert!(contract.rental(&call, renter, owner, total_days, amount).is_ok());

    let car_before = read_car(contract.storage(), &owner).unwrap();
    assert_eq!(car_before.car_status, CarStatus::Rented);

    let call = approved_by(&[Party::Account(renter)]);
    assert_eq!(contract.end_rental(&call, renter, owner), Ok(()));

    let car_after = read_car(contract.storage(), &owner).unwrap();
    assert_eq!(car_after.car_status, CarStatus::Available);

    let call = approved_by(&[Party::Account(owner), Party::Custody]);
    assert!(contract.payout_owner(&call, owner, amount).is_ok());

    let car_final = read_car(contract.storage(), &owner).unwrap();
    assert_eq!(car_final.available_to_withdraw, 0);
}
