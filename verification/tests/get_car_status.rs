use rent_a_car::contract::RentACarContract;
use rent_a_car::methods::auth::{Invocation, Party};
use rent_a_car::storage::types::car_status::CarStatus;
use rent_a_car::storage::types::errors::RentACarError;
use rent_a_car::storage::types::identity::Identity;

const ADMIN: Identity = 1;
const TOKEN: Identity = 2;

#[test]
pub fn test_get_car_status_returns_available() {
    let mut contract = RentACarContract::__constructor(ADMIN, TOKEN);

    let owner: Identity = 100;
    let price_per_day = 1500_i128;

    let mut call = Invocation::new(0);
    call.authorize(Party::Account(ADMIN));
    assert_eq!(contract.add_car(&call, owner, price_per_day), Ok(()));

    let status = contract.get_car_status(owner);
    assert_eq!(status, Ok(CarStatus::Available));
}

#[test]
fn readers_refuse_an_owner_without_a_car() {
    let contract = RentACarContract::__constructor(ADMIN, TOKEN);

    assert_eq!(contract.get_car_status(100), Err(RentACarError::NotFound));
    assert_eq!(contract.get_car(100), Err(RentACarError::NotFound));
    assert_eq!(contract.get_available_to_withdraw(100), Err(RentACarError::NotFound));
    assert_eq!(contract.get_rental(200, 100), Err(RentACarError::NotFound));
    assert!(!contract.has_car(100));
    assert!(!contract.has_rental(200, 100));
}
