use rent_a_car::contract::RentACarContract;
use rent_a_car::methods::auth::{require_auth, Invocation, Party};
use rent_a_car::storage::types::errors::RentACarError;
use rent_a_car::storage::types::identity::Identity;

const ADMIN: Identity = 1;
const TOKEN: Identity = 2;

#[test]
pub fn test_unauthorized_user_cannot_add_car() {
    let mut contract = RentACarContract::__constructor(ADMIN, TOKEN);

    let fake_admin: Identity = 66;
    let owner: Identity = 100;
    let price_per_day = 1500_i128;

    let mut call = Invocation::new(0);
    call.authorize(Party::Account(fake_admin));

    assert_eq!(contract.add_car(&call, owner, price_per_day), Err(RentACarError::Unauthorized));
    assert!(!contract.has_car(owner));
}

#[test]
fn nobody_is_authorized_by_default() {
    let call = Invocation::new(0);
    assert_eq!(require_auth(&call, &Party::Account(ADMIN)), Err(RentACarError::Unauthorized));
    assert_eq!(require_auth(&call, &Party::Custody), Err(RentACarError::Unauthorized));
}

#[test]
fn require_auth_accepts_exactly_the_parties_that_approved() {
    let mut call = Invocation::new(7);
    call.authorize(Party::Account(5));
    call.authorize(Party::Custody);

    assert_eq!(call.timestamp, 7);
    assert_eq!(require_auth(&call, &Party::Account(5)), Ok(()));
    assert_eq!(require_auth(&call, &Party::Custody), Ok(()));
    assert_eq!(require_auth(&call, &Party::Account(6)), Err(RentACarError::Unauthorized));
}

#[test]
fn every_operation_checks_the_party_it_is_reserved_to() {
    let mut contract = RentACarContract::__constructor(ADMIN, TOKEN);
    let mut admin_call = Invocation::new(0);
    admin_call.authorize(Party::Account(ADMIN));
    assert_eq!(contract.add_car(&admin_call, 100, 1500), Ok(()));

    let mut stranger = Invocation::new(0);
    stranger.authorize(Party::Account(66));

    assert_eq!(contract.remove_car(&stranger, 100), Err(RentACarError::Unauthorized));
    assert_eq!(contract.set_commission(&stranger, 10), Err(RentACarError::Unauthorized));
    assert_eq!(
        contract.withdraw_admin_commissions(&stranger),
        Err(RentACarError::Unauthorized)
    );
    assert_eq!(contract.rental(&stranger, 200, 100, 3, 4500), Err(RentACarError::Unauthorized));
    assert_eq!(contract.end_rental(&stranger, 200, 100), Err(RentACarError::Unauthorized));
    assert_eq!(contract.payout_owner(&stranger, 100, 1), Err(RentACarError::Unauthorized));

    let mut owner_alone = Invocation::new(0);
    owner_alone.authorize(Party::Account(100));
    assert_eq!(contract.payout_owner(&owner_alone, 100, 1), Err(RentACarError::Unauthorized));

    assert!(contract.has_car(100));
    assert_eq!(contract.get_commission(), 0);
}
