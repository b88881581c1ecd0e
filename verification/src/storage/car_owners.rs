use vstd::prelude::*;
use crate::storage::types::identity::Identity;
use crate::storage::types::ledger::Ledger;
use crate::storage::types::record::without;
use crate::storage::types::storage::Storage;

verus! {

/// The list of owners after [`add_car_owner`]: an owner is listed once, and
/// a new owner comes last.
pub open spec fn add_car_owner_list(owners: Seq<Identity>, owner: Identity) -> Seq<Identity> {
    if owners.contains(owner) {
        owners
    } else {
        owners.push(owner)
    }
}

/// The owners that have a car listed, in the order of listing.
pub fn get_car_owners(store: &Storage) -> (owners: Vec<Identity>)
    ensures
        owners@ == store@.car_owners,
{
    let mut owners: Vec<Identity> = Vec::new();
    let mut i: usize = 0;
    while i < store.car_owners.len()
        invariant
            i <= store.car_owners@.len(),
            owners@ == store.car_owners@.take(i as int),
        decreases store.car_owners@.len() - i,
    {
        owners.push(store.car_owners[i]);
        proof {
            let listed = store.car_owners@;
            assert(listed.take(i + 1) == listed.take(i as int).push(listed[i as int]));
        }
        i += 1;
    }
    proof {
        assert(store.car_owners@.take(store.car_owners@.len() as int) == store.car_owners@);
    }
    owners
}

/// Lists `owner`, unless the list names them already.
pub fn add_car_owner(store: &mut Storage, owner: &Identity)
    ensures
        final(store)@ == (Ledger {
            car_owners: add_car_owner_list(old(store)@.car_owners, *owner),
            ..old(store)@
        }),
{
    let len = store.car_owners.len();
    let mut found = false;
    let mut i: usize = 0;
    while i < len && !found
        invariant
            len == store.car_owners@.len(),
            i <= len,
            found ==> store.car_owners@.contains(*owner),
            !found ==> forall|j: int| 0 <= j < i ==> store.car_owners@[j] != *owner,
        decreases len - i,
    {
        if store.car_owners[i] == *owner {
            found = true;
        }
        i += 1;
    }
    if !found {
        store.car_owners.push(*owner);
    }
}

/// Takes `owner` off the list.
pub fn remove_car_owner(store: &mut Storage, owner: &Identity)
    ensures
        final(store)@ == (Ledger {
            car_owners: without(old(store)@.car_owners, *owner),
            ..old(store)@
        }),
{
    let mut new_owners: Vec<Identity> = Vec::new();
    let len = store.car_owners.len();
    let mut i: usize = 0;
    while i < len
        invariant
            len == store.car_owners@.len(),
            i <= len,
            new_owners@ == without(store.car_owners@.take(i as int), *owner),
        decreases len - i,
    {
        proof {
            let listed = store.car_owners@;
            assert(listed.take(i + 1).drop_last() == listed.take(i as int));
        }
        let addr = store.car_owners[i];
        if addr != *owner {
            new_owners.push(addr);
        }
        i += 1;
    }
    proof {
        assert(store.car_owners@.take(len as int) == store.car_owners@);
    }
    store.car_owners = new_owners;
}

/// The number of owners that have a car listed.
pub fn get_car_owners_count(store: &Storage) -> (count: usize)
    ensures
        count == store@.car_owners.len(),
{
    store.car_owners.len()
}

} // verus!
