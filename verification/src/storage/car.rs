use vstd::prelude::*;
use crate::storage::structs::car::Car;
use crate::storage::types::errors::RentACarError;
use crate::storage::types::identity::Identity;
use crate::storage::types::ledger::Ledger;
use crate::storage::types::record::{
    lemma_records_map_absent, lemma_records_map_last, lemma_records_map_update,
    lemma_records_map_without, records_map, records_without, Record,
};
use crate::storage::types::storage::{CarRecord, Storage};

verus! {

/// The position of the record that counts for `owner`: the last one stored
/// under that key.
fn find_car(records: &Vec<CarRecord>, owner: Identity) -> (found: Option<usize>)
    ensures
        match found {
            Some(i) => {
                &&& i < records@.len()
                &&& records@[i as int].key == owner
                &&& forall|j: int| i < j < records@.len() ==> records@[j].key != owner
                &&& records_map(records@).dom().contains(owner)
                &&& records_map(records@)[owner] == records@[i as int].value
            },
            None => !records_map(records@).dom().contains(owner),
        },
{
    let mut i: usize = records.len();
    while i > 0
        invariant
            i <= records@.len(),
            forall|j: int| i <= j < records@.len() ==> records@[j].key != owner,
        decreases i,
    {
        i -= 1;
        if records[i].key == owner {
            proof {
                lemma_records_map_last(records@, i as int);
            }
            return Some(i);
        }
    }
    proof {
        lemma_records_map_absent(records@, owner);
    }
    None
}

/// Whether `owner` has a car listed.
pub fn has_car(store: &Storage, owner: &Identity) -> (listed: bool)
    ensures
        listed == store@.cars.dom().contains(*owner),
{
    find_car(&store.cars, *owner).is_some()
}

/// The car of `owner`.
pub fn read_car(store: &Storage, owner: &Identity) -> (res: Result<Car, RentACarError>)
    ensures
        res == store@.car_lookup(*owner),
{
    match find_car(&store.cars, *owner) {
        Some(i) => Ok(store.cars[i].value),
        None => Err(RentACarError::NotFound),
    }
}

/// Stores `car` as the car of `owner`, in place of any car stored for them
/// before.
pub fn write_car(store: &mut Storage, owner: &Identity, car: &Car)
    ensures
        final(store)@ == (Ledger { cars: old(store)@.cars.insert(*owner, *car), ..old(store)@ }),
{
    match find_car(&store.cars, *owner) {
        Some(i) => {
            proof {
                lemma_records_map_update(store.cars@, i as int, *car);
            }
            store.cars.set(i, Record { key: *owner, value: *car });
        },
        None => {
            store.cars.push(Record { key: *owner, value: *car });
            assert(store.cars@.drop_last() == old(store).cars@);
        },
    }
}

/// Deletes the car of `owner`, if there is one.
pub fn remove_car(store: &mut Storage, owner: &Identity)
    ensures
        final(store)@ == (Ledger { cars: old(store)@.cars.remove(*owner), ..old(store)@ }),
{
    let mut kept: Vec<CarRecord> = Vec::new();
    let mut i: usize = 0;
    while i < store.cars.len()
        invariant
            i <= store.cars@.len(),
            kept@ == records_without(store.cars@.take(i as int), *owner),
        decreases store.cars@.len() - i,
    {
        proof {
            assert(store.cars@.take(i + 1).drop_last() == store.cars@.take(i as int));
        }
        let record = store.cars[i];
        if record.key != *owner {
            kept.push(record);
        }
        i += 1;
    }
    proof {
        assert(store.cars@.take(store.cars@.len() as int) == store.cars@);
        lemma_records_map_without(store.cars@, *owner);
    }
    store.cars = kept;
}

} // verus!
