use vstd::prelude::*;

verus! {

/// One stored value with the key it is stored under.
#[derive(Debug)]
pub struct Record<K, V> {
    /// What the value is found by.
    pub key: K,
    /// What is stored.
    pub value: V,
}

impl<K: Copy, V: Copy> Clone for Record<K, V> {
    fn clone(&self) -> (copy: Self)
        ensures
            copy == *self,
    {
        *self
    }
}

impl<K: Copy, V: Copy> Copy for Record<K, V> {

}

/// A second list with the same records, in the same order.
pub fn copy_records<K: Copy, V: Copy>(records: &Vec<Record<K, V>>) -> (copy: Vec<Record<K, V>>)
    ensures
        copy@ == records@,
{
    let mut copy: Vec<Record<K, V>> = Vec::new();
    let mut i: usize = 0;
    while i < records.len()
        invariant
            i <= records@.len(),
            copy@ == records@.take(i as int),
        decreases records@.len() - i,
    {
        copy.push(records[i]);
        proof {
            assert(records@.take(i + 1) == records@.take(i as int).push(records@[i as int]));
        }
        i += 1;
    }
    proof {
        assert(records@.take(records@.len() as int) == records@);
    }
    copy
}

/// The map that a list of records stands for. Where a key occurs more than
/// once, the record nearest the end counts.
pub open spec fn records_map<K, V>(records: Seq<Record<K, V>>) -> Map<K, V>
    decreases records.len(),
{
    if records.len() == 0 {
        Map::empty()
    } else {
        records_map(records.drop_last()).insert(records.last().key, records.last().value)
    }
}

/// The records of a list that are not stored under `key`, in their order.
pub open spec fn records_without<K, V>(records: Seq<Record<K, V>>, key: K) -> Seq<Record<K, V>>
    decreases records.len(),
{
    if records.len() == 0 {
        Seq::empty()
    } else if records.last().key == key {
        records_without(records.drop_last(), key)
    } else {
        records_without(records.drop_last(), key).push(records.last())
    }
}

/// The items of a list other than `item`, in their order.
pub open spec fn without<T>(items: Seq<T>, item: T) -> Seq<T>
    decreases items.len(),
{
    if items.len() == 0 {
        Seq::empty()
    } else if items.last() == item {
        without(items.drop_last(), item)
    } else {
        without(items.drop_last(), item).push(items.last())
    }
}

/// A key under which no record is stored is not in the map.
pub proof fn lemma_records_map_absent<K, V>(records: Seq<Record<K, V>>, key: K)
    requires
        forall|j: int| 0 <= j < records.len() ==> records[j].key != key,
    ensures
        !records_map(records).dom().contains(key),
    decreases records.len(),
{
    if records.len() > 0 {
        lemma_records_map_absent(records.drop_last(), key);
    }
}

/// The last record stored under a key gives the key's value in the map.
pub proof fn lemma_records_map_last<K, V>(records: Seq<Record<K, V>>, i: int)
    requires
        0 <= i < records.len(),
        forall|j: int| i < j < records.len() ==> records[j].key != records[i].key,
    ensures
        records_map(records).dom().contains(records[i].key),
        records_map(records)[records[i].key] == records[i].value,
    decreases records.len(),
{
    if i < records.len() - 1 {
        lemma_records_map_last(records.drop_last(), i);
    }
}

/// Replacing the value of the last record stored under a key sets the key's
/// value in the map and nothing else.
pub proof fn lemma_records_map_update<K, V>(records: Seq<Record<K, V>>, i: int, value: V)
    requires
        0 <= i < records.len(),
        forall|j: int| i < j < records.len() ==> records[j].key != records[i].key,
    ensures
        records_map(records.update(i, Record { key: records[i].key, value }))
            == records_map(records).insert(records[i].key, value),
    decreases records.len(),
{
    let key = records[i].key;
    let updated = records.update(i, Record { key, value });
    if i == records.len() - 1 {
        assert(updated.drop_last() == records.drop_last());
        assert(records_map(updated) == records_map(records).insert(key, value));
    } else {
        lemma_records_map_update(records.drop_last(), i, value);
        assert(updated.drop_last() == records.drop_last().update(i, Record { key, value }));
        assert(updated.last() == records.last());
        assert(records_map(updated) == records_map(records).insert(key, value));
    }
}

/// Leaving out every record stored under a key removes the key from the map
/// and nothing else.
pub proof fn lemma_records_map_without<K, V>(records: Seq<Record<K, V>>, key: K)
    ensures
        records_map(records_without(records, key)) == records_map(records).remove(key),
    decreases records.len(),
{
    if records.len() == 0 {
        assert(records_map(records).remove(key) == Map::<K, V>::empty());
    } else {
        lemma_records_map_without(records.drop_last(), key);
        let rest = records_without(records.drop_last(), key);
        if records.last().key == key {
            assert(records_map(records).remove(key) == records_map(records.drop_last()).remove(
                key,
            ));
        } else {
            assert(rest.push(records.last()).drop_last() == rest);
            assert(records_map(records).remove(key) == records_map(records.drop_last()).remove(
                key,
            ).insert(records.last().key, records.last().value));
        }
    }
}

} // verus!
