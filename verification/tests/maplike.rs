use maplike::map_like::MapLike;
use maplike::multi_map::MultiMap;
use maplike::ordered_adapter::ordered_entries;
use std::collections::{BTreeMap, HashMap};

#[test]
fn basic_usage() {
    let mut t: HashMap<String, Vec<usize>> = HashMap::new();
    MapLike::insert(&mut t, "foobar".to_owned(), vec![3]);
    t.insert("baz".to_owned(), vec![1, 2, 3]);
    assert_eq!(Some(&3), t.get_only(&"foobar".to_owned()));
    assert!(t.get_only(&"baz".to_owned()).is_none());
}

#[test]
fn hash_insert_into_empty_then_get() {
    let mut m: HashMap<u64, u64> = HashMap::new();
    assert_eq!(None, MapLike::insert(&mut m, 3, 10));
    assert_eq!(Some(&10), MapLike::get(&m, &3));
}

#[test]
fn ordered_insert_into_empty_then_get() {
    let mut m: BTreeMap<u64, u64> = BTreeMap::new();
    assert_eq!(None, MapLike::insert(&mut m, 3, 10));
    assert_eq!(Some(&10), MapLike::get(&m, &3));
}

#[test]
fn hash_overwrite_returns_prior_and_gets_new() {
    let mut m: HashMap<u64, u64> = HashMap::new();
    MapLike::insert(&mut m, 3, 10);
    assert_eq!(Some(10), MapLike::insert(&mut m, 3, 11));
    assert_eq!(Some(&11), MapLike::get(&m, &3));
    assert_eq!(1, MapLike::iter(&m).len());
}

#[test]
fn ordered_overwrite_returns_prior_and_gets_new() {
    let mut m: BTreeMap<u64, u64> = BTreeMap::new();
    MapLike::insert(&mut m, 3, 10);
    assert_eq!(Some(10), MapLike::insert(&mut m, 3, 11));
    assert_eq!(Some(&11), MapLike::get(&m, &3));
    assert_eq!(1, MapLike::iter(&m).len());
}

#[test]
fn absent_key_get_returns_none() {
    let mut h: HashMap<u64, u64> = HashMap::new();
    assert_eq!(None, MapLike::get(&h, &7));
    MapLike::insert(&mut h, 1, 2);
    assert_eq!(None, MapLike::get(&h, &7));

    let mut b: BTreeMap<u64, u64> = BTreeMap::new();
    assert_eq!(None, MapLike::get(&b, &7));
    MapLike::insert(&mut b, 1, 2);
    assert_eq!(None, MapLike::get(&b, &7));
}

#[test]
fn hash_iteration_yields_each_key_once() {
    let mut m: HashMap<u64, u64> = HashMap::new();
    MapLike::insert(&mut m, 5, 50);
    MapLike::insert(&mut m, 1, 10);
    MapLike::insert(&mut m, 9, 90);
    let entries = MapLike::iter(&m);
    assert_eq!(3, entries.len());
    for key in [1u64, 5, 9] {
        let occurrences = entries.iter().filter(|(k, _)| **k == key).count();
        assert_eq!(1, occurrences);
    }
    for (k, v) in entries {
        assert_eq!(*k * 10, *v);
    }
}

#[test]
fn ordered_iteration_ascending() {
    let mut m: BTreeMap<u64, u64> = BTreeMap::new();
    MapLike::insert(&mut m, 5, 50);
    MapLike::insert(&mut m, 1, 10);
    MapLike::insert(&mut m, 9, 90);
    MapLike::insert(&mut m, 3, 30);
    let entries = ordered_entries(&m);
    assert_eq!(4, entries.len());
    for i in 1..entries.len() {
        assert!(entries[i - 1].0 < entries[i].0);
    }
    let trait_entries = MapLike::iter(&m);
    assert_eq!(4, trait_entries.len());
    for i in 1..trait_entries.len() {
        assert!(trait_entries[i - 1].0 < trait_entries[i].0);
    }
}

#[test]
fn get_only_singleton_lengths() {
    let mut m: BTreeMap<u64, Vec<u64>> = BTreeMap::new();
    MapLike::insert(&mut m, 1, vec![42]);
    MapLike::insert(&mut m, 2, vec![]);
    MapLike::insert(&mut m, 3, vec![7, 8]);
    assert_eq!(Some(&42), m.get_only(&1));
    assert_eq!(None, m.get_only(&2));
    assert_eq!(None, m.get_only(&3));
    assert_eq!(None, m.get_only(&4));
}

#[test]
fn multi_map_missing_key() {
    let mut t: HashMap<String, Vec<usize>> = HashMap::new();
    MapLike::insert(&mut t, "foobar".to_owned(), vec![3]);
    MapLike::insert(&mut t, "baz".to_owned(), vec![1, 2, 3]);
    assert_eq!(Some(&3), t.get_only(&"foobar".to_owned()));
    assert_eq!(None, t.get_only(&"baz".to_owned()));
    assert_eq!(None, t.get_only(&"missing".to_owned()));
}

#[test]
fn round_trip_unique_keys_hash() {
    let mut m: HashMap<u64, u64> = HashMap::new();
    for i in 0u64..10 {
        assert_eq!(None, MapLike::insert(&mut m, i, i * 100 + 7));
    }
    for i in 0u64..10 {
        assert_eq!(Some(&(i * 100 + 7)), MapLike::get(&m, &i));
    }
}

#[test]
fn round_trip_unique_keys_ordered() {
    let mut m: BTreeMap<u64, u64> = BTreeMap::new();
    for i in 0u64..10 {
        assert_eq!(None, MapLike::insert(&mut m, i, i * 100 + 7));
    }
    for i in 0u64..10 {
        assert_eq!(Some(&(i * 100 + 7)), MapLike::get(&m, &i));
    }
}
