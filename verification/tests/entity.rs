use dervy::entity::{entity_eq, entity_hash, EntityInstance, EntityMap};

#[test]
fn equal_identity_means_equal_and_same_hash() {
    let a = EntityInstance { identity: 0, others: vec![0] };
    let b = EntityInstance { identity: 0, others: vec![1] };
    assert!(entity_eq(&a, &b));
    assert_eq!(entity_hash(&a, 0), entity_hash(&b, 0));
    assert_eq!(entity_hash(&a, 12345), entity_hash(&b, 12345));
}

#[test]
fn distinct_identity_means_not_equal() {
    let flags: [u64; 2] = [0, 1];
    for a_flag in flags {
        for b_flag in flags {
            let a = EntityInstance { identity: 0, others: vec![a_flag] };
            let b = EntityInstance { identity: 1, others: vec![b_flag] };
            assert!(!entity_eq(&a, &b));
        }
    }
}

#[test]
fn container_round_trip_by_identity() {
    let mut map = EntityMap::new();
    let stored = EntityInstance { identity: 7, others: vec![10] };
    map.insert(stored, 42);
    let probe = EntityInstance { identity: 7, others: vec![99] };
    let entry = map.get(&probe).unwrap();
    assert_eq!(entry.0.identity, 7);
    assert_eq!(entry.0.others, vec![10]);
    assert_eq!(entry.1, 42);
    assert!(map.contains(&probe));
}

#[test]
fn lookup_misses_a_distinct_identity() {
    let mut map = EntityMap::new();
    map.insert(EntityInstance { identity: 7, others: vec![10] }, 42);
    let probe = EntityInstance { identity: 8, others: vec![10] };
    assert!(map.get(&probe).is_none());
    assert!(!map.contains(&probe));
}

#[test]
fn insert_with_shared_identity_replaces_the_entry() {
    let mut map = EntityMap::new();
    map.insert(EntityInstance { identity: 7, others: vec![10] }, 1);
    map.insert(EntityInstance { identity: 7, others: vec![20] }, 2);
    assert_eq!(map.len(), 1);
    let entry = map.get(&EntityInstance { identity: 7, others: vec![0] }).unwrap();
    assert_eq!(entry.0.others, vec![20]);
    assert_eq!(entry.1, 2);
}

#[test]
fn distinct_identities_keep_their_own_entries() {
    let mut map = EntityMap::new();
    map.insert(EntityInstance { identity: 1, others: vec![] }, 10);
    map.insert(EntityInstance { identity: 2, others: vec![] }, 20);
    assert_eq!(map.len(), 2);
    assert_eq!(map.get(&EntityInstance { identity: 1, others: vec![7] }).unwrap().1, 10);
    assert_eq!(map.get(&EntityInstance { identity: 2, others: vec![7] }).unwrap().1, 20);
}

#[test]
fn hash_folds_identity_with_known_formula() {
    let a = EntityInstance { identity: 5, others: vec![] };
    assert_eq!(entity_hash(&a, 3), 3u64.wrapping_mul(31).wrapping_add(5));
    assert_eq!(entity_hash(&a, 0), 5);
}
