use sixarm_collections::{HashMapToSet, HashMapToSetExt};

fn values_of(subject: &HashMapToSet<u8, u8>, key: &u8) -> Vec<u8> {
    let mut values: Vec<u8> = subject.get(key).unwrap().iter().copied().collect();
    values.sort();
    values
}

fn keys_of(subject: &HashMapToSet<u8, u8>) -> Vec<u8> {
    let mut keys: Vec<u8> = subject.keys().into_iter().copied().collect();
    keys.sort();
    keys
}

#[test]
fn hash_map_to_set_test_sub_contains() {
    let mut subject: HashMapToSet<u8, u8> = HashMapToSet::new();
    let k = 1;
    let v = 2;
    let absent = 3;
    assert_eq!(subject.sub_insert(k, v), true);
    assert_eq!(subject.sub_contains(&k, &v), true);
    assert_eq!(subject.sub_contains(&k, &absent), false);
    assert_eq!(subject.sub_contains(&absent, &v), false);
}

#[test]
fn hash_map_to_set_test_sub_insert() {
    let mut subject: HashMapToSet<u8, u8> = HashMapToSet::new();
    let k1 = 1;
    let k2 = 2;
    let v1 = 3;
    let v2 = 4;
    let v3 = 5;
    let v4 = 7;
    // Item 1
    assert_eq!(subject.sub_insert(k1, v1), true);
    assert_eq!(keys_of(&subject), vec![k1]);
    assert_eq!(values_of(&subject, &k1), vec![v1]);
    // Item 2
    assert_eq!(subject.sub_insert(k1, v2), true);
    assert_eq!(keys_of(&subject), vec![k1]);
    assert_eq!(values_of(&subject, &k1), vec![v1, v2]);
    // Item 3
    assert_eq!(subject.sub_insert(k2, v3), true);
    assert_eq!(keys_of(&subject), vec![k1, k2]);
    assert_eq!(values_of(&subject, &k1), vec![v1, v2]);
    assert_eq!(values_of(&subject, &k2), vec![v3]);
    // Item 4
    assert_eq!(subject.sub_insert(k2, v4), true);
    assert_eq!(keys_of(&subject), vec![k1, k2]);
    assert_eq!(values_of(&subject, &k1), vec![v1, v2]);
    assert_eq!(values_of(&subject, &k2), vec![v3, v4]);
}

#[test]
fn hash_map_to_set_test_sub_remove_x_present_item() {
    let mut subject: HashMapToSet<u8, u8> = HashMapToSet::new();
    let k = 1;
    let v = 2;
    assert_eq!(subject.sub_insert(k, v), true);
    assert_eq!(subject.sub_contains(&k, &v), true);
    assert_eq!(subject.sub_remove(&k, &v), true);
    assert_eq!(subject.sub_contains(&k, &v), false);
}

#[test]
fn hash_map_to_set_test_sub_remove_x_absent_item() {
    let mut subject: HashMapToSet<u8, u8> = HashMapToSet::new();
    let k = 1;
    let v = 2;
    let z = 3;
    assert_eq!(subject.sub_remove(&k, &z), false);
    assert_eq!(subject.sub_remove(&z, &v), false);
}

#[test]
fn hash_map_to_set_remove_on_missing_key_leaves_map_unchanged() {
    let mut subject: HashMapToSet<u8, u8> = HashMapToSet::new();
    assert!(subject.sub_insert(1, 2));
    assert_eq!(subject.sub_remove(&9, &2), false);
    assert_eq!(keys_of(&subject), vec![1]);
    assert_eq!(values_of(&subject, &1), vec![2]);
    assert!(subject.get(&9).is_none());
}

#[test]
fn hash_map_to_set_insert_twice_returns_false_and_keeps_state() {
    let mut subject: HashMapToSet<u8, u8> = HashMapToSet::new();
    assert_eq!(subject.sub_insert(4, 8), true);
    assert_eq!(subject.sub_insert(4, 8), false);
    assert_eq!(keys_of(&subject), vec![4]);
    assert_eq!(values_of(&subject, &4), vec![8]);
}

#[test]
fn hash_map_to_set_remove_keeps_emptied_key() {
    let mut subject: HashMapToSet<u8, u8> = HashMapToSet::new();
    assert!(subject.sub_insert(1, 2));
    assert!(subject.sub_remove(&1, &2));
    assert_eq!(keys_of(&subject), vec![1]);
    assert!(subject.get(&1).unwrap().is_empty());
}

#[test]
fn hash_map_to_set_remove_takes_only_the_given_value() {
    let mut subject: HashMapToSet<u8, u8> = HashMapToSet::new();
    assert!(subject.sub_insert(1, 2));
    assert!(subject.sub_insert(1, 3));
    assert!(subject.sub_insert(5, 2));
    assert!(subject.sub_remove(&1, &2));
    assert_eq!(values_of(&subject, &1), vec![3]);
    assert_eq!(values_of(&subject, &5), vec![2]);
    assert_eq!(subject.sub_remove(&1, &2), false);
}

#[test]
fn hash_map_to_set_keys_each_once() {
    let mut subject: HashMapToSet<u8, u8> = HashMapToSet::new();
    assert!(subject.sub_insert(200, 9));
    assert!(subject.sub_insert(0, 255));
    assert!(subject.sub_insert(0, 0));
    assert!(subject.sub_insert(17, 1));
    assert_eq!(subject.keys().len(), 3);
    assert_eq!(keys_of(&subject), vec![0, 17, 200]);
    assert_eq!(values_of(&subject, &0), vec![0, 255]);
}
