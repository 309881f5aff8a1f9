use std::collections::BTreeMap;

use labworks::btree::btreemap;

#[test]
fn empty() {
    let m: BTreeMap<i32, i32> = btreemap(vec![]);
    assert!(m.is_empty());
}

#[test]
fn basic_pairs() {
    let m = btreemap(vec![(3, "c"), (1, "a"), (2, "b")]);

    let mut expected = BTreeMap::new();
    expected.insert(1, "a");
    expected.insert(2, "b");
    expected.insert(3, "c");

    assert_eq!(m, expected);
}

#[test]
fn overwrite_key() {
    let m = btreemap(vec![("k", 1), ("k", 2)]);

    let mut expected = BTreeMap::new();
    expected.insert("k", 2);

    assert_eq!(m, expected);
}

#[test]
fn btreemap_single_pair() {
    let m = btreemap(vec![(7u64, 70u64)]);
    assert_eq!(m.len(), 1);
    assert_eq!(m.get(&7), Some(&70));
}
