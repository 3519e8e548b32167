use stellar_marketplace::address::Address;
use stellar_marketplace::index::{copy_ids, remove_first, AddressIndex};

#[test]
fn empty_index_files_nothing() {
    let index = AddressIndex::new();
    assert!(index.ids_of(&Address::from_str("A")).is_empty());
}

#[test]
fn append_files_under_the_given_address_only() {
    let mut index = AddressIndex::new();
    index.append(&Address::from_str("A"), 1);
    index.append(&Address::from_str("B"), 2);
    index.append(&Address::from_str("A"), 3);
    assert_eq!(index.ids_of(&Address::from_str("A")), vec![1, 3]);
    assert_eq!(index.ids_of(&Address::from_str("B")), vec![2]);
    assert!(index.ids_of(&Address::from_str("C")).is_empty());
}

#[test]
fn put_replaces_what_was_filed() {
    let mut index = AddressIndex::new();
    index.append(&Address::from_str("A"), 1);
    index.put(&Address::from_str("A"), vec![9, 8]);
    index.put(&Address::from_str("B"), vec![]);
    assert_eq!(index.ids_of(&Address::from_str("A")), vec![9, 8]);
    assert!(index.ids_of(&Address::from_str("B")).is_empty());
    index.append(&Address::from_str("B"), 4);
    assert_eq!(index.ids_of(&Address::from_str("B")), vec![4]);
}

#[test]
fn remove_first_takes_one_occurrence() {
    let mut ids = vec![4, 7, 4, 9];
    remove_first(&mut ids, 4);
    assert_eq!(ids, vec![7, 4, 9]);
    remove_first(&mut ids, 5);
    assert_eq!(ids, vec![7, 4, 9]);
    remove_first(&mut ids, 9);
    assert_eq!(ids, vec![7, 4]);
    let mut none: Vec<u64> = vec![];
    remove_first(&mut none, 1);
    assert!(none.is_empty());
}

#[test]
fn copy_ids_copies_in_order() {
    assert_eq!(copy_ids(&vec![3, 1, 2]), vec![3, 1, 2]);
    assert!(copy_ids(&vec![]).is_empty());
}
