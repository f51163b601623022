use nft_simple::keys::Key;
use nft_simple::keyset::KeySet;
use nft_simple::table::Table;

fn s(text: &str) -> String {
    text.to_string()
}

#[test]
fn keys_are_the_same_when_their_contents_are() {
    assert!(s("abc").same(&s("abc")));
    assert!(!s("abc").same(&s("abd")));
    assert!(!s("abc").same(&s("ab")));
    assert!(vec![1u8, 2, 3].same(&vec![1u8, 2, 3]));
    assert!(!vec![1u8, 2, 3].same(&vec![1u8, 2, 4]));
    assert!(!vec![1u8, 2, 3].same(&vec![1u8, 2]));
    assert!(Vec::<u8>::new().same(&Vec::<u8>::new()));
}

#[test]
fn a_replica_is_the_same_key() {
    assert_eq!(s("token").replica(), s("token"));
    assert_eq!(vec![0u8, 255, 7].replica(), vec![0u8, 255, 7]);
    assert_eq!(Vec::<u8>::new().replica(), Vec::<u8>::new());
}

#[test]
fn a_new_set_is_empty() {
    let set: KeySet<String> = KeySet::new();
    assert_eq!(set.len(), 0);
    assert!(set.is_empty());
    assert!(!set.contains(&s("a")));
    assert!(set.members().is_empty());
}

#[test]
fn a_set_holds_each_member_once() {
    let mut set: KeySet<String> = KeySet::new();
    assert!(set.insert(s("a")));
    assert!(set.insert(s("b")));
    assert!(!set.insert(s("a")));
    assert_eq!(set.len(), 2);
    assert!(!set.is_empty());
    assert!(set.contains(&s("a")));
    assert!(set.contains(&s("b")));
    assert!(!set.contains(&s("c")));
    let mut members = set.members();
    members.sort();
    assert_eq!(members, vec![s("a"), s("b")]);
}

#[test]
fn removing_from_a_set_takes_only_that_member() {
    let mut set: KeySet<String> = KeySet::new();
    set.insert(s("a"));
    set.insert(s("b"));
    set.insert(s("c"));
    assert!(set.remove(&s("b")));
    assert!(!set.remove(&s("b")));
    assert!(!set.remove(&s("z")));
    assert_eq!(set.len(), 2);
    assert!(set.contains(&s("a")));
    assert!(!set.contains(&s("b")));
    assert!(set.contains(&s("c")));
}

#[test]
fn sets_are_equal_whatever_the_order_of_insertion() {
    let mut one: KeySet<String> = KeySet::new();
    one.insert(s("a"));
    one.insert(s("b"));
    let mut other: KeySet<String> = KeySet::new();
    other.insert(s("b"));
    other.insert(s("a"));
    assert_eq!(one, other);
    assert_eq!(one.clone(), one);
    other.insert(s("c"));
    assert_ne!(one, other);
    one.insert(s("d"));
    assert_ne!(one, other);
}

#[test]
fn a_new_table_is_empty() {
    let table: Table<String, u8> = Table::new();
    assert_eq!(table.len(), 0);
    assert!(!table.contains_key(&s("a")));
    assert_eq!(table.get(&s("a")), None);
    assert!(table.keys().is_empty());
}

#[test]
fn a_table_keeps_the_last_value_stored_under_a_key() {
    let mut table: Table<String, u8> = Table::new();
    table.insert(s("a"), 1);
    table.insert(s("b"), 2);
    table.insert(s("a"), 3);
    assert_eq!(table.len(), 2);
    assert_eq!(table.get(&s("a")), Some(&3));
    assert_eq!(table.get(&s("b")), Some(&2));
    assert_eq!(table.get(&s("c")), None);
    assert!(table.contains_key(&s("b")));
    let mut keys = table.keys();
    keys.sort();
    assert_eq!(keys, vec![s("a"), s("b")]);
}

#[test]
fn removing_from_a_table_returns_the_value() {
    let mut table: Table<Vec<u8>, u8> = Table::new();
    table.insert(vec![1], 10);
    table.insert(vec![2], 20);
    table.insert(vec![3], 30);
    assert_eq!(table.remove(&vec![2]), Some(20));
    assert_eq!(table.remove(&vec![2]), None);
    assert_eq!(table.remove(&vec![9]), None);
    assert_eq!(table.len(), 2);
    assert_eq!(table.get(&vec![1]), Some(&10));
    assert_eq!(table.get(&vec![3]), Some(&30));
    assert!(!table.contains_key(&vec![2]));
}
