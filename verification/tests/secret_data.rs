//! The payload of a secret as a mapping from keys to bytes.

use controller::controller::secret::bytes_clone;
use controller::controller::secret::bytes_eq;
use controller::controller::secret::data_clone;
use controller::controller::secret::data_eq;
use controller::controller::secret::Secret;
use controller::controller::secret::SecretData;

fn key(name: &str) -> String {
    name.to_string()
}

#[test]
fn new_payload_is_empty() {
    let data = SecretData::new();
    assert!(data.is_empty());
    assert_eq!(data.get(&key("user")), None);
    assert_eq!(data.into_entries(), vec![]);
}

#[test]
fn insert_sets_a_key() {
    let mut data = SecretData::new();
    data.insert(key("user"), vec![1, 2, 3]);
    assert!(!data.is_empty());
    assert_eq!(data.get(&key("user")), Some(&vec![1, 2, 3]));
    assert_eq!(data.get(&key("password")), None);
}

#[test]
fn insert_replaces_what_a_key_held() {
    let mut data = SecretData::new();
    data.insert(key("user"), vec![1]);
    data.insert(key("password"), vec![2]);
    data.insert(key("user"), vec![3]);
    assert_eq!(data.get(&key("user")), Some(&vec![3]));
    assert_eq!(data.get(&key("password")), Some(&vec![2]));
}

#[test]
fn from_entries_lets_the_later_entry_win() {
    let data = SecretData::from_entries(vec![
        (key("a"), vec![1]),
        (key("b"), vec![2]),
        (key("a"), vec![9]),
    ]);
    assert_eq!(data.get(&key("a")), Some(&vec![9]));
    assert_eq!(data.get(&key("b")), Some(&vec![2]));
    assert_eq!(data.get(&key("c")), None);
}

#[test]
fn entries_stand_for_the_same_payload() {
    let mut data = SecretData::new();
    data.insert(key("a"), vec![1]);
    data.insert(key("b"), vec![]);
    let again = SecretData::from_entries(data.clone().into_entries());
    assert!(data.same_as(&again));
}

#[test]
fn same_as_ignores_the_order_of_insertion() {
    let mut one = SecretData::new();
    one.insert(key("a"), vec![1]);
    one.insert(key("b"), vec![2]);
    let mut other = SecretData::new();
    other.insert(key("b"), vec![2]);
    other.insert(key("a"), vec![0]);
    other.insert(key("a"), vec![1]);
    assert!(one.same_as(&other));
    assert!(other.same_as(&one));
    assert!(one == other);
}

#[test]
fn same_as_sees_other_bytes() {
    let mut one = SecretData::new();
    one.insert(key("a"), vec![1]);
    let mut other = SecretData::new();
    other.insert(key("a"), vec![2]);
    assert!(!one.same_as(&other));
    assert!(one != other);
}

#[test]
fn same_as_sees_a_missing_key_on_either_side() {
    let mut small = SecretData::new();
    small.insert(key("a"), vec![1]);
    let mut large = SecretData::new();
    large.insert(key("a"), vec![1]);
    large.insert(key("b"), vec![]);
    assert!(!small.same_as(&large));
    assert!(!large.same_as(&small));
    assert!(!SecretData::new().same_as(&small));
    assert!(SecretData::new().same_as(&SecretData::new()));
}

#[test]
fn keys_are_told_apart_exactly() {
    let mut data = SecretData::new();
    data.insert(key("user"), vec![1]);
    assert_eq!(data.get(&key("User")), None);
    assert_eq!(data.get(&key("user ")), None);
    assert_eq!(data.get(&key("")), None);
}

#[test]
fn clone_holds_the_same_entries() {
    let mut data = SecretData::new();
    data.insert(key("a"), vec![1, 2]);
    data.insert(key("b"), vec![]);
    let copy = data.clone();
    assert!(copy.same_as(&data));
    assert_eq!(copy.get(&key("a")), Some(&vec![1, 2]));
    assert_eq!(copy.get(&key("b")), Some(&vec![]));
}

#[test]
fn bytes_are_compared_one_by_one() {
    assert!(bytes_eq(&vec![], &vec![]));
    assert!(bytes_eq(&vec![1, 2, 3], &vec![1, 2, 3]));
    assert!(!bytes_eq(&vec![1, 2, 3], &vec![1, 2, 4]));
    assert!(!bytes_eq(&vec![1, 2, 3], &vec![1, 2]));
    assert!(!bytes_eq(&vec![], &vec![0]));
}

#[test]
fn bytes_are_copied_in_order() {
    assert_eq!(bytes_clone(&vec![]), Vec::<u8>::new());
    assert_eq!(bytes_clone(&vec![7, 0, 255]), vec![7, 0, 255]);
}

#[test]
fn absent_payload_differs_from_an_empty_one() {
    let empty = Some(SecretData::new());
    let mut filled = SecretData::new();
    filled.insert(key("a"), vec![1]);
    assert!(data_eq(&None, &None));
    assert!(data_eq(&empty, &Some(SecretData::new())));
    assert!(!data_eq(&None, &empty));
    assert!(!data_eq(&empty, &None));
    assert!(!data_eq(&empty, &Some(filled.clone())));
    assert!(data_eq(&Some(filled.clone()), &Some(filled)));
}

#[test]
fn optional_payload_is_copied() {
    let mut filled = SecretData::new();
    filled.insert(key("a"), vec![1]);
    assert_eq!(data_clone(&None), None);
    assert_eq!(data_clone(&Some(filled.clone())), Some(filled));
}

#[test]
fn secret_is_copied_with_all_its_fields() {
    let mut data = SecretData::new();
    data.insert(key("a"), vec![1]);
    let secret = Secret {
        namespace: key("team-a"),
        name: key("creds"),
        uid: Some(key("uid-1")),
        owner_references: vec![],
        data: Some(data),
    };
    assert_eq!(secret.clone(), secret);
}

#[test]
fn secret_is_referred_to_by_its_coordinates() {
    let secret = Secret {
        namespace: key("team-a"),
        name: key("creds"),
        uid: None,
        owner_references: vec![],
        data: None,
    };
    let reference = secret.object_ref();
    assert_eq!(reference.api_version, "v1");
    assert_eq!(reference.kind, "Secret");
    assert_eq!(reference.namespace, "team-a");
    assert_eq!(reference.name, "creds");
    assert_eq!(reference.uid, None);
}
