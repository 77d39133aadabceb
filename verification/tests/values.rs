use soroban_bridge::{bytes_eq, DataKey, Identifier, Pause, Storage};

#[test]
fn equal_bytes_are_equal() {
    assert!(bytes_eq(&[0u8; 32], &[0u8; 32]));
    assert!(bytes_eq(&[0xFF; 32], &[0xFF; 32]));
}

#[test]
fn one_differing_byte_is_enough() {
    for at in [0usize, 1, 15, 30, 31] {
        let mut other = [7u8; 32];
        other[at] = 8;
        assert!(!bytes_eq(&[7u8; 32], &other));
        assert!(!bytes_eq(&other, &[7u8; 32]));
    }
}

#[test]
fn identifiers_compare_by_kind_and_bytes() {
    let key = [5u8; 32];
    let mut near = key;
    near[31] = 6;
    assert_eq!(Identifier::Account(key), Identifier::Account(key));
    assert_eq!(Identifier::Contract(key), Identifier::Contract(key));
    assert_ne!(Identifier::Account(key), Identifier::Account(near));
    assert_ne!(Identifier::Account(key), Identifier::Contract(key));
    assert_ne!(Identifier::Contract(key), Identifier::Account(key));
    assert_ne!(Identifier::Contract(key), Identifier::Contract(near));
}

#[test]
fn new_storage_holds_nothing() {
    let storage = Storage::new();
    assert!(!storage.has(&DataKey::Admin));
    assert!(!storage.has(&DataKey::Pause));
    assert!(!storage.has(&DataKey::Fullfilled([0u8; 32])));
    assert_eq!(storage.admin(), None);
    assert_eq!(storage.pause(), None);
}

#[test]
fn storage_keeps_what_is_set() {
    let mut storage = Storage::new();
    storage.set_admin(Identifier::Account([1u8; 32]));
    assert!(storage.has(&DataKey::Admin));
    assert_eq!(storage.admin(), Some(Identifier::Account([1u8; 32])));
    assert!(!storage.has(&DataKey::Pause));

    storage.set_pause(Pause::Withdrawal);
    assert!(storage.has(&DataKey::Pause));
    assert_eq!(storage.pause(), Some(Pause::Withdrawal));
    storage.set_pause(Pause::All);
    assert_eq!(storage.pause(), Some(Pause::All));
    storage.remove_pause();
    assert!(!storage.has(&DataKey::Pause));
    assert_eq!(storage.pause(), None);
    assert_eq!(storage.admin(), Some(Identifier::Account([1u8; 32])));
}

#[test]
fn markers_are_told_apart_by_every_byte() {
    let mut storage = Storage::new();
    let mut first = [0u8; 32];
    first[31] = 1;
    let mut second = [0u8; 32];
    second[31] = 2;
    storage.set_fulfilled(first);
    assert!(storage.has(&DataKey::Fullfilled(first)));
    assert!(!storage.has(&DataKey::Fullfilled(second)));
    assert!(!storage.has(&DataKey::Fullfilled([0u8; 32])));
    storage.set_fulfilled(first);
    storage.set_fulfilled(second);
    assert!(storage.has(&DataKey::Fullfilled(first)));
    assert!(storage.has(&DataKey::Fullfilled(second)));
    assert!(!storage.has(&DataKey::Admin));
    assert!(!storage.has(&DataKey::Pause));
}
