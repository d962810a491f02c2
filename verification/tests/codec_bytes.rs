use versioned_counter::codec::{deserialize_account, serialize_account};
use versioned_counter::machine::{decrement, increment};
use versioned_counter::state::{State, StateAccount};

#[test]
fn serialize_absent_record() {
    let account = StateAccount { current: None };
    assert_eq!(serialize_account(&account), vec![0u8]);
}

#[test]
fn serialize_legacy_little_endian() {
    let account = StateAccount { current: Some(State::FirstState { count: 0x01020304 }) };
    assert_eq!(serialize_account(&account), vec![1u8, 0, 4, 3, 2, 1]);
}

#[test]
fn serialize_upgraded_little_endian() {
    let account = StateAccount {
        current: Some(State::SecondState { count: 0x0102030405060708 }),
    };
    assert_eq!(serialize_account(&account), vec![1u8, 1, 8, 7, 6, 5, 4, 3, 2, 1]);
}

#[test]
fn failing_calls_leave_bytes_identical() {
    let mut at_zero = StateAccount { current: Some(State::FirstState { count: 0 }) };
    let before = serialize_account(&at_zero);
    assert!(decrement(&mut at_zero).is_err());
    assert_eq!(serialize_account(&at_zero), before);

    let mut at_max = StateAccount { current: Some(State::FirstState { count: u32::MAX }) };
    let before = serialize_account(&at_max);
    assert!(increment(&mut at_max).is_err());
    assert_eq!(serialize_account(&at_max), before);

    let mut absent = StateAccount { current: None };
    let before = serialize_account(&absent);
    assert!(increment(&mut absent).is_err());
    assert!(decrement(&mut absent).is_err());
    assert_eq!(serialize_account(&absent), before);
}

#[test]
fn deserialize_inverts_serialize() {
    let records = vec![
        StateAccount { current: None },
        StateAccount { current: Some(State::FirstState { count: 0 }) },
        StateAccount { current: Some(State::FirstState { count: 42 }) },
        StateAccount { current: Some(State::FirstState { count: u32::MAX }) },
        StateAccount { current: Some(State::SecondState { count: 0 }) },
        StateAccount { current: Some(State::SecondState { count: 0xdead_beef_0123 }) },
        StateAccount { current: Some(State::SecondState { count: u64::MAX }) },
    ];
    for record in records {
        let bytes = serialize_account(&record);
        assert_eq!(deserialize_account(&bytes), Some(record));
    }
}

#[test]
fn deserialize_rejects_invalid_bytes() {
    assert_eq!(deserialize_account(&vec![]), None);
    assert_eq!(deserialize_account(&vec![2u8]), None);
    assert_eq!(deserialize_account(&vec![1u8]), None);
    assert_eq!(deserialize_account(&vec![0u8, 0]), None);
    assert_eq!(deserialize_account(&vec![1u8, 0, 0, 0, 0]), None);
    assert_eq!(deserialize_account(&vec![1u8, 2, 0, 0, 0, 0]), None);
    assert_eq!(deserialize_account(&vec![1u8, 1, 0, 0, 0, 0, 0, 0, 0]), None);
    assert_eq!(deserialize_account(&vec![1u8, 0, 0, 0, 0, 0, 0, 0, 0, 0]), None);
}
