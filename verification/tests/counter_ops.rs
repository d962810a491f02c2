use versioned_counter::machine::{create, decrement, increment, read, upgrade_account};
use versioned_counter::state::{CustomError, State, StateAccount};

#[test]
fn create_initializes_legacy_zero() {
    let mut account = StateAccount { current: None };
    create(&mut account);
    assert_eq!(account.current, Some(State::FirstState { count: 0 }));
    assert_eq!(read(&account), Ok(0));
}

#[test]
fn create_overwrites_existing_state() {
    let mut account = StateAccount { current: Some(State::SecondState { count: 99 }) };
    create(&mut account);
    assert_eq!(account.current, Some(State::FirstState { count: 0 }));
    assert_eq!(read(&account), Ok(0));

    let mut legacy = StateAccount { current: Some(State::FirstState { count: 7 }) };
    create(&mut legacy);
    assert_eq!(legacy.current, Some(State::FirstState { count: 0 }));
}

#[test]
fn increment_then_decrement_restores_count() {
    let mut account = StateAccount { current: Some(State::FirstState { count: 5 }) };
    assert_eq!(increment(&mut account), Ok(()));
    assert_eq!(account.current, Some(State::FirstState { count: 6 }));
    assert_eq!(decrement(&mut account), Ok(()));
    assert_eq!(account.current, Some(State::FirstState { count: 5 }));

    let mut wide = StateAccount { current: Some(State::SecondState { count: 40 }) };
    assert_eq!(increment(&mut wide), Ok(()));
    assert_eq!(decrement(&mut wide), Ok(()));
    assert_eq!(wide.current, Some(State::SecondState { count: 40 }));
}

#[test]
fn increment_at_u32_max_fails() {
    let mut account = StateAccount { current: Some(State::FirstState { count: u32::MAX }) };
    assert_eq!(increment(&mut account), Err(CustomError::MaxCountReached));
    assert_eq!(account.current, Some(State::FirstState { count: u32::MAX }));
}

#[test]
fn increment_at_u64_max_fails() {
    let mut account = StateAccount { current: Some(State::SecondState { count: u64::MAX }) };
    assert_eq!(increment(&mut account), Err(CustomError::MaxCountReached));
    assert_eq!(account.current, Some(State::SecondState { count: u64::MAX }));
}

#[test]
fn decrement_at_zero_fails() {
    let mut account = StateAccount { current: Some(State::FirstState { count: 0 }) };
    assert_eq!(decrement(&mut account), Err(CustomError::MinCountReached));
    assert_eq!(account.current, Some(State::FirstState { count: 0 }));

    let mut wide = StateAccount { current: Some(State::SecondState { count: 0 }) };
    assert_eq!(decrement(&mut wide), Err(CustomError::MinCountReached));
    assert_eq!(wide.current, Some(State::SecondState { count: 0 }));
}

#[test]
fn upgrade_preserves_value_and_is_idempotent() {
    let mut account = StateAccount { current: Some(State::FirstState { count: 42 }) };
    assert_eq!(upgrade_account(&mut account), Ok(()));
    assert_eq!(account.current, Some(State::SecondState { count: 42 }));
    assert_eq!(upgrade_account(&mut account), Ok(()));
    assert_eq!(account.current, Some(State::SecondState { count: 42 }));
}

#[test]
fn upgrade_widens_the_full_range() {
    let mut account = StateAccount { current: Some(State::FirstState { count: u32::MAX }) };
    assert_eq!(upgrade_account(&mut account), Ok(()));
    assert_eq!(account.current, Some(State::SecondState { count: u32::MAX as u64 }));
    assert_eq!(increment(&mut account), Ok(()));
    assert_eq!(account.current, Some(State::SecondState { count: u32::MAX as u64 + 1 }));
}

#[test]
fn uninitialized_record_rejects_all_but_create() {
    let mut account = StateAccount { current: None };
    assert_eq!(increment(&mut account), Err(CustomError::InvalidState));
    assert_eq!(decrement(&mut account), Err(CustomError::InvalidState));
    assert_eq!(upgrade_account(&mut account), Err(CustomError::InvalidState));
    assert_eq!(read(&account), Err(CustomError::InvalidState));
    assert_eq!(account.current, None);
    create(&mut account);
    assert_eq!(account.current, Some(State::FirstState { count: 0 }));
}

#[test]
fn read_reports_widened_count() {
    let narrow = StateAccount { current: Some(State::FirstState { count: 7 }) };
    assert_eq!(read(&narrow), Ok(7));
    let wide = StateAccount { current: Some(State::SecondState { count: 1 << 40 }) };
    assert_eq!(read(&wide), Ok(1 << 40));
}
