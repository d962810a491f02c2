//! The executable operations on one counter record.
//!
//! Each operation validates its preconditions, then either performs its
//! transition in place or returns a typed refusal leaving the record
//! untouched. The contracts tie every outcome to the transition rules
//! in [`crate::state`].

use vstd::prelude::*;
use crate::codec::serialized;
use crate::state::{CustomError, State, StateAccount, read_of, step_create, step_decrement,
    step_increment, step_upgrade};

verus! {

/// Create the record: unconditionally overwrite whatever state was
/// there with the legacy generation at count zero. Always succeeds.
pub fn create(account: &mut StateAccount)
    ensures
        final(account).current == step_create(old(account).current),
{
    account.current = Some(State::FirstState { count: 0 });
}

/// Add one to the active generation's count.
///
/// Fails with `MaxCountReached` at the generation's maximum and with
/// `InvalidState` on a record not yet created; on failure the record is
/// unchanged.
pub fn increment(account: &mut StateAccount) -> (r: Result<(), CustomError>)
    ensures
        match step_increment(old(account).current) {
            Ok(next) => r == Ok::<(), CustomError>(()) && final(account).current == next,
            Err(e) => r == Err::<(), CustomError>(e) && *final(account) == *old(account),
        },
        r is Err ==> serialized(final(account).current) == serialized(old(account).current),
{
    match account.current {
        Some(State::FirstState { count }) => {
            if count == u32::MAX {
                Err(CustomError::MaxCountReached)
            } else {
                account.current = Some(State::FirstState { count: count + 1 });
                Ok(())
            }
        }
        Some(State::SecondState { count }) => {
            if count == u64::MAX {
                Err(CustomError::MaxCountReached)
            } else {
                account.current = Some(State::SecondState { count: count + 1 });
                Ok(())
            }
        }
        None => Err(CustomError::InvalidState),
    }
}

/// Subtract one from the active generation's count.
///
/// Fails with `MinCountReached` at count zero and with `InvalidState`
/// on a record not yet created; on failure the record is unchanged.
pub fn decrement(account: &mut StateAccount) -> (r: Result<(), CustomError>)
    ensures
        match step_decrement(old(account).current) {
            Ok(next) => r == Ok::<(), CustomError>(()) && final(account).current == next,
            Err(e) => r == Err::<(), CustomError>(e) && *final(account) == *old(account),
        },
        r is Err ==> serialized(final(account).current) == serialized(old(account).current),
{
    match account.current {
        Some(State::FirstState { count }) => {
            if count == 0 {
                Err(CustomError::MinCountReached)
            } else {
                account.current = Some(State::FirstState { count: count - 1 });
                Ok(())
            }
        }
        Some(State::SecondState { count }) => {
            if count == 0 {
                Err(CustomError::MinCountReached)
            } else {
                account.current = Some(State::SecondState { count: count - 1 });
                Ok(())
            }
        }
        None => Err(CustomError::InvalidState),
    }
}

/// Migrate the record to the wide generation.
///
/// A legacy state is widened, value preserved; a wide state is left as
/// it is; an absent state fails with `InvalidState` and the record is
/// unchanged.
pub fn upgrade_account(account: &mut StateAccount) -> (r: Result<(), CustomError>)
    ensures
        match step_upgrade(old(account).current) {
            Ok(next) => r == Ok::<(), CustomError>(()) && final(account).current == next,
            Err(e) => r == Err::<(), CustomError>(e) && *final(account) == *old(account),
        },
        r is Err ==> serialized(final(account).current) == serialized(old(account).current),
{
    match account.current {
        Some(State::FirstState { count }) => {
            account.current = Some(State::SecondState { count: count as u64 });
            Ok(())
        }
        Some(State::SecondState { .. }) => Ok(()),
        None => Err(CustomError::InvalidState),
    }
}

/// Report the count widened to the common reporting width, without
/// mutating anything; fails with `InvalidState` on a record not yet
/// created.
pub fn read(account: &StateAccount) -> (r: Result<u64, CustomError>)
    ensures
        r == read_of(account.current),
{
    match account.current {
        Some(State::FirstState { count }) => Ok(count as u64),
        Some(State::SecondState { count }) => Ok(count),
        None => Err(CustomError::InvalidState),
    }
}

} // verus!
