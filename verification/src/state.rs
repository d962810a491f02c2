//! The record's representation and the mathematical transition rules.

use vstd::prelude::*;

verus! {

/// One counter state: the tagged union of the two schema generations.
///
/// `FirstState` is the original, narrow generation; `SecondState` is the
/// later, wide generation. Migration is one-way: no transition rebuilds
/// `FirstState` from `SecondState`.
#[derive(Clone, Copy, PartialEq, Eq, Structural, Debug)]
pub enum State {
    FirstState { count: u32 },
    SecondState { count: u64 },
}

/// The persistent record. `current` is `None` only before creation;
/// every operation except `create` rejects an absent state.
#[derive(Clone, Copy, PartialEq, Eq, Debug)]
pub struct StateAccount {
    pub current: Option<State>,
}

/// Why an operation was refused. The record is left unchanged whenever
/// one of these is returned.
#[derive(Clone, Copy, PartialEq, Eq, Structural, Debug)]
pub enum CustomError {
    /// An increment was attempted at the active width's maximum count.
    MaxCountReached,
    /// A decrement was attempted at count zero.
    MinCountReached,
    /// An operation other than `create` was attempted on a record whose
    /// state is absent.
    InvalidState,
}

/// The count a state holds, as a mathematical integer.
pub open spec fn count_of(s: State) -> int {
    match s {
        State::FirstState { count } => count as int,
        State::SecondState { count } => count as int,
    }
}

/// The largest count the state's active generation can represent.
pub open spec fn width_max(s: State) -> int {
    match s {
        State::FirstState { .. } => u32::MAX as int,
        State::SecondState { .. } => u64::MAX as int,
    }
}

/// Creation overwrites whatever was there before: every prior state,
/// absent included, becomes the legacy generation at count zero.
pub open spec fn step_create(cur: Option<State>) -> Option<State> {
    Some(State::FirstState { count: 0u32 })
}

/// The increment transition: one more within the active generation,
/// refused at the generation's maximum and on an absent state.
pub open spec fn step_increment(cur: Option<State>) -> Result<Option<State>, CustomError> {
    match cur {
        Some(State::FirstState { count }) => if count == u32::MAX {
            Err(CustomError::MaxCountReached)
        } else {
            Ok(Some(State::FirstState { count: (count + 1) as u32 }))
        },
        Some(State::SecondState { count }) => if count == u64::MAX {
            Err(CustomError::MaxCountReached)
        } else {
            Ok(Some(State::SecondState { count: (count + 1) as u64 }))
        },
        None => Err(CustomError::InvalidState),
    }
}

/// The decrement transition: one less within the active generation,
/// refused at zero and on an absent state.
pub open spec fn step_decrement(cur: Option<State>) -> Result<Option<State>, CustomError> {
    match cur {
        Some(State::FirstState { count }) => if count == 0 {
            Err(CustomError::MinCountReached)
        } else {
            Ok(Some(State::FirstState { count: (count - 1) as u32 }))
        },
        Some(State::SecondState { count }) => if count == 0 {
            Err(CustomError::MinCountReached)
        } else {
            Ok(Some(State::SecondState { count: (count - 1) as u64 }))
        },
        None => Err(CustomError::InvalidState),
    }
}

/// The migration transition: the legacy generation is widened without
/// changing its value, the wide generation is left as it is, and an
/// absent state is refused.
pub open spec fn step_upgrade(cur: Option<State>) -> Result<Option<State>, CustomError> {
    match cur {
        Some(State::FirstState { count }) => Ok(Some(State::SecondState { count: count as u64 })),
        Some(State::SecondState { .. }) => Ok(cur),
        None => Err(CustomError::InvalidState),
    }
}

/// What a query of the record reports: the count widened to the common
/// reporting width, or a refusal on an absent state.
pub open spec fn read_of(cur: Option<State>) -> Result<u64, CustomError> {
    match cur {
        Some(s) => Ok(count_of(s) as u64),
        None => Err(CustomError::InvalidState),
    }
}

} // verus!
