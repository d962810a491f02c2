//! A tiny persistent counter whose on-disk schema has two generations.
//!
//! A record starts absent, is created into the narrow legacy generation,
//! is incremented and decremented under width-bound guards, and can be
//! migrated once to the wide generation without losing its value. The
//! state machine itself is pure: the hosting ledger runtime loads and
//! stores the record and is responsible for authorization.

pub mod codec;
pub mod laws;
pub mod machine;
pub mod state;
