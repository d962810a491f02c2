//! Laws of the transition rules, stated and proved once for all records.

use vstd::prelude::*;
use crate::codec::{serialized, u32_le, u64_le};
use crate::state::{CustomError, State, count_of, read_of, step_create, step_decrement,
    step_increment, step_upgrade, width_max};

verus! {

/// Creation is idempotent in effect: whatever state a record held
/// before, `create` leaves the legacy generation at count zero, and a
/// read after it reports zero.
pub proof fn lemma_create_resets(prior: Option<State>)
    ensures
        step_create(prior) == (Some(State::FirstState { count: 0u32 })),
        read_of(step_create(prior)) == Ok::<u64, CustomError>(0),
{
}

/// Increment and decrement are inverses within bounds: on a present
/// state whose count lies strictly between zero and the active width's
/// maximum, incrementing succeeds and decrementing the result restores
/// the state exactly, generation included.
pub proof fn lemma_increment_then_decrement(cur: Option<State>)
    requires
        cur matches Some(s) && 0 < count_of(s) < width_max(s),
    ensures
        match step_increment(cur) {
            Ok(next) => step_decrement(next) == Ok::<Option<State>, CustomError>(cur),
            Err(_) => false,
        },
{
}

/// Upgrading a present state always succeeds, preserves the reported
/// count, and is idempotent: a second upgrade returns the state it was
/// given.
pub proof fn lemma_upgrade_preserves_value(cur: Option<State>)
    requires
        cur is Some,
    ensures
        match step_upgrade(cur) {
            Ok(next) => read_of(next) == read_of(cur) && step_upgrade(next)
                == Ok::<Option<State>, CustomError>(next),
            Err(_) => false,
        },
{
}

/// The generation tag never goes back: once a record is in the wide
/// generation, increment, decrement and upgrade leave it there.
/// (`create` is the deliberate exception: it overwrites the record.)
pub proof fn lemma_generation_monotone(cur: Option<State>)
    requires
        cur matches Some(s) && s is SecondState,
    ensures
        step_increment(cur) matches Ok(next) ==> next matches Some(n) && n is SecondState,
        step_decrement(cur) matches Ok(next) ==> next matches Some(n) && n is SecondState,
        step_upgrade(cur) matches Ok(next) ==> next matches Some(n) && n is SecondState,
{
}

proof fn lemma_u32_le_injective(m: u32, n: u32)
    requires
        u32_le(m) == u32_le(n),
    ensures
        m == n,
{
    assert(m % 256 == n % 256 && (m / 256) % 256 == (n / 256) % 256 && (m / 65536) % 256 == (n
        / 65536) % 256 && (m / 16777216) % 256 == (n / 16777216) % 256) by {
        assert(u32_le(m)[0] == u32_le(n)[0]);
        assert(u32_le(m)[1] == u32_le(n)[1]);
        assert(u32_le(m)[2] == u32_le(n)[2]);
        assert(u32_le(m)[3] == u32_le(n)[3]);
    };
    assert(m == n) by (bit_vector)
        requires
            m % 256 == n % 256,
            (m / 256) % 256 == (n / 256) % 256,
            (m / 65536) % 256 == (n / 65536) % 256,
            (m / 16777216) % 256 == (n / 16777216) % 256,
    ;
}

proof fn lemma_u64_le_injective(m: u64, n: u64)
    requires
        u64_le(m) == u64_le(n),
    ensures
        m == n,
{
    assert(m % 256 == n % 256 && (m / 256) % 256 == (n / 256) % 256 && (m / 65536) % 256 == (n
        / 65536) % 256 && (m / 16777216) % 256 == (n / 16777216) % 256 && (m / 4294967296) % 256
        == (n / 4294967296) % 256 && (m / 1099511627776) % 256 == (n / 1099511627776) % 256 && (m
        / 281474976710656) % 256 == (n / 281474976710656) % 256 && (m / 72057594037927936) % 256
        == (n / 72057594037927936) % 256) by {
        assert(u64_le(m)[0] == u64_le(n)[0]);
        assert(u64_le(m)[1] == u64_le(n)[1]);
        assert(u64_le(m)[2] == u64_le(n)[2]);
        assert(u64_le(m)[3] == u64_le(n)[3]);
        assert(u64_le(m)[4] == u64_le(n)[4]);
        assert(u64_le(m)[5] == u64_le(n)[5]);
        assert(u64_le(m)[6] == u64_le(n)[6]);
        assert(u64_le(m)[7] == u64_le(n)[7]);
    };
    assert(m == n) by (bit_vector)
        requires
            m % 256 == n % 256,
            (m / 256) % 256 == (n / 256) % 256,
            (m / 65536) % 256 == (n / 65536) % 256,
            (m / 16777216) % 256 == (n / 16777216) % 256,
            (m / 4294967296) % 256 == (n / 4294967296) % 256,
            (m / 1099511627776) % 256 == (n / 1099511627776) % 256,
            (m / 281474976710656) % 256 == (n / 281474976710656) % 256,
            (m / 72057594037927936) % 256 == (n / 72057594037927936) % 256,
    ;
}

/// The persisted encoding is injective: identical bytes before and
/// after a call mean an identical record, so the byte-level reading of
/// "unchanged on failure" and the state-level one coincide.
pub proof fn lemma_serialized_injective(a: Option<State>, b: Option<State>)
    requires
        serialized(a) == serialized(b),
    ensures
        a == b,
{
    match (a, b) {
        (Some(State::FirstState { count: m }), Some(State::FirstState { count: n })) => {
            assert(u32_le(m) =~= u32_le(n)) by {
                assert(forall|i: int| 0 <= i < 4 ==> u32_le(m)[i] == #[trigger] u32_le(n)[i])
                    by {
                    assert(forall|i: int| 0 <= i < 4 ==> #[trigger] u32_le(n)[i] == serialized(
                        b,
                    )[i + 2]);
                    assert(forall|i: int| 0 <= i < 4 ==> #[trigger] u32_le(m)[i] == serialized(
                        a,
                    )[i + 2]);
                };
            };
            lemma_u32_le_injective(m, n);
        },
        (Some(State::SecondState { count: m }), Some(State::SecondState { count: n })) => {
            assert(u64_le(m) =~= u64_le(n)) by {
                assert(forall|i: int| 0 <= i < 8 ==> u64_le(m)[i] == #[trigger] u64_le(n)[i])
                    by {
                    assert(forall|i: int| 0 <= i < 8 ==> #[trigger] u64_le(n)[i] == serialized(
                        b,
                    )[i + 2]);
                    assert(forall|i: int| 0 <= i < 8 ==> #[trigger] u64_le(m)[i] == serialized(
                        a,
                    )[i + 2]);
                };
            };
            lemma_u64_le_injective(m, n);
        },
        (Some(State::FirstState { .. }), Some(State::SecondState { .. })) => {
            assert(serialized(a).len() == 6 && serialized(b).len() == 10);
        },
        (Some(State::SecondState { .. }), Some(State::FirstState { .. })) => {
            assert(serialized(a).len() == 10 && serialized(b).len() == 6);
        },
        (None, Some(_)) => {
            assert(serialized(a).len() == 1 && serialized(b).len() >= 6);
        },
        (Some(_), None) => {
            assert(serialized(a).len() >= 6 && serialized(b).len() == 1);
        },
        (None, None) => {},
    }
}

} // verus!
