//! The persisted byte layout of a record.
//!
//! The hosting store keeps each record as an option byte (absent or
//! present), a generation byte, and the count as a fixed-width
//! little-endian integer: four bytes for the legacy generation, eight
//! for the wide one.

use vstd::prelude::*;
use crate::state::{State, StateAccount};

verus! {

/// The four little-endian bytes of a narrow count.
pub open spec fn u32_le(n: u32) -> Seq<u8> {
    seq![
        ((n as int) % 256) as u8,
        (((n as int) / 256) % 256) as u8,
        (((n as int) / 65536) % 256) as u8,
        (((n as int) / 16777216) % 256) as u8,
    ]
}

/// The eight little-endian bytes of a wide count.
pub open spec fn u64_le(n: u64) -> Seq<u8> {
    seq![
        ((n as int) % 256) as u8,
        (((n as int) / 256) % 256) as u8,
        (((n as int) / 65536) % 256) as u8,
        (((n as int) / 16777216) % 256) as u8,
        (((n as int) / 4294967296) % 256) as u8,
        (((n as int) / 1099511627776) % 256) as u8,
        (((n as int) / 281474976710656) % 256) as u8,
        (((n as int) / 72057594037927936) % 256) as u8,
    ]
}

/// The full persisted form of a record's state.
pub open spec fn serialized(cur: Option<State>) -> Seq<u8> {
    match cur {
        None => seq![0u8],
        Some(State::FirstState { count }) => seq![1u8, 0u8] + u32_le(count),
        Some(State::SecondState { count }) => seq![1u8, 1u8] + u64_le(count),
    }
}

fn push_u32_le(out: &mut Vec<u8>, n: u32)
    ensures
        final(out)@ == old(out)@ + u32_le(n),
{
    out.push((n % 256) as u8);
    out.push(((n / 256) % 256) as u8);
    out.push(((n / 65536) % 256) as u8);
    out.push(((n / 16777216) % 256) as u8);
    proof {
        assert(out@ =~= old(out)@ + u32_le(n));
    }
}

fn push_u64_le(out: &mut Vec<u8>, n: u64)
    ensures
        final(out)@ == old(out)@ + u64_le(n),
{
    out.push((n % 256) as u8);
    out.push(((n / 256) % 256) as u8);
    out.push(((n / 65536) % 256) as u8);
    out.push(((n / 16777216) % 256) as u8);
    out.push(((n / 4294967296) % 256) as u8);
    out.push(((n / 1099511627776) % 256) as u8);
    out.push(((n / 281474976710656) % 256) as u8);
    out.push(((n / 72057594037927936) % 256) as u8);
    proof {
        assert(out@ =~= old(out)@ + u64_le(n));
    }
}

fn read_u32_le(bytes: &Vec<u8>) -> (r: u32)
    requires
        bytes@.len() >= 6,
    ensures
        u32_le(r) == bytes@.subrange(2, 6),
{
    let b0: u32 = bytes[2] as u32;
    let b1: u32 = bytes[3] as u32;
    let b2: u32 = bytes[4] as u32;
    let b3: u32 = bytes[5] as u32;
    let n: u32 = b0 + 256 * b1 + 65536 * b2 + 16777216 * b3;
    proof {
        assert(n % 256 == b0 && (n / 256) % 256 == b1 && (n / 65536) % 256 == b2 && (n
            / 16777216) % 256 == b3) by (bit_vector)
            requires
                n == b0 + 256 * b1 + 65536 * b2 + 16777216 * b3,
                b0 < 256 && b1 < 256 && b2 < 256 && b3 < 256,
        ;
        assert(u32_le(n) =~= bytes@.subrange(2, 6));
    }
    n
}

fn read_u64_le(bytes: &Vec<u8>) -> (r: u64)
    requires
        bytes@.len() >= 10,
    ensures
        u64_le(r) == bytes@.subrange(2, 10),
{
    let b0: u64 = bytes[2] as u64;
    let b1: u64 = bytes[3] as u64;
    let b2: u64 = bytes[4] as u64;
    let b3: u64 = bytes[5] as u64;
    let b4: u64 = bytes[6] as u64;
    let b5: u64 = bytes[7] as u64;
    let b6: u64 = bytes[8] as u64;
    let b7: u64 = bytes[9] as u64;
    let n: u64 = b0 + 256 * b1 + 65536 * b2 + 16777216 * b3 + 4294967296 * b4 + 1099511627776
        * b5 + 281474976710656 * b6 + 72057594037927936 * b7;
    proof {
        assert(n % 256 == b0 && (n / 256) % 256 == b1 && (n / 65536) % 256 == b2 && (n
            / 16777216) % 256 == b3 && (n / 4294967296) % 256 == b4 && (n / 1099511627776) % 256
            == b5 && (n / 281474976710656) % 256 == b6 && (n / 72057594037927936) % 256 == b7)
            by (bit_vector)
            requires
                n == b0 + 256 * b1 + 65536 * b2 + 16777216 * b3 + 4294967296 * b4
                    + 1099511627776 * b5 + 281474976710656 * b6 + 72057594037927936 * b7,
                b0 < 256 && b1 < 256 && b2 < 256 && b3 < 256 && b4 < 256 && b5 < 256 && b6 < 256
                    && b7 < 256,
        ;
        assert(u64_le(n) =~= bytes@.subrange(2, 10));
    }
    n
}

/// Encode a record exactly as the store persists it.
pub fn serialize_account(account: &StateAccount) -> (r: Vec<u8>)
    ensures
        r@ == serialized(account.current),
{
    let mut out: Vec<u8> = Vec::new();
    match account.current {
        None => {
            out.push(0u8);
        }
        Some(State::FirstState { count }) => {
            out.push(1u8);
            out.push(0u8);
            push_u32_le(&mut out, count);
        }
        Some(State::SecondState { count }) => {
            out.push(1u8);
            out.push(1u8);
            push_u64_le(&mut out, count);
        }
    }
    proof {
        assert(out@ =~= serialized(account.current));
    }
    out
}

/// Decode a persisted record: returns the one record the bytes encode,
/// or `None` when they encode no record at all.
pub fn deserialize_account(bytes: &Vec<u8>) -> (r: Option<StateAccount>)
    ensures
        match r {
            Some(acc) => serialized(acc.current) == bytes@,
            None => forall|cur: Option<State>| serialized(cur) != bytes@,
        },
{
    if bytes.len() == 1 && bytes[0] == 0 {
        proof {
            assert(serialized(None::<State>) =~= bytes@);
        }
        Some(StateAccount { current: None })
    } else if bytes.len() == 6 && bytes[0] == 1 && bytes[1] == 0 {
        let count = read_u32_le(bytes);
        proof {
            assert(serialized(Some(State::FirstState { count })) =~= bytes@);
        }
        Some(StateAccount { current: Some(State::FirstState { count }) })
    } else if bytes.len() == 10 && bytes[0] == 1 && bytes[1] == 1 {
        let count = read_u64_le(bytes);
        proof {
            assert(serialized(Some(State::SecondState { count })) =~= bytes@);
        }
        Some(StateAccount { current: Some(State::SecondState { count }) })
    } else {
        proof {
            assert forall|cur: Option<State>| serialized(cur) != bytes@ by {
                if serialized(cur) == bytes@ {
                    match cur {
                        None => {
                            assert(bytes@.len() == 1 && bytes@[0] == 0u8);
                        },
                        Some(State::FirstState { count }) => {
                            assert(bytes@.len() == 6 && bytes@[0] == 1u8 && bytes@[1] == 0u8);
                        },
                        Some(State::SecondState { count }) => {
                            assert(bytes@.len() == 10 && bytes@[0] == 1u8 && bytes@[1] == 1u8);
                        },
                    }
                }
            };
        }
        None
    }
}

} // verus!
