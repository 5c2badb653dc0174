//! The instrument reader: what a channel read yields once the host has
//! answered.
//!
//! The host's data layer is queried by the embedding process (a lookup by
//! name, then a scalar read or an array read into a discard buffer); the
//! outcome arrives here as a plain value. Lookup failure, type mismatch
//! and read failure all arrive as `None`, and every failure degrades to
//! the zero reading — absence is not an error a consumer can see.

use vstd::prelude::*;

verus! {

/// The reading a scalar channel contributes: the host's value, or zero
/// when the channel was absent or unreadable.
pub open spec fn spec_scalar_value(reading: Option<u32>) -> u32 {
    match reading {
        Some(v) => v,
        None => 0,
    }
}

/// The reading an array-shaped channel contributes: element 0 of the
/// discard buffer the host filled, or zero when the channel was absent
/// or the buffer came back empty (an untouched buffer slot holds zero
/// already).
pub open spec fn spec_array_value(reading: Option<Seq<u32>>) -> u32 {
    match reading {
        Some(buf) => if buf.len() > 0 {
            buf[0]
        } else {
            0
        },
        None => 0,
    }
}

/// Fold a scalar channel's read outcome into its reading.
pub fn scalar_value(reading: Option<u32>) -> (v: u32)
    ensures
        v == spec_scalar_value(reading),
{
    match reading {
        Some(v) => v,
        None => 0,
    }
}

/// Fold an array-shaped channel's read outcome into its reading.
pub fn array_value(reading: &Option<Vec<u32>>) -> (v: u32)
    ensures
        v == spec_array_value(reading.deep_view()),
{
    match reading {
        Some(buf) => if buf.len() > 0 {
            buf[0]
        } else {
            0
        },
        None => 0,
    }
}

} // verus!
