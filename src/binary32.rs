//! IEEE-754 binary32 values held as their bit patterns.
//!
//! A pattern is read as sign bit, then magnitude: the magnitude of a NaN is
//! above that of infinity, and among the other values the magnitude orders
//! the absolute values. Comparisons follow IEEE-754: NaN is unordered and
//! `-0.0 == +0.0`.
use vstd::prelude::*;

verus! {

/// Bit pattern of `+0.0`.
pub const ZERO: u32 = 0;

/// Bit pattern of `1.0`.
pub const ONE: u32 = 0x3f80_0000;

/// Bit pattern of `+inf`.
pub const INFINITY: u32 = 0x7f80_0000;

/// The sign bit.
const SIGN: u32 = 0x8000_0000;

/// The pattern without its sign bit.
pub open spec fn magnitude(x: u32) -> int {
    x as int % 0x8000_0000
}

pub open spec fn spec_is_negative(x: u32) -> bool {
    x >= 0x8000_0000
}

pub open spec fn spec_is_nan(x: u32) -> bool {
    magnitude(x) > 0x7f80_0000
}

pub open spec fn spec_is_infinite(x: u32) -> bool {
    magnitude(x) == 0x7f80_0000
}

/// Position of a non-NaN value on the real line (extended by the two
/// infinities): both zeros sit at 0.
pub open spec fn rank(x: u32) -> int {
    if spec_is_negative(x) {
        -magnitude(x)
    } else {
        magnitude(x)
    }
}

/// `a == b` as IEEE-754 compares.
pub open spec fn spec_eq(a: u32, b: u32) -> bool {
    !spec_is_nan(a) && !spec_is_nan(b) && rank(a) == rank(b)
}

/// `a < b` as IEEE-754 compares.
pub open spec fn spec_lt(a: u32, b: u32) -> bool {
    !spec_is_nan(a) && !spec_is_nan(b) && rank(a) < rank(b)
}

/// `a <= b` as IEEE-754 compares.
pub open spec fn spec_le(a: u32, b: u32) -> bool {
    !spec_is_nan(a) && !spec_is_nan(b) && rank(a) <= rank(b)
}

/// The larger of two values under partial ordering: `a` when `a >= b`,
/// else `b` (so a NaN in either place yields `b`).
pub open spec fn spec_partial_max(a: u32, b: u32) -> u32 {
    if spec_le(b, a) {
        a
    } else {
        b
    }
}

/// The smaller of two values under partial ordering: `a` when `a <= b`,
/// else `b`.
pub open spec fn spec_partial_min(a: u32, b: u32) -> u32 {
    if spec_le(a, b) {
        a
    } else {
        b
    }
}

/// `x` constrained to `[0, 1]`: `partial_min(partial_max(x, 0), 1)`.
pub open spec fn spec_clamped01(x: u32) -> u32 {
    spec_partial_min(spec_partial_max(x, ZERO), ONE)
}

fn magnitude_of(x: u32) -> (r: u32)
    ensures
        r == magnitude(x),
        r < 0x8000_0000,
{
    x % 0x8000_0000
}

/// Whether `x` is a NaN.
pub fn is_nan(x: u32) -> (r: bool)
    ensures
        r == spec_is_nan(x),
{
    magnitude_of(x) > INFINITY
}

/// Compares two non-NaN values by their rank.
fn rank_le(a: u32, b: u32) -> (r: bool)
    ensures
        r == (rank(a) <= rank(b)),
{
    let ma = magnitude_of(a);
    let mb = magnitude_of(b);
    match (a >= SIGN, b >= SIGN) {
        (false, false) => ma <= mb,
        (true, true) => mb <= ma,
        (true, false) => true,
        (false, true) => ma == 0 && mb == 0,
    }
}

/// `a == b` as IEEE-754 compares.
pub fn eq(a: u32, b: u32) -> (r: bool)
    ensures
        r == spec_eq(a, b),
{
    !is_nan(a) && !is_nan(b) && rank_le(a, b) && rank_le(b, a)
}

/// `a < b` as IEEE-754 compares.
pub fn lt(a: u32, b: u32) -> (r: bool)
    ensures
        r == spec_lt(a, b),
{
    !is_nan(a) && !is_nan(b) && !rank_le(b, a)
}

/// `a <= b` as IEEE-754 compares.
pub fn le(a: u32, b: u32) -> (r: bool)
    ensures
        r == spec_le(a, b),
{
    !is_nan(a) && !is_nan(b) && rank_le(a, b)
}

/// The larger of `a` and `b` under partial ordering.
pub fn partial_max(a: u32, b: u32) -> (r: u32)
    ensures
        r == spec_partial_max(a, b),
{
    if le(b, a) {
        a
    } else {
        b
    }
}

/// The smaller of `a` and `b` under partial ordering.
pub fn partial_min(a: u32, b: u32) -> (r: u32)
    ensures
        r == spec_partial_min(a, b),
{
    if le(a, b) {
        a
    } else {
        b
    }
}

/// `x` constrained to `[0, 1]`.
pub fn clamped01(x: u32) -> (r: u32)
    ensures
        r == spec_clamped01(x),
{
    partial_min(partial_max(x, ZERO), ONE)
}

} // verus!
