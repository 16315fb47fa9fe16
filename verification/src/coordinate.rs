//! Coordinates as integers.
//!
//! The graph and the map work on coordinates that are signed integers, whose
//! order is plain. A source that measures in IEEE 754 double precision hands
//! over the bit pattern of each measurement, and [`from_bits`] gives the
//! integer that stands for it: the numbers keep their order, nothing is lost
//! on the way back through [`to_bits`], and a pattern that is not a number is
//! turned away.
//!
//! A pattern is a sign bit above 63 bits of magnitude. Among the patterns
//! without the sign bit a greater magnitude is a greater number, among those
//! with it a greater magnitude is a smaller number, and magnitudes above that
//! of infinity are not numbers.

use vstd::prelude::*;

verus! {

/// The sign bit of a pattern.
pub const SIGN: u64 = 0x8000_0000_0000_0000;

/// The magnitude of infinity, the greatest that a number has.
pub const INFINITY: u64 = 0x7ff0_0000_0000_0000;

/// The pattern without its sign bit.
pub open spec fn magnitude(bits: u64) -> int {
    if bits >= SIGN {
        bits - SIGN
    } else {
        bits as int
    }
}

/// The pattern is that of a number, infinities included.
pub open spec fn is_number(bits: u64) -> bool {
    magnitude(bits) <= INFINITY
}

/// The coordinate that stands for a pattern: the magnitude itself without
/// the sign bit, and below zero by one more than the magnitude with it.
pub open spec fn coordinate_of(bits: u64) -> int {
    if bits >= SIGN {
        -magnitude(bits) - 1
    } else {
        magnitude(bits)
    }
}

/// The coordinate that stands for the measurement with the pattern `bits`,
/// or nothing where the pattern is not a number.
pub fn from_bits(bits: u64) -> (coordinate: Option<i64>)
    ensures
        coordinate == if is_number(bits) {
            Some(coordinate_of(bits) as i64)
        } else {
            None
        },
        is_number(bits) ==> i64::MIN <= coordinate_of(bits) <= i64::MAX,
{
    if bits >= SIGN {
        let magnitude = bits - SIGN;
        if magnitude <= INFINITY {
            Some(-(magnitude as i64) - 1)
        } else {
            None
        }
    } else if bits <= INFINITY {
        Some(bits as i64)
    } else {
        None
    }
}

/// The pattern that `coordinate` stands for.
pub fn to_bits(coordinate: i64) -> (bits: u64)
    ensures
        coordinate_of(bits) == coordinate,
{
    if coordinate >= 0 {
        coordinate as u64
    } else {
        (-(coordinate + 1)) as u64 + SIGN
    }
}

/// Coordinates keep the order of the numbers they stand for: without the
/// sign bit they rise with the magnitude, with it they fall with the
/// magnitude, and every pattern with it comes before every pattern without.
pub proof fn lemma_coordinates_keep_order(a: u64, b: u64)
    ensures
        a < SIGN && b < SIGN ==> (coordinate_of(a) <= coordinate_of(b) <==> magnitude(a)
            <= magnitude(b)),
        a >= SIGN && b >= SIGN ==> (coordinate_of(a) <= coordinate_of(b) <==> magnitude(a)
            >= magnitude(b)),
        a >= SIGN && b < SIGN ==> coordinate_of(a) < coordinate_of(b),
{
}

/// No two patterns share a coordinate, so the way back from a coordinate
/// ends at the pattern that it was made from.
pub proof fn lemma_coordinates_are_distinct(a: u64, b: u64)
    requires
        coordinate_of(a) == coordinate_of(b),
    ensures
        a == b,
{
}

} // verus!
