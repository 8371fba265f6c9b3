//! The text line that reports a tracked position.
//!
//! A line is the two coordinates in decimal, each followed by one space, and a
//! line feed: `"<x> <y> \n"`. It is built as ASCII bytes, ready to be written
//! to a stream.

use vstd::prelude::*;
use crate::geometry::Point;

verus! {

/// ASCII code of `'0'`.
pub const ASCII_ZERO: u8 = 48;

/// ASCII code of `'-'`.
pub const ASCII_MINUS: u8 = 45;

/// ASCII code of the space.
pub const ASCII_SPACE: u8 = 32;

/// ASCII code of the line feed.
pub const ASCII_LINE_FEED: u8 = 10;

/// The ASCII digit for `d`, which is below ten.
pub open spec fn digit(d: nat) -> u8 {
    (ASCII_ZERO + d) as u8
}

/// The decimal digits of `n`, most significant first, without leading zeros;
/// zero is the single digit `0`.
pub open spec fn decimal_digits(n: nat) -> Seq<u8>
    decreases n,
{
    if n < 10 {
        seq![digit(n)]
    } else {
        decimal_digits(n / 10).push(digit(n % 10))
    }
}

/// The decimal text of `v`: a minus sign if it is negative, then the digits of
/// its magnitude.
pub open spec fn decimal(v: int) -> Seq<u8> {
    if v < 0 {
        seq![ASCII_MINUS] + decimal_digits((-v) as nat)
    } else {
        decimal_digits(v as nat)
    }
}

/// The line for a position: `x`, a space, `y`, a space, a line feed.
pub open spec fn spec_telemetry_line(position: Point) -> Seq<u8> {
    decimal(position.x as int) + seq![ASCII_SPACE] + decimal(position.y as int) + seq![
        ASCII_SPACE,
        ASCII_LINE_FEED,
    ]
}

/// Appends the decimal digits of `n` to `out`.
pub fn push_decimal_digits(out: &mut Vec<u8>, n: u64)
    ensures
        final(out)@ == old(out)@ + decimal_digits(n as nat),
    decreases n,
{
    if n >= 10 {
        push_decimal_digits(out, n / 10);
    }
    let low: u64 = n % 10;
    out.push(ASCII_ZERO + low as u8);
    proof {
        assert(out@ =~= old(out)@ + decimal_digits(n as nat));
    }
}

/// Appends the decimal text of `v` to `out`.
pub fn push_decimal(out: &mut Vec<u8>, v: i64)
    ensures
        final(out)@ == old(out)@ + decimal(v as int),
{
    if v < 0 {
        out.push(ASCII_MINUS);
        let magnitude: u64 = (-(v + 1)) as u64 + 1;
        push_decimal_digits(out, magnitude);
        proof {
            assert(out@ =~= old(out)@ + decimal(v as int));
        }
    } else {
        push_decimal_digits(out, v as u64);
    }
}

/// The telemetry line for `position`, as ASCII bytes.
pub fn telemetry_line(position: Point) -> (line: Vec<u8>)
    ensures
        line@ == spec_telemetry_line(position),
{
    let mut line: Vec<u8> = Vec::new();
    push_decimal(&mut line, position.x);
    line.push(ASCII_SPACE);
    push_decimal(&mut line, position.y);
    line.push(ASCII_SPACE);
    line.push(ASCII_LINE_FEED);
    proof {
        assert(line@ =~= spec_telemetry_line(position));
    }
    line
}

} // verus!
