//! A four-digit seven-segment display behind a shift register: which
//! segments make up a digit, and which frames show a number.

use vstd::prelude::*;

verus! {

/// The number of digits on the display.
pub const DIGITS: usize = 4;

/// The segment lines for `digit`, low where a segment is lit. The segments
/// a to g are the bits 0 to 6.
pub open spec fn segs_spec(digit: int) -> u8 {
    if digit == 0 {
        0xc0
    } else if digit == 1 {
        0xf9
    } else if digit == 2 {
        0xa4
    } else if digit == 3 {
        0xb0
    } else if digit == 4 {
        0x99
    } else if digit == 5 {
        0x92
    } else if digit == 6 {
        0x82
    } else if digit == 7 {
        0xf8
    } else if digit == 8 {
        0x80
    } else {
        0x90
    }
}

/// The line that selects the digit at `block`, counted from the right.
pub open spec fn mask_spec(block: int) -> u8 {
    if block == 0 {
        1
    } else if block == 1 {
        2
    } else if block == 2 {
        4
    } else {
        8
    }
}

/// The decimal digit of `value` at `block`, counted from the right.
pub open spec fn digit_spec(value: int, block: int) -> int {
    if block == 0 {
        value % 10
    } else if block == 1 {
        value % 100 / 10
    } else if block == 2 {
        value % 1000 / 100
    } else {
        value / 1000
    }
}

/// The segment lines for `digit`; nothing for what is no decimal digit.
pub fn segs(digit: u16) -> (r: Option<u8>)
    ensures
        digit < 10 ==> r == Some(segs_spec(digit as int)),
        digit >= 10 ==> r.is_none(),
{
    match digit {
        0 => Some(0xc0),
        1 => Some(0xf9),
        2 => Some(0xa4),
        3 => Some(0xb0),
        4 => Some(0x99),
        5 => Some(0x92),
        6 => Some(0x82),
        7 => Some(0xf8),
        8 => Some(0x80),
        9 => Some(0x90),
        _ => None,
    }
}

/// The decimal digits of `value`, thousands first. The first is no digit
/// where `value` has more than four.
pub fn digits(value: u16) -> (r: [u16; 4])
    ensures
        r[0] == digit_spec(value as int, 3),
        r[1] == digit_spec(value as int, 2),
        r[2] == digit_spec(value as int, 1),
        r[3] == digit_spec(value as int, 0),
        value < 10000 ==> r[0] < 10,
        r[1] < 10,
        r[2] < 10,
        r[3] < 10,
{
    [value / 1000, value % 1000 / 100, value % 100 / 10, value % 10]
}

/// The frames that show `value`, one per digit and the rightmost first: the
/// segment lines, then the line that selects the digit. Nothing for a number
/// of more than four digits.
pub fn frames(value: u16) -> (r: Option<[[u8; 2]; 4]>)
    ensures
        value >= 10000 ==> r.is_none(),
        value < 10000 ==> r.is_some() && forall|block: int|
            0 <= block < DIGITS ==> {
                &&& (#[trigger] r.unwrap()[block])[0] == segs_spec(digit_spec(value as int, block))
                &&& r.unwrap()[block][1] == mask_spec(block)
            },
{
    let d = digits(value);
    match (segs(d[3]), segs(d[2]), segs(d[1]), segs(d[0])) {
        (Some(units), Some(tens), Some(hundreds), Some(thousands)) => Some(
            [[units, 1], [tens, 2], [hundreds, 4], [thousands, 8]],
        ),
        _ => None,
    }
}

} // verus!
