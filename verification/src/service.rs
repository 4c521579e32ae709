//! The attribute through which the remote control tells the car its target
//! velocity: eight bytes, two little-endian 32-bit words, the forward speed
//! first and the strafe speed second.
//!
//! Each word is the bit pattern of a binary floating-point number.

use vstd::prelude::*;
use crate::binary32::{units, units_spec};
use crate::velocity::{Velocity, VelocityVector};

verus! {

/// The number of bytes in the attribute.
pub const PAYLOAD_LEN: usize = 8;

/// The word whose little-endian bytes are `s[at]`, .., `s[at + 3]`.
pub open spec fn le_word(s: Seq<u8>, at: int) -> int {
    s[at] + 0x100 * s[at + 1] + 0x1_0000 * s[at + 2] + 0x100_0000 * s[at + 3]
}

/// Byte `i` (0 the least significant) of the word `w`.
pub open spec fn le_byte(w: int, i: int) -> int {
    if i == 0 {
        w % 0x100
    } else if i == 1 {
        (w / 0x100) % 0x100
    } else if i == 2 {
        (w / 0x100 / 0x100) % 0x100
    } else {
        (w / 0x100 / 0x100 / 0x100) % 0x100
    }
}

/// The eight bytes that carry the words `x` and `y`.
pub open spec fn payload_of(x: int, y: int) -> Seq<u8> {
    Seq::new(
        8,
        |i: int|
            if i < 4 {
                le_byte(x, i) as u8
            } else {
                le_byte(y, i - 4) as u8
            },
    )
}

/// The setpoint that the words `x` and `y` carry, in units of `1 / scale`:
/// forward and strafe speed, no yaw rate. Nothing where a word is no number,
/// and for a scale that is not positive.
pub open spec fn setpoint_spec(x: int, y: int, scale: int) -> Option<Velocity> {
    if units_spec(x, scale) is Some && units_spec(y, scale) is Some {
        Some(
            Velocity {
                x: units_spec(x, scale)->0,
                y: units_spec(y, scale)->0,
                z: None,
                scale,
            },
        )
    } else {
        None
    }
}

/// The car's service as the remote control sees it: one writable attribute.
#[derive(Clone, Copy, Debug, PartialEq, Eq)]
pub struct RcCarService {
    /// The target velocity as it was last written.
    pub target_velocity: [u8; 8],
}

impl RcCarService {
    /// The word that holds the forward speed.
    pub open spec fn x_word(&self) -> int {
        le_word(self.target_velocity@, 0)
    }

    /// The word that holds the strafe speed.
    pub open spec fn y_word(&self) -> int {
        le_word(self.target_velocity@, 4)
    }

    /// The service before anything was written: both words zero.
    pub fn new() -> (r: RcCarService)
        ensures
            r.target_velocity@ == Seq::new(8, |i: int| 0u8),
            r.x_word() == 0,
            r.y_word() == 0,
    {
        let r = RcCarService { target_velocity: [0, 0, 0, 0, 0, 0, 0, 0] };
        assert(r.target_velocity@ =~= Seq::new(8, |i: int| 0u8));
        r
    }

    /// Takes in what the remote control wrote. A payload of any other
    /// length than eight bytes is refused, and the attribute stays as it
    /// was.
    pub fn write(&mut self, payload: &[u8]) -> (accepted: bool)
        ensures
            accepted == (payload@.len() == PAYLOAD_LEN),
            accepted ==> final(self).target_velocity@ == payload@,
            !accepted ==> *final(self) == *old(self),
    {
        if payload.len() != PAYLOAD_LEN {
            return false;
        }
        let value = [
            payload[0],
            payload[1],
            payload[2],
            payload[3],
            payload[4],
            payload[5],
            payload[6],
            payload[7],
        ];
        assert(value@ =~= payload@);
        self.target_velocity = value;
        true
    }

    /// The attribute in its two halves: the bytes of the forward speed and
    /// the bytes of the strafe speed.
    pub fn split(&self) -> (r: ([u8; 4], [u8; 4]))
        ensures
            r.0@ == self.target_velocity@.subrange(0, 4),
            r.1@ == self.target_velocity@.subrange(4, 8),
    {
        let v = &self.target_velocity;
        let x = [v[0], v[1], v[2], v[3]];
        let y = [v[4], v[5], v[6], v[7]];
        assert(x@ =~= self.target_velocity@.subrange(0, 4));
        assert(y@ =~= self.target_velocity@.subrange(4, 8));
        (x, y)
    }

    /// The two words of the attribute: forward speed, strafe speed.
    pub fn words(&self) -> (r: (u32, u32))
        ensures
            r.0 == self.x_word(),
            r.1 == self.y_word(),
    {
        let v = &self.target_velocity;
        let x: u32 = v[0] as u32 + 0x100 * (v[1] as u32) + 0x1_0000 * (v[2] as u32) + 0x100_0000
            * (v[3] as u32);
        let y: u32 = v[4] as u32 + 0x100 * (v[5] as u32) + 0x1_0000 * (v[6] as u32) + 0x100_0000
            * (v[7] as u32);
        (x, y)
    }

    /// The setpoint that the attribute carries, in units of `1 / scale`.
    /// Nothing where the attribute holds an infinity or the result of an
    /// invalid operation, and for a scale that is not positive.
    pub fn setpoint(&self, scale: i16) -> (r: Option<VelocityVector>)
        ensures
            r is Some <==> setpoint_spec(self.x_word(), self.y_word(), scale as int) is Some,
            r is Some ==> r->0@ == setpoint_spec(self.x_word(), self.y_word(), scale as int)->0,
    {
        let (xw, yw) = self.words();
        match (units(xw, scale), units(yw, scale)) {
            (Some(x), Some(y)) => VelocityVector::new(x, y, None, scale),
            _ => None,
        }
    }

    /// The attribute that carries the words `x` and `y`.
    pub fn from_words(x: u32, y: u32) -> (r: RcCarService)
        ensures
            r.target_velocity@ == payload_of(x as int, y as int),
            r.x_word() == x,
            r.y_word() == y,
    {
        let x1: u32 = x / 0x100;
        let x2: u32 = x1 / 0x100;
        let x3: u32 = x2 / 0x100;
        let y1: u32 = y / 0x100;
        let y2: u32 = y1 / 0x100;
        let y3: u32 = y2 / 0x100;
        let r = RcCarService {
            target_velocity: [
                (x % 0x100) as u8,
                (x1 % 0x100) as u8,
                (x2 % 0x100) as u8,
                (x3 % 0x100) as u8,
                (y % 0x100) as u8,
                (y1 % 0x100) as u8,
                (y2 % 0x100) as u8,
                (y3 % 0x100) as u8,
            ],
        };
        proof {
            assert(r.target_velocity@ =~= payload_of(x as int, y as int));
            lemma_word_of_bytes(x);
            lemma_word_of_bytes(y);
        }
        r
    }
}

/// A word is the sum of its bytes, each at its place.
proof fn lemma_word_of_bytes(w: u32)
    ensures
        le_byte(w as int, 0) + 0x100 * le_byte(w as int, 1) + 0x1_0000 * le_byte(w as int, 2)
            + 0x100_0000 * le_byte(w as int, 3) == w,
        0 <= le_byte(w as int, 0) < 0x100,
        0 <= le_byte(w as int, 1) < 0x100,
        0 <= le_byte(w as int, 2) < 0x100,
        0 <= le_byte(w as int, 3) < 0x100,
{
    let q1 = w as int / 0x100;
    let q2 = q1 / 0x100;
    let q3 = q2 / 0x100;
    assert(w == 0x100 * q1 + w as int % 0x100);
    assert(q1 == 0x100 * q2 + q1 % 0x100);
    assert(q2 == 0x100 * q3 + q2 % 0x100);
    assert(q3 < 0x100);
}

/// The bytes of a sum of four bytes, each at its place, are those bytes.
proof fn lemma_bytes_of_word(b0: u8, b1: u8, b2: u8, b3: u8)
    ensures
        ({
            let w = b0 + 0x100 * b1 + 0x1_0000 * b2 + 0x100_0000 * b3;
            &&& le_byte(w, 0) == b0
            &&& le_byte(w, 1) == b1
            &&& le_byte(w, 2) == b2
            &&& le_byte(w, 3) == b3
        }),
{
    let w = b0 + 0x100 * b1 + 0x1_0000 * b2 + 0x100_0000 * b3;
    let q1 = b1 + 0x100 * b2 + 0x1_0000 * b3;
    let q2 = b2 + 0x100 * b3;
    assert(w == 0x100 * q1 + b0);
    assert(w / 0x100 == q1 && w % 0x100 == b0);
    assert(q1 == 0x100 * q2 + b1);
    assert(q1 / 0x100 == q2 && q1 % 0x100 == b1);
    assert(q2 / 0x100 == b3 && q2 % 0x100 == b2);
}

/// Framing loses nothing: the words that were put into an attribute are the
/// words that come out of it, and the other way round.
pub proof fn lemma_words_round_trip(x: u32, y: u32, s: RcCarService)
    ensures
        le_word(payload_of(x as int, y as int), 0) == x,
        le_word(payload_of(x as int, y as int), 4) == y,
        payload_of(s.x_word(), s.y_word()) == s.target_velocity@,
{
    lemma_word_of_bytes(x);
    lemma_word_of_bytes(y);
    let t = s.target_velocity@;
    lemma_bytes_of_word(t[0], t[1], t[2], t[3]);
    lemma_bytes_of_word(t[4], t[5], t[6], t[7]);
    assert(payload_of(s.x_word(), s.y_word()) =~= t);
}

} // verus!
