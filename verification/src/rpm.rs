//! The speed of a shaft, from the times between the pulses of a sensor that
//! gives one pulse per revolution.
//!
//! The last ten intervals are kept in a ring buffer. The speed is the number
//! of most recent intervals that it takes to fill the averaging window,
//! divided by the time they span. All times are in microseconds.

use vstd::prelude::*;
use ringbuffer::{ConstGenericRingBuffer, RingBuffer};

verus! {

/// The number of intervals that are kept.
pub const BUFF_SIZE: usize = 10;

/// An interval as long as this, or longer, means that the shaft stands still.
pub const MAX_DT: u64 = 5_000_000;

/// The averaging window, and the time after which the lack of a pulse is
/// taken note of.
pub const TARGET_DT: u64 = 1_000_000;

/// Microseconds in a minute.
pub const MINUTE: u64 = 60_000_000;

/// The ring buffer of the `ringbuffer` crate. Nothing inside it is visible
/// here: what it holds is spoken of through `ring_items`.
#[verifier::external_type_specification]
#[verifier::external_body]
#[verifier::reject_recursive_types(T)]
pub struct ExConstGenericRingBuffer<T, const CAP: usize>(ConstGenericRingBuffer<T, CAP>);

/// What a ring buffer holds, from the item written longest ago to the one
/// written last.
pub uninterp spec fn ring_items(ring: ConstGenericRingBuffer<u64, 10>) -> Seq<u64>;

/// The write counter of a ring buffer: the capacity when it was made from a
/// full array, and one more with every item written since.
pub uninterp spec fn ring_written(ring: ConstGenericRingBuffer<u64, 10>) -> nat;

/// `ConstGenericRingBuffer::from` an array of the buffer's capacity: the
/// buffer is full, holds the items of the array in their order, and its write
/// counter stands at the capacity.
#[verifier::external_body]
fn ring_from(items: [u64; 10]) -> (ring: ConstGenericRingBuffer<u64, 10>)
    ensures
        ring_items(ring) == items@,
        ring_written(ring) == 10,
{
    ConstGenericRingBuffer::from(items)
}

/// `RingBuffer::push`: the item is written behind the others; a full buffer
/// first lets go of the item written longest ago. The write counter goes up
/// by one, which it cannot do at the largest `usize`.
#[verifier::external_body]
fn ring_push(ring: &mut ConstGenericRingBuffer<u64, 10>, value: u64)
    requires
        ring_written(*old(ring)) < usize::MAX,
    ensures
        ring_items(*old(ring)).len() == 10 ==> ring_items(*final(ring)) == ring_items(
            *old(ring),
        ).subrange(1, 10).push(value),
        ring_items(*old(ring)).len() < 10 ==> ring_items(*final(ring)) == ring_items(
            *old(ring),
        ).push(value),
        ring_written(*final(ring)) == ring_written(*old(ring)) + 1,
    no_unwind
{
    ring.push(value)
}

/// `RingBuffer::get`: the item at `index`, counted from the item written
/// longest ago and taken modulo the number of items; nothing from an empty
/// buffer.
#[verifier::external_body]
fn ring_get(ring: &ConstGenericRingBuffer<u64, 10>, index: usize) -> (r: Option<u64>)
    ensures
        ring_items(*ring).len() == 0 ==> r.is_none(),
        ring_items(*ring).len() > 0 ==> r == Some(
            ring_items(*ring)[index as int % ring_items(*ring).len() as int],
        ),
{
    ring.get(index).copied()
}

/// `IndexMut::index_mut` of the ring buffer, assigned to: the item at `index`,
/// counted from the item written longest ago, is replaced. The buffer must
/// hold that many items.
#[verifier::external_body]
fn ring_set(ring: &mut ConstGenericRingBuffer<u64, 10>, index: usize, value: u64)
    requires
        index < ring_items(*old(ring)).len(),
    ensures
        ring_items(*final(ring)) == ring_items(*old(ring)).update(index as int, value),
        ring_written(*final(ring)) == ring_written(*old(ring)),
    no_unwind
{
    ring[index] = value;
}

/// `a + b`, or the largest number where that does not fit.
pub open spec fn saturating_sum(a: u64, b: u64) -> u64 {
    if a + b > u64::MAX {
        u64::MAX
    } else {
        (a + b) as u64
    }
}

/// What a meter reads: `pulses` revolutions took `micros` microseconds.
#[derive(Clone, Copy, Debug, PartialEq, Eq)]
pub struct Reading {
    pub pulses: u64,
    pub micros: u128,
}

impl Reading {
    /// The speed is no more than the least that counts as turning: one
    /// revolution per `MAX_DT`.
    pub open spec fn is_still(&self) -> bool {
        MAX_DT * self.pulses <= self.micros
    }
}

/// The reading of the averaging window over the intervals `dts` (oldest
/// first), when the `taken` most recent of them span `total` microseconds:
/// intervals are added, the most recent first, until their sum exceeds
/// `TARGET_DT` or none is left.
pub open spec fn window(dts: Seq<u64>, taken: int, total: int) -> (int, int)
    decreases dts.len() - taken,
{
    if 0 <= taken < dts.len() {
        let sum = total + dts[dts.len() - 1 - taken];
        if sum > TARGET_DT {
            (taken + 1, sum)
        } else {
            window(dts, taken + 1, sum)
        }
    } else {
        (taken, total)
    }
}

/// What a meter with the intervals `dts` reads; nothing when the shaft
/// counts as standing still.
pub open spec fn reading_of(dts: Seq<u64>) -> Option<Reading> {
    let w = window(dts, 0, 0);
    let r = Reading { pulses: w.0 as u64, micros: w.1 as u128 };
    if r.is_still() {
        None
    } else {
        Some(r)
    }
}

/// A speed meter.
pub struct RpmMeter {
    running_dt: ConstGenericRingBuffer<u64, 10>,
    /// No less than the write counter of the buffer.
    written: usize,
}

impl View for RpmMeter {
    type V = Seq<u64>;

    /// The intervals that the meter holds, oldest first.
    closed spec fn view(&self) -> Seq<u64> {
        ring_items(self.running_dt)
    }
}

impl RpmMeter {
    #[verifier::type_invariant]
    spec fn inv(self) -> bool {
        &&& ring_items(self.running_dt).len() == BUFF_SIZE
        &&& ring_written(self.running_dt) <= self.written
    }

    /// A meter that has seen no pulse: every interval is `MAX_DT`.
    pub fn new() -> (r: RpmMeter)
        ensures
            r@ == Seq::new(BUFF_SIZE as nat, |i: int| MAX_DT),
    {
        let items = [MAX_DT, MAX_DT, MAX_DT, MAX_DT, MAX_DT, MAX_DT, MAX_DT, MAX_DT, MAX_DT, MAX_DT];
        assert(items@ =~= Seq::new(BUFF_SIZE as nat, |i: int| MAX_DT));
        RpmMeter { running_dt: ring_from(items), written: BUFF_SIZE }
    }

    /// The interval at `index`, counted from the oldest.
    fn interval(&self, index: usize) -> (r: u64)
        requires
            index < BUFF_SIZE,
        ensures
            r == self@[index as int],
            self@.len() == BUFF_SIZE,
    {
        proof {
            use_type_invariant(self);
        }
        match ring_get(&self.running_dt, index) {
            Some(dt) => dt,
            None => 0,
        }
    }

    /// What the meter reads now; nothing when the shaft counts as standing
    /// still.
    pub fn reading(&self) -> (r: Option<Reading>)
        ensures
            r == reading_of(self@),
    {
        proof {
            use_type_invariant(self);
        }
        let mut taken: usize = 0;
        let mut total: u128 = 0;
        while taken < BUFF_SIZE
            invariant_except_break
                window(self@, 0, 0) == window(self@, taken as int, total as int),
            invariant
                taken <= BUFF_SIZE,
                self@.len() == BUFF_SIZE,
                total <= taken * u64::MAX,
            ensures
                taken <= BUFF_SIZE,
                window(self@, 0, 0) == (taken as int, total as int),
            decreases BUFF_SIZE - taken,
        {
            let dt = self.interval(BUFF_SIZE - 1 - taken);
            total = total + dt as u128;
            taken = taken + 1;
            if total > TARGET_DT as u128 {
                break ;
            }
        }
        let r = Reading { pulses: taken as u64, micros: total };
        if MAX_DT as u128 * (taken as u128) <= total {
            None
        } else {
            Some(r)
        }
    }

    /// A pulse came, `elapsed` microseconds after the one before: the
    /// interval is written behind the others, and the oldest is let go.
    pub fn pulse(&mut self, elapsed: u64) -> (r: Option<Reading>)
        ensures
            final(self)@ == old(self)@.subrange(1, BUFF_SIZE as int).push(elapsed),
            r == reading_of(final(self)@),
    {
        proof {
            use_type_invariant(&*self);
        }
        if self.written == usize::MAX {
            let mut items = [0u64; 10];
            let mut i: usize = 0;
            while i < BUFF_SIZE
                invariant
                    i <= BUFF_SIZE,
                    self@.len() == BUFF_SIZE,
                    self@ == old(self)@,
                    forall|j: int| 0 <= j < i ==> items@[j] == self@[j],
                decreases BUFF_SIZE - i,
            {
                let dt = self.interval(i);
                items[i] = dt;
                i = i + 1;
            }
            assert(items@ =~= self@);
            *self = RpmMeter { running_dt: ring_from(items), written: BUFF_SIZE };
        }
        self.written = self.written + 1;
        ring_push(&mut self.running_dt, elapsed);
        self.reading()
    }

    /// `TARGET_DT` went by without a pulse: the most recent interval grows by
    /// that much.
    pub fn timeout(&mut self) -> (r: Option<Reading>)
        ensures
            final(self)@ == old(self)@.update(
                BUFF_SIZE - 1,
                saturating_sum(old(self)@[BUFF_SIZE - 1], TARGET_DT),
            ),
            r == reading_of(final(self)@),
    {
        proof {
            use_type_invariant(&*self);
        }
        let last = self.interval(BUFF_SIZE - 1);
        let grown = if last > u64::MAX - TARGET_DT {
            u64::MAX
        } else {
            last + TARGET_DT
        };
        ring_set(&mut self.running_dt, BUFF_SIZE - 1, grown);
        self.reading()
    }
}

/// A most recent interval of `MAX_DT` or more reads as standstill, whatever
/// came before it.
pub proof fn lemma_long_interval_is_still(dts: Seq<u64>)
    requires
        dts.len() > 0,
        dts[dts.len() - 1] >= MAX_DT,
    ensures
        reading_of(dts).is_none(),
{
    assert(window(dts, 0, 0) == (1int, dts[dts.len() - 1] as int));
}

/// A meter that has seen no pulse reads standstill.
pub proof fn lemma_fresh_meter_is_still()
    ensures
        reading_of(Seq::new(BUFF_SIZE as nat, |i: int| MAX_DT)).is_none(),
{
    lemma_long_interval_is_still(Seq::new(BUFF_SIZE as nat, |i: int| MAX_DT));
}

/// Without pulses the reading falls to standstill: once the time since the
/// last pulse, as the most recent interval holds it, has grown to `MAX_DT`,
/// every further lapse of the window leaves it there.
pub proof fn lemma_timeouts_lead_to_standstill(dts: Seq<u64>)
    requires
        dts.len() > 0,
        dts[dts.len() - 1] + TARGET_DT >= MAX_DT,
    ensures
        reading_of(
            dts.update(dts.len() - 1, saturating_sum(dts[dts.len() - 1], TARGET_DT)),
        ).is_none(),
{
    lemma_long_interval_is_still(
        dts.update(dts.len() - 1, saturating_sum(dts[dts.len() - 1], TARGET_DT)),
    );
}

} // verus!
