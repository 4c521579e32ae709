use rcar::rpm::{Reading, RpmMeter, BUFF_SIZE, MAX_DT, MINUTE, TARGET_DT};
use rcar::segments::{digits, frames, segs, DIGITS};

fn rpm(r: Option<Reading>) -> f64 {
    match r {
        None => 0.0,
        Some(r) => r.pulses as f64 * MINUTE as f64 / r.micros as f64,
    }
}

#[test]
fn meter_constants() {
    assert_eq!(BUFF_SIZE, 10);
    assert_eq!(MAX_DT, 5_000_000);
    assert_eq!(TARGET_DT, 1_000_000);
    assert_eq!(MINUTE, 60_000_000);
}

#[test]
fn fresh_meter_reads_standstill() {
    let m = RpmMeter::new();
    assert_eq!(m.reading(), None);
}

#[test]
fn first_pulse_after_a_short_interval() {
    let mut m = RpmMeter::new();
    // 0.5 s, then the 5 s that the meter starts with: 2 pulses in 5.5 s
    let r = m.pulse(500_000);
    assert_eq!(r, Some(Reading { pulses: 2, micros: 5_500_000 }));
    assert!((rpm(r) - 120.0 / 5.5).abs() < 1e-9);
    assert_eq!(m.reading(), r);
}

#[test]
fn steady_rotation_reads_its_speed() {
    let mut m = RpmMeter::new();
    let mut r = None;
    for _ in 0..10 {
        r = m.pulse(300_000);
    }
    // 0.3 s per revolution: four intervals fill the window
    assert_eq!(r, Some(Reading { pulses: 4, micros: 1_200_000 }));
    assert_eq!(rpm(r), 200.0);
    for _ in 0..25 {
        r = m.pulse(50_000);
    }
    // all ten intervals do not fill the window
    assert_eq!(r, Some(Reading { pulses: 10, micros: 500_000 }));
    assert_eq!(rpm(r), 1200.0);
}

#[test]
fn window_is_exceeded_not_met() {
    let mut m = RpmMeter::new();
    let mut r = None;
    for _ in 0..10 {
        r = m.pulse(250_000);
    }
    // four intervals make 1 s exactly, which does not end the window
    assert_eq!(r, Some(Reading { pulses: 5, micros: 1_250_000 }));
    for _ in 0..10 {
        r = m.pulse(100_000);
    }
    assert_eq!(r, Some(Reading { pulses: 10, micros: 1_000_000 }));
    assert_eq!(rpm(r), 600.0);
}

#[test]
fn oldest_interval_is_let_go() {
    let mut m = RpmMeter::new();
    for _ in 0..9 {
        m.pulse(10_000);
    }
    // nine short intervals and one of the 5 s from the start
    assert_eq!(m.reading(), Some(Reading { pulses: 10, micros: 5_090_000 }));
    assert_eq!(m.pulse(10_000), Some(Reading { pulses: 10, micros: 100_000 }));
    assert_eq!(m.pulse(20_000), Some(Reading { pulses: 10, micros: 110_000 }));
}

#[test]
fn slow_rotation_counts_as_standstill() {
    let mut m = RpmMeter::new();
    // exactly 12 revolutions per minute is the limit
    assert_eq!(m.pulse(5_000_000), None);
    assert_eq!(m.pulse(6_000_000), None);
    assert_eq!(m.pulse(4_999_999), Some(Reading { pulses: 1, micros: 4_999_999 }));
    assert_eq!(m.pulse(u64::MAX), None);
}

#[test]
fn timeouts_stretch_the_last_interval() {
    let mut m = RpmMeter::new();
    for _ in 0..10 {
        m.pulse(200_000);
    }
    assert_eq!(rpm(m.reading()), 300.0);
    assert_eq!(m.timeout(), Some(Reading { pulses: 1, micros: 1_200_000 }));
    assert_eq!(m.timeout(), Some(Reading { pulses: 1, micros: 2_200_000 }));
    assert_eq!(m.timeout(), Some(Reading { pulses: 1, micros: 3_200_000 }));
    assert_eq!(m.timeout(), Some(Reading { pulses: 1, micros: 4_200_000 }));
    assert_eq!(m.timeout(), None);
    assert_eq!(m.timeout(), None);
    // the next pulse starts a new interval
    assert_eq!(m.pulse(200_000), Some(Reading { pulses: 2, micros: 6_400_000 }));
}

#[test]
fn timeout_saturates() {
    let mut m = RpmMeter::new();
    m.pulse(u64::MAX - 5);
    assert_eq!(m.timeout(), None);
    assert_eq!(m.pulse(0), None);
    // 1 pulse in 0 s, then the longest interval there is
    assert_eq!(m.reading(), None);
}

#[test]
fn pulses_without_time_between_them() {
    let mut m = RpmMeter::new();
    let mut r = None;
    for _ in 0..10 {
        r = m.pulse(0);
    }
    assert_eq!(r, Some(Reading { pulses: 10, micros: 0 }));
    assert_eq!(rpm(r), f64::INFINITY);
}

#[test]
fn segment_patterns() {
    let lit: [u8; 10] = [
        0b0011_1111,
        0b0000_0110,
        0b0101_1011,
        0b0100_1111,
        0b0110_0110,
        0b0110_1101,
        0b0111_1101,
        0b0000_0111,
        0b0111_1111,
        0b0110_1111,
    ];
    for d in 0..10u16 {
        assert_eq!(segs(d), Some(u8::MAX - lit[d as usize]));
    }
    assert_eq!(segs(10), None);
    assert_eq!(segs(65), None);
    assert_eq!(DIGITS, 4);
}

#[test]
fn decimal_digits() {
    assert_eq!(digits(1337), [1, 3, 3, 7]);
    assert_eq!(digits(0), [0, 0, 0, 0]);
    assert_eq!(digits(9999), [9, 9, 9, 9]);
    assert_eq!(digits(42), [0, 0, 4, 2]);
    assert_eq!(digits(65535), [65, 5, 3, 5]);
}

#[test]
fn display_frames() {
    assert_eq!(
        frames(1337),
        Some([[0xf8, 1], [0xb0, 2], [0xb0, 4], [0xf9, 8]])
    );
    assert_eq!(frames(0), Some([[0xc0, 1], [0xc0, 2], [0xc0, 4], [0xc0, 8]]));
    assert_eq!(frames(9999), Some([[0x90, 1], [0x90, 2], [0x90, 4], [0x90, 8]]));
    assert_eq!(frames(10000), None);
    assert_eq!(frames(u16::MAX), None);
}
