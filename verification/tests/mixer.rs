use rcar::bus::WheelMan;
use rcar::encoder::encode;
use rcar::fraction::Fraction;
use rcar::mixer::WheelSpeed;
use rcar::velocity::VelocityVector;

fn value(f: Fraction) -> f64 {
    f.num as f64 / f.den as f64
}

fn values(s: &WheelSpeed) -> [f64; 4] {
    let a = s.to_array();
    [value(a[0]), value(a[1]), value(a[2]), value(a[3])]
}

fn absmax_of(s: &WheelSpeed) -> f64 {
    values(s).iter().fold(0.0, |acc: f64, v| acc.max(v.abs()))
}

#[test]
fn zero_vector_gives_zero_speeds() {
    let v = VelocityVector::new(0, 0, Some(0), 1000).unwrap();
    let s = WheelSpeed::mix(&v);
    assert_eq!(values(&s), [0.0, 0.0, 0.0, 0.0]);
    assert_eq!(s.front_left, 0);
    assert_eq!(s.front_right, 0);
    assert_eq!(s.back_left, 0);
    assert_eq!(s.back_right, 0);
    let t = WheelSpeed::mix(&VelocityVector::new(0, 0, None, 7).unwrap());
    assert_eq!(values(&t), [0.0, 0.0, 0.0, 0.0]);
    assert_eq!(values(&WheelSpeed::mix(&VelocityVector::zero())), [0.0, 0.0, 0.0, 0.0]);
}

#[test]
fn full_forward_alternates_and_is_not_rescaled() {
    let v = VelocityVector::new(1000, 0, Some(0), 1000).unwrap();
    let s = WheelSpeed::mix(&v);
    // front left, back left, front right, back right
    assert_eq!(values(&s), [1.0, -1.0, 1.0, -1.0]);
    assert_eq!(absmax_of(&s), 1.0);
    let t = WheelSpeed::translate(1, 0, 1);
    assert_eq!(t, WheelSpeed { front_left: 1, back_left: -1, front_right: 1, back_right: -1, scale: 1 });
}

#[test]
fn half_forward_without_yaw() {
    let v = VelocityVector::new(5000, 0, None, 10000).unwrap();
    let s = WheelSpeed::mix(&v);
    assert_eq!(values(&s), [0.5, -0.5, 0.5, -0.5]);
    assert_eq!(absmax_of(&s), 0.5);
    let a = s.to_array();
    let words = [encode(a[0]), encode(a[1]), encode(a[2]), encode(a[3])];
    assert_eq!(words, [135, 45, 135, 45]);
}

#[test]
fn half_forward_with_zero_yaw_is_the_same() {
    let v = VelocityVector::new(5000, 0, Some(0), 10000).unwrap();
    let s = WheelSpeed::mix(&v);
    assert_eq!(values(&s), [0.5, -0.5, 0.5, -0.5]);
}

#[test]
fn strafe_drives_left_against_right() {
    let s = WheelSpeed::translate(0, 3, 4);
    assert_eq!(values(&s), [0.75, 0.75, -0.75, -0.75]);
    assert_eq!(
        s,
        WheelSpeed { front_left: 3, back_left: 3, front_right: -3, back_right: -3, scale: 4 }
    );
}

#[test]
fn yaw_alone_turns_all_wheels_alike_at_half_rate() {
    // z / (2 - 0) = 1 / 2, and every wheel gets its negative
    let s = WheelSpeed::trans_rotate(0, 0, 100, 100);
    assert_eq!(values(&s), [-0.5, -0.5, -0.5, -0.5]);
    let t = WheelSpeed::trans_rotate(0, 0, -100, 100);
    assert_eq!(values(&t), [0.5, 0.5, 0.5, 0.5]);
}

#[test]
fn saturation_rescales_uniformly() {
    // sums 2, 0, 0, -2: largest magnitude 2, so all are halved
    let s = WheelSpeed::translate(10, 10, 10);
    assert_eq!(
        s,
        WheelSpeed { front_left: 20, back_left: 0, front_right: 0, back_right: -20, scale: 20 }
    );
    assert_eq!(values(&s), [1.0, 0.0, 0.0, -1.0]);
    // sums 1.25, -0.25, 0.25, -1.25
    let t = WheelSpeed::translate(3, 2, 4);
    assert_eq!(values(&t), [1.0, -0.2, 0.2, -1.0]);
}

#[test]
fn yaw_is_attenuated_by_translation() {
    // |(0.6, 0.8)| = 1, so the yaw rate 0.5 is divided by 2 - 1 = 1
    let s = WheelSpeed::trans_rotate(6, 8, 5, 10);
    // the divisor is 2560 in units of 1 / 2560
    assert_eq!(
        s,
        WheelSpeed {
            front_left: 23040,
            back_left: -7680,
            front_right: -17920,
            back_right: -48640,
            scale: 48640
        }
    );
    // before saturation: 0.9, -0.3, -0.7, -1.9
    let a = s.to_array();
    assert!(a[0].equals(&Fraction { num: 9, den: 19 }));
    assert!(a[1].equals(&Fraction { num: -3, den: 19 }));
    assert!(a[2].equals(&Fraction { num: -7, den: 19 }));
    assert!(a[3].equals(&Fraction { num: -1, den: 1 }));
    // below saturation: yaw 0.1 gives 0.9 - 0.1, -0.3 - 0.1, ..
    let t = WheelSpeed::trans_rotate(3, 4, 1, 10);
    // |(0.3, 0.4)| = 0.5: the yaw rate 0.1 is divided by 1.5
    let b = t.to_array();
    assert!(b[0].equals(&Fraction { num: 19, den: 30 }));
    assert!(b[1].equals(&Fraction { num: 1, den: 30 }));
    assert!(b[2].equals(&Fraction { num: -5, den: 30 }));
    assert!(b[3].equals(&Fraction { num: -23, den: 30 }));
}

#[test]
fn magnitude_is_rounded_down_to_a_256th_of_a_unit() {
    // |(1, 1)| = 1.41421.., which is 362 / 256 rounded down: the yaw rate is
    // divided by (512 - 362) / 256
    let s = WheelSpeed::trans_rotate(1, 1, 1, 1);
    // sums 2 - 256 / 150, 0 - 256 / 150, 0 - 256 / 150, -2 - 256 / 150
    assert_eq!(
        s,
        WheelSpeed {
            front_left: 44,
            back_left: -256,
            front_right: -256,
            back_right: -556,
            scale: 556
        }
    );
    let exact = 2.0 - 1.0 / (2.0 - 2.0f64.sqrt());
    assert!((44.0 / 150.0 - exact).abs() < 0.001);
    // the finer the units of the vector, the less is lost
    let t = WheelSpeed::trans_rotate(1000, 1000, 1000, 1000);
    let v = values(&t);
    let top = 2.0 + 1.0 / (2.0 - 2.0f64.sqrt());
    assert_eq!(v[3], -1.0);
    assert!((v[0] - exact / top).abs() < 1e-5);
}

#[test]
fn no_wheel_exceeds_full_speed() {
    let steps: [i16; 7] = [-100, -71, -30, 0, 45, 99, 100];
    for &x in steps.iter() {
        for &y in steps.iter() {
            for &z in [-32768i16, -100, -1, 0, 50, 100, 32767].iter() {
                let v = VelocityVector::new(x, y, Some(z), 100).unwrap();
                let s = WheelSpeed::mix(&v);
                assert!(s.scale > 0);
                assert!(absmax_of(&s) <= 1.0);
                for f in s.to_array().iter() {
                    assert!(f.is_within_unit());
                }
            }
            let v = VelocityVector::new(x, y, None, 100).unwrap();
            assert!(absmax_of(&WheelSpeed::mix(&v)) <= 1.0);
        }
    }
}

#[test]
fn basis_contributions() {
    let x = WheelSpeed::drive_x(Fraction { num: 3, den: 5 });
    assert_eq!(
        x,
        WheelSpeed { front_left: 3, back_left: -3, front_right: 3, back_right: -3, scale: 5 }
    );
    let y = WheelSpeed::drive_y(Fraction { num: 1, den: 5 });
    assert_eq!(
        y,
        WheelSpeed { front_left: 1, back_left: 1, front_right: -1, back_right: -1, scale: 5 }
    );
    let z = WheelSpeed::drive_z(Fraction { num: 2, den: 5 });
    assert_eq!(
        z,
        WheelSpeed { front_left: -2, back_left: -2, front_right: -2, back_right: -2, scale: 5 }
    );
    let sum = x.add(y).add(z);
    assert_eq!(
        sum,
        WheelSpeed { front_left: 2, back_left: -4, front_right: 0, back_right: -6, scale: 5 }
    );
    assert_eq!(sum.absmax(), Fraction { num: 6, den: 5 });
    assert_eq!(
        sum.clamp1(),
        WheelSpeed { front_left: 2, back_left: -4, front_right: 0, back_right: -6, scale: 6 }
    );
    assert_eq!(x.clamp1(), x);
}

#[test]
fn scaling_by_a_fraction() {
    let s = WheelSpeed { front_left: 2, back_left: -4, front_right: 0, back_right: -6, scale: 5 };
    let t = s.mul(Fraction { num: 5, den: 6 });
    assert_eq!(
        t,
        WheelSpeed { front_left: 10, back_left: -20, front_right: 0, back_right: -30, scale: 30 }
    );
    // scaling by one over the largest magnitude is what saturation does
    let c = s.clamp1().to_array();
    let m = t.to_array();
    for i in 0..4 {
        assert!(c[i].equals(&m[i]));
    }
}

#[test]
fn to_array_order() {
    let s = WheelSpeed { front_left: 1, front_right: 2, back_left: 3, back_right: 4, scale: 9 };
    let a = s.to_array();
    assert_eq!(a[0], Fraction { num: 1, den: 9 });
    assert_eq!(a[1], Fraction { num: 3, den: 9 });
    assert_eq!(a[2], Fraction { num: 2, den: 9 });
    assert_eq!(a[3], Fraction { num: 4, den: 9 });
}

#[test]
fn commands_follow_the_wiring() {
    let wheels = WheelMan { front_left: 4, back_left: 5, front_right: 6, back_right: 7 };
    let bufs = wheels.transform_bufs(5000, 0, 10000);
    // written in the order front left, front right, back left, back right
    assert_eq!(
        [bufs[0].select, bufs[1].select, bufs[2].select, bufs[3].select],
        [4, 6, 5, 7]
    );
    assert_eq!([bufs[0].word, bufs[1].word, bufs[2].word, bufs[3].word], [135, 135, 45, 45]);
    assert_eq!(bufs[0].frame(), [4, 135, 0, 0]);
    assert_eq!(bufs[2].frame(), [5, 45, 0, 0]);

    let turn = wheels.trans_rotate_bufs(0, 0, 100, 100);
    assert_eq!([turn[0].word, turn[1].word, turn[2].word, turn[3].word], [45, 45, 45, 45]);

    let v = VelocityVector::new(0, 3, None, 4).unwrap();
    let strafe = wheels.setpoint_bufs(&v);
    // 0.75 * 90 + 90 = 157.5, rounded up; -0.75 * 90 + 90 = 22.5, rounded up
    assert_eq!(
        [strafe[0].word, strafe[1].word, strafe[2].word, strafe[3].word],
        [158, 23, 158, 23]
    );
    let speeds = WheelSpeed::mix(&v);
    assert_eq!(wheels.encode_all(&speeds), strafe);
}
