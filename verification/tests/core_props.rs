//! Numeric behavior of the fixed-point core: arithmetic, trigonometry,
//! poses and the smoother, checked against 64-bit float references.

use camera_rig::fixed::{clamp_fp, div_fp, mul_fp, sqrt_fp, FP_ONE};
use camera_rig::geometry::Vec3Fx;
use camera_rig::look::{LookAngles, LookTransform, PITCH_LIM_FP};
use camera_rig::smoother::Smoother;
use camera_rig::trig::{asin_fp, atan2_fp, cos_fp, sin_fp, wrap_angle, HALF_PI_FP, PI_FP};

fn fx(v: f64) -> i64 {
    (v * FP_ONE as f64).round() as i64
}

fn to_f(v: i64) -> f64 {
    v as f64 / FP_ONE as f64
}

#[test]
fn mul_fp_matches_reference() {
    assert_eq!(mul_fp(FP_ONE, FP_ONE), FP_ONE);
    assert_eq!(mul_fp(fx(2.0), fx(3.5)), fx(7.0));
    assert_eq!(mul_fp(fx(-2.0), fx(3.5)), fx(-7.0));
    assert_eq!(mul_fp(fx(-2.0), fx(-3.5)), fx(7.0));
    assert_eq!(mul_fp(0, fx(123.25)), 0);
    // truncation goes toward zero on both sides
    assert_eq!(mul_fp(1, 1), 0);
    assert_eq!(mul_fp(-1, 1), 0);
}

#[test]
fn div_fp_matches_reference() {
    assert_eq!(div_fp(fx(7.0), fx(2.0)), fx(3.5));
    assert_eq!(div_fp(fx(-7.0), fx(2.0)), fx(-3.5));
    assert_eq!(div_fp(fx(1.0), fx(3.0)), 5592405); // 1/3 rounded toward zero
    assert_eq!(div_fp(0, fx(5.0)), 0);
}

#[test]
fn sqrt_fp_matches_reference() {
    assert_eq!(sqrt_fp(0), 0);
    assert_eq!(sqrt_fp(fx(4.0)), fx(2.0));
    assert_eq!(sqrt_fp(fx(25.0)), fx(5.0));
    let r = sqrt_fp(fx(2.0));
    assert!((to_f(r) - 2.0f64.sqrt()).abs() < 1e-6);
}

#[test]
fn clamp_fp_matches_reference() {
    assert_eq!(clamp_fp(5, 0, 10), 5);
    assert_eq!(clamp_fp(-5, 0, 10), 0);
    assert_eq!(clamp_fp(15, 0, 10), 10);
}

#[test]
fn wrap_angle_is_canonical() {
    assert_eq!(wrap_angle(0), 0);
    assert_eq!(wrap_angle(PI_FP), -PI_FP);
    let two_pi = 2 * PI_FP;
    assert_eq!(wrap_angle(fx(0.5) + two_pi), fx(0.5));
    assert_eq!(wrap_angle(fx(0.5) - 3 * two_pi), fx(0.5));
    assert_eq!(wrap_angle(-PI_FP), -PI_FP);
}

#[test]
fn sine_and_cosine_track_the_reference() {
    let mut a = -6.0f64;
    while a < 6.0 {
        let s = sin_fp(fx(a));
        let c = cos_fp(fx(a));
        assert!(
            (to_f(s) - a.sin()).abs() < 1e-5,
            "sin({}) = {} vs {}",
            a,
            to_f(s),
            a.sin()
        );
        assert!(
            (to_f(c) - a.cos()).abs() < 1e-5,
            "cos({}) = {} vs {}",
            a,
            to_f(c),
            a.cos()
        );
        a += 0.0173;
    }
}

#[test]
fn sine_of_special_angles() {
    assert_eq!(sin_fp(0), 0);
    assert!((to_f(sin_fp(HALF_PI_FP)) - 1.0).abs() < 1e-5);
    assert!((to_f(sin_fp(-HALF_PI_FP)) + 1.0).abs() < 1e-5);
    assert!(to_f(sin_fp(PI_FP)).abs() < 1e-5);
    assert!((to_f(cos_fp(0)) - 1.0).abs() < 1e-5);
    assert!(to_f(cos_fp(HALF_PI_FP)).abs() < 1e-5);
}

#[test]
fn arcsine_inverts_sine() {
    let mut v = -0.999f64;
    while v < 1.0 {
        let a = asin_fp(fx(v));
        assert!(
            (to_f(a) - v.asin()).abs() < 1e-4,
            "asin({}) = {} vs {}",
            v,
            to_f(a),
            v.asin()
        );
        v += 0.037;
    }
}

#[test]
fn atan2_finds_the_planar_angle() {
    let samples = [
        (1.0, 1.0),
        (0.5, 2.0),
        (-0.5, 2.0),
        (1.5, -0.3),
        (-1.5, -0.3),
        (-1.0, 1.0),
        (0.0, 1.0),
        (1.0, 0.0),
    ];
    for (x, z) in samples {
        let a = atan2_fp(fx(x), fx(z));
        let expect = (x as f64).atan2(z as f64);
        assert!(
            (to_f(a) - expect).abs() < 1e-4,
            "atan2({}, {}) = {} vs {}",
            x,
            z,
            to_f(a),
            expect
        );
    }
}

#[test]
fn look_angles_round_trip_unit_vectors() {
    // vertical component strictly inside (-1, 1)
    let dirs = [
        (0.0, 0.0, 1.0),
        (1.0, 0.0, 0.0),
        (-1.0, 0.0, 0.0),
        (0.0, 0.9, 0.4358898943540674),
        (0.6, -0.64, 0.48),
        (-0.36, 0.48, 0.8),
        (0.707106, 0.0, -0.707106),
        (-0.267261, -0.534522, -0.801783),
    ];
    for (x, y, z) in dirs {
        let v = Vec3Fx { x: fx(x), y: fx(y), z: fx(z) };
        let angles = LookAngles::from_vector(v);
        let u = angles.unit_vector();
        assert!(
            (to_f(u.x) - x).abs() < 1e-5
                && (to_f(u.y) - y).abs() < 1e-5
                && (to_f(u.z) - z).abs() < 1e-5,
            "round trip of ({}, {}, {}) gave ({}, {}, {})",
            x,
            y,
            z,
            to_f(u.x),
            to_f(u.y),
            to_f(u.z)
        );
    }
}

#[test]
fn pitch_stays_inside_the_bound() {
    let mut angles = LookAngles::new();
    let deltas = [
        fx(0.5),
        fx(1.4),
        fx(2.0),
        fx(-0.1),
        fx(5.0),
        fx(-9.0),
        fx(-2.0),
        fx(3.14),
        fx(0.0001),
    ];
    for d in deltas {
        angles.add_pitch(d);
        assert!(-PITCH_LIM_FP <= angles.pitch && angles.pitch <= PITCH_LIM_FP);
        angles.assert_not_looking_up();
    }
    // pushing hard against a pole pins the pitch at the clamp, not at pi/2
    for _ in 0..100 {
        angles.add_pitch(fx(1.0));
    }
    assert_eq!(angles.pitch, PITCH_LIM_FP);
    assert!(angles.pitch < HALF_PI_FP);
}

#[test]
fn yaw_accumulates_and_wraps() {
    let mut angles = LookAngles::new();
    angles.add_yaw(fx(1.0));
    assert_eq!(angles.yaw, fx(1.0));
    angles.add_yaw(fx(1.0));
    assert_eq!(angles.yaw, fx(2.0));
    for _ in 0..7 {
        angles.add_yaw(fx(1.0));
    }
    // 9 radians wrapped by one turn
    let expect = 9.0 - 2.0 * std::f64::consts::PI;
    assert!((to_f(angles.yaw) - expect).abs() < 2e-6);
}

#[test]
fn transform_radius_and_direction() {
    let t = LookTransform::new(
        Vec3Fx { x: 0, y: 0, z: fx(5.0) },
        Vec3Fx { x: 0, y: 0, z: 0 },
    );
    assert_eq!(t.radius(), fx(5.0));
    let d = t.look_direction();
    assert_eq!(d.x, 0);
    assert_eq!(d.y, 0);
    assert_eq!(d.z, -FP_ONE);

    let t2 = LookTransform::new(
        Vec3Fx { x: fx(1.0), y: fx(2.0), z: fx(2.0) },
        Vec3Fx { x: 0, y: 0, z: 0 },
    );
    assert!((to_f(t2.radius()) - 3.0).abs() < 1e-6);
    let d2 = t2.look_direction();
    assert!((to_f(d2.x) + 1.0 / 3.0).abs() < 1e-6);
    assert!((to_f(d2.y) + 2.0 / 3.0).abs() < 1e-6);
    assert!((to_f(d2.z) + 2.0 / 3.0).abs() < 1e-6);
}

#[test]
fn smoother_first_sample_is_identity() {
    // regardless of the weight
    for w in [0, fx(0.3), fx(0.9), FP_ONE - 1] {
        let mut s = Smoother::new(w);
        let raw = LookTransform::new(
            Vec3Fx { x: fx(3.0), y: fx(-2.0), z: fx(7.5) },
            Vec3Fx { x: fx(1.0), y: 0, z: fx(-4.0) },
        );
        let out = s.smooth(&raw, fx(0.016));
        assert_eq!(out, raw);
    }
}

#[test]
fn smoother_converges_monotonically() {
    let mut s = Smoother::new(fx(0.9));
    let start = LookTransform::new(
        Vec3Fx { x: 0, y: 0, z: 0 },
        Vec3Fx { x: 0, y: 0, z: fx(-1.0) },
    );
    let raw = LookTransform::new(
        Vec3Fx { x: fx(10.0), y: fx(-6.0), z: fx(2.0) },
        Vec3Fx { x: fx(4.0), y: fx(4.0), z: fx(4.0) },
    );
    let _ = s.smooth(&start, fx(0.016));
    let mut dist = f64::MAX;
    let mut out = start;
    for _ in 0..400 {
        out = s.smooth(&raw, fx(0.016));
        let d = (to_f(out.eye.x) - 10.0).abs()
            + (to_f(out.eye.y) + 6.0).abs()
            + (to_f(out.eye.z) - 2.0).abs()
            + (to_f(out.target.x) - 4.0).abs()
            + (to_f(out.target.y) - 4.0).abs()
            + (to_f(out.target.z) - 4.0).abs();
        assert!(d <= dist + 1e-12, "distance to raw grew: {} > {}", d, dist);
        dist = d;
    }
    // after 400 frames at 60 Hz the lag has all but vanished
    assert!(dist < 1e-3, "did not converge: {}", dist);
    assert_eq!(s.lag, Some(out));
}

#[test]
fn smoother_zero_weight_passes_through() {
    let mut s = Smoother::new(0);
    let a = LookTransform::new(
        Vec3Fx { x: fx(1.0), y: 0, z: 0 },
        Vec3Fx { x: 0, y: 0, z: 0 },
    );
    let b = LookTransform::new(
        Vec3Fx { x: fx(9.0), y: fx(1.0), z: 0 },
        Vec3Fx { x: 0, y: fx(2.0), z: 0 },
    );
    let _ = s.smooth(&a, fx(0.016));
    let out = s.smooth(&b, fx(0.016));
    assert_eq!(out, b);
    // no smoothing at weight zero even for a microscopic elapsed time
    let out2 = s.smooth(&a, 1);
    assert_eq!(out2, a);
}

#[test]
fn smoother_is_deterministic() {
    let raw = LookTransform::new(
        Vec3Fx { x: fx(2.0), y: fx(3.0), z: fx(4.0) },
        Vec3Fx { x: 0, y: 0, z: 0 },
    );
    let run = || {
        let mut s = Smoother::new(fx(0.8));
        let mut last = raw;
        for i in 0..10 {
            let target = LookTransform::new(
                Vec3Fx { x: fx(i as f64), y: 0, z: 0 },
                Vec3Fx { x: 0, y: 0, z: 0 },
            );
            last = s.smooth(&target, fx(0.02));
        }
        last
    };
    assert_eq!(run(), run());
}
