use smithy::math::round;
use smithy::util::truncate_float;

const SCALE_F: f64 = 1e12;

fn fp(v: f64) -> i64 {
    (v * SCALE_F).round() as i64
}

fn un_fp(v: i64) -> f64 {
    v as f64 / SCALE_F
}

#[test]
fn test_truncate_float() {
    assert_eq!(un_fp(truncate_float(fp(0.0011297934537308734), 4)), 0.0011);
    assert_eq!(un_fp(truncate_float(fp(0.001196095376922672), 5)), 0.00120);
}

#[test]
fn round_matches_truncate_float() {
    for &(v, n) in &[(0.0011297934537308734, 4), (12.3456789, 2), (-7.5, 0)] {
        assert_eq!(round(fp(v), n), truncate_float(fp(v), n));
    }
}

#[test]
fn round_half_away_from_zero() {
    assert_eq!(un_fp(round(fp(2.5), 0)), 3.0);
    assert_eq!(un_fp(round(fp(-2.5), 0)), -3.0);
    assert_eq!(un_fp(round(fp(0.0015), 3)), 0.002);
    assert_eq!(un_fp(round(fp(-0.0015), 3)), -0.002);
}

#[test]
fn round_beyond_carried_digits_is_identity() {
    let v = fp(0.123456789012);
    assert_eq!(round(v, 12), v);
    assert_eq!(round(v, 30), v);
}

#[test]
fn round_twice_equals_round_once() {
    for &v in &[
        0.0011297934537308734,
        -0.0011297934537308734,
        12.3456789,
        -7.5,
        0.0,
    ] {
        for n in 0..13 {
            let once = round(fp(v), n);
            assert_eq!(round(once, n), once);
        }
    }
}

#[test]
fn round_restartable() {
    let v = fp(3.14159265358979);
    assert_eq!(round(v, 5), round(v, 5));
}
