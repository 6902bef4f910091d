use smithy::threading::calc_uts_allowance;
use smithy::threading::calc_uts_extern_thread;
use smithy::threading::ThreadClass;
use smithy::util::truncate_float;

const SCALE_F: f64 = 1e12;

fn fp(v: f64) -> i64 {
    (v * SCALE_F).round() as i64
}

fn un_fp(v: i64) -> f64 {
    v as f64 / SCALE_F
}

#[test]
fn test_calc_uts_thread_allowance() {
    let pitch = fp(1.0 / 28.0);
    let es = un_fp(truncate_float(
        calc_uts_allowance(fp(0.5), pitch, &ThreadClass::A2, Some(fp(0.4))),
        6,
    ));
    assert_eq!(es, 0.00113);

    let pitch = fp(1.0 / 20.0);
    let es = un_fp(truncate_float(
        calc_uts_allowance(fp(0.25), pitch, &ThreadClass::A1, Some(fp(0.0125))),
        6,
    ));
    assert_eq!(es, 0.000945);

    let es = calc_uts_allowance(fp(0.25), pitch, &ThreadClass::A3, Some(fp(0.0125)));
    assert_eq!(es, 0);
}

#[test]
fn test_calc_uts_extern_thread() {
    let n = calc_uts_extern_thread(fp(0.5), 28, &ThreadClass::A2, Some(9));
    println!("{:?}", n);

    let n = calc_uts_extern_thread(fp(0.25), 20, &ThreadClass::A2, Some(9));
    println!("{:?}", n);
}

#[test]
fn extern_thread_half_inch_28_tpi_2a_exact() {
    let n = calc_uts_extern_thread(fp(0.5), 28, &ThreadClass::A2, Some(9));
    assert_eq!(n.p, 35714285714);
    assert_eq!(n.le, 321428571426);
    assert_eq!(n.es, 1100314484);
    assert_eq!(n.t, 3667714945);
    assert_eq!(n.td, 6506976368);
    assert_eq!(n.td2, 3667714945);
    assert_eq!(n.h, 30929478714);
    assert_eq!(n.d_max, 498899685516);
    assert_eq!(n.d_min, 492392709148);
    assert_eq!(n.d2, 476802890964);
    assert_eq!(n.d2_max, 475702576480);
    assert_eq!(n.d2_min, 472034861535);
    assert_eq!(n.d1, 460237837124);
    assert_eq!(n.d_unr_max, 42528033214);
    assert_eq!(n.d_un_max, 38661848214);
    assert_eq!(n.h_as, 23197108928);
}

#[test]
fn allowance_zero_for_class_3a_whatever_the_inputs() {
    for &(d, tpi, le) in &[(0.25, 20.0, 0.0125), (0.5, 28.0, 0.4), (1.0, 8.0, 2.0)] {
        let es = calc_uts_allowance(fp(d), fp(1.0 / tpi), &ThreadClass::A3, Some(fp(le)));
        assert_eq!(es, 0);
    }
}

#[test]
fn allowance_defaults_to_five_pitches() {
    let p = fp(1.0 / 20.0);
    let with_default = calc_uts_allowance(fp(0.25), p, &ThreadClass::A2, None);
    let explicit = calc_uts_allowance(fp(0.25), p, &ThreadClass::A2, Some(5 * p));
    assert_eq!(with_default, explicit);
}

#[test]
fn extern_thread_min_at_most_max_for_every_class() {
    for class in [ThreadClass::A1, ThreadClass::A2, ThreadClass::A3] {
        for &(d, tpi) in &[(0.25, 20), (0.5, 28), (0.75, 10), (1.5, 6)] {
            let n = calc_uts_extern_thread(fp(d), tpi, &class, None);
            assert!(n.d_min <= n.d_max);
            assert!(n.d2_min <= n.d2_max);
        }
    }
}

#[test]
fn extern_thread_class_3a_has_no_allowance() {
    let n = calc_uts_extern_thread(fp(0.5), 28, &ThreadClass::A3, Some(9));
    assert_eq!(n.es, 0);
    assert_eq!(n.d_max, fp(0.5));
    assert_eq!(n.d1, 461338151608);
}

#[test]
fn extern_thread_engagement_defaults_to_nine_pitches() {
    let with_default = calc_uts_extern_thread(fp(0.5), 28, &ThreadClass::A2, None);
    let explicit = calc_uts_extern_thread(fp(0.5), 28, &ThreadClass::A2, Some(9));
    assert_eq!(with_default, explicit);
}

#[test]
fn extern_thread_restartable() {
    let a = calc_uts_extern_thread(fp(0.375), 16, &ThreadClass::A1, Some(9));
    let b = calc_uts_extern_thread(fp(0.375), 16, &ThreadClass::A1, Some(9));
    assert_eq!(a, b);
}

#[test]
fn allowance_restartable() {
    let p = fp(1.0 / 28.0);
    let a = calc_uts_allowance(fp(0.5), p, &ThreadClass::A2, Some(fp(0.4)));
    let b = calc_uts_allowance(fp(0.5), p, &ThreadClass::A2, Some(fp(0.4)));
    assert_eq!(a, b);
}
