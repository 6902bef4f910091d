use smithy::layout::calc_alt_grid;
use smithy::layout::calc_bolt_circle;
use smithy::layout::calc_grid;
use smithy::layout::calc_linear_spacing;
use smithy::util::truncate_float;

const SCALE_F: f64 = 1e12;

fn fp(v: f64) -> i64 {
    (v * SCALE_F).round() as i64
}

fn un_fp(v: i64) -> f64 {
    v as f64 / SCALE_F
}

#[test]
fn test_calc_bolt_circle() {
    let bc = calc_bolt_circle(fp(6.0), 5, Some(fp(20.0)), None, None);
    let actual: Vec<f64> = bc
        .angles
        .iter()
        .map(|&a| un_fp(truncate_float(a, 1)))
        .collect();
    let expected = vec![20.0, 92.0, 164.0, 236.0, 308.0];
    assert_eq!(actual, expected);
    assert_eq!(un_fp(bc.radius), 3.0);
    assert_eq!(bc.xc, 0);
    assert_eq!(bc.yc, 0);
}

#[test]
fn bolt_circle_single_point() {
    let bc = calc_bolt_circle(fp(2.0), 1, None, Some(fp(1.5)), Some(fp(-0.5)));
    assert_eq!(bc.angles, vec![0]);
    assert_eq!(un_fp(bc.radius), 1.0);
    assert_eq!(un_fp(bc.xc), 1.5);
    assert_eq!(un_fp(bc.yc), -0.5);
}

#[test]
fn bolt_circle_restartable() {
    let a = calc_bolt_circle(fp(6.0), 7, Some(fp(33.0)), None, None);
    let b = calc_bolt_circle(fp(6.0), 7, Some(fp(33.0)), None, None);
    assert_eq!(a, b);
}

#[test]
fn test_calc_linear_spacing() {
    let start = fp(0.5);
    let end = fp(11.5);
    let step = (end - start) / 4;
    let actual: Vec<f64> = calc_linear_spacing(start, end, step)
        .iter()
        .map(|&v| un_fp(truncate_float(v, 3)))
        .collect();
    let expected = vec![0.5, 3.25, 6.0, 8.75, 11.5];
    assert_eq!(actual, expected);
}

#[test]
fn linear_spacing_exact_divide() {
    let vals = calc_linear_spacing(fp(0.5), fp(11.5), fp(2.75));
    let actual: Vec<f64> = vals.iter().map(|&v| un_fp(v)).collect();
    assert_eq!(actual, vec![0.5, 3.25, 6.0, 8.75, 11.5]);
}

#[test]
fn linear_spacing_stops_before_end() {
    let vals = calc_linear_spacing(fp(0.0), fp(5.0), fp(2.0));
    let actual: Vec<f64> = vals.iter().map(|&v| un_fp(v)).collect();
    assert_eq!(actual, vec![0.0, 2.0, 4.0]);
}

#[test]
fn linear_spacing_empty_when_start_beyond_end() {
    let vals = calc_linear_spacing(fp(3.0), fp(2.0), fp(1.0));
    assert!(vals.is_empty());
}

#[test]
fn linear_spacing_restartable() {
    let a = calc_linear_spacing(fp(0.25), fp(9.75), fp(0.5));
    let b = calc_linear_spacing(fp(0.25), fp(9.75), fp(0.5));
    assert_eq!(a, b);
}

#[test]
fn test_calc_alt_grid() {
    let actual: Vec<(f64, f64)> = calc_alt_grid(0, 6, fp(1.0), 0, 4, fp(1.0))
        .iter()
        .map(|c| (un_fp(c.x), un_fp(c.y)))
        .collect();
    assert_eq!(actual.len(), 24);
    assert_eq!(actual[0], (0.0, 0.0));
    assert_eq!(actual[5], (5.0, 0.0));
    assert_eq!(actual[6], (5.0, 1.0));
    assert_eq!(actual[23], (0.0, 3.0));
}

#[test]
fn grid_raster_rows_all_forward() {
    let g = calc_grid(fp(1.0), 3, fp(1.0), 0, 2, fp(1.0), false);
    let actual: Vec<(f64, f64)> = g.iter().map(|c| (un_fp(c.x), un_fp(c.y))).collect();
    assert_eq!(
        actual,
        vec![
            (1.0, 0.0),
            (2.0, 0.0),
            (3.0, 0.0),
            (1.0, 1.0),
            (2.0, 1.0),
            (3.0, 1.0),
        ]
    );
}

#[test]
fn grid_serpentine_reversed_rows_ignore_x_start() {
    let g = calc_grid(fp(10.0), 3, fp(1.0), 0, 2, fp(1.0), true);
    let actual: Vec<(f64, f64)> = g.iter().map(|c| (un_fp(c.x), un_fp(c.y))).collect();
    assert_eq!(
        actual,
        vec![
            (10.0, 0.0),
            (11.0, 0.0),
            (12.0, 0.0),
            (2.0, 1.0),
            (1.0, 1.0),
            (0.0, 1.0),
        ]
    );
}

#[test]
fn grid_empty_axis_gives_empty_sequence() {
    assert!(calc_alt_grid(0, 0, fp(1.0), 0, 4, fp(1.0)).is_empty());
    assert!(calc_alt_grid(0, 4, fp(1.0), 0, 0, fp(1.0)).is_empty());
}

#[test]
fn grid_negative_steps_reverse_direction() {
    let g = calc_grid(0, 2, fp(-1.0), fp(1.0), 2, fp(-1.0), false);
    let actual: Vec<(f64, f64)> = g.iter().map(|c| (un_fp(c.x), un_fp(c.y))).collect();
    assert_eq!(
        actual,
        vec![(0.0, 1.0), (-1.0, 1.0), (0.0, 0.0), (-1.0, 0.0)]
    );
}

#[test]
fn grid_restartable() {
    let a = calc_alt_grid(fp(0.5), 5, fp(0.25), fp(-1.0), 3, fp(0.75));
    let b = calc_alt_grid(fp(0.5), 5, fp(0.25), fp(-1.0), 3, fp(0.75));
    assert_eq!(a, b);
}

#[test]
fn grid_coords_carry_no_z_or_angle() {
    let g = calc_alt_grid(0, 2, fp(1.0), 0, 2, fp(1.0));
    for c in &g {
        assert_eq!(c.z, None);
        assert_eq!(c.angle, None);
    }
}
