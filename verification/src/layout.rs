//! Layout generators: bolt circles, linear spacing, and grid traversals.
//!
//! Angles and coordinates are fixed-point values in units of `fixed::SCALE`
//! (degrees for angles, inches for distances). Every generator materializes
//! its points eagerly; calling one twice with the same inputs returns the
//! same sequence, which the lemmas at the end of this module state exactly.

use vstd::prelude::*;
use vstd::arithmetic::div_mod::lemma_fundamental_div_mod_converse;
use crate::fixed::SCALE;
use crate::fixed::MAX_COORD;
use crate::fixed::MAX_STEP;
use crate::fixed::MAX_COUNT;
use crate::fixed::div_round;
use crate::fixed::div_round_spec;
use crate::types::Coord;

verus! {

/// A bolt-circle pattern: `count` evenly spaced positions on a circle.
///
/// The trigonometric projection of an angle onto x/y is left to the caller;
/// the pattern itself — radius, center, and the exact angle of every
/// position — is what this type carries.
#[derive(Clone, Debug, PartialEq, Eq)]
pub struct BoltCircle {
    pub radius: i64,
    pub xc: i64,
    pub yc: i64,
    pub angles: Vec<i64>,
}

/// The value of an optional argument that defaults to zero.
pub open spec fn or_zero(v: Option<i64>) -> int {
    match v {
        Some(a) => a as int,
        None => 0,
    }
}

/// The angular increment between bolt-circle positions: a full turn divided
/// by the count, rounded to the fixed-point grid.
pub open spec fn bolt_step_spec(num: int) -> int {
    div_round_spec(360 * SCALE, num)
}

/// The angle list of a bolt circle: `count` angles from the starting angle in
/// steps of `bolt_step_spec`.
pub open spec fn bolt_angles_match(angles: Seq<i64>, st: int, num: int) -> bool {
    &&& angles.len() == num
    &&& forall|i: int|
        0 <= i < num ==> #[trigger] angles[i] == st + i * bolt_step_spec(num)
}

/// Compute a bolt-circle pattern: `num` positions at radius `dia / 2` around
/// the optional center, starting at the optional starting angle (degrees) and
/// advancing by a full turn divided by `num`.
pub fn calc_bolt_circle(dia: i64, num: u32, st_angle: Option<i64>, xc: Option<i64>, yc: Option<i64>) -> (bc: BoltCircle)
    requires
        0 < dia,
        1 <= num <= MAX_COUNT,
        -MAX_COORD <= or_zero(st_angle) <= MAX_COORD,
    ensures
        bc.radius == dia / 2,
        bc.xc as int == or_zero(xc),
        bc.yc as int == or_zero(yc),
        bolt_angles_match(bc.angles@, or_zero(st_angle), num as int),
{
    let st = match st_angle {
        Some(a) => a,
        None => 0,
    };
    let xcv = match xc {
        Some(a) => a,
        None => 0,
    };
    let ycv = match yc {
        Some(a) => a,
        None => 0,
    };
    let full_turn: i64 = 360 * SCALE;
    let step = div_round(full_turn, num as i64);
    let radius = ((dia as u64) / 2) as i64;
    let mut angles: Vec<i64> = Vec::new();
    let mut i: u32 = 0;
    while i < num
        invariant
            i <= num,
            num <= MAX_COUNT,
            step as int == bolt_step_spec(num as int),
            0 <= step <= 360 * SCALE,
            -MAX_COORD <= st <= MAX_COORD,
            angles.len() == i,
            forall|k: int|
                0 <= k < i ==> #[trigger] angles@[k] == st + k * bolt_step_spec(num as int),
        decreases num - i,
    {
        proof {
            assert(0 <= (i as int) * (step as int) <= 3_600_000_000_000_000_000int) by (nonlinear_arith)
                requires
                    0 <= i < 10_000u32,
                    0 <= step <= 360_000_000_000_000i64,
            ;
        }
        let a = st + (i as i64) * step;
        angles.push(a);
        i = i + 1;
    }
    BoltCircle { radius, xc: xcv, yc: ycv, angles }
}

/// The spacing sequence: values from `start` in increments of `step`, each at
/// most `end`, continued until the next value would pass `end`.
pub open spec fn linear_spacing_match(vals: Seq<i64>, start: int, end: int, step: int) -> bool {
    &&& forall|i: int|
        0 <= i < vals.len() ==> (#[trigger] vals[i] == start + i * step && vals[i] <= end)
    &&& start + vals.len() * step > end
}

/// Compute evenly spaced values from `start` to at most `end` in increments
/// of `step`. A value landing exactly on `end` is included; `start` beyond
/// `end` gives an empty sequence.
pub fn calc_linear_spacing(start: i64, end: i64, step: i64) -> (vals: Vec<i64>)
    requires
        1 <= step <= MAX_STEP,
        -MAX_COORD <= start <= MAX_COORD,
        -MAX_COORD <= end <= MAX_COORD,
    ensures
        linear_spacing_match(vals@, start as int, end as int, step as int),
{
    let mut vals: Vec<i64> = Vec::new();
    let mut v = start;
    proof {
        assert(vals@.len() * (step as int) == 0) by (nonlinear_arith)
            requires
                vals@.len() == 0,
        ;
    }
    while v <= end
        invariant
            1 <= step <= MAX_STEP,
            -MAX_COORD <= start <= MAX_COORD,
            -MAX_COORD <= end <= MAX_COORD,
            v as int == start + vals.len() * step,
            forall|i: int|
                0 <= i < vals.len() ==> (#[trigger] vals@[i] == start + i * step && vals@[i]
                    <= end),
        decreases end + step - v,
    {
        vals.push(v);
        proof {
            assert(vals@.len() * (step as int) == (vals@.len() - 1) * (step as int) + step)
                by (nonlinear_arith);
        }
        v = v + step;
    }
    vals
}

/// The x coordinate of a grid cell. Even rows (and every row of a plain
/// raster) advance from `x_start`; odd rows of a serpentine grid run
/// backwards, measured from the axis origin.
pub open spec fn grid_x_spec(x_start: int, x_cnt: int, x_step: int, serpentine: bool, row: int, col: int) -> int {
    if serpentine && row % 2 == 1 {
        (x_cnt - 1 - col) * x_step
    } else {
        x_start + col * x_step
    }
}

/// The grid sequence: `x_cnt * y_cnt` points, row by row, each row's cells in
/// traversal order.
pub open spec fn grid_match(s: Seq<Coord>, x_start: int, x_cnt: int, x_step: int, y_start: int, y_cnt: int, y_step: int, serpentine: bool) -> bool {
    &&& s.len() == x_cnt * y_cnt
    &&& forall|k: int|
        0 <= k < s.len() ==> {
            let row = k / x_cnt;
            let col = k % x_cnt;
            &&& (#[trigger] s[k]).x == grid_x_spec(x_start, x_cnt, x_step, serpentine, row, col)
            &&& s[k].y == y_start + row * y_step
            &&& s[k].z is None
            &&& s[k].angle is None
        }
}

/// Compute a grid traversal: rows from `y_start` in steps of `y_step`, each
/// row's cells from `x_start` in steps of `x_step`; with `serpentine`, odd
/// rows run backwards.
pub fn calc_grid(x_start: i64, x_cnt: u32, x_step: i64, y_start: i64, y_cnt: u32, y_step: i64, serpentine: bool) -> (grid: Vec<Coord>)
    requires
        x_cnt <= MAX_COUNT,
        y_cnt <= MAX_COUNT,
        -MAX_STEP <= x_step <= MAX_STEP,
        -MAX_STEP <= y_step <= MAX_STEP,
        -MAX_COORD <= x_start <= MAX_COORD,
        -MAX_COORD <= y_start <= MAX_COORD,
    ensures
        grid_match(
            grid@,
            x_start as int,
            x_cnt as int,
            x_step as int,
            y_start as int,
            y_cnt as int,
            y_step as int,
            serpentine,
        ),
{
    let mut grid: Vec<Coord> = Vec::new();
    let mut row: u32 = 0;
    while row < y_cnt
        invariant
            row <= y_cnt,
            x_cnt <= MAX_COUNT,
            y_cnt <= MAX_COUNT,
            -MAX_STEP <= x_step <= MAX_STEP,
            -MAX_STEP <= y_step <= MAX_STEP,
            -MAX_COORD <= x_start <= MAX_COORD,
            -MAX_COORD <= y_start <= MAX_COORD,
            grid.len() == row * x_cnt,
            forall|k: int|
                0 <= k < grid.len() ==> {
                    let r = k / (x_cnt as int);
                    let c = k % (x_cnt as int);
                    &&& (#[trigger] grid@[k]).x == grid_x_spec(
                        x_start as int,
                        x_cnt as int,
                        x_step as int,
                        serpentine,
                        r,
                        c,
                    )
                    &&& grid@[k].y == y_start + r * y_step
                    &&& grid@[k].z is None
                    &&& grid@[k].angle is None
                },
        decreases y_cnt - row,
    {
        let mut col: u32 = 0;
        while col < x_cnt
            invariant
                col <= x_cnt,
                row < y_cnt,
                x_cnt <= MAX_COUNT,
                y_cnt <= MAX_COUNT,
                -MAX_STEP <= x_step <= MAX_STEP,
                -MAX_STEP <= y_step <= MAX_STEP,
                -MAX_COORD <= x_start <= MAX_COORD,
                -MAX_COORD <= y_start <= MAX_COORD,
                grid.len() == row * x_cnt + col,
                forall|k: int|
                    0 <= k < grid.len() ==> {
                        let r = k / (x_cnt as int);
                        let c = k % (x_cnt as int);
                        &&& (#[trigger] grid@[k]).x == grid_x_spec(
                            x_start as int,
                            x_cnt as int,
                            x_step as int,
                            serpentine,
                            r,
                            c,
                        )
                        &&& grid@[k].y == y_start + r * y_step
                        &&& grid@[k].z is None
                        &&& grid@[k].angle is None
                    },
            decreases x_cnt - col,
        {
            proof {
                assert(0 <= (row as int) * (x_cnt as int) + col < 100_000_000int) by (nonlinear_arith)
                    requires
                        0 <= row < 10_000u32,
                        0 <= col < x_cnt <= 10_000u32,
                ;
                assert(-100_000_000_000_000_000int <= (col as int) * (x_step as int)
                    <= 100_000_000_000_000_000int) by (nonlinear_arith)
                    requires
                        0 <= col < 10_000u32,
                        -MAX_STEP <= x_step <= MAX_STEP,
                        MAX_STEP == 10_000_000_000_000i64,
                ;
                assert(-100_000_000_000_000_000int <= ((x_cnt - 1 - col) as int) * (x_step as int)
                    <= 100_000_000_000_000_000int) by (nonlinear_arith)
                    requires
                        0 <= col < x_cnt <= 10_000u32,
                        -MAX_STEP <= x_step <= MAX_STEP,
                        MAX_STEP == 10_000_000_000_000i64,
                ;
                assert(-100_000_000_000_000_000int <= (row as int) * (y_step as int)
                    <= 100_000_000_000_000_000int) by (nonlinear_arith)
                    requires
                        0 <= row < 10_000u32,
                        -MAX_STEP <= y_step <= MAX_STEP,
                        MAX_STEP == 10_000_000_000_000i64,
                ;
            }
            let x = if serpentine && row % 2 == 1 {
                ((x_cnt - 1 - col) as i64) * x_step
            } else {
                x_start + (col as i64) * x_step
            };
            let y = y_start + (row as i64) * y_step;
            grid.push(Coord { x, y, z: None, angle: None });
            proof {
                lemma_fundamental_div_mod_converse(
                    (row as int) * (x_cnt as int) + (col as int),
                    x_cnt as int,
                    row as int,
                    col as int,
                );
            }
            col = col + 1;
        }
        proof {
            assert(((row + 1) as int) * (x_cnt as int) == (row as int) * (x_cnt as int) + (
            x_cnt as int)) by (nonlinear_arith);
        }
        row = row + 1;
    }
    proof {
        assert(grid.len() == (x_cnt as int) * (y_cnt as int)) by (nonlinear_arith)
            requires
                grid.len() == (y_cnt as int) * (x_cnt as int),
        ;
    }
    grid
}

/// Compute the alternating (serpentine) grid traversal: row by row, odd rows
/// running backwards, reproducing a back-and-forth head path.
pub fn calc_alt_grid(x_start: i64, x_cnt: u32, x_step: i64, y_start: i64, y_cnt: u32, y_step: i64) -> (grid: Vec<Coord>)
    requires
        x_cnt <= MAX_COUNT,
        y_cnt <= MAX_COUNT,
        -MAX_STEP <= x_step <= MAX_STEP,
        -MAX_STEP <= y_step <= MAX_STEP,
        -MAX_COORD <= x_start <= MAX_COORD,
        -MAX_COORD <= y_start <= MAX_COORD,
    ensures
        grid_match(
            grid@,
            x_start as int,
            x_cnt as int,
            x_step as int,
            y_start as int,
            y_cnt as int,
            y_step as int,
            true,
        ),
{
    calc_grid(x_start, x_cnt, x_step, y_start, y_cnt, y_step, true)
}

/// A bolt circle is a function of its inputs: two angle lists that both match
/// the same starting angle and count are equal.
pub proof fn lemma_bolt_circle_deterministic(a1: Seq<i64>, a2: Seq<i64>, st: int, num: int)
    requires
        bolt_angles_match(a1, st, num),
        bolt_angles_match(a2, st, num),
    ensures
        a1 == a2,
{
    assert(a1 =~= a2);
}

/// Linear spacing is a function of its inputs: two sequences that both match
/// the same start, end and step are equal.
pub proof fn lemma_linear_spacing_deterministic(s1: Seq<i64>, s2: Seq<i64>, start: int, end: int, step: int)
    requires
        step >= 1,
        linear_spacing_match(s1, start, end, step),
        linear_spacing_match(s2, start, end, step),
    ensures
        s1 == s2,
{
    if s1.len() < s2.len() {
        assert(s2[s1.len() as int] == start + s1.len() * step);
        assert(false);
    }
    if s2.len() < s1.len() {
        assert(s1[s2.len() as int] == start + s2.len() * step);
        assert(false);
    }
    assert(s1 =~= s2);
}

/// A grid traversal is a function of its inputs: two sequences that both
/// match the same arguments are equal.
pub proof fn lemma_grid_deterministic(s1: Seq<Coord>, s2: Seq<Coord>, x_start: int, x_cnt: int, x_step: int, y_start: int, y_cnt: int, y_step: int, serpentine: bool)
    requires
        grid_match(s1, x_start, x_cnt, x_step, y_start, y_cnt, y_step, serpentine),
        grid_match(s2, x_start, x_cnt, x_step, y_start, y_cnt, y_step, serpentine),
    ensures
        s1 == s2,
{
    assert forall|k: int| 0 <= k < s1.len() implies s1[k] == s2[k] by {
        assert(s1[k].x == s2[k].x);
        assert(s1[k].y == s2[k].y);
        assert(s1[k].z == s2[k].z);
        assert(s1[k].angle == s2[k].angle);
    }
    assert(s1 =~= s2);
}

} // verus!
