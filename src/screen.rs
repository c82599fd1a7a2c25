use vstd::prelude::*;

use crate::grid::GridPos;

verus! {

/// Distance between two neighbouring grid lines, in drawing units.
pub const LINE_DIST: u32 = 25;

/// `r` is the grid line nearest to the drawing coordinate `v`. The spacing is
/// odd, so no coordinate lies halfway between two lines.
pub open spec fn nearest_line(v: int, r: int) -> bool {
    let d = 2 * (v - LINE_DIST * r);
    -(LINE_DIST as int) < d < LINE_DIST as int
}

/// The index of the grid line nearest to `v`.
fn round_to_line(v: i32) -> (r: i32)
    ensures
        nearest_line(v as int, r as int),
{
    let m: u64 = if v >= 0 {
        v as u64
    } else {
        (-(v as i64)) as u64
    };
    let q: u64 = (m + (LINE_DIST / 2) as u64) / (LINE_DIST as u64);
    proof {
        let k = m + 12;
        assert(q * 25 <= k < q * 25 + 25) by (nonlinear_arith)
            requires
                q == k / 25,
                k >= 0,
        ;
    }
    if v >= 0 {
        q as i32
    } else {
        (-(q as i64)) as i32
    }
}

/// The grid point nearest to the drawing point `(draw_x, draw_y)`.
pub fn nearest_game_pos(draw_x: i32, draw_y: i32) -> (r: GridPos)
    ensures
        nearest_line(draw_x as int, r.x as int),
        nearest_line(draw_y as int, r.y as int),
{
    GridPos { x: round_to_line(draw_x), y: round_to_line(draw_y) }
}

/// The drawing coordinates of the grid point `game_point`.
pub fn to_drawing_point(game_point: &GridPos) -> (r: (i32, i32))
    requires
        i32::MIN <= LINE_DIST * game_point.x <= i32::MAX,
        i32::MIN <= LINE_DIST * game_point.y <= i32::MAX,
    ensures
        r.0 == LINE_DIST * game_point.x,
        r.1 == LINE_DIST * game_point.y,
{
    let d: i32 = LINE_DIST as i32;
    (game_point.x * d, game_point.y * d)
}

/// Different grid lines are never both nearest to one coordinate.
pub proof fn lemma_nearest_line_unique(v: int, r: int, s: int)
    requires
        nearest_line(v, r),
        nearest_line(v, s),
    ensures
        r == s,
{
}

} // verus!
