use vstd::prelude::*;

use crate::grid::{adjacent, adjacent_or_equal, GridPos};

verus! {

/// A position on the drawing surface; carries nothing yet.
pub struct GamePos {}

/// The corners of one closed edge of the track, as two parallel lists.
pub struct TrackEdge {
    pub xs: Vec<i16>,
    pub ys: Vec<i16>,
}

/// The course: the outer edge and the edge of the infield. Only drawn,
/// never consulted by the move rules.
pub struct Track {
    pub in_edge: TrackEdge,
    pub out_edge: TrackEdge,
}

/// Where the car coasts to from `end` when it keeps the velocity that
/// took it from `start` to `end`.
pub open spec fn projection(start: GridPos, end: GridPos) -> (int, int) {
    (2 * end.x - start.x, 2 * end.y - start.y)
}

/// `c` lies in the 3x3 block centred on the lattice point `centre`.
pub open spec fn in_window(centre: (int, int), c: GridPos) -> bool {
    &&& -1 <= c.x - centre.0 <= 1
    &&& -1 <= c.y - centre.1 <= 1
}

/// Whether `c` may follow the accepted moves `path`: anywhere for the first
/// move, a king step for the second, and from then on within one step of
/// the point that the last move's velocity projects to.
pub open spec fn move_allowed(path: Seq<GridPos>, c: GridPos) -> bool {
    if path.len() == 0 {
        true
    } else if path.len() == 1 {
        adjacent(path[0], c)
    } else {
        in_window(projection(path[path.len() - 2], path[path.len() - 1]), c)
    }
}

/// Every move of `path` after the first was allowed by the moves before it.
pub open spec fn race_consistent(path: Seq<GridPos>) -> bool {
    forall|i: int| 0 < i < path.len() ==> #[trigger] move_allowed(path.take(i), path[i])
}

/// The race so far: the accepted positions, oldest first.
#[derive(Debug)]
pub struct GameState {
    pub path: Vec<GridPos>,
}

impl GameState {
    /// The state invariant: the path only ever grew by allowed moves.
    pub open spec fn wf(&self) -> bool {
        race_consistent(self.path@)
    }

    /// A race with no moves yet.
    pub fn new() -> (r: GameState)
        ensures
            r.path@ == Seq::<GridPos>::empty(),
            r.wf(),
    {
        GameState { path: Vec::new() }
    }

    /// Appends `new_pos` to the path when it is a valid move, and does
    /// nothing otherwise.
    pub fn update_state(&mut self, new_pos: GridPos)
        ensures
            move_allowed(old(self).path@, new_pos) ==> final(self).path@ == old(self).path@.push(
                new_pos,
            ),
            !move_allowed(old(self).path@, new_pos) ==> final(self).path@ == old(self).path@,
            old(self).wf() ==> final(self).wf(),
    {
        if self.valid_move(new_pos) {
            self.path.push(new_pos);
            proof {
                let p = final(self).path@;
                let q = old(self).path@;
                if race_consistent(q) {
                    assert forall|i: int| 0 < i < p.len() implies #[trigger] move_allowed(
                        p.take(i),
                        p[i],
                    ) by {
                        if i < q.len() {
                            assert(p.take(i) =~= q.take(i));
                            assert(move_allowed(q.take(i), q[i]));
                        } else {
                            assert(p.take(i) =~= q);
                        }
                    }
                }
            }
        }
    }

    /// Whether `new_pos` would be accepted as the next move. Reads the state
    /// only.
    pub fn valid_move(&self, new_pos: GridPos) -> (r: bool)
        ensures
            r == move_allowed(self.path@, new_pos),
    {
        let n = self.path.len();
        if n == 0 {
            GameState::is_on_starting_line(new_pos)
        } else if n == 1 {
            self.path[0].is_adjacent(new_pos)
        } else {
            let start = self.path[n - 2];
            let end = self.path[n - 1];
            let px: i64 = 2 * (end.x as i64) - start.x as i64;
            let py: i64 = 2 * (end.y as i64) - start.y as i64;
            if i32::MIN as i64 <= px && px <= i32::MAX as i64 && i32::MIN as i64 <= py
                && py <= i32::MAX as i64 {
                let projected = GameState::extrapolate_trajectory(start, end);
                proof {
                    lemma_window_is_adjacent_or_equal(projected, new_pos);
                }
                new_pos.is_adjacent_or_equal(projected)
            } else {
                let dx: i64 = new_pos.x as i64 - px;
                let dy: i64 = new_pos.y as i64 - py;
                -1 <= dx && dx <= 1 && -1 <= dy && dy <= 1
            }
        }
    }

    /// Whether a first move may start at `pos`: the starting line is not
    /// modelled, so every point qualifies.
    fn is_on_starting_line(_pos: GridPos) -> (r: bool)
        ensures
            r,
    {
        true
    }

    /// The point reached from `end_pos` by repeating the step from
    /// `start_pos` to `end_pos`.
    pub fn extrapolate_trajectory(start_pos: GridPos, end_pos: GridPos) -> (r: GridPos)
        requires
            i32::MIN <= projection(start_pos, end_pos).0 <= i32::MAX,
            i32::MIN <= projection(start_pos, end_pos).1 <= i32::MAX,
        ensures
            (r.x as int, r.y as int) == projection(start_pos, end_pos),
    {
        let dx: i64 = end_pos.x as i64 - start_pos.x as i64;
        let dy: i64 = end_pos.y as i64 - start_pos.y as i64;
        GridPos { x: (end_pos.x as i64 + dx) as i32, y: (end_pos.y as i64 + dy) as i32 }
    }
}

/// Lying in the 3x3 block centred on a grid point is being that point or
/// adjacent to it, in either order.
pub proof fn lemma_window_is_adjacent_or_equal(centre: GridPos, c: GridPos)
    ensures
        in_window((centre.x as int, centre.y as int), c) == adjacent_or_equal(centre, c),
        in_window((centre.x as int, centre.y as int), c) == adjacent_or_equal(c, centre),
{
}

/// Any point is a valid first move.
pub proof fn lemma_first_move_free(c: GridPos)
    ensures
        move_allowed(Seq::empty(), c),
{
}

} // verus!
