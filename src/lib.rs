//! Move validation for a vector race on a square grid.
pub mod game;
pub mod grid;
pub mod screen;

pub use game::{GamePos, GameState, Track, TrackEdge};
pub use grid::GridPos;
pub use screen::{nearest_game_pos, to_drawing_point, LINE_DIST};
