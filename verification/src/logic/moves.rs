//! The four cardinal directions an agent can move in.

use vstd::prelude::*;

verus! {

/// One of the four cardinal moves. `Up` is `(0, +1)`, `Down` is `(0, -1)`,
/// `Left` is `(-1, 0)`, `Right` is `(+1, 0)`.
#[derive(Debug, Clone, Copy, PartialEq, Eq, Hash, Structural)]
pub enum Direction {
    Up,
    Down,
    Left,
    Right,
}

impl Direction {
    /// The wire name of the direction: exactly one of the lowercase strings
    /// `"up"`, `"down"`, `"left"` or `"right"`.
    pub fn lowercase_name(&self) -> (r: String)
        ensures
            *self == Direction::Up ==> r@ == "up"@,
            *self == Direction::Down ==> r@ == "down"@,
            *self == Direction::Left ==> r@ == "left"@,
            *self == Direction::Right ==> r@ == "right"@,
    {
        match self {
            Direction::Up => "up".to_string(),
            Direction::Down => "down".to_string(),
            Direction::Left => "left".to_string(),
            Direction::Right => "right".to_string(),
        }
    }
}

} // verus!
