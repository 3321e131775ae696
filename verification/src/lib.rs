//! Move-decision logic for a snake game agent.
//!
//! The library models the per-turn board state handed to the agent and
//! computes, for each of the four cardinal directions, whether moving the
//! head that way causes immediate death (leaving the board or landing on
//! the agent's own body), then selects one surviving move.

use vstd::prelude::*;

pub mod logic;

verus! {

/// A grid cell, board-relative. Valid positions lie in
/// `[0, width-1] x [0, height-1]`.
#[derive(Debug, Clone, Copy, PartialEq, Eq, Structural)]
pub struct Coord {
    pub x: u32,
    pub y: u32,
}

/// The per-turn board state: its dimensions and everything that stands on
/// it. The decision logic reads only `width` and `height`; food, hazards and
/// the other snakes are carried for the callers' sake.
#[derive(Debug, Clone)]
pub struct Board {
    pub height: u32,
    pub width: u32,
    pub food: Vec<Coord>,
    pub snakes: Vec<Battlesnake>,
    pub hazards: Vec<Coord>,
}

/// One snake on the board. `body` is head-first: index 0 is the head,
/// index 1 the neck, the last segment the tail.
#[derive(Debug, Clone)]
pub struct Battlesnake {
    pub id: String,
    pub name: String,
    pub health: u32,
    pub body: Vec<Coord>,
    pub head: Coord,
    pub length: u32,
    pub latency: String,
    pub shout: Option<String>,
}

} // verus!
