//! The core decision logic: a safety filter over the four directions and a
//! selector that reduces the filter's output to a single move.
//!
//! Each turn is a single-shot, stateless decision. The safety filter marks a
//! direction unsafe when moving the head that way would leave the board or
//! land on a cell occupied by the agent's own body; the selector picks one
//! of the surviving directions at random, or falls back to a fixed move with
//! a forfeit message when none survive.

use vstd::prelude::*;
use vstd::string::StringExecFns;

use crate::{Battlesnake, Board, Coord};

pub mod moves;

use moves::Direction;

verus! {

/// The safety verdict for all four directions: `true` means moving the head
/// one step that way does not cause immediate death.
#[derive(Debug, Clone, Copy, PartialEq, Eq, Structural)]
pub struct SafetyMap {
    pub up: bool,
    pub down: bool,
    pub left: bool,
    pub right: bool,
}

impl SafetyMap {
    /// The verdict this map gives for one direction.
    pub open spec fn spec_get(self, d: Direction) -> bool {
        match d {
            Direction::Up => self.up,
            Direction::Down => self.down,
            Direction::Left => self.left,
            Direction::Right => self.right,
        }
    }

    /// Whether at least one direction is marked safe.
    pub open spec fn any_safe(self) -> bool {
        self.up || self.down || self.left || self.right
    }

    /// The map read as a finite mapping from directions to verdicts; its
    /// domain is always exactly the four directions.
    pub open spec fn view(self) -> Map<Direction, bool> {
        map![
            Direction::Up => self.up,
            Direction::Down => self.down,
            Direction::Left => self.left,
            Direction::Right => self.right,
        ]
    }

    /// The verdict for one direction, as executable code.
    pub fn get(&self, d: Direction) -> (r: bool)
        ensures
            r == self.spec_get(d),
    {
        match d {
            Direction::Up => self.up,
            Direction::Down => self.down,
            Direction::Left => self.left,
            Direction::Right => self.right,
        }
    }
}

/// One turn's decision: the move to answer with, and a forfeit message when
/// no safe move existed.
#[derive(Debug, Clone)]
pub struct MoveDecision {
    pub direction: Direction,
    pub shout: Option<String>,
}

/// Whether the body segment `part` sits directly beside `head` on the side
/// that moving in direction `d` would step onto, so that the move collides
/// with it.
pub open spec fn blocks(part: Coord, head: Coord, d: Direction) -> bool {
    match d {
        Direction::Left => head.x == part.x + 1 && head.y == part.y,
        Direction::Right => part.x == head.x + 1 && part.y == head.y,
        Direction::Down => head.y == part.y + 1 && head.x == part.x,
        Direction::Up => part.y == head.y + 1 && part.x == head.x,
    }
}

/// The boundary rule: moving toward the increasing edge is already refused
/// from the second-to-last cell on (`head.x >= width - 1` forbids `Right`),
/// and moving toward the decreasing edge is refused at coordinate zero.
pub open spec fn boundary_allows(width: u32, height: u32, head: Coord, d: Direction) -> bool {
    match d {
        Direction::Right => head.x < width - 1,
        Direction::Up => head.y < height - 1,
        Direction::Left => head.x > 0,
        Direction::Down => head.y > 0,
    }
}

/// Whether no segment of `body` sits in the cell that moving the head (the
/// first segment) in direction `d` would step onto.
pub open spec fn body_allows(body: Seq<Coord>, d: Direction) -> bool {
    forall|i: int| 0 <= i < body.len() ==> !blocks(body[i], body[0], d)
}

/// A direction is safe when it passes both the boundary rule and the
/// self-collision rule.
pub open spec fn dir_safe(width: u32, height: u32, body: Seq<Coord>, d: Direction) -> bool {
    &&& boundary_allows(width, height, body[0], d)
    &&& body_allows(body, d)
}

/// The safety filter as a mathematical function of the board dimensions and
/// the agent's body.
pub open spec fn spec_evaluate(width: u32, height: u32, body: Seq<Coord>) -> SafetyMap {
    SafetyMap {
        up: dir_safe(width, height, body, Direction::Up),
        down: dir_safe(width, height, body, Direction::Down),
        left: dir_safe(width, height, body, Direction::Left),
        right: dir_safe(width, height, body, Direction::Right),
    }
}

/// The safety filter: marks each of the four directions safe or unsafe for
/// the agent whose body is `you.body`, on the board `board`.
///
/// Only the board dimensions and the agent's own body are consulted;
/// opponents and hazards are deliberately ignored.
#[verifier::loop_isolation(false)]
pub fn evaluate(board: &Board, you: &Battlesnake) -> (r: SafetyMap)
    requires
        board.width >= 1,
        board.height >= 1,
        you.body.len() >= 1,
    ensures
        r == spec_evaluate(board.width, board.height, you.body@),
{
    let head = you.body[0];
    let mut up = head.y < board.height - 1;
    let mut down = head.y > 0;
    let mut left = head.x > 0;
    let mut right = head.x < board.width - 1;
    let mut i: usize = 0;
    while i < you.body.len()
        invariant
            i <= you.body.len(),
            up == (boundary_allows(board.width, board.height, head, Direction::Up)
                && forall|j: int| 0 <= j < i ==> !blocks(you.body@[j], head, Direction::Up)),
            down == (boundary_allows(board.width, board.height, head, Direction::Down)
                && forall|j: int| 0 <= j < i ==> !blocks(you.body@[j], head, Direction::Down)),
            left == (boundary_allows(board.width, board.height, head, Direction::Left)
                && forall|j: int| 0 <= j < i ==> !blocks(you.body@[j], head, Direction::Left)),
            right == (boundary_allows(board.width, board.height, head, Direction::Right)
                && forall|j: int| 0 <= j < i ==> !blocks(you.body@[j], head, Direction::Right)),
        decreases you.body.len() - i,
    {
        let part = you.body[i];
        if part.y == head.y && head.x > 0 && part.x == head.x - 1 {
            left = false;
        }
        if part.y == head.y && part.x > 0 && head.x == part.x - 1 {
            right = false;
        }
        if part.x == head.x && head.y > 0 && part.y == head.y - 1 {
            down = false;
        }
        if part.x == head.x && part.y > 0 && head.y == part.y - 1 {
            up = false;
        }
        i = i + 1;
    }
    SafetyMap { up, down, left, right }
}

/// Relies on rand::Rng::gen_range on rand::thread_rng: returns a value
/// uniformly sampled from the half-open range, so strictly below `n`.
#[verifier::external_body]
fn random_below(n: usize) -> (r: usize)
    requires
        0 < n,
    ensures
        r < n,
{
    rand::Rng::gen_range(&mut rand::thread_rng(), 0..n)
}

/// The move selector: picks one direction marked safe in `safety`, at random
/// among them; when none is safe, answers the fixed fallback `Down` together
/// with a forfeit message.
pub fn select(safety: &SafetyMap) -> (r: MoveDecision)
    ensures
        safety.any_safe() ==> r.shout is None && safety.spec_get(r.direction),
        !safety.any_safe() ==> r.direction == Direction::Down && r.shout is Some
            && r.shout->0@ == "Oops, congratz! Z u laterz aligatorz!!"@,
{
    let mut safe_moves: Vec<Direction> = Vec::new();
    if safety.up {
        safe_moves.push(Direction::Up);
    }
    if safety.down {
        safe_moves.push(Direction::Down);
    }
    if safety.left {
        safe_moves.push(Direction::Left);
    }
    if safety.right {
        safe_moves.push(Direction::Right);
    }
    if safe_moves.len() == 0 {
        MoveDecision {
            direction: Direction::Down,
            shout: Some(String::from_str("Oops, congratz! Z u laterz aligatorz!!")),
        }
    } else {
        let idx = random_below(safe_moves.len());
        let direction = safe_moves[idx];
        MoveDecision { direction, shout: None }
    }
}

/// The safety filter's output always maps exactly the four directions: read
/// as a finite mapping, any `SafetyMap`'s domain is precisely
/// `{Up, Down, Left, Right}`, with no direction missing or duplicated.
pub proof fn lemma_safety_map_has_exactly_four_directions(m: SafetyMap)
    ensures
        m@.dom() =~= set![Direction::Up, Direction::Down, Direction::Left, Direction::Right],
{
}

/// Reading the map view of a `SafetyMap` at a direction gives that
/// direction's verdict.
pub proof fn lemma_view_agrees_with_get(m: SafetyMap, d: Direction)
    ensures
        m@[d] == m.spec_get(d),
{
}

/// When the head's x-coordinate is at least `width - 1`, the filter marks
/// `Right` unsafe, regardless of the rest of the state.
pub proof fn lemma_right_blocked_at_edge(width: u32, height: u32, body: Seq<Coord>)
    requires
        body.len() >= 1,
        body[0].x >= width - 1,
    ensures
        !spec_evaluate(width, height, body).right,
{
}

/// When the head's y-coordinate is at least `height - 1`, the filter marks
/// `Up` unsafe, regardless of the rest of the state.
pub proof fn lemma_up_blocked_at_edge(width: u32, height: u32, body: Seq<Coord>)
    requires
        body.len() >= 1,
        body[0].y >= height - 1,
    ensures
        !spec_evaluate(width, height, body).up,
{
}

/// When the head's x-coordinate is zero, the filter marks `Left` unsafe,
/// regardless of the rest of the state.
pub proof fn lemma_left_blocked_at_edge(width: u32, height: u32, body: Seq<Coord>)
    requires
        body.len() >= 1,
        body[0].x == 0,
    ensures
        !spec_evaluate(width, height, body).left,
{
}

/// When the head's y-coordinate is zero, the filter marks `Down` unsafe,
/// regardless of the rest of the state.
pub proof fn lemma_down_blocked_at_edge(width: u32, height: u32, body: Seq<Coord>)
    requires
        body.len() >= 1,
        body[0].y == 0,
    ensures
        !spec_evaluate(width, height, body).down,
{
}

/// When some body segment sits directly beside the head on the side that
/// direction `d` steps onto, the filter marks `d` unsafe.
pub proof fn lemma_adjacent_segment_blocks(
    width: u32,
    height: u32,
    body: Seq<Coord>,
    i: int,
    d: Direction,
)
    requires
        0 <= i < body.len(),
        blocks(body[i], body[0], d),
    ensures
        !spec_evaluate(width, height, body).spec_get(d),
{
    if spec_evaluate(width, height, body).spec_get(d) {
        assert(body_allows(body, d));
        assert(!blocks(body[i], body[0], d));
    }
}

/// When exactly one direction is marked safe, any choice the selector's
/// guarantee admits is that direction: selection is deterministic on a
/// singleton choice set.
pub proof fn lemma_single_safe_move_forced(m: SafetyMap, d: Direction, r: Direction)
    requires
        m.spec_get(d),
        forall|d2: Direction| d2 != d ==> !m.spec_get(d2),
        m.spec_get(r),
    ensures
        r == d,
{
}

/// The safety filter is a function of its inputs alone: two runs on
/// identical board dimensions and body give identical verdicts, with no
/// hidden state in between.
pub proof fn lemma_evaluate_deterministic(
    width: u32,
    height: u32,
    body: Seq<Coord>,
    m1: SafetyMap,
    m2: SafetyMap,
)
    requires
        m1 == spec_evaluate(width, height, body),
        m2 == spec_evaluate(width, height, body),
    ensures
        m1 == m2,
{
}

/// One whole turn: run the safety filter on the board and the agent's body,
/// then reduce its verdicts to a single move.
pub fn get_move(board: &Board, you: &Battlesnake) -> (r: MoveDecision)
    requires
        board.width >= 1,
        board.height >= 1,
        you.body.len() >= 1,
    ensures
        spec_evaluate(board.width, board.height, you.body@).any_safe() ==> r.shout is None
            && spec_evaluate(board.width, board.height, you.body@).spec_get(r.direction),
        !spec_evaluate(board.width, board.height, you.body@).any_safe() ==> r.direction
            == Direction::Down && r.shout is Some
            && r.shout->0@ == "Oops, congratz! Z u laterz aligatorz!!"@,
{
    let safety = evaluate(board, you);
    select(&safety)
}

/// Static agent metadata: protocol version, author, and the agent's
/// appearance (color, head and tail identifiers).
#[derive(Debug, Clone)]
pub struct AgentInfo {
    pub apiversion: String,
    pub author: String,
    pub color: String,
    pub head: String,
    pub tail: String,
}

/// The agent's static metadata, the same on every call.
pub fn info() -> (r: AgentInfo)
    ensures
        r.apiversion@ == "1"@,
        r.author@ == "DrumSn8ke"@,
        r.color@ == "#508c50"@,
        r.head@ == "earmuffs"@,
        r.tail@ == "nr-booster"@,
{
    AgentInfo {
        apiversion: String::from_str("1"),
        author: String::from_str("DrumSn8ke"),
        color: String::from_str("#508c50"),
        head: String::from_str("earmuffs"),
        tail: String::from_str("nr-booster"),
    }
}

} // verus!
