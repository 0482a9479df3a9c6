//! Grid positions, the level's win condition, movement keys and the
//! conversion from grid cells to world pixels.

use vstd::prelude::*;

verus! {

/// Edge length, in pixels, of one cell of the level grid.
pub const OBJECT_SIZE: isize = 32;

/// A cell of the level grid (or, after scaling, a point in world pixels).
#[derive(Clone, Copy, Debug, PartialEq, Eq, Structural)]
pub struct Position {
    pub x: isize,
    pub y: isize,
}

/// Extent of an object on the grid.
#[derive(Clone, Copy, Debug, PartialEq, Eq, Structural)]
pub struct Size {
    pub x: usize,
    pub y: usize,
}

/// A crate; `goal_crate` marks the crates that have to be pushed onto goals.
#[derive(Clone, Copy, Debug, PartialEq, Eq, Structural)]
pub struct Crate {
    pub goal_crate: bool,
}

/// Marker for an immovable wall cell.
#[derive(Clone, Copy, Debug, PartialEq, Eq, Structural)]
pub struct Wall;

/// The direction the player moves in.
#[derive(Clone, Copy, Debug, PartialEq, Eq, Structural)]
pub enum Direction {
    Up,
    Down,
    Right,
    Left,
}

/// Squared euclidean distance between two positions.
pub open spec fn distance_sq(a: Position, b: Position) -> int {
    (a.x - b.x) * (a.x - b.x) + (a.y - b.y) * (a.y - b.y)
}

/// `a` lies strictly closer than `threshold` to `b`.
pub open spec fn within(a: Position, b: Position, threshold: int) -> bool {
    distance_sq(a, b) < threshold * threshold
}

/// Distance under which a goal crate counts as standing on a goal.
pub open spec fn goal_reach() -> int {
    OBJECT_SIZE as int
}

/// `c` is a goal crate standing on `goal`.
pub open spec fn covers(c: (Crate, Position), goal: Position) -> bool {
    c.0.goal_crate && within(c.1, goal, goal_reach())
}

/// Some goal crate of `crates` stands on `goal`.
pub open spec fn goal_covered(goal: Position, crates: Seq<(Crate, Position)>) -> bool {
    exists|c: int| 0 <= c < crates.len() && #[trigger] covers(crates[c], goal)
}

/// Every goal has a goal crate on it: the level is won.
pub open spec fn is_won(goals: Seq<Position>, crates: Seq<(Crate, Position)>) -> bool {
    forall|g: int| 0 <= g < goals.len() ==> #[trigger] goal_covered(goals[g], crates)
}

/// The world position (in pixels) of a grid cell.
pub open spec fn world_of(p: Position) -> Position {
    Position { x: (p.x * OBJECT_SIZE) as isize, y: (p.y * OBJECT_SIZE) as isize }
}

/// The grid cell scaled by `OBJECT_SIZE` fits in `isize`.
pub open spec fn scalable(p: Position) -> bool {
    isize::MIN <= p.x * OBJECT_SIZE <= isize::MAX && isize::MIN <= p.y * OBJECT_SIZE <= isize::MAX
}

/// The direction chosen by the movement keys W, S, D, A, checked in that order.
pub open spec fn key_direction(w: bool, s: bool, d: bool, a: bool) -> Option<Direction> {
    if w {
        Some(Direction::Up)
    } else if s {
        Some(Direction::Down)
    } else if d {
        Some(Direction::Right)
    } else if a {
        Some(Direction::Left)
    } else {
        None
    }
}

impl Position {
    /// Whether `other` lies strictly closer than `threshold` to `self`.
    pub fn within_distance(&self, other: Position, threshold: u32) -> (res: bool)
        ensures
            res == within(*self, other, threshold as int),
    {
        let dx: i128 = self.x as i128 - other.x as i128;
        let dy: i128 = self.y as i128 - other.y as i128;
        let t: i128 = threshold as i128;
        if dx <= -t || dx >= t || dy <= -t || dy >= t {
            proof {
                let (dxi, dyi, ti) = (dx as int, dy as int, t as int);
                assert(dxi * dxi >= ti * ti || dyi * dyi >= ti * ti) by (nonlinear_arith)
                    requires
                        ti >= 0,
                        dxi <= -ti || dxi >= ti || dyi <= -ti || dyi >= ti,
                ;
                assert(dxi * dxi >= 0 && dyi * dyi >= 0) by (nonlinear_arith);
            }
            false
        } else {
            proof {
                let (dxi, dyi, ti) = (dx as int, dy as int, t as int);
                assert(0 <= dxi * dxi <= ti * ti && 0 <= dyi * dyi <= ti * ti) by (nonlinear_arith)
                    requires
                        -ti < dxi < ti,
                        -ti < dyi < ti,
                ;
                assert(ti * ti <= 0x1_0000_0000_0000_0000) by (nonlinear_arith)
                    requires
                        0 <= ti < 0x1_0000_0000,
                ;
                assert(dx * dx == dxi * dxi);
                assert(dy * dy == dyi * dyi);
                assert(t * t == ti * ti);
            }
            dx * dx + dy * dy < t * t
        }
    }

    /// The world position of this grid cell: both coordinates scaled by `OBJECT_SIZE`.
    pub fn to_world(self) -> (res: Position)
        requires
            scalable(self),
        ensures
            res == world_of(self),
    {
        Position { x: self.x * OBJECT_SIZE, y: self.y * OBJECT_SIZE }
    }
}

/// The direction selected by the movement keys; `None` when none of them is held.
pub fn direction_from_keys(w: bool, s: bool, d: bool, a: bool) -> (res: Option<Direction>)
    ensures
        res == key_direction(w, s, d, a),
{
    if w {
        Some(Direction::Up)
    } else if s {
        Some(Direction::Down)
    } else if d {
        Some(Direction::Right)
    } else if a {
        Some(Direction::Left)
    } else {
        None
    }
}

/// Whether every goal has a goal crate standing on it.
pub fn check_win_conditions(goals: &Vec<Position>, crates: &Vec<(Crate, Position)>) -> (won: bool)
    ensures
        won == is_won(goals@, crates@),
{
    let mut g: usize = 0;
    while g < goals.len()
        invariant
            g <= goals.len(),
            forall|k: int| 0 <= k < g ==> #[trigger] goal_covered(goals@[k], crates@),
        decreases goals.len() - g,
    {
        let goal = goals[g];
        let mut is_goal = false;
        let mut c: usize = 0;
        while c < crates.len()
            invariant
                c <= crates.len(),
                g < goals.len(),
                goal == goals@[g as int],
                is_goal ==> goal_covered(goal, crates@),
                !is_goal ==> forall|k: int| 0 <= k < c ==> !#[trigger] covers(crates@[k], goal),
            ensures
                is_goal ==> goal_covered(goal, crates@),
                !is_goal ==> forall|k: int|
                    0 <= k < crates.len() ==> !#[trigger] covers(crates@[k], goal),
            decreases crates.len() - c,
        {
            let entry = crates[c];
            if entry.0.goal_crate && entry.1.within_distance(goal, 32) {
                assert(covers(crates@[c as int], goal));
                is_goal = true;
                break;
            }
            c = c + 1;
        }
        if !is_goal {
            assert(!goal_covered(goals@[g as int], crates@));
            return false;
        }
        g = g + 1;
    }
    true
}

/// Closeness does not depend on which of the two positions is measured from.
pub proof fn lemma_within_symmetric(a: Position, b: Position, threshold: int)
    ensures
        within(a, b, threshold) == within(b, a, threshold),
{
    assert((a.x - b.x) * (a.x - b.x) == (b.x - a.x) * (b.x - a.x)) by (nonlinear_arith);
    assert((a.y - b.y) * (a.y - b.y) == (b.y - a.y) * (b.y - a.y)) by (nonlinear_arith);
}

/// More crates never undo a win: a level won with `crates` is still won
/// when `extra` crates are added after them.
pub proof fn lemma_won_with_more_crates(
    goals: Seq<Position>,
    crates: Seq<(Crate, Position)>,
    extra: Seq<(Crate, Position)>,
)
    requires
        is_won(goals, crates),
    ensures
        is_won(goals, crates + extra),
{
    assert forall|g: int| 0 <= g < goals.len() implies #[trigger] goal_covered(goals[g], crates + extra) by {
        assert(goal_covered(goals[g], crates));
        let c = choose|c: int| 0 <= c < crates.len() && #[trigger] covers(crates[c], goals[g]);
        assert((crates + extra)[c] == crates[c]);
    }
}

/// `a` is within `threshold` of `b` exactly when the squared differences of
/// both coordinates add up to less than `threshold` squared; a point is never
/// within threshold 0 of anything, and always within a positive threshold of
/// itself.
pub proof fn lemma_within_is_euclidean(a: Position, b: Position, threshold: int)
    ensures
        within(a, b, threshold) <==> (a.x - b.x) * (a.x - b.x) + (a.y - b.y) * (a.y - b.y) < threshold
            * threshold,
        !within(a, b, 0),
        threshold != 0 ==> within(a, a, threshold),
{
    assert((a.x - b.x) * (a.x - b.x) >= 0 && (a.y - b.y) * (a.y - b.y) >= 0) by (nonlinear_arith);
    assert(threshold != 0 ==> threshold * threshold > 0) by (nonlinear_arith);
}

/// Scaling to world pixels multiplies every difference between cells by
/// `OBJECT_SIZE`: side-by-side cells end up 32 pixels apart, and distinct
/// cells stay distinct.
pub proof fn lemma_world_scaling(p: Position, q: Position)
    requires
        scalable(p),
        scalable(q),
    ensures
        world_of(p).x - world_of(q).x == 32 * (p.x - q.x),
        world_of(p).y - world_of(q).y == 32 * (p.y - q.y),
        world_of(p) == world_of(q) <==> p == q,
{
}

/// A goal crate covers a goal exactly when its squared euclidean distance to
/// the goal, over both coordinates, is below 32 * 32; plain crates never do.
pub proof fn lemma_covers_by_distance(c: (Crate, Position), goal: Position)
    ensures
        covers(c, goal) <==> (c.0.goal_crate && (c.1.x - goal.x) * (c.1.x - goal.x) + (c.1.y - goal.y) * (
        c.1.y - goal.y) < 1024),
        !c.0.goal_crate ==> !covers(c, goal),
{
}

/// A crate 32 or more away from a goal along either axis never covers it,
/// whatever its other coordinate.
pub proof fn lemma_far_crate_does_not_cover(c: (Crate, Position), goal: Position)
    requires
        c.1.x - goal.x >= 32 || goal.x - c.1.x >= 32 || c.1.y - goal.y >= 32 || goal.y - c.1.y >= 32,
    ensures
        !covers(c, goal),
{
    let (dx, dy) = (c.1.x - goal.x, c.1.y - goal.y);
    assert(dx * dx >= 1024 || dy * dy >= 1024) by (nonlinear_arith)
        requires
            dx >= 32 || -dx >= 32 || dy >= 32 || -dy >= 32,
    ;
    assert(dx * dx >= 0 && dy * dy >= 0) by (nonlinear_arith);
}

/// A goal crate standing on the goal's own cell covers it.
pub proof fn lemma_crate_on_goal_covers(c: (Crate, Position), goal: Position)
    requires
        c.0.goal_crate,
        c.1 == goal,
    ensures
        covers(c, goal),
{
}

/// `c` is a goal crate whose squared distance to `goal`, over both
/// coordinates, is below 32 * 32.
pub open spec fn goal_crate_near(c: (Crate, Position), goal: Position) -> bool {
    c.0.goal_crate && (c.1.x - goal.x) * (c.1.x - goal.x) + (c.1.y - goal.y) * (c.1.y - goal.y) < 1024
}

/// Some goal crate is strictly closer than 32 to `goal`.
pub open spec fn goal_reached(goal: Position, crates: Seq<(Crate, Position)>) -> bool {
    exists|c: int| 0 <= c < crates.len() && #[trigger] goal_crate_near(crates[c], goal)
}

/// Each goal has some goal crate strictly closer than 32 to it.
pub open spec fn every_goal_reached(goals: Seq<Position>, crates: Seq<(Crate, Position)>) -> bool {
    forall|g: int| 0 <= g < goals.len() ==> #[trigger] goal_reached(goals[g], crates)
}

/// The level is won exactly when each goal has a goal crate strictly
/// closer than 32 to it.
pub proof fn lemma_won_iff_every_goal_reached(goals: Seq<Position>, crates: Seq<(Crate, Position)>)
    ensures
        is_won(goals, crates) <==> every_goal_reached(goals, crates),
{
    assert forall|goal: Position| #[trigger] goal_reached(goal, crates) == goal_covered(goal, crates) by {
        if goal_reached(goal, crates) {
            let c = choose|c: int| 0 <= c < crates.len() && #[trigger] goal_crate_near(crates[c], goal);
            lemma_covers_by_distance(crates[c], goal);
            assert(covers(crates[c], goal));
        }
        if goal_covered(goal, crates) {
            let c = choose|c: int| 0 <= c < crates.len() && #[trigger] covers(crates[c], goal);
            lemma_covers_by_distance(crates[c], goal);
            assert(goal_crate_near(crates[c], goal));
        }
    }
    if is_won(goals, crates) {
        assert forall|g: int| 0 <= g < goals.len() implies #[trigger] goal_reached(goals[g], crates) by {
            assert(goal_covered(goals[g], crates));
        }
    }
    if every_goal_reached(goals, crates) {
        assert forall|g: int| 0 <= g < goals.len() implies #[trigger] goal_covered(goals[g], crates) by {
            assert(goal_reached(goals[g], crates));
        }
    }
}

/// The movement keys are read in the order W, S, D, A: W wins over every
/// other key, S over D and A, D over A; nothing held means no movement.
pub proof fn lemma_key_priority(w: bool, s: bool, d: bool, a: bool)
    ensures
        w ==> key_direction(w, s, d, a) == Some(Direction::Up),
        !w && s ==> key_direction(w, s, d, a) == Some(Direction::Down),
        !w && !s && d ==> key_direction(w, s, d, a) == Some(Direction::Right),
        key_direction(w, s, d, a) == Some(Direction::Left) <==> (a && !w && !s && !d),
        key_direction(w, s, d, a) is None <==> (!w && !s && !d && !a),
{
}

} // verus!
