//! The layout of the level: where walls, crates and goals start.

use vstd::prelude::*;
use crate::game::Position;

verus! {

/// Cells of the level's walls, in the order they are spawned. The cell
/// (-4, 0) is listed twice: two walls are spawned on it.
pub open spec fn level_walls() -> Seq<Position> {
    seq![
        Position { x: -2isize, y: 0isize },
        Position { x: -3isize, y: 0isize },
        Position { x: -4isize, y: 0isize },
        Position { x: -4isize, y: 1isize },
        Position { x: -4isize, y: 2isize },
        Position { x: -3isize, y: 2isize },
        Position { x: -2isize, y: 2isize },
        Position { x: -2isize, y: 3isize },
        Position { x: -1isize, y: 3isize },
        Position { x: 0isize, y: 3isize },
        Position { x: 1isize, y: 3isize },
        Position { x: 2isize, y: 3isize },
        Position { x: 2isize, y: 2isize },
        Position { x: 2isize, y: 1isize },
        Position { x: 2isize, y: 0isize },
        Position { x: 2isize, y: -1isize },
        Position { x: 2isize, y: -2isize },
        Position { x: 2isize, y: -3isize },
        Position { x: 3isize, y: -3isize },
        Position { x: 3isize, y: -4isize },
        Position { x: 3isize, y: -5isize },
        Position { x: 3isize, y: -6isize },
        Position { x: 2isize, y: -6isize },
        Position { x: 1isize, y: -6isize },
        Position { x: 0isize, y: -6isize },
        Position { x: -1isize, y: -6isize },
        Position { x: -2isize, y: -6isize },
        Position { x: -3isize, y: -6isize },
        Position { x: -4isize, y: -6isize },
        Position { x: -4isize, y: -5isize },
        Position { x: -4isize, y: -4isize },
        Position { x: -4isize, y: -3isize },
        Position { x: -4isize, y: -2isize },
        Position { x: -4isize, y: -1isize },
        Position { x: -4isize, y: 0isize },
        Position { x: -1isize, y: -1isize },
        Position { x: -2isize, y: -1isize },
        Position { x: -2isize, y: -2isize },
        Position { x: -2isize, y: -3isize },
    ]
}

/// Cells of the crates that need not reach a goal.
pub open spec fn level_crates() -> Seq<Position> {
    seq![
        Position { x: 1isize, y: 0isize },
        Position { x: -3isize, y: 1isize },
        Position { x: 0isize, y: -5isize },
        Position { x: -1isize, y: -4isize },
        Position { x: 2isize, y: -4isize },
    ]
}

/// Cells of the crates that have to be pushed onto the goals.
pub open spec fn level_goal_crates() -> Seq<Position> {
    seq![
        Position { x: 0isize, y: -1isize },
        Position { x: -3isize, y: -3isize },
    ]
}

/// Cells of the goals.
pub open spec fn level_goals() -> Seq<Position> {
    seq![
        Position { x: 0isize, y: -2isize },
        Position { x: -3isize, y: -1isize },
    ]
}

/// Where every object of the level starts, in grid cells.
pub struct Level {
    pub walls: Vec<Position>,
    pub crates: Vec<Position>,
    pub goal_crates: Vec<Position>,
    pub goals: Vec<Position>,
}

/// The level that the game starts with.
pub fn level_layout() -> (level: Level)
    ensures
        level.walls@ == level_walls(),
        level.crates@ == level_crates(),
        level.goal_crates@ == level_goal_crates(),
        level.goals@ == level_goals(),
{
    let walls = vec![
        Position { x: -2, y: 0 },
        Position { x: -3, y: 0 },
        Position { x: -4, y: 0 },
        Position { x: -4, y: 1 },
        Position { x: -4, y: 2 },
        Position { x: -3, y: 2 },
        Position { x: -2, y: 2 },
        Position { x: -2, y: 3 },
        Position { x: -1, y: 3 },
        Position { x: 0, y: 3 },
        Position { x: 1, y: 3 },
        Position { x: 2, y: 3 },
        Position { x: 2, y: 2 },
        Position { x: 2, y: 1 },
        Position { x: 2, y: 0 },
        Position { x: 2, y: -1 },
        Position { x: 2, y: -2 },
        Position { x: 2, y: -3 },
        Position { x: 3, y: -3 },
        Position { x: 3, y: -4 },
        Position { x: 3, y: -5 },
        Position { x: 3, y: -6 },
        Position { x: 2, y: -6 },
        Position { x: 1, y: -6 },
        Position { x: 0, y: -6 },
        Position { x: -1, y: -6 },
        Position { x: -2, y: -6 },
        Position { x: -3, y: -6 },
        Position { x: -4, y: -6 },
        Position { x: -4, y: -5 },
        Position { x: -4, y: -4 },
        Position { x: -4, y: -3 },
        Position { x: -4, y: -2 },
        Position { x: -4, y: -1 },
        Position { x: -4, y: 0 },
        Position { x: -1, y: -1 },
        Position { x: -2, y: -1 },
        Position { x: -2, y: -2 },
        Position { x: -2, y: -3 },
    ];
    let crates = vec![
        Position { x: 1, y: 0 },
        Position { x: -3, y: 1 },
        Position { x: 0, y: -5 },
        Position { x: -1, y: -4 },
        Position { x: 2, y: -4 },
    ];
    let goal_crates = vec![
        Position { x: 0, y: -1 },
        Position { x: -3, y: -3 },
    ];
    let goals = vec![
        Position { x: 0, y: -2 },
        Position { x: -3, y: -1 },
    ];
    assert(walls@ =~= level_walls());
    assert(crates@ =~= level_crates());
    assert(goal_crates@ =~= level_goal_crates());
    assert(goals@ =~= level_goals());
    Level { walls, crates, goal_crates, goals }
}

/// `a` and `b` are side-by-side grid cells: one step apart along one axis.
pub open spec fn neighbours(a: Position, b: Position) -> bool {
    ||| a.x == b.x && (a.y - b.y == 1 || b.y - a.y == 1)
    ||| a.y == b.y && (a.x - b.x == 1 || b.x - a.x == 1)
}

/// `p` lies in the level's rectangle, columns -4 to 3 and rows -6 to 3.
pub open spec fn in_level_box(p: Position) -> bool {
    -4 <= p.x <= 3 && -6 <= p.y <= 3
}

/// `p` lies strictly inside the level's rectangle, off its border.
pub open spec fn inside_level_box(p: Position) -> bool {
    -4 < p.x < 3 && -6 < p.y < 3
}

/// `p` is not one of the walls.
pub open spec fn off_walls(p: Position) -> bool {
    forall|i: int| 0 <= i < level_walls().len() ==> #[trigger] level_walls()[i] != p
}

/// The outer wall is closed: walls 2 to 34 are side by side in turn and the
/// last of them is the first again, so they enclose the level with no gap;
/// every wall lies in the level's rectangle.
pub proof fn lemma_outer_wall_closed()
    ensures
        level_walls().len() == 39,
        forall|i: int| 2 <= i < 34 ==> #[trigger] neighbours(level_walls()[i], level_walls()[i + 1]),
        level_walls()[2] == level_walls()[34],
        forall|i: int| 0 <= i < level_walls().len() ==> #[trigger] in_level_box(level_walls()[i]),
{
    assert forall|i: int| 2 <= i < 34 implies #[trigger] neighbours(level_walls()[i], level_walls()[i + 1]) by {
        if i == 2 {
            assert(neighbours(level_walls()[2], level_walls()[3]));
        } else if i == 3 {
            assert(neighbours(level_walls()[3], level_walls()[4]));
        } else if i == 4 {
            assert(neighbours(level_walls()[4], level_walls()[5]));
        } else if i == 5 {
            assert(neighbours(level_walls()[5], level_walls()[6]));
        } else if i == 6 {
            assert(neighbours(level_walls()[6], level_walls()[7]));
        } else if i == 7 {
            assert(neighbours(level_walls()[7], level_walls()[8]));
        } else if i == 8 {
            assert(neighbours(level_walls()[8], level_walls()[9]));
        } else if i == 9 {
            assert(neighbours(level_walls()[9], level_walls()[10]));
        } else if i == 10 {
            assert(neighbours(level_walls()[10], level_walls()[11]));
        } else if i == 11 {
            assert(neighbours(level_walls()[11], level_walls()[12]));
        } else if i == 12 {
            assert(neighbours(level_walls()[12], level_walls()[13]));
        } else if i == 13 {
            assert(neighbours(level_walls()[13], level_walls()[14]));
        } else if i == 14 {
            assert(neighbours(level_walls()[14], level_walls()[15]));
        } else if i == 15 {
            assert(neighbours(level_walls()[15], level_walls()[16]));
        } else if i == 16 {
            assert(neighbours(level_walls()[16], level_walls()[17]));
        } else if i == 17 {
            assert(neighbours(level_walls()[17], level_walls()[18]));
        } else if i == 18 {
            assert(neighbours(level_walls()[18], level_walls()[19]));
        } else if i == 19 {
            assert(neighbours(level_walls()[19], level_walls()[20]));
        } else if i == 20 {
            assert(neighbours(level_walls()[20], level_walls()[21]));
        } else if i == 21 {
            assert(neighbours(level_walls()[21], level_walls()[22]));
        } else if i == 22 {
            assert(neighbours(level_walls()[22], level_walls()[23]));
        } else if i == 23 {
            assert(neighbours(level_walls()[23], level_walls()[24]));
        } else if i == 24 {
            assert(neighbours(level_walls()[24], level_walls()[25]));
        } else if i == 25 {
            assert(neighbours(level_walls()[25], level_walls()[26]));
        } else if i == 26 {
            assert(neighbours(level_walls()[26], level_walls()[27]));
        } else if i == 27 {
            assert(neighbours(level_walls()[27], level_walls()[28]));
        } else if i == 28 {
            assert(neighbours(level_walls()[28], level_walls()[29]));
        } else if i == 29 {
            assert(neighbours(level_walls()[29], level_walls()[30]));
        } else if i == 30 {
            assert(neighbours(level_walls()[30], level_walls()[31]));
        } else if i == 31 {
            assert(neighbours(level_walls()[31], level_walls()[32]));
        } else if i == 32 {
            assert(neighbours(level_walls()[32], level_walls()[33]));
        } else if i == 33 {
            assert(neighbours(level_walls()[33], level_walls()[34]));
        }
    }
    assert forall|i: int| 0 <= i < level_walls().len() implies #[trigger] in_level_box(level_walls()[i]) by {
        if i == 0 {
            assert(in_level_box(level_walls()[0]));
        } else if i == 1 {
            assert(in_level_box(level_walls()[1]));
        } else if i == 2 {
            assert(in_level_box(level_walls()[2]));
        } else if i == 3 {
            assert(in_level_box(level_walls()[3]));
        } else if i == 4 {
            assert(in_level_box(level_walls()[4]));
        } else if i == 5 {
            assert(in_level_box(level_walls()[5]));
        } else if i == 6 {
            assert(in_level_box(level_walls()[6]));
        } else if i == 7 {
            assert(in_level_box(level_walls()[7]));
        } else if i == 8 {
            assert(in_level_box(level_walls()[8]));
        } else if i == 9 {
            assert(in_level_box(level_walls()[9]));
        } else if i == 10 {
            assert(in_level_box(level_walls()[10]));
        } else if i == 11 {
            assert(in_level_box(level_walls()[11]));
        } else if i == 12 {
            assert(in_level_box(level_walls()[12]));
        } else if i == 13 {
            assert(in_level_box(level_walls()[13]));
        } else if i == 14 {
            assert(in_level_box(level_walls()[14]));
        } else if i == 15 {
            assert(in_level_box(level_walls()[15]));
        } else if i == 16 {
            assert(in_level_box(level_walls()[16]));
        } else if i == 17 {
            assert(in_level_box(level_walls()[17]));
        } else if i == 18 {
            assert(in_level_box(level_walls()[18]));
        } else if i == 19 {
            assert(in_level_box(level_walls()[19]));
        } else if i == 20 {
            assert(in_level_box(level_walls()[20]));
        } else if i == 21 {
            assert(in_level_box(level_walls()[21]));
        } else if i == 22 {
            assert(in_level_box(level_walls()[22]));
        } else if i == 23 {
            assert(in_level_box(level_walls()[23]));
        } else if i == 24 {
            assert(in_level_box(level_walls()[24]));
        } else if i == 25 {
            assert(in_level_box(level_walls()[25]));
        } else if i == 26 {
            assert(in_level_box(level_walls()[26]));
        } else if i == 27 {
            assert(in_level_box(level_walls()[27]));
        } else if i == 28 {
            assert(in_level_box(level_walls()[28]));
        } else if i == 29 {
            assert(in_level_box(level_walls()[29]));
        } else if i == 30 {
            assert(in_level_box(level_walls()[30]));
        } else if i == 31 {
            assert(in_level_box(level_walls()[31]));
        } else if i == 32 {
            assert(in_level_box(level_walls()[32]));
        } else if i == 33 {
            assert(in_level_box(level_walls()[33]));
        } else if i == 34 {
            assert(in_level_box(level_walls()[34]));
        } else if i == 35 {
            assert(in_level_box(level_walls()[35]));
        } else if i == 36 {
            assert(in_level_box(level_walls()[36]));
        } else if i == 37 {
            assert(in_level_box(level_walls()[37]));
        } else if i == 38 {
            assert(in_level_box(level_walls()[38]));
        }
    }
}

/// The cells that hold a wall: each wall stands on one of these.
proof fn lemma_wall_cells()
    ensures
        forall|i: int|
            0 <= i < level_walls().len() ==> #[trigger] level_walls()[i] == level_walls()[i] && (level_walls()[i] == (Position { x: -4isize, y: -6isize })
            || level_walls()[i] == (Position { x: -4isize, y: -5isize })
            || level_walls()[i] == (Position { x: -4isize, y: -4isize })
            || level_walls()[i] == (Position { x: -4isize, y: -3isize })
            || level_walls()[i] == (Position { x: -4isize, y: -2isize })
            || level_walls()[i] == (Position { x: -4isize, y: -1isize })
            || level_walls()[i] == (Position { x: -4isize, y: 0isize })
            || level_walls()[i] == (Position { x: -4isize, y: 1isize })
            || level_walls()[i] == (Position { x: -4isize, y: 2isize })
            || level_walls()[i] == (Position { x: -3isize, y: -6isize })
            || level_walls()[i] == (Position { x: -3isize, y: 0isize })
            || level_walls()[i] == (Position { x: -3isize, y: 2isize })
            || level_walls()[i] == (Position { x: -2isize, y: -6isize })
            || level_walls()[i] == (Position { x: -2isize, y: -3isize })
            || level_walls()[i] == (Position { x: -2isize, y: -2isize })
            || level_walls()[i] == (Position { x: -2isize, y: -1isize })
            || level_walls()[i] == (Position { x: -2isize, y: 0isize })
            || level_walls()[i] == (Position { x: -2isize, y: 2isize })
            || level_walls()[i] == (Position { x: -2isize, y: 3isize })
            || level_walls()[i] == (Position { x: -1isize, y: -6isize })
            || level_walls()[i] == (Position { x: -1isize, y: -1isize })
            || level_walls()[i] == (Position { x: -1isize, y: 3isize })
            || level_walls()[i] == (Position { x: 0isize, y: -6isize })
            || level_walls()[i] == (Position { x: 0isize, y: 3isize })
            || level_walls()[i] == (Position { x: 1isize, y: -6isize })
            || level_walls()[i] == (Position { x: 1isize, y: 3isize })
            || level_walls()[i] == (Position { x: 2isize, y: -6isize })
            || level_walls()[i] == (Position { x: 2isize, y: -3isize })
            || level_walls()[i] == (Position { x: 2isize, y: -2isize })
            || level_walls()[i] == (Position { x: 2isize, y: -1isize })
            || level_walls()[i] == (Position { x: 2isize, y: 0isize })
            || level_walls()[i] == (Position { x: 2isize, y: 1isize })
            || level_walls()[i] == (Position { x: 2isize, y: 2isize })
            || level_walls()[i] == (Position { x: 2isize, y: 3isize })
            || level_walls()[i] == (Position { x: 3isize, y: -6isize })
            || level_walls()[i] == (Position { x: 3isize, y: -5isize })
            || level_walls()[i] == (Position { x: 3isize, y: -4isize })
            || level_walls()[i] == (Position { x: 3isize, y: -3isize })),
{
    assert forall|i: int| 0 <= i < level_walls().len() implies #[trigger] level_walls()[i] == level_walls()[i] && (level_walls()[i] == (Position { x: -4isize, y: -6isize })
            || level_walls()[i] == (Position { x: -4isize, y: -5isize })
            || level_walls()[i] == (Position { x: -4isize, y: -4isize })
            || level_walls()[i] == (Position { x: -4isize, y: -3isize })
            || level_walls()[i] == (Position { x: -4isize, y: -2isize })
            || level_walls()[i] == (Position { x: -4isize, y: -1isize })
            || level_walls()[i] == (Position { x: -4isize, y: 0isize })
            || level_walls()[i] == (Position { x: -4isize, y: 1isize })
            || level_walls()[i] == (Position { x: -4isize, y: 2isize })
            || level_walls()[i] == (Position { x: -3isize, y: -6isize })
            || level_walls()[i] == (Position { x: -3isize, y: 0isize })
            || level_walls()[i] == (Position { x: -3isize, y: 2isize })
            || level_walls()[i] == (Position { x: -2isize, y: -6isize })
            || level_walls()[i] == (Position { x: -2isize, y: -3isize })
            || level_walls()[i] == (Position { x: -2isize, y: -2isize })
            || level_walls()[i] == (Position { x: -2isize, y: -1isize })
            || level_walls()[i] == (Position { x: -2isize, y: 0isize })
            || level_walls()[i] == (Position { x: -2isize, y: 2isize })
            || level_walls()[i] == (Position { x: -2isize, y: 3isize })
            || level_walls()[i] == (Position { x: -1isize, y: -6isize })
            || level_walls()[i] == (Position { x: -1isize, y: -1isize })
            || level_walls()[i] == (Position { x: -1isize, y: 3isize })
            || level_walls()[i] == (Position { x: 0isize, y: -6isize })
            || level_walls()[i] == (Position { x: 0isize, y: 3isize })
            || level_walls()[i] == (Position { x: 1isize, y: -6isize })
            || level_walls()[i] == (Position { x: 1isize, y: 3isize })
            || level_walls()[i] == (Position { x: 2isize, y: -6isize })
            || level_walls()[i] == (Position { x: 2isize, y: -3isize })
            || level_walls()[i] == (Position { x: 2isize, y: -2isize })
            || level_walls()[i] == (Position { x: 2isize, y: -1isize })
            || level_walls()[i] == (Position { x: 2isize, y: 0isize })
            || level_walls()[i] == (Position { x: 2isize, y: 1isize })
            || level_walls()[i] == (Position { x: 2isize, y: 2isize })
            || level_walls()[i] == (Position { x: 2isize, y: 3isize })
            || level_walls()[i] == (Position { x: 3isize, y: -6isize })
            || level_walls()[i] == (Position { x: 3isize, y: -5isize })
            || level_walls()[i] == (Position { x: 3isize, y: -4isize })
            || level_walls()[i] == (Position { x: 3isize, y: -3isize })) by {
        if i == 0 {
            assert(level_walls()[0] == (Position { x: -2isize, y: 0isize }));
        } else if i == 1 {
            assert(level_walls()[1] == (Position { x: -3isize, y: 0isize }));
        } else if i == 2 {
            assert(level_walls()[2] == (Position { x: -4isize, y: 0isize }));
        } else if i == 3 {
            assert(level_walls()[3] == (Position { x: -4isize, y: 1isize }));
        } else if i == 4 {
            assert(level_walls()[4] == (Position { x: -4isize, y: 2isize }));
        } else if i == 5 {
            assert(level_walls()[5] == (Position { x: -3isize, y: 2isize }));
        } else if i == 6 {
            assert(level_walls()[6] == (Position { x: -2isize, y: 2isize }));
        } else if i == 7 {
            assert(level_walls()[7] == (Position { x: -2isize, y: 3isize }));
        } else if i == 8 {
            assert(level_walls()[8] == (Position { x: -1isize, y: 3isize }));
        } else if i == 9 {
            assert(level_walls()[9] == (Position { x: 0isize, y: 3isize }));
        } else if i == 10 {
            assert(level_walls()[10] == (Position { x: 1isize, y: 3isize }));
        } else if i == 11 {
            assert(level_walls()[11] == (Position { x: 2isize, y: 3isize }));
        } else if i == 12 {
            assert(level_walls()[12] == (Position { x: 2isize, y: 2isize }));
        } else if i == 13 {
            assert(level_walls()[13] == (Position { x: 2isize, y: 1isize }));
        } else if i == 14 {
            assert(level_walls()[14] == (Position { x: 2isize, y: 0isize }));
        } else if i == 15 {
            assert(level_walls()[15] == (Position { x: 2isize, y: -1isize }));
        } else if i == 16 {
            assert(level_walls()[16] == (Position { x: 2isize, y: -2isize }));
        } else if i == 17 {
            assert(level_walls()[17] == (Position { x: 2isize, y: -3isize }));
        } else if i == 18 {
            assert(level_walls()[18] == (Position { x: 3isize, y: -3isize }));
        } else if i == 19 {
            assert(level_walls()[19] == (Position { x: 3isize, y: -4isize }));
        } else if i == 20 {
            assert(level_walls()[20] == (Position { x: 3isize, y: -5isize }));
        } else if i == 21 {
            assert(level_walls()[21] == (Position { x: 3isize, y: -6isize }));
        } else if i == 22 {
            assert(level_walls()[22] == (Position { x: 2isize, y: -6isize }));
        } else if i == 23 {
            assert(level_walls()[23] == (Position { x: 1isize, y: -6isize }));
        } else if i == 24 {
            assert(level_walls()[24] == (Position { x: 0isize, y: -6isize }));
        } else if i == 25 {
            assert(level_walls()[25] == (Position { x: -1isize, y: -6isize }));
        } else if i == 26 {
            assert(level_walls()[26] == (Position { x: -2isize, y: -6isize }));
        } else if i == 27 {
            assert(level_walls()[27] == (Position { x: -3isize, y: -6isize }));
        } else if i == 28 {
            assert(level_walls()[28] == (Position { x: -4isize, y: -6isize }));
        } else if i == 29 {
            assert(level_walls()[29] == (Position { x: -4isize, y: -5isize }));
        } else if i == 30 {
            assert(level_walls()[30] == (Position { x: -4isize, y: -4isize }));
        } else if i == 31 {
            assert(level_walls()[31] == (Position { x: -4isize, y: -3isize }));
        } else if i == 32 {
            assert(level_walls()[32] == (Position { x: -4isize, y: -2isize }));
        } else if i == 33 {
            assert(level_walls()[33] == (Position { x: -4isize, y: -1isize }));
        } else if i == 34 {
            assert(level_walls()[34] == (Position { x: -4isize, y: 0isize }));
        } else if i == 35 {
            assert(level_walls()[35] == (Position { x: -1isize, y: -1isize }));
        } else if i == 36 {
            assert(level_walls()[36] == (Position { x: -2isize, y: -1isize }));
        } else if i == 37 {
            assert(level_walls()[37] == (Position { x: -2isize, y: -2isize }));
        } else if i == 38 {
            assert(level_walls()[38] == (Position { x: -2isize, y: -3isize }));
        }
    }
}

/// Every crate, goal crate and goal starts strictly inside the level's
/// rectangle and on a cell that holds no wall.
pub proof fn lemma_objects_start_inside()
    ensures
        forall|i: int|
            0 <= i < level_crates().len() ==> inside_level_box(#[trigger] level_crates()[i]) && off_walls(
                level_crates()[i],
            ),
        forall|i: int|
            0 <= i < level_goal_crates().len() ==> inside_level_box(#[trigger] level_goal_crates()[i])
                && off_walls(level_goal_crates()[i]),
        forall|i: int|
            0 <= i < level_goals().len() ==> inside_level_box(#[trigger] level_goals()[i]) && off_walls(
                level_goals()[i],
            ),
{
    lemma_wall_cells();
    assert forall|i: int| 0 <= i < level_crates().len() implies inside_level_box(#[trigger] level_crates()[i])
        && off_walls(level_crates()[i]) by {
        if i == 0 {
            assert(level_crates()[0] == level_crates()[0]);
        } else if i == 1 {
            assert(level_crates()[1] == level_crates()[1]);
        } else if i == 2 {
            assert(level_crates()[2] == level_crates()[2]);
        } else if i == 3 {
            assert(level_crates()[3] == level_crates()[3]);
        } else if i == 4 {
            assert(level_crates()[4] == level_crates()[4]);
        }
    }
    assert forall|i: int| 0 <= i < level_goal_crates().len() implies inside_level_box(
        #[trigger] level_goal_crates()[i],
    ) && off_walls(level_goal_crates()[i]) by {
        if i == 0 {
            assert(level_goal_crates()[0] == level_goal_crates()[0]);
        } else if i == 1 {
            assert(level_goal_crates()[1] == level_goal_crates()[1]);
        }
    }
    assert forall|i: int| 0 <= i < level_goals().len() implies inside_level_box(#[trigger] level_goals()[i])
        && off_walls(level_goals()[i]) by {
        if i == 0 {
            assert(level_goals()[0] == level_goals()[0]);
        } else if i == 1 {
            assert(level_goals()[1] == level_goals()[1]);
        }
    }
}

} // verus!
