use sokoban_editor::align::align_ptr;
use sokoban_editor::game::{check_win_conditions, direction_from_keys, Crate, Direction, Position};
use sokoban_editor::level::level_layout;

#[test]
fn align_ptr_rounds_to_the_next_multiple() {
    assert_eq!(align_ptr(0, 8), 0);
    assert_eq!(align_ptr(1, 8), 8);
    assert_eq!(align_ptr(8, 8), 8);
    assert_eq!(align_ptr(9, 8), 16);
    assert_eq!(align_ptr(0x1001, 8), 0x1008);
    assert_eq!(align_ptr(13, 1), 13);
    assert_eq!(align_ptr(4097, 4096), 8192);
    assert_eq!(align_ptr(usize::MAX - 7, 8), usize::MAX - 7);
}

#[test]
fn align_ptr_keeps_an_aligned_address() {
    assert_eq!(align_ptr(64, 16), 64);
    assert_eq!(align_ptr(0, 4), 0);
    assert_eq!(align_ptr(7, 1), 7);
}

#[test]
fn distance_is_strict() {
    let origin = Position { x: 0, y: 0 };
    assert!(origin.within_distance(Position { x: 31, y: 0 }, 32));
    assert!(!origin.within_distance(Position { x: 32, y: 0 }, 32));
    assert!(!origin.within_distance(Position { x: 0, y: -32 }, 32));
    assert!(origin.within_distance(Position { x: 22, y: 22 }, 32));
    assert!(!origin.within_distance(Position { x: 23, y: 23 }, 32));
    assert!(!origin.within_distance(Position { x: isize::MAX, y: isize::MIN }, 32));
    assert!(!origin.within_distance(origin, 0));
}

#[test]
fn grid_cells_scale_to_pixels() {
    let p = Position { x: -3, y: 2 }.to_world();
    assert_eq!(p, Position { x: -96, y: 64 });
}

#[test]
fn movement_keys_in_priority_order() {
    assert_eq!(direction_from_keys(true, true, true, true), Some(Direction::Up));
    assert_eq!(direction_from_keys(false, true, true, false), Some(Direction::Down));
    assert_eq!(direction_from_keys(false, false, true, true), Some(Direction::Right));
    assert_eq!(direction_from_keys(false, false, false, true), Some(Direction::Left));
    assert_eq!(direction_from_keys(false, false, false, false), None);
}

fn world_crates(cells: &[Position], goal_crate: bool) -> Vec<(Crate, Position)> {
    cells.iter().map(|p| (Crate { goal_crate }, p.to_world())).collect()
}

#[test]
fn level_has_the_spawned_objects() {
    let level = level_layout();
    assert_eq!(level.walls.len(), 39);
    assert_eq!(level.walls[0], Position { x: -2, y: 0 });
    assert_eq!(level.walls[2], Position { x: -4, y: 0 });
    assert_eq!(level.walls[34], Position { x: -4, y: 0 });
    assert_eq!(level.crates, vec![
        Position { x: 1, y: 0 },
        Position { x: -3, y: 1 },
        Position { x: 0, y: -5 },
        Position { x: -1, y: -4 },
        Position { x: 2, y: -4 },
    ]);
    assert_eq!(level.goal_crates, vec![Position { x: 0, y: -1 }, Position { x: -3, y: -3 }]);
    assert_eq!(level.goals, vec![Position { x: 0, y: -2 }, Position { x: -3, y: -1 }]);
}

#[test]
fn level_does_not_start_won() {
    let level = level_layout();
    let goals: Vec<Position> = level.goals.iter().map(|p| p.to_world()).collect();
    let mut crates = world_crates(&level.crates, false);
    crates.extend(world_crates(&level.goal_crates, true));
    assert!(!check_win_conditions(&goals, &crates));
}

#[test]
fn level_is_won_when_goal_crates_reach_the_goals() {
    let level = level_layout();
    let goals: Vec<Position> = level.goals.iter().map(|p| p.to_world()).collect();
    let mut crates = world_crates(&level.crates, false);
    crates.push((Crate { goal_crate: true }, Position { x: 5, y: -64 }));
    crates.push((Crate { goal_crate: true }, Position { x: -96, y: -40 }));
    assert!(check_win_conditions(&goals, &crates));
}

#[test]
fn plain_crates_do_not_count() {
    let goals = vec![Position { x: 0, y: 0 }];
    let crates = vec![(Crate { goal_crate: false }, Position { x: 0, y: 0 })];
    assert!(!check_win_conditions(&goals, &crates));
    let crates = vec![(Crate { goal_crate: true }, Position { x: 0, y: 0 })];
    assert!(check_win_conditions(&goals, &crates));
}

#[test]
fn no_goals_is_won() {
    assert!(check_win_conditions(&vec![], &vec![]));
}
