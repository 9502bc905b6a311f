use game_of_life::rules::{evolve, Cell, GRID_HEIGHT, GRID_WIDTH};
use game_of_life::world::World;

fn world_with(filled: &[(usize, usize)]) -> World {
    let mut world = World::new();
    for &(x, y) in filled {
        world.set(x, y, Cell::Filled);
    }
    world
}

fn filled_cells(world: &World) -> Vec<(usize, usize)> {
    let mut cells = Vec::new();
    for y in 0..GRID_HEIGHT {
        for x in 0..GRID_WIDTH {
            if world.get(x, y) == Some(Cell::Filled) {
                cells.push((x, y));
            }
        }
    }
    cells
}

#[test]
fn evolve_gives_birth_on_exactly_three() {
    assert_eq!(evolve(Cell::Empty, 0), Cell::Empty);
    assert_eq!(evolve(Cell::Empty, 1), Cell::Empty);
    assert_eq!(evolve(Cell::Empty, 2), Cell::Empty);
    assert_eq!(evolve(Cell::Empty, 3), Cell::Filled);
    assert_eq!(evolve(Cell::Empty, 4), Cell::Empty);
    assert_eq!(evolve(Cell::Empty, 5), Cell::Empty);
    assert_eq!(evolve(Cell::Empty, 6), Cell::Empty);
    assert_eq!(evolve(Cell::Empty, 7), Cell::Empty);
    assert_eq!(evolve(Cell::Empty, 8), Cell::Empty);
}

#[test]
fn evolve_lets_survive_on_two_or_three() {
    assert_eq!(evolve(Cell::Filled, 0), Cell::Empty);
    assert_eq!(evolve(Cell::Filled, 1), Cell::Empty);
    assert_eq!(evolve(Cell::Filled, 2), Cell::Filled);
    assert_eq!(evolve(Cell::Filled, 3), Cell::Filled);
    assert_eq!(evolve(Cell::Filled, 4), Cell::Empty);
    assert_eq!(evolve(Cell::Filled, 5), Cell::Empty);
    assert_eq!(evolve(Cell::Filled, 6), Cell::Empty);
    assert_eq!(evolve(Cell::Filled, 7), Cell::Empty);
    assert_eq!(evolve(Cell::Filled, 8), Cell::Empty);
    assert_eq!(evolve(Cell::Filled, u32::MAX), Cell::Empty);
}

#[test]
fn check_neighbors_counts_the_eight_cells_around() {
    let mut world = World::new();
    assert_eq!(world.check_neighbors(10, 10), 0);
    let around = [(11, 10), (9, 10), (10, 11), (10, 9), (11, 11), (11, 9), (9, 11), (9, 9)];
    let mut expected: u32 = 0;
    for (x, y) in around {
        world.set(x, y, Cell::Filled);
        expected += 1;
        assert_eq!(world.check_neighbors(10, 10), expected);
    }
    assert_eq!(world.check_neighbors(10, 10), 8);
}

#[test]
fn check_neighbors_leaves_out_the_cell_itself_and_cells_further_away() {
    let world = world_with(&[(10, 10), (12, 10), (10, 12), (8, 8), (12, 12), (10, 8)]);
    assert_eq!(world.check_neighbors(10, 10), 0);
    assert_eq!(world.check_neighbors(11, 11), 4);
    assert_eq!(world.check_neighbors(11, 10), 2);
    assert_eq!(world.check_neighbors(9, 9), 3);
}

#[test]
fn check_neighbors_does_not_wrap_at_the_edges() {
    let world = world_with(&[(79, 0), (0, 59), (79, 59), (79, 1), (1, 59)]);
    assert_eq!(world.check_neighbors(0, 0), 0);
    let full = world_with(&[(0, 0), (1, 0), (0, 1), (1, 1)]);
    assert_eq!(full.check_neighbors(0, 0), 3);
    assert_eq!(full.check_neighbors(1, 1), 3);
    assert_eq!(full.check_neighbors(2, 0), 2);
    let corner = world_with(&[(78, 58), (79, 58), (78, 59)]);
    assert_eq!(corner.check_neighbors(79, 59), 3);
    assert_eq!(corner.check_neighbors(0, 0), 0);
    assert_eq!(corner.check_neighbors(0, 59), 0);
    assert_eq!(corner.check_neighbors(79, 0), 0);
}

#[test]
fn check_neighbors_outside_the_grid_counts_what_lies_inside() {
    let world = world_with(&[(79, 10), (79, 11), (79, 12), (5, 59), (6, 59), (79, 59)]);
    assert_eq!(world.check_neighbors(80, 11), 3);
    assert_eq!(world.check_neighbors(80, 10), 2);
    assert_eq!(world.check_neighbors(81, 11), 0);
    assert_eq!(world.check_neighbors(5, 60), 2);
    assert_eq!(world.check_neighbors(5, 61), 0);
    assert_eq!(world.check_neighbors(80, 60), 1);
    assert_eq!(world.check_neighbors(usize::MAX, 11), 0);
    assert_eq!(world.check_neighbors(5, usize::MAX), 0);
    assert_eq!(world.check_neighbors(usize::MAX, usize::MAX), 0);
}

#[test]
fn update_is_deterministic() {
    let pattern = [(1, 0), (2, 1), (0, 2), (1, 2), (2, 2), (40, 30), (41, 30), (42, 30), (79, 59)];
    let mut first = world_with(&pattern);
    let mut second = world_with(&pattern);
    second.toggle_running();
    for _ in 0..12 {
        first.update();
        second.update();
        assert_eq!(filled_cells(&first), filled_cells(&second));
    }
}

#[test]
fn update_reads_every_neighbor_as_it_was_before_the_step() {
    // Written in place, row by row, the cell above the centre would be born
    // before the left end of the line is judged, and would keep it alive.
    let mut world = world_with(&[(4, 5), (5, 5), (6, 5)]);
    world.update();
    assert_eq!(world.get(4, 5), Some(Cell::Empty));
    assert_eq!(world.get(6, 5), Some(Cell::Empty));
    assert_eq!(filled_cells(&world), vec![(5, 4), (5, 5), (5, 6)]);
}

#[test]
fn update_changes_the_grid_only() {
    let mut world = world_with(&[(4, 5), (5, 5), (6, 5)]);
    world.toggle_running();
    world.tick(70_000);
    world.update();
    assert!(world.running());
    assert_eq!(world.timer(), 70_000);
    assert_eq!(world.draw_mode(), None);
}

#[test]
fn empty_grid_stays_empty() {
    let mut world = World::new();
    for _ in 0..25 {
        world.update();
        assert_eq!(filled_cells(&world), vec![]);
    }
}

#[test]
fn lone_cell_and_pair_die() {
    let mut world = world_with(&[(20, 20), (50, 40), (51, 40)]);
    world.update();
    assert_eq!(filled_cells(&world), vec![]);
}

#[test]
fn crowded_cell_dies() {
    let mut world = world_with(&[(10, 10), (9, 10), (11, 10), (10, 9), (10, 11)]);
    assert_eq!(world.check_neighbors(10, 10), 4);
    world.update();
    assert_eq!(world.get(10, 10), Some(Cell::Empty));
    assert_eq!(
        filled_cells(&world),
        vec![(9, 9), (10, 9), (11, 9), (9, 10), (11, 10), (9, 11), (10, 11), (11, 11)]
    );
}

#[test]
fn block_is_a_still_life() {
    let block = vec![(30, 20), (31, 20), (30, 21), (31, 21)];
    let mut world = world_with(&block);
    for &(x, y) in &block {
        assert_eq!(world.check_neighbors(x, y), 3);
    }
    for _ in 0..10 {
        world.update();
        assert_eq!(filled_cells(&world), block);
    }
}

#[test]
fn block_is_a_still_life_in_the_corners() {
    let blocks = vec![
        (0, 0), (1, 0), (78, 0), (79, 0),
        (0, 1), (1, 1), (78, 1), (79, 1),
        (0, 58), (1, 58), (78, 58), (79, 58),
        (0, 59), (1, 59), (78, 59), (79, 59),
    ];
    let mut world = world_with(&blocks);
    for _ in 0..5 {
        world.update();
        assert_eq!(filled_cells(&world), blocks);
    }
}

#[test]
fn blinker_oscillates_with_period_two() {
    let horizontal = vec![(39, 30), (40, 30), (41, 30)];
    let vertical = vec![(40, 29), (40, 30), (40, 31)];
    let mut world = world_with(&horizontal);
    world.update();
    assert_eq!(filled_cells(&world), vertical);
    world.update();
    assert_eq!(filled_cells(&world), horizontal);
    world.update();
    assert_eq!(filled_cells(&world), vertical);
    world.update();
    assert_eq!(filled_cells(&world), horizontal);
}

#[test]
fn blinker_next_to_the_border_oscillates() {
    let horizontal = vec![(0, 1), (1, 1), (2, 1)];
    let vertical = vec![(1, 0), (1, 1), (1, 2)];
    let mut world = world_with(&horizontal);
    world.update();
    assert_eq!(filled_cells(&world), vertical);
    world.update();
    assert_eq!(filled_cells(&world), horizontal);
}

#[test]
fn blinker_on_the_border_loses_the_cells_beyond_it() {
    let mut world = world_with(&[(1, 0), (2, 0), (3, 0)]);
    world.update();
    assert_eq!(filled_cells(&world), vec![(2, 0), (2, 1)]);
    world.update();
    assert_eq!(filled_cells(&world), vec![]);
}

#[test]
fn glider_moves_one_cell_diagonally_in_four_steps() {
    let glider = [(1, 0), (2, 1), (0, 2), (1, 2), (2, 2)];
    let mut world = world_with(&glider);
    world.update();
    assert_eq!(filled_cells(&world), vec![(0, 1), (2, 1), (1, 2), (2, 2), (1, 3)]);
    world.update();
    world.update();
    world.update();
    assert_eq!(filled_cells(&world), vec![(2, 1), (3, 2), (1, 3), (2, 3), (3, 3)]);
}
