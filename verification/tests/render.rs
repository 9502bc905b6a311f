use game_of_life::model::CELL_SIZE;
use game_of_life::render::{window_conf, Line, Rect};
use game_of_life::rules::Cell;
use game_of_life::world::World;

#[test]
fn cell_is_ten_pixels_wide() {
    assert_eq!(CELL_SIZE, 10);
}

#[test]
fn window_holds_the_grid() {
    let conf = window_conf();
    assert_eq!(conf.title, "Game of Life");
    assert!(conf.high_dpi);
    assert!(!conf.resizable);
    assert_eq!(conf.width, 800);
    assert_eq!(conf.height, 600);
}

#[test]
fn draw_of_empty_world_is_empty() {
    let world = World::new();
    assert_eq!(world.draw(), vec![]);
}

#[test]
fn draw_lists_the_filled_cells_row_by_row() {
    let mut world = World::new();
    world.set(79, 59, Cell::Filled);
    world.set(5, 4, Cell::Filled);
    world.set(3, 4, Cell::Filled);
    world.set(0, 0, Cell::Filled);
    world.set(7, 2, Cell::Filled);
    world.set(6, 2, Cell::Filled);
    world.set(6, 2, Cell::Empty);
    assert_eq!(
        world.draw(),
        vec![
            Rect { x: 0, y: 0, w: 10, h: 10 },
            Rect { x: 70, y: 20, w: 10, h: 10 },
            Rect { x: 30, y: 40, w: 10, h: 10 },
            Rect { x: 50, y: 40, w: 10, h: 10 },
            Rect { x: 790, y: 590, w: 10, h: 10 },
        ]
    );
}

#[test]
fn draw_of_full_world_has_every_cell() {
    let mut world = World::new();
    for y in 0..60 {
        for x in 0..80 {
            world.set(x, y, Cell::Filled);
        }
    }
    let rects = world.draw();
    assert_eq!(rects.len(), 4800);
    assert_eq!(rects[0], Rect { x: 0, y: 0, w: 10, h: 10 });
    assert_eq!(rects[79], Rect { x: 790, y: 0, w: 10, h: 10 });
    assert_eq!(rects[80], Rect { x: 0, y: 10, w: 10, h: 10 });
    assert_eq!(rects[4799], Rect { x: 790, y: 590, w: 10, h: 10 });
}

#[test]
fn grid_lines_run_left_to_right_then_top_to_bottom() {
    let world = World::new();
    let lines = world.draw_grid_lines();
    assert_eq!(lines.len(), 142);
    assert_eq!(lines[0], Line { x1: 0, y1: 0, x2: 0, y2: 600 });
    assert_eq!(lines[1], Line { x1: 10, y1: 0, x2: 10, y2: 600 });
    assert_eq!(lines[37], Line { x1: 370, y1: 0, x2: 370, y2: 600 });
    assert_eq!(lines[80], Line { x1: 800, y1: 0, x2: 800, y2: 600 });
    assert_eq!(lines[81], Line { x1: 0, y1: 0, x2: 800, y2: 0 });
    assert_eq!(lines[82], Line { x1: 0, y1: 10, x2: 800, y2: 10 });
    assert_eq!(lines[100], Line { x1: 0, y1: 190, x2: 800, y2: 190 });
    assert_eq!(lines[141], Line { x1: 0, y1: 600, x2: 800, y2: 600 });
    for (i, line) in lines.iter().enumerate() {
        if i <= 80 {
            assert_eq!(line.x1, line.x2);
            assert_eq!(line.x1, 10 * i as i32);
        } else {
            assert_eq!(line.y1, line.y2);
            assert_eq!(line.y1, 10 * (i as i32 - 81));
        }
    }
}

#[test]
fn grid_lines_do_not_depend_on_the_cells() {
    let mut world = World::new();
    let before = world.draw_grid_lines();
    world.set(3, 3, Cell::Filled);
    world.toggle_running();
    assert_eq!(world.draw_grid_lines(), before);
}
