//! Laws of the grid and of the transition rule.

use vstd::prelude::*;
use crate::rules::{
    Cell, Grid, GRID_WIDTH, GRID_HEIGHT, in_bounds, well_formed, cell_at, with_cell, empty_grid,
    filled, live_neighbors, next_cell, next_generation, generations,
};
use crate::model::{
    UPDATE_INTERVAL, Mouse, Input, WorldView, pointer_cell, flipped, press, hold, release,
};
use crate::render::{Rect, cell_rect, filled_rects};

verus! {

/// Reading a grid position after writing it gives the cell written, be it
/// filled or empty, and the grid keeps its dimensions.
pub proof fn lemma_set_then_get(g: Grid, x: int, y: int, cell: Cell)
    requires
        well_formed(g),
        in_bounds(x, y),
    ensures
        well_formed(with_cell(g, x, y, cell)),
        cell_at(with_cell(g, x, y, cell), x, y) == Some(cell),
{
}

/// Writing a cell leaves every other position as it was.
pub proof fn lemma_set_leaves_others(g: Grid, x: int, y: int, cell: Cell, i: int, j: int)
    requires
        well_formed(g),
        (i, j) != (x, y),
    ensures
        cell_at(with_cell(g, x, y, cell), i, j) == cell_at(g, i, j),
{
}

/// Outside the grid there is nothing to read, and a write changes nothing.
pub proof fn lemma_out_of_bounds(g: Grid, x: int, y: int, cell: Cell)
    requires
        !in_bounds(x, y),
    ensures
        cell_at(g, x, y) is None,
        with_cell(g, x, y, cell) == g,
{
}

/// The next generation is a function of the grid alone: equal grids have
/// equal successors, whatever else the two simulations hold.
pub proof fn lemma_step_deterministic(a: WorldView, b: WorldView)
    requires
        a.cells == b.cells,
    ensures
        a.step().cells == b.step().cells,
{
}

/// Every cell of the next generation is the rule applied to that cell and its
/// neighbours as they were before the step.
pub proof fn lemma_step_reads_snapshot(g: Grid, x: int, y: int)
    requires
        in_bounds(x, y),
    ensures
        well_formed(next_generation(g)),
        cell_at(next_generation(g), x, y) == Some(next_cell(g[y][x], live_neighbors(g, x, y))),
{
}

/// The next state of a cell depends on nothing but the cell and its eight
/// neighbours: two grids that agree there agree on the cell one step later.
pub proof fn lemma_step_is_local(g: Grid, h: Grid, x: int, y: int)
    requires
        in_bounds(x, y),
        forall|i: int, j: int|
            x - 1 <= i <= x + 1 && y - 1 <= j <= y + 1 ==> #[trigger] cell_at(g, i, j) == cell_at(
                h,
                i,
                j,
            ),
    ensures
        cell_at(next_generation(g), x, y) == cell_at(next_generation(h), x, y),
{
    assert(cell_at(g, x, y) == cell_at(h, x, y));
    assert(live_neighbors(g, x, y) == live_neighbors(h, x, y));
}

/// One step leaves the empty grid empty.
proof fn lemma_empty_step()
    ensures
        next_generation(empty_grid()) == empty_grid(),
{
    let g = empty_grid();
    assert forall|x: int, y: int| in_bounds(x, y) implies #[trigger] next_generation(g)[y][x]
        == Cell::Empty by {
        assert(live_neighbors(g, x, y) == 0);
    }
    assert(next_generation(g) =~~= g);
}

/// An empty grid stays empty, however many generations pass.
pub proof fn lemma_empty_stays_empty(n: nat)
    ensures
        generations(empty_grid(), n) == empty_grid(),
    decreases n,
{
    if n > 0 {
        lemma_empty_stays_empty((n - 1) as nat);
        lemma_empty_step();
    }
}

/// The grid that is empty but for the 2 x 2 block whose top left cell is
/// `(x0, y0)`.
pub open spec fn block(x0: int, y0: int) -> Grid {
    Seq::new(
        GRID_HEIGHT as nat,
        |y: int|
            Seq::new(
                GRID_WIDTH as nat,
                |x: int|
                    if x0 <= x <= x0 + 1 && y0 <= y <= y0 + 1 {
                        Cell::Filled
                    } else {
                        Cell::Empty
                    },
            ),
    )
}

/// A 2 x 2 block anywhere on the grid is a still life.
pub proof fn lemma_block_is_still(x0: int, y0: int)
    requires
        in_bounds(x0, y0),
        in_bounds(x0 + 1, y0 + 1),
    ensures
        next_generation(block(x0, y0)) == block(x0, y0),
{
    let g = block(x0, y0);
    assert forall|x: int, y: int| in_bounds(x, y) implies #[trigger] next_generation(g)[y][x]
        == g[y][x] by {
        lemma_block_neighbors(x0, y0, x, y);
    }
    assert(next_generation(g) =~~= g);
}

/// Whether `(x, y)` lies in the 2 x 2 block at `(x0, y0)`, as a number.
spec fn in_block(x0: int, y0: int, x: int, y: int) -> nat {
    if x0 <= x <= x0 + 1 && y0 <= y <= y0 + 1 {
        1
    } else {
        0
    }
}

/// Each cell of the block grid is what the rule makes of it: a block cell has
/// three live neighbours, and no other cell has three.
proof fn lemma_block_neighbors(x0: int, y0: int, x: int, y: int)
    requires
        in_bounds(x0, y0),
        in_bounds(x0 + 1, y0 + 1),
        in_bounds(x, y),
    ensures
        next_cell(block(x0, y0)[y][x], live_neighbors(block(x0, y0), x, y)) == block(x0, y0)[y][x],
{
    let g = block(x0, y0);
    assert forall|i: int, j: int| filled(g, i, j) == in_block(x0, y0, i, j) by {}
}

/// The grid that is empty but for three cells in a row, centred at `(cx, cy)`.
pub open spec fn horizontal_blinker(cx: int, cy: int) -> Grid {
    Seq::new(
        GRID_HEIGHT as nat,
        |y: int|
            Seq::new(
                GRID_WIDTH as nat,
                |x: int|
                    if cx - 1 <= x <= cx + 1 && y == cy {
                        Cell::Filled
                    } else {
                        Cell::Empty
                    },
            ),
    )
}

/// The grid that is empty but for three cells in a column, centred at `(cx, cy)`.
pub open spec fn vertical_blinker(cx: int, cy: int) -> Grid {
    Seq::new(
        GRID_HEIGHT as nat,
        |y: int|
            Seq::new(
                GRID_WIDTH as nat,
                |x: int|
                    if x == cx && cy - 1 <= y <= cy + 1 {
                        Cell::Filled
                    } else {
                        Cell::Empty
                    },
            ),
    )
}

/// Whether `(x, y)` lies on the horizontal line centred at `(cx, cy)`, as a number.
spec fn on_row(cx: int, cy: int, x: int, y: int) -> nat {
    if cx - 1 <= x <= cx + 1 && y == cy {
        1
    } else {
        0
    }
}

/// Whether `(x, y)` lies on the vertical line centred at `(cx, cy)`, as a number.
spec fn on_column(cx: int, cy: int, x: int, y: int) -> nat {
    if x == cx && cy - 1 <= y <= cy + 1 {
        1
    } else {
        0
    }
}

/// The rule turns each cell of the horizontal line's grid into the cell of
/// the vertical line's grid.
proof fn lemma_horizontal_turns(cx: int, cy: int, x: int, y: int)
    requires
        in_bounds(cx - 1, cy - 1),
        in_bounds(cx + 1, cy + 1),
        in_bounds(x, y),
    ensures
        next_cell(
            horizontal_blinker(cx, cy)[y][x],
            live_neighbors(horizontal_blinker(cx, cy), x, y),
        ) == vertical_blinker(cx, cy)[y][x],
{
    let h = horizontal_blinker(cx, cy);
    assert forall|i: int, j: int| filled(h, i, j) == on_row(cx, cy, i, j) by {}
}

/// The rule turns each cell of the vertical line's grid into the cell of the
/// horizontal line's grid.
proof fn lemma_vertical_turns(cx: int, cy: int, x: int, y: int)
    requires
        in_bounds(cx - 1, cy - 1),
        in_bounds(cx + 1, cy + 1),
        in_bounds(x, y),
    ensures
        next_cell(
            vertical_blinker(cx, cy)[y][x],
            live_neighbors(vertical_blinker(cx, cy), x, y),
        ) == horizontal_blinker(cx, cy)[y][x],
{
    let v = vertical_blinker(cx, cy);
    assert forall|i: int, j: int| filled(v, i, j) == on_column(cx, cy, i, j) by {}
}

/// A line of three cells that has room on all sides turns from horizontal to
/// vertical in one step and back in the next.
pub proof fn lemma_blinker_oscillates(cx: int, cy: int)
    requires
        in_bounds(cx - 1, cy - 1),
        in_bounds(cx + 1, cy + 1),
    ensures
        next_generation(horizontal_blinker(cx, cy)) == vertical_blinker(cx, cy),
        next_generation(vertical_blinker(cx, cy)) == horizontal_blinker(cx, cy),
        generations(horizontal_blinker(cx, cy), 2) == horizontal_blinker(cx, cy),
{
    let h = horizontal_blinker(cx, cy);
    let v = vertical_blinker(cx, cy);
    assert forall|x: int, y: int| in_bounds(x, y) implies #[trigger] next_generation(h)[y][x]
        == v[y][x] by {
        lemma_horizontal_turns(cx, cy, x, y);
    }
    assert(next_generation(h) =~~= v);
    assert forall|x: int, y: int| in_bounds(x, y) implies #[trigger] next_generation(v)[y][x]
        == h[y][x] by {
        lemma_vertical_turns(cx, cy, x, y);
    }
    assert(next_generation(v) =~~= h);
    reveal_with_fuel(generations, 3);
}

/// Nothing that happens in a frame breaks the grid's dimensions or lets the
/// timer reach the interval.
pub proof fn lemma_frame_keeps_well_formed(s: WorldView, input: Input)
    requires
        s.well_formed(),
    ensures
        s.step().well_formed(),
        s.toggle_running().well_formed(),
        s.reset().well_formed(),
        s.click(input.mouse).well_formed(),
        s.keys(input.reset, input.advance).well_formed(),
        s.tick(input.frame_time as nat).well_formed(),
        s.frame(input).well_formed(),
{
    let toggled = if input.toggle {
        s.toggle_running()
    } else {
        s
    };
    let clicked = toggled.click(input.mouse);
    assert(clicked.well_formed());
    let keyed = clicked.keys(input.reset, input.advance);
    assert(keyed.well_formed());
}

/// A press over a grid cell starts a gesture whose mode is the opposite of
/// that cell, so the cell itself flips at once. The mode that an earlier
/// gesture left behind plays no part.
pub proof fn lemma_press_samples_mode(s: WorldView, at: (i32, i32))
    requires
        s.well_formed(),
        pointer_cell(at.0 as int, at.1 as int) is Some,
    ensures
        ({
            let (x, y) = pointer_cell(at.0 as int, at.1 as int).unwrap();
            let mode = flipped(s.cells[y][x]);
            &&& in_bounds(x, y)
            &&& s.click(press(at)).draw_mode == Some(mode)
            &&& s.click(press(at)).cells == with_cell(s.cells, x, y, mode)
            &&& cell_at(s.click(press(at)).cells, x, y) == Some(mode)
        }),
{
}

/// Two simulations with equal grids sample the same mode on a press, whatever
/// their earlier gestures were.
pub proof fn lemma_press_resamples(s: WorldView, t: WorldView, at: (i32, i32))
    requires
        s.cells == t.cells,
        pointer_cell(at.0 as int, at.1 as int) is Some,
    ensures
        s.click(press(at)).draw_mode == t.click(press(at)).draw_mode,
{
}

/// A release ends the gesture and touches no cell; a button that is then
/// held without a new press paints nothing.
pub proof fn lemma_release_ends_gesture(s: WorldView, at: (i32, i32), later: (i32, i32))
    ensures
        s.click(release(at)).draw_mode is None,
        s.click(release(at)).cells == s.cells,
        s.click(release(at)).click(hold(later)).cells == s.cells,
{
}

/// A pointer outside the grid samples nothing and paints nothing, and the
/// gesture under way keeps its mode.
pub proof fn lemma_pointer_outside_is_ignored(s: WorldView, mouse: Mouse)
    requires
        pointer_cell(mouse.x as int, mouse.y as int) is None,
        !mouse.released,
    ensures
        s.click(mouse) == s,
{
}

/// While the button is held the mode stays, and so do the grid's dimensions.
proof fn lemma_drag_keeps_mode(s: WorldView, path: Seq<(i32, i32)>)
    requires
        s.well_formed(),
    ensures
        s.drag(path).well_formed(),
        s.drag(path).draw_mode == s.draw_mode,
    decreases path.len(),
{
    if path.len() > 0 {
        lemma_drag_keeps_mode(s, path.drop_last());
    }
}

/// A cell that already holds the gesture's mode keeps it throughout a drag.
pub proof fn lemma_drag_keeps_painted(s: WorldView, path: Seq<(i32, i32)>, x: int, y: int)
    requires
        s.well_formed(),
        s.draw_mode is Some,
        cell_at(s.cells, x, y) == s.draw_mode,
    ensures
        cell_at(s.drag(path).cells, x, y) == s.draw_mode,
    decreases path.len(),
{
    if path.len() > 0 {
        lemma_drag_keeps_mode(s, path.drop_last());
        lemma_drag_keeps_painted(s, path.drop_last(), x, y);
    }
}

/// During a gesture every grid cell that the pointer passes over takes the
/// gesture's mode and keeps it to the end of the drag, whatever it held before.
pub proof fn lemma_drag_paints(s: WorldView, path: Seq<(i32, i32)>, i: int)
    requires
        s.well_formed(),
        s.draw_mode is Some,
        0 <= i < path.len(),
        pointer_cell(path[i].0 as int, path[i].1 as int) is Some,
    ensures
        ({
            let (x, y) = pointer_cell(path[i].0 as int, path[i].1 as int).unwrap();
            &&& s.drag(path).draw_mode == s.draw_mode
            &&& cell_at(s.drag(path).cells, x, y) == s.draw_mode
        }),
    decreases path.len(),
{
    lemma_drag_keeps_mode(s, path.drop_last());
    if i < path.len() - 1 {
        lemma_drag_paints(s, path.drop_last(), i);
    }
}

/// A drag changes no cell that the pointer does not pass over.
pub proof fn lemma_drag_leaves_others(s: WorldView, path: Seq<(i32, i32)>, x: int, y: int)
    requires
        s.well_formed(),
        forall|i: int|
            0 <= i < path.len() ==> pointer_cell(
                (#[trigger] path[i]).0 as int,
                path[i].1 as int,
            ) != Some((x, y)),
    ensures
        cell_at(s.drag(path).cells, x, y) == cell_at(s.cells, x, y),
    decreases path.len(),
{
    if path.len() > 0 {
        lemma_drag_keeps_mode(s, path.drop_last());
        lemma_drag_leaves_others(s, path.drop_last(), x, y);
        assert(pointer_cell(path.last().0 as int, path.last().1 as int) != Some((x, y)));
    }
}

/// A whole gesture paints one mode: the opposite of the cell it started on.
/// That cell and every grid cell touched afterwards hold the mode when the
/// drag ends, so a gesture begun on a filled cell erases and one begun on an
/// empty cell fills.
pub proof fn lemma_gesture_paints_one_mode(
    s: WorldView,
    start: (i32, i32),
    path: Seq<(i32, i32)>,
    i: int,
)
    requires
        s.well_formed(),
        pointer_cell(start.0 as int, start.1 as int) is Some,
        0 <= i < path.len(),
        pointer_cell(path[i].0 as int, path[i].1 as int) is Some,
    ensures
        ({
            let (x0, y0) = pointer_cell(start.0 as int, start.1 as int).unwrap();
            let (x, y) = pointer_cell(path[i].0 as int, path[i].1 as int).unwrap();
            let mode = flipped(s.cells[y0][x0]);
            let end = s.click(press(start)).drag(path);
            &&& end.draw_mode == Some(mode)
            &&& cell_at(end.cells, x0, y0) == Some(mode)
            &&& cell_at(end.cells, x, y) == Some(mode)
            &&& end.click(release(path.last())).draw_mode is None
            &&& end.click(release(path.last())).cells == end.cells
        }),
{
    let begun = s.click(press(start));
    lemma_press_samples_mode(s, start);
    let (x0, y0) = pointer_cell(start.0 as int, start.1 as int).unwrap();
    lemma_drag_keeps_painted(begun, path, x0, y0);
    lemma_drag_paints(begun, path, i);
}

/// Once a running simulation has accumulated the interval, a frame lets
/// exactly one generation pass and zeroes the timer, however long the frame.
pub proof fn lemma_tick_steps_once(s: WorldView, frame_time: nat)
    requires
        s.running,
        s.timer + frame_time >= UPDATE_INTERVAL,
    ensures
        s.tick(frame_time).cells == next_generation(s.cells),
        s.tick(frame_time).timer == 0,
        s.tick(frame_time).running,
{
}

/// A stopped simulation lets time pass without a trace, and a running one
/// that has not reached the interval only accumulates.
pub proof fn lemma_tick_waits(s: WorldView, frame_time: nat)
    requires
        !s.running || s.timer + frame_time < UPDATE_INTERVAL,
    ensures
        s.tick(frame_time).cells == s.cells,
        s.tick(frame_time).timer == if s.running {
            s.timer + frame_time
        } else {
            s.timer
        },
{
}

/// Among the first `n` positions, a cell's square is listed exactly if the
/// cell is one of them and filled.
proof fn lemma_filled_rects_upto(g: Grid, n: nat, x: int, y: int)
    requires
        in_bounds(x, y),
        n <= GRID_WIDTH * GRID_HEIGHT,
    ensures
        filled_rects(g, n).contains(cell_rect(x, y)) <==> y * GRID_WIDTH + x < n && g[y][x]
            == Cell::Filled,
    decreases n,
{
    if n > 0 {
        lemma_filled_rects_upto(g, (n - 1) as nat, x, y);
        let last_x = (n - 1) % (GRID_WIDTH as int);
        let last_y = (n - 1) / (GRID_WIDTH as int);
        assert(cell_rect(last_x, last_y) == cell_rect(x, y) <==> y * GRID_WIDTH + x == n - 1);
        vstd::seq_lib::lemma_seq_contains_after_push(
            filled_rects(g, (n - 1) as nat),
            cell_rect(last_x, last_y),
            cell_rect(x, y),
        );
    }
}

/// Every square among the first `n` positions' squares is that of a filled cell.
proof fn lemma_filled_rects_origin(g: Grid, n: nat, rect: Rect)
    requires
        n <= GRID_WIDTH * GRID_HEIGHT,
        filled_rects(g, n).contains(rect),
    ensures
        exists|x: int, y: int|
            in_bounds(x, y) && g[y][x] == Cell::Filled && rect == #[trigger] cell_rect(x, y),
    decreases n,
{
    if n > 0 {
        let before = filled_rects(g, (n - 1) as nat);
        let last_x = (n - 1) % (GRID_WIDTH as int);
        let last_y = (n - 1) / (GRID_WIDTH as int);
        vstd::seq_lib::lemma_seq_contains_after_push(before, cell_rect(last_x, last_y), rect);
        if before.contains(rect) {
            lemma_filled_rects_origin(g, (n - 1) as nat, rect);
        } else {
            assert(in_bounds(last_x, last_y) && g[last_y][last_x] == Cell::Filled && rect
                == cell_rect(last_x, last_y));
        }
    }
}

/// What is drawn is the filled cells and nothing else: the square of a grid
/// cell is listed exactly if the cell is filled, and every square listed is
/// that of a filled cell.
pub proof fn lemma_draw_shows_filled_cells(g: Grid)
    ensures
        forall|x: int, y: int|
            in_bounds(x, y) ==> (filled_rects(g, (GRID_WIDTH * GRID_HEIGHT) as nat).contains(
                #[trigger] cell_rect(x, y),
            ) <==> cell_at(g, x, y) == Some(Cell::Filled)),
        forall|rect: Rect| #[trigger]
            filled_rects(g, (GRID_WIDTH * GRID_HEIGHT) as nat).contains(rect) ==> exists|
                x: int,
                y: int,
            |
                cell_at(g, x, y) == Some(Cell::Filled) && rect == #[trigger] cell_rect(x, y),
{
    let all = (GRID_WIDTH * GRID_HEIGHT) as nat;
    assert forall|x: int, y: int| in_bounds(x, y) implies (filled_rects(g, all).contains(
        #[trigger] cell_rect(x, y),
    ) <==> cell_at(g, x, y) == Some(Cell::Filled)) by {
        lemma_filled_rects_upto(g, all, x, y);
    }
    assert forall|rect: Rect| #[trigger] filled_rects(g, all).contains(rect) implies exists|
        x: int,
        y: int,
    |
        cell_at(g, x, y) == Some(Cell::Filled) && rect == #[trigger] cell_rect(x, y) by {
        lemma_filled_rects_origin(g, all, rect);
        let (x, y) = choose|x: int, y: int|
            in_bounds(x, y) && g[y][x] == Cell::Filled && rect == #[trigger] cell_rect(x, y);
        assert(cell_at(g, x, y) == Some(Cell::Filled) && rect == cell_rect(x, y));
    }
}

} // verus!
