//! The simulation as a state machine over mathematical values.

use vstd::prelude::*;
use crate::rules::{
    Cell, Grid, GRID_WIDTH, GRID_HEIGHT, well_formed, with_cell, empty_grid, next_generation,
};

verus! {

/// Edge length of one cell on screen, in pixels.
pub const CELL_SIZE: i32 = 10;

/// Time between two generations while the simulation runs, in microseconds:
/// a tenth of a second.
pub const UPDATE_INTERVAL: u64 = 100_000;

/// The pointer and its left button, as sampled in one frame.
#[derive(Clone, Copy, Debug)]
pub struct Mouse {
    /// Pointer position in pixels, from the window's top left corner.
    pub x: i32,
    pub y: i32,
    /// The button went down in this frame.
    pub pressed: bool,
    /// The button is held in this frame.
    pub down: bool,
    /// The button went up in this frame.
    pub released: bool,
}

/// Everything the outside world reports in one frame.
#[derive(Clone, Copy, Debug)]
pub struct Input {
    /// The key that starts and stops the simulation was pressed.
    pub toggle: bool,
    /// The key that clears the grid was pressed.
    pub reset: bool,
    /// The key that advances one generation was pressed.
    pub advance: bool,
    pub mouse: Mouse,
    /// Duration of the last frame, in microseconds.
    pub frame_time: u64,
}

/// The grid position under the pixel `(px, py)`, or `None` when the pixel
/// lies outside the grid.
pub open spec fn pointer_cell(px: int, py: int) -> Option<(int, int)> {
    if 0 <= px < GRID_WIDTH * CELL_SIZE && 0 <= py < GRID_HEIGHT * CELL_SIZE {
        Some((px / (CELL_SIZE as int), py / (CELL_SIZE as int)))
    } else {
        None
    }
}

/// The opposite cell state.
pub open spec fn flipped(cell: Cell) -> Cell {
    match cell {
        Cell::Empty => Cell::Filled,
        Cell::Filled => Cell::Empty,
    }
}

/// The frame in which the button goes down over the pixel `at`.
pub open spec fn press(at: (i32, i32)) -> Mouse {
    Mouse { x: at.0, y: at.1, pressed: true, down: true, released: false }
}

/// A frame in which the button stays down over the pixel `at`.
pub open spec fn hold(at: (i32, i32)) -> Mouse {
    Mouse { x: at.0, y: at.1, pressed: false, down: true, released: false }
}

/// The frame in which the button goes up over the pixel `at`.
pub open spec fn release(at: (i32, i32)) -> Mouse {
    Mouse { x: at.0, y: at.1, pressed: false, down: false, released: true }
}

/// What a simulation holds, as mathematical values.
pub struct WorldView {
    pub cells: Grid,
    pub running: bool,
    /// Time accumulated since the last generation, in microseconds.
    pub timer: nat,
    /// The state that the current edit gesture paints, if a gesture is under way.
    pub draw_mode: Option<Cell>,
}

impl WorldView {
    /// The state of a fresh simulation: all cells empty, stopped.
    pub open spec fn initial() -> WorldView {
        WorldView { cells: empty_grid(), running: false, timer: 0, draw_mode: None }
    }

    /// The grid has its fixed dimensions and the timer is below the interval.
    pub open spec fn well_formed(self) -> bool {
        &&& well_formed(self.cells)
        &&& self.timer < UPDATE_INTERVAL
    }

    /// One generation passes; nothing else changes.
    pub open spec fn step(self) -> WorldView {
        WorldView { cells: next_generation(self.cells), ..self }
    }

    /// The running flag flips; grid and timer stay.
    pub open spec fn toggle_running(self) -> WorldView {
        WorldView { running: !self.running, ..self }
    }

    /// All cells empty, stopped, timer at zero.
    pub open spec fn reset(self) -> WorldView {
        WorldView { cells: empty_grid(), running: false, timer: 0, ..self }
    }

    /// A frame of `frame_time` microseconds passes. A stopped simulation
    /// ignores it. A running one adds it to the timer, and once the timer has
    /// reached the interval exactly one generation passes and the timer
    /// restarts at zero, however long the frame was.
    pub open spec fn tick(self, frame_time: nat) -> WorldView {
        if !self.running {
            self
        } else if self.timer + frame_time >= UPDATE_INTERVAL {
            WorldView { cells: next_generation(self.cells), timer: 0, ..self }
        } else {
            WorldView { timer: self.timer + frame_time, ..self }
        }
    }

    /// The draw mode after a press: a press on a grid cell starts a gesture
    /// that paints the opposite of that cell; elsewhere nothing is sampled.
    pub open spec fn sampled_mode(self, mouse: Mouse) -> Option<Cell> {
        match pointer_cell(mouse.x as int, mouse.y as int) {
            Some((x, y)) if mouse.pressed => Some(flipped(self.cells[y][x])),
            _ => self.draw_mode,
        }
    }

    /// The grid after the pointer has painted: while the button is held over
    /// a grid cell during a gesture, that cell takes the gesture's mode.
    pub open spec fn painted(self, mouse: Mouse) -> Grid {
        match (pointer_cell(mouse.x as int, mouse.y as int), self.sampled_mode(mouse)) {
            (Some((x, y)), Some(mode)) if mouse.down => with_cell(self.cells, x, y, mode),
            _ => self.cells,
        }
    }

    /// One frame of the edit gesture: sample on press, paint while held,
    /// forget the mode on release.
    pub open spec fn click(self, mouse: Mouse) -> WorldView {
        WorldView {
            cells: self.painted(mouse),
            draw_mode: if mouse.released {
                None
            } else {
                self.sampled_mode(mouse)
            },
            ..self
        }
    }

    /// The button is held over each pixel of `path` in turn, one frame each.
    pub open spec fn drag(self, path: Seq<(i32, i32)>) -> WorldView
        decreases path.len(),
    {
        if path.len() == 0 {
            self
        } else {
            self.drag(path.drop_last()).click(hold(path.last()))
        }
    }

    /// The keys that clear the grid and advance one generation, in that order.
    pub open spec fn keys(self, reset: bool, advance: bool) -> WorldView {
        let cleared = if reset {
            self.reset()
        } else {
            self
        };
        if advance {
            cleared.step()
        } else {
            cleared
        }
    }

    /// One whole frame: the toggle key, the pointer, the other keys, then time.
    pub open spec fn frame(self, input: Input) -> WorldView {
        let toggled = if input.toggle {
            self.toggle_running()
        } else {
            self
        };
        toggled.click(input.mouse).keys(input.reset, input.advance).tick(input.frame_time as nat)
    }
}

} // verus!
