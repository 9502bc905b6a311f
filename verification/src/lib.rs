//! Conway's Game of Life on a fixed 80 x 60 grid that does not wrap, with the
//! editing and time-keeping rules of an interactive front end.
//!
//! * `rules`: cells, grids as mathematical values, and the transition rule.
//! * `model`: the simulation as a state machine: keys, pointer and time.
//! * `world`: the simulation itself, each operation proved against the model.
//! * `render`: what to put on screen, in whole pixels.
//! * `laws`: what follows: still lifes, oscillators, gestures, timing.
//!
//! Every operation is total: coordinates outside the grid are answered with
//! `None` or ignored, and nothing here panics. Time is counted in whole
//! microseconds and positions in whole pixels.

pub mod rules;
pub mod model;
pub mod world;
pub mod render;
pub mod laws;
