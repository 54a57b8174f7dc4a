//! Core of an interactive 2D board viewer: a camera over a grid of cells, the
//! mapping between pixels, the screen and the board, the reduction of input
//! events to a snapshot, a frame clock, and the list of squares to draw each
//! frame.
//!
//! All fractional quantities are fixed-point integers: a value `v` stands for
//! `v / UNIT`. Contracts are stated over `int`, with division rounding down.

use vstd::prelude::*;

pub mod camera;
pub mod clock;
pub mod fixed;
pub mod grid;
pub mod input;
pub mod mapper;
pub mod render;
pub mod session;

pub use crate::session::GameState;

verus! {

/// What the frame loop should do after a batch of input has been reduced.
#[derive(Clone, Copy, Debug, PartialEq, Eq, Structural)]
pub enum Action {
    /// Keep running.
    Continue,
    /// The window was closed: leave the loop after this frame.
    Stop,
}

} // verus!
