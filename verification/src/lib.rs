//! A snake game engine with machine-checked contracts.
//!
//! A snake moves over a board that wraps around at its edges, grows when it
//! eats and ends the game when it runs into itself. The engine holds the
//! state of such a game and changes it on three occasions: the passing of
//! time, a key press and a click.
//!
//! - [`snake`]: the snake and its rules of movement and growth.
//! - [`game`]: the engine around it, with its states and its tick.
//! - [`geometry`]: pointer positions and rectangles, in pixels.
//! - [`food`]: where new food goes.
//! - [`clock`]: the clock functions the engine calls.
//! - [`constants`]: the fixed parameters.
//! - [`theorems`]: what holds over any course of play.
//!
//! Drawing and the window's event loop are left to the host program.

pub mod clock;
pub mod constants;
pub mod food;
pub mod game;
pub mod geometry;
pub mod snake;
pub mod theorems;
