//! The logic of a small 2D sprite renderer and its fixed-step game loop:
//! sprite batching against texture atlases, the presentation state machine,
//! the tick accumulator and a simple box-collision physics step.
//!
//! Everything here works on plain values. Windowing, the graphics device and
//! image decoding belong to the program that embeds this library.

pub mod asset_loading;
pub mod game;
pub mod render;
pub mod util;
