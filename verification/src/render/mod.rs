pub mod animation;
pub mod display;
pub mod renderer;
pub mod sprite;
pub mod vert;
