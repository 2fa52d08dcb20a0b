pub mod game;
pub mod physics;

pub use game::Pos;
