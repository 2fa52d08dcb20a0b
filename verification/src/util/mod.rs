pub mod aabb;
pub mod input;
pub mod timing;
