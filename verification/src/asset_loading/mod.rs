pub mod texture;
pub mod texture2;
