pub mod err;
pub mod game;
pub mod input;
pub mod point;
pub mod render;
