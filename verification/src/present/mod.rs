pub mod depth;
pub mod effect;
pub mod sound;
pub mod simple_sprite;
