pub mod spawn;
pub mod stats;
pub mod weapon;
pub mod boss;
pub mod grid;
pub mod level;
pub mod player;
pub mod terrain;
