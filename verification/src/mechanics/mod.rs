pub mod ai;
pub mod combat;
pub mod damage;
pub mod health;
pub mod movement;
pub mod physics;
