pub mod loading;
pub mod time;
pub mod input;
pub mod level;
pub mod menu;
