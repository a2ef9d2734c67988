pub mod text;
pub mod math;
pub mod rust;
pub mod svg;
