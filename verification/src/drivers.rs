pub mod keyboard;
pub mod screen;
