pub mod bones;
pub mod color;
pub mod config;
pub mod glow;
pub mod menu;
pub mod state;
pub mod style;
