//! Small helpers around the render loop.

pub mod hud;

pub use hud::HUD;
