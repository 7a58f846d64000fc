//! The in-game overlay: window and HUD geometry, the HUD editor, the key
//! binding, and the decisions that drive the overlay runtimes.

pub mod editor;
pub mod geometry;
pub mod keys;
pub mod panels;
pub mod runtime;
