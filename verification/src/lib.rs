//! Verified core of a live-PP companion for osu! stable: session and overlay
//! models, score bookkeeping, text helpers and the overlay geometry and state
//! machines that decide what the desktop shell does.

pub mod difficulty;
pub mod game;
pub mod map_file;
pub mod models;
pub mod overlay;
pub mod session;
pub mod status;
pub mod text;
