//! Jump-resolution core of a "jump between platforms" arcade game.
//!
//! Lengths are integers in nanometres of world space (`UNIT` per world unit),
//! times are integers in microseconds, and scales are integers in billionths.
//! With these units every rate the game uses is an exact integer.
pub mod camera;
pub mod geometry;
pub mod platform;
pub mod fall;
pub mod jump;
pub mod player;
pub mod score;
pub mod session;
