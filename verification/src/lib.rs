//! Workout catalog, button payloads and the per-chat conversation of a
//! menu-driven fitness bot.

pub mod callback;
pub mod catalog;
pub mod decimal;
pub mod keyboard;
pub mod search;
pub mod state;
pub mod training;
pub mod workout;
