//! A verified core for a player-statistics tracker: snapshot diffing into a
//! typed delta record, a per-subscriber tracking scheduler, number and
//! message formatting, and command dispatch. All I/O (the statistics
//! provider, the persistent store, the notification sink) lives outside
//! this crate and exchanges plain values with it.
#![allow(non_snake_case)]

pub mod command;
pub mod compare;
pub mod format;
pub mod player;
pub mod search;
pub mod track;

pub use compare::Changes;
pub use player::PlayerData;
pub use player::ScoreStats;
