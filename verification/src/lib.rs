//! The rules of a turn-based game on a small grid: how each kind of unit may
//! move, how moves are checked against the board and its blockers, how the
//! units that play by themselves choose theirs, and what follows when two
//! units or a unit and an item meet.

pub mod board;
pub mod command;
pub mod items;
pub mod manager;
pub mod random;
pub mod search;
pub mod states;
pub mod ui;
pub mod units;
pub mod vectors;
