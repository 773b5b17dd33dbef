//! Small, independently useful exercises, each with a machine-checked contract.

pub mod bunnies;
pub mod channels;
pub mod closures_iterators;
pub mod collision;
pub mod derivable_traits;
pub mod docs;
pub mod exceptions;
pub mod idiomatic;
pub mod iterator;
pub mod kitchen;
pub mod practice;
pub mod puzzle_game;
pub mod puzzles;
pub mod road_race;
pub mod text;
pub mod tutorial;
