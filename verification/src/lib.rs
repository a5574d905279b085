//! The data layer of a desktop launcher for modded games.
//!
//! The library decides; it does not act. Its caller looks at the disk and
//! the network and hands over what it found, and each operation answers
//! with a value: a path, a list of records, or a plan of file system steps
//! for the caller to carry out. What a plan means is defined in `actions`,
//! and the properties that the operations are meant to have are proved
//! against that meaning.

pub mod actions;
pub mod background;
pub mod common;
pub mod error;
pub mod file_manager;
pub mod game_config;
pub mod game_scanner;
pub mod json;
pub mod paths;
pub mod remote;
pub mod resolver;
pub mod text;
