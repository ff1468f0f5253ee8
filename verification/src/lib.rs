//! The decisions of a model viewer, kept apart from its window.

pub mod command_line;
pub mod frames;
pub mod input;
pub mod loads;
pub mod paths;
pub mod picture;
pub mod words;
