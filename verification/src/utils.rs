//! Helpers shared by the commands.

pub mod codes;
pub mod file_utils;
pub mod text;
