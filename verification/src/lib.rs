//! Desktop wallpaper management: the decisions behind placing windows in the
//! desktop's window hierarchy, classifying media files and planning the
//! commands that the surrounding application carries out.

pub mod commands;
pub mod platform;
pub mod startup;
pub mod state;
pub mod tray;
pub mod types;
pub mod utils;
