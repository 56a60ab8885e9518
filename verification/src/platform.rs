//! Desktop integration, one module per operating system.

pub mod linux;
pub mod macos;
pub mod windows;
