//! What each command of the application decides, apart from the windows and
//! files that it touches.

pub mod app_state;
pub mod date_widget;
pub mod files;
pub mod wallpaper;
