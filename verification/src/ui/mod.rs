//! The state machines behind the download manager's window.

pub mod add_download;
pub mod dialog;
pub mod downloads;
pub mod icon;
pub mod input;
pub mod title_bar;
pub mod toast;
pub mod window;
