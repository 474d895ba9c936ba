//! The shared logic of a download manager: its scheduling, the messages its
//! daemon and clients exchange, the state machines of its window, and the
//! settings and text helpers around them.

pub mod config;
pub mod conversion;
pub mod decimal;
pub mod download;
pub mod download_manager;
pub mod logger;
pub mod pretty_print;
pub mod rpc;
pub mod text;
pub mod ui;
pub mod ui_types;
