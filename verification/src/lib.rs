//! DevDock's verified core: configuration rules, service state tracking,
//! process supervision decisions, the tray menu model and command-line text.
pub mod config;
pub mod logs;
pub mod paths;
pub mod process_manager;
pub mod react_native;
pub mod restart;
pub mod service;
pub mod table;
pub mod terminal;
pub mod text;
pub mod tray;
pub mod windows_service;
