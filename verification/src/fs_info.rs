pub mod clipboard;
pub mod describe;
pub mod fs_core;
pub mod duplicate_handler;
pub mod file_info;
pub mod file_list;
pub mod history;
pub mod operations;
pub mod state;
