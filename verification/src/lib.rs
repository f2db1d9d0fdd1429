pub mod browser;
pub mod fs;
pub mod fs_info;
pub mod path;
pub mod ui;
