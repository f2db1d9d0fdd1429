pub mod file_list;
pub mod order;
