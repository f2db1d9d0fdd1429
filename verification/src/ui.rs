pub mod input;
pub mod screen;
pub mod text;
pub mod widget;
