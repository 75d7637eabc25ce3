pub mod body;
pub mod input_box;
pub mod message;
pub mod scrollbar;
pub mod title;
