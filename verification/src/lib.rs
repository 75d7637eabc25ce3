pub mod controller;
pub mod events;
pub mod llm;
pub mod text;
pub mod widgets;
