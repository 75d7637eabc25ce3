pub mod client;
pub mod types;
