pub mod client;
pub mod handler;
