pub mod client;
pub mod host;
pub mod models;
