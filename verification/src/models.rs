pub mod client;
pub mod commons;
pub mod host;
pub mod audio;
pub mod video;
