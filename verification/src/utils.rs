pub mod decimal;
pub mod device;
pub mod text;
pub mod inputs;
pub mod session;
pub mod config;
