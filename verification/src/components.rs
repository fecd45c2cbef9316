pub mod common;
pub mod document;
pub mod table;
