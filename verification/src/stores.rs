pub mod client_items_store;
pub mod client_props_store;
pub mod client_store;
pub mod effects;
pub mod host_props_store;
pub mod host_store;
pub mod media_store;
pub mod sync;
