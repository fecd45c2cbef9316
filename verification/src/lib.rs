//! Live lesson: the state, message routing and media bookkeeping of a shared
//! lesson room (a host and its clients exchanging editor and text-area content,
//! camera, microphone and screen streams).

pub mod utils;
pub mod models;
pub mod encoders;
pub mod stores;
pub mod video_tick;
pub mod components;
