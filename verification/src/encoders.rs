pub mod camera_encoder;
pub mod encoder_state;
pub mod microphone_encoder;
