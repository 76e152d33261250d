//! Verified core of a voice-agent gateway.

pub mod audio_util;
pub mod keyed;
pub mod platform;
pub mod text;
pub mod error;
pub mod models;
pub mod hot_reload;
pub mod session_manager;
pub mod twilio_bridge;
pub mod web_bridge;
pub mod vertex_client;
pub mod gateway;
