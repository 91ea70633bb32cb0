//! An endpoint-scoped publish/subscribe relay: a registry that maps endpoint
//! names to live connections and fans published events out to them, and the
//! heartbeat state machine that each connection runs.

pub mod app_data;
pub mod laws;
pub mod messages;
pub mod redis;
pub mod websocket;
