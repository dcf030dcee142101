//! Verified core of a browser-based remote desktop system: signalling, session
//! state machines, input mapping, screen-frame processing and H.264 stream handling.
pub mod annexb;
pub mod client_types;
pub mod network;
pub mod registry;
pub mod screen;
pub mod server;
pub mod server_types;
pub mod signaling;
pub mod signals_server;
pub mod text;
pub mod video_encoder;
pub mod video_track;
pub mod stream;
pub mod peer;
pub mod service;
pub mod relay;
pub mod input;
pub mod threads;
pub mod client_config;
pub mod server_config;
