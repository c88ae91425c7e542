//! Verified core of a two-tier speech-to-text pipeline: daemon configuration,
//! request handling decisions, WAV header and PCM reading, and client-side
//! transport rules.

pub mod config;
pub mod text;
pub mod wav;
pub mod server;
pub mod transport;
pub mod provider;
pub mod paths;
pub mod transcript;
pub mod capture;
