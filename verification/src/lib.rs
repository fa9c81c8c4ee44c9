//! Core for driving an external capture worker over its standard pipes:
//! wire encoding of outgoing commands, incremental framing of the inbound
//! byte stream into discrete notifications, and a correlation engine that
//! matches notifications to waiting requests and broadcast callbacks.

pub mod codes;
pub mod commands;
pub mod config;
pub mod encoder;
pub mod enums;
pub mod engine;
pub mod errors;
pub mod events;
pub mod framer;
pub mod recorder;
pub mod settings;
pub mod wait;
pub mod wire;
pub mod writer;

pub use config::RecordingConfig;
pub use errors::ObsError;
pub use recorder::generate_identifier;
