//! Occupancy detection for a PIR motion sensor that reports over MQTT.
//!
//! Raw detection events are turned into a debounced `ON`/`OFF` occupancy
//! signal by [`engine::Engine`], whose step function is verified against a
//! mathematical model of the state machine.
pub mod config;
pub mod engine;
pub mod laws;
pub mod settings;
