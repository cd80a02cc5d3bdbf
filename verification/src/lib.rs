//! Telemetry-to-display pipeline for a home-energy monitor with an e-paper panel.

pub mod connection;
pub mod display;
pub mod layout;
pub mod ops;
pub mod pipeline;
pub mod policy;
pub mod text;
pub mod types;
