//! Verified core of the UAV telemetry pipeline: length-prefixed framing of
//! sensor messages, configuration checks, and the decision logic of the
//! gateway, setup and polling loops.

pub mod framing;
pub mod text;
pub mod sensor;
pub mod config;
pub mod gateway;
pub mod polling;
pub mod setup;
