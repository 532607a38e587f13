//! Polling of networked power meters and delivery of their readings to a
//! time-series sink: response classification, clock-aware poll timing,
//! the steps of each device's metering loops, and the sink writer's
//! reconnect policy.

pub mod config;
pub mod influx;
pub mod plug;
pub mod point;
