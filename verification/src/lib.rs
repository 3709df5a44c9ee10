//! Decision logic of a sensor ingestion endpoint.
//!
//! Devices post periodic readings (temperatures, pressure, humidity, identity,
//! uptime).  The service stamps each reading with its own receipt time, logs
//! it, and stores it as one point of a time series.  This crate holds every
//! decision of that service as verified code; the program around it performs
//! the input and output that the decisions ask for.
//!
//! * [`reading`]: the reading as submitted and as recorded.
//! * [`point`]: the time-series point derived from a reading.
//! * [`clock`]: the receipt time.
//! * [`handler`]: one request, from arrival to response.
//! * [`config`]: start-up configuration from the process environment.

pub mod clock;
pub mod config;
pub mod handler;
pub mod point;
pub mod reading;
pub mod run;
