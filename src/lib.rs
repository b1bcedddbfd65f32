//! Driver-level protocol codec for the SCD30 CO2, temperature and humidity sensor.
//!
//! `command` encodes outbound frames, `measurement` decodes the sensor's
//! measurement response, and `driver` sequences both over a bus transport.
pub mod command;
pub mod measurement;
pub mod driver;
