//! A simulator of fleets of devices that publish telemetry.
//!
//! Each device has a number of data points: status registers, noise and
//! sensors. A simulation hands out one value for each data point of each
//! device in every cycle. All values are determined by the name of the
//! simulator instance and a seed. A control loop decides when cycles run and
//! when a new configuration takes the place of the old one; commands that
//! arrive as text are read into configurations.

pub mod commands;
pub mod control;
pub mod device;
pub mod generator;
pub mod interval;
pub mod message;
pub mod random;
pub mod settings;
pub mod simulation;
pub mod text;
