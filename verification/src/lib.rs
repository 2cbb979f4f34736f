//! Control of a brewing rig: the serial protocol spoken with the
//! microcontroller, the actor that owns the device, and the executor that
//! walks a recipe's steps.
//!
//! Everything here is free of I/O. Each component is a state machine that
//! says what has to happen on the outside (bytes to send, a temperature to
//! read, a pause to take) and is told what came of it.

pub mod api;
pub mod comm;
pub mod config;
pub mod db;
pub mod devices;
pub mod error;
pub mod models;
pub mod program;
pub mod temperature;
