//! Command protocol and port-control engine of a serially controlled power switch.
//!
//! Bytes arriving from the host are collected by a [`frame::Cmdbuf`], decoded into a
//! [`command::Cmd`], and dispatched by a [`port::PortManager`]. Everything the engine
//! wants done to the outside world (bytes to transmit, pins to drive, time to wait)
//! is recorded as an ordered list of [`effect::Effect`] values for the firmware shell
//! to carry out.
pub mod protocol;
pub mod frame;
pub mod command;
pub mod effect;
pub mod report;
pub mod port;
pub mod fault;
pub mod variant;
pub mod engine;
pub mod laws;
