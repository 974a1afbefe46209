//! Control logic for flashing firmware onto a QTShock device and for the
//! triggers that drive it.
//!
//! The crate decides; it performs no input or output. A caller runs the
//! serial port, the network and the user interface, and asks this library
//! what to do next and what to tell the user.
//!
//! A flashing run is a [`pipeline::Pipeline`]: the caller performs one
//! operation at a time and reports how it went. What holds of every run is
//! proved in [`trace`]. The transfer itself is followed by a
//! [`progress::QTShockProgress`].

pub mod artifact;
pub mod endpoint;
pub mod listing;
pub mod messages;
pub mod notice;
pub mod operation;
pub mod pipeline;
pub mod progress;
pub mod target;
pub mod trace;

pub mod config;
pub mod datagram;
pub mod defines;
pub mod device;
pub mod game;
pub mod gsi_cfg;
pub mod osc;

pub mod number;
pub mod text;
