//! Event pipeline and screen-stack navigation core for a handheld UI device.
//!
//! The library turns raw button-level samples into discrete events, carries
//! them through a bounded FIFO channel, and drives a stack of screens with
//! push/pop/replace navigation. Hardware access (display bus, GPIO, radio)
//! stays outside; the library works on plain values handed in by its host.

pub mod channel;
pub mod clock;
pub mod input;
pub mod navigator;
pub mod network;
pub mod ntp;
pub mod screens;
pub mod state;
pub mod ui;
