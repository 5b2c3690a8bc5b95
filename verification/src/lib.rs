//! Configuration logic for Attack Shark mice: the reports that set a mouse
//! up, the checks on its settings, and the recognition of devices and of the
//! reports they send.

pub mod cli;
pub mod config;
pub mod device;
pub mod error;
pub mod gui;
pub mod protocol;
pub mod text;
pub mod x11;
