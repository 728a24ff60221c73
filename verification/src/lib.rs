//! Firmware handling for the RealTek 8169/8168/8101 PHY/MAC microcontroller:
//! container parsing, static validation of the action program, and the
//! instruction semantics of the engine that replays it against the device.

pub mod action;
pub mod container;
pub mod engine;
pub mod firmware;
pub mod validator;
