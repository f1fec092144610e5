//! Driver core for a small SPI-attached color display controller.
//!
//! The driver is a pure protocol engine: every operation appends the link
//! transactions it wants performed (command bytes, data payloads, control-line
//! levels, delays) to a transcript, and an unverified hardware shim replays
//! that transcript on the physical pins and bus. Each public operation's
//! contract states exactly which transactions it appends.

pub mod color;
pub mod command;
pub mod display;
pub mod joystick;
pub mod link;
pub mod text;
