//! Host-side command client for a USB HID recording device.
//!
//! The device speaks a fixed-frame protocol: every request is a report
//! `[0x00, <command code>, <payload>]`, every reply is a 64-byte frame whose
//! first byte echoes the command code. This crate holds the verified protocol
//! layer: the field codecs that turn payload bytes into typed values, the
//! response dispatcher that validates reply tags, and the per-command request
//! builders and reply deciders. Opening the device and moving the frames over
//! the wire is left to an unverified shell around this library.

pub mod convert;
pub mod errors;
pub mod protocol;

pub use errors::AudioMothError;
