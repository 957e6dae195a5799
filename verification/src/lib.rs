//! Protocol client core for a motion-sensing Bluetooth game controller:
//! the binary report codec, the receive-buffer framing layer, the device
//! state machine that drives keep-alive polling and lamp telemetry, and
//! the pure decision rules of discovery, pairing and listening.

pub mod connection;
pub mod controller;
pub mod discovery;
pub mod report;
