//! Coordination logic of a vehicle telemetry and control node.
//!
//! The node samples a temperature sensor, keeps a publish/subscribe session
//! alive, reacts to two push buttons that override or toggle a cruise-control
//! flag, and shows short status text on a small display. This crate holds the
//! decisions of that node as verified state machines over plain values; the
//! firmware around it performs the hardware and network operations they ask
//! for.

pub mod button;
pub mod control;
pub mod coordination;
pub mod display;
pub mod network;
pub mod parameters;
pub mod provider;
pub mod sensor;
pub mod text;
