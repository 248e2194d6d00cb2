//! Core of a discrete-time internet simulation in the x-kernel style.
//!
//! Simulated machines carry a stack of protocols (a link-layer tap, IPv4,
//! UDP and user applications). On every tick a machine ingests the messages
//! pending on its attached networks, drives them up the stack by
//! demultiplexing on header fields, lets every protocol run once, and hands
//! the frames queued by the tap back to the networks. The `Internet` drives
//! ticks until some protocol asks for termination.

pub mod applications;
pub mod control;
pub mod internet;
pub mod ipv4;
pub mod ipv4_address;
pub mod ipv4_parsing;
pub mod machine;
pub mod message;
pub mod network;
pub mod protocol_id;
pub mod tap;
pub mod udp;
