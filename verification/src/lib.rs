//! Duplex-aware MAVLink packet bridging between a UDP link and a LoRa radio link.
//!
//! The crate holds the decisions of the relay: the MAVLink framing layer, the
//! per-driver byte framing, and the event loops of the network interfaces as
//! state machines. Sockets, radios and tasks are driven by the caller, which
//! performs the actions that the machines ask for and reports what happened.

pub mod driver;
pub mod network;
pub mod utils;
