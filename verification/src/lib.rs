//! A background telemetry bridge: the verified core of a host-simulation
//! plugin that continuously samples ten cockpit instrument channels from the
//! host's data layer, keeps the most recent snapshot in a shared cell, and
//! renders that snapshot as a JSON object for a polling network client.
//!
//! Instrument values are 32-bit host readings carried here as their raw bit
//! patterns; the bit pattern `0` stands for the zero reading that an absent
//! or unreadable channel degrades to.

pub mod builder;
pub mod cell;
pub mod channels;
pub mod json;
pub mod plugin;
pub mod poller;
pub mod reader;
pub mod snapshot;
