//! Connection management and event fan-out for a fleet of monitored nodes.

pub mod caps;
pub mod client;
pub mod connection;
pub mod delegate;
pub mod delegation;
pub mod error;
pub mod event;
pub mod hash;
pub mod hex;
pub mod machine;
pub mod message;
pub mod monitor;
pub mod network;
pub mod nexus;
pub mod node;
pub mod reconcile;
pub mod services;
pub mod status;
pub mod table;
pub mod transport;
