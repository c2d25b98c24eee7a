//! Command distribution from a hub to a fleet of long-lived clients, and the
//! client-side rules for reconnecting and for replacing the running binary.
//!
//! Every component here is a single owner of its own state. Network and
//! process work is done by the caller: each component turns an event into
//! its next state and the action the caller has to perform.

pub mod backoff;
pub mod command;
pub mod connection;
pub mod download;
pub mod gateway;
pub mod message_server;
pub mod session;
pub mod session_manager;
pub mod updater;
pub mod worker;
