//! Client-side protocol core for a lattice control interface.
//!
//! A lattice is a set of hosts that share one control plane over a
//! publish/subscribe bus. This crate holds the decisions a control client
//! makes: which subject an operation goes to, how a reply or its absence
//! becomes a result, how the replies to a broadcast are gathered over a
//! fixed window, which of the two metadata paths a client uses, how the
//! event relay reacts to the bus and to its consumer, and how a command
//! without a target host is handed off. Sending and receiving is left to
//! the caller, which performs what these functions describe and reports
//! back what happened.

pub mod client;
pub mod collect;
pub mod commands;
pub mod dispatch;
pub mod error;
pub mod keys;
pub mod metadata;
pub mod relay;
pub mod request;
pub mod subject;
pub mod text;
pub mod types;
