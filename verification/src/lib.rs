//! Client-side protocol core for a management gateway speaking to a single
//! service processor (SP) over an unreliable datagram link.
//!
//! This crate holds the protocol *decisions*: message-id and retry-budget
//! management, the single-attempt receive loop, busy backoff, paginated
//! TLV collection with DoS protection, the TLV record parsers, the
//! serial-console streaming writer, and the reactor's bookkeeping (host
//! phase-2 slot, serial-console channel, discovery address). Every function
//! here is verified against its contract.
//!
//! Socket I/O, timers and task plumbing live outside this crate; a driver
//! performs the actions these state machines request and feeds the observed
//! events back in.

pub mod backoff;
pub mod details;
pub mod error;
pub mod facade;
pub mod ignition;
pub mod inventory;
pub mod message;
pub mod paginator;
pub mod reactor;
pub mod rpc;
pub mod text;
pub mod tlv;
pub mod types;
pub mod writer;
