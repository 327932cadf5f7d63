//! A DNS filtering forwarder's core: a suffix blocklist with label-boundary
//! matching, a grow-only decision cache whose two sets never disagree, and
//! the per-request engine that negotiates EDNS, refuses what it cannot
//! serve, denies blocked names with NXDomain, and relays everything else to
//! the one configured upstream resolver.
//!
//! The engine is transport-free: it consumes structured requests and
//! produces either a finished response or a forwarding plan, and a separate
//! step folds the upstream's answer (or failure) into the final response.

pub mod blocklist;
pub mod config;
pub mod dns;
pub mod message;
pub mod name;
