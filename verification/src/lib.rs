//! A minimal authoritative DNS responder core.
//!
//! The crate models the request-handling pipeline of a single-zone name
//! server: a query is validated (opcode, message type, zone authority),
//! the queried name is looked up in an immutable record store, and a
//! response is assembled with the proper response code and answer records.
//! Wire-format encoding and transport are left to the surrounding program;
//! this crate works on plain values and proves what each step returns.

pub mod handler;
pub mod name;
pub mod records;
pub mod store;

pub use handler::{DnsQuery, DnsResponse, DNSError, Handler, MessageType, OpCode, ResponseCode};
pub use name::DnsName;
pub use records::{Ipv4, Ipv6, NetworkEntry, RData, Record};
pub use store::Network;
