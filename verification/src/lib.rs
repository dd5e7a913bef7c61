//! Raw DNS query construction and the supporting pieces of a small
//! name-resolution library: wire-format encoding of a DNS header and
//! question, QNAME label encoding, IPv4 literal parsing, socket-address
//! byte layout, and the state machine that a UDP transport follows for
//! one request/response exchange.
//!
//! The actual socket calls are operating-system work and live outside
//! this crate; everything here is pure computation over bytes and is
//! verified against the DNS message format.

pub mod addr;
pub mod addrinfo;
pub mod err;
pub mod qname;
pub mod raw;
pub mod transport;
pub mod types;
pub mod wire;

pub use addr::Ipv4;
pub use addrinfo::AddrInfoHints;
pub use err::{lookup_errno, DnsError, LookupError};
pub use raw::{DnsHeader, Raw};
pub use types::{AddrFamily, Protocol, SockType};
