//! Socket type, protocol and address family as plain enums, with their
//! conversion to the numeric constants socket interfaces take.
//!
//! The numeric values are the ones the targeted platform's C library
//! defines for these names; for anything beyond the common cases the
//! caller passes the raw number directly.

use vstd::prelude::*;

verus! {

/// Socket type: the common kinds a socket can be opened as.
#[derive(Copy, Clone, Debug, PartialEq, Eq, Structural)]
pub enum SockType {
    /// Sequenced, reliable, connection-based byte streams.
    Stream,
    /// Connectionless, unreliable datagrams of fixed maximum length.
    DGram,
    /// Raw protocol interface.
    Raw,
    /// Reliably-delivered messages.
    RDM,
}

/// The numeric socket-type constant of the targeted platform.
pub open spec fn sock_type_value(s: SockType) -> i32 {
    match s {
        SockType::Stream => 1,
        SockType::DGram => 2,
        SockType::Raw => 3,
        SockType::RDM => 4,
    }
}

impl SockType {
    /// This socket type as the numeric constant socket calls take.
    pub fn to_c_int(self) -> (r: i32)
        ensures
            r == sock_type_value(self),
    {
        match self {
            SockType::Stream => 1,
            SockType::DGram => 2,
            SockType::Raw => 3,
            SockType::RDM => 4,
        }
    }
}

/// Socket protocol: the common transport protocols.
#[derive(Copy, Clone, Debug, PartialEq, Eq, Structural)]
pub enum Protocol {
    /// Internet Control Message Protocol.
    ICMP,
    /// Transmission Control Protocol.
    TCP,
    /// User Datagram Protocol.
    UDP,
}

/// The numeric protocol constant of the targeted platform.
pub open spec fn protocol_value(p: Protocol) -> i32 {
    match p {
        Protocol::ICMP => 1,
        Protocol::TCP => 6,
        Protocol::UDP => 17,
    }
}

impl Protocol {
    /// This protocol as the numeric constant socket calls take.
    pub fn to_c_int(self) -> (r: i32)
        ensures
            r == protocol_value(self),
    {
        match self {
            Protocol::ICMP => 1,
            Protocol::TCP => 6,
            Protocol::UDP => 17,
        }
    }
}

/// Address family: the common domains a socket can live in.
#[derive(Copy, Clone, Debug, PartialEq, Eq, Structural)]
pub enum AddrFamily {
    /// Local to host (pipes and file-domain).
    Unix,
    /// IP protocol family.
    Inet,
    /// IP version 6.
    Inet6,
}

/// The numeric address-family constant of the targeted platform.
pub open spec fn addr_family_value(a: AddrFamily) -> i32 {
    match a {
        AddrFamily::Unix => 1,
        AddrFamily::Inet => 2,
        AddrFamily::Inet6 => 10,
    }
}

impl AddrFamily {
    /// This address family as the numeric constant socket calls take.
    pub fn to_c_int(self) -> (r: i32)
        ensures
            r == addr_family_value(self),
    {
        match self {
            AddrFamily::Unix => 1,
            AddrFamily::Inet => 2,
            AddrFamily::Inet6 => 10,
        }
    }
}

} // verus!
