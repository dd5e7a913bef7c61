//! The hints record an address lookup is narrowed with: optional flag
//! bits, address family, socket type and protocol, each as the numeric
//! value the resolution routine takes, with zero meaning "no
//! preference".

use vstd::prelude::*;

use crate::types::{addr_family_value, protocol_value, sock_type_value, AddrFamily, Protocol,
    SockType};

verus! {

/// The hints argument of an address lookup.
#[derive(Copy, Clone, Debug, PartialEq, Eq, Structural)]
pub struct AddrInfoHints {
    /// Optional bitmask arguments; zero for none.
    pub flags: i32,
    /// Address family for the sockets wanted; zero for any.
    pub address: i32,
    /// Type of the sockets wanted; zero for any.
    pub socktype: i32,
    /// Protocol of the sockets wanted; zero for any.
    pub protocol: i32,
}

impl AddrInfoHints {
    /// Builds hints from the built-in enums: each given value becomes
    /// its numeric constant, each omitted one the zero of "no
    /// preference".
    pub fn new(
        flags: Option<i32>,
        address: Option<AddrFamily>,
        socktype: Option<SockType>,
        protocol: Option<Protocol>,
    ) -> (r: AddrInfoHints)
        ensures
            r.flags == (match flags {
                Some(f) => f,
                None => 0,
            }),
            r.address == (match address {
                Some(a) => addr_family_value(a),
                None => 0,
            }),
            r.socktype == (match socktype {
                Some(s) => sock_type_value(s),
                None => 0,
            }),
            r.protocol == (match protocol {
                Some(p) => protocol_value(p),
                None => 0,
            }),
    {
        AddrInfoHints {
            flags: match flags {
                Some(f) => f,
                None => 0,
            },
            address: match address {
                Some(a) => a.to_c_int(),
                None => 0,
            },
            socktype: match socktype {
                Some(s) => s.to_c_int(),
                None => 0,
            },
            protocol: match protocol {
                Some(p) => p.to_c_int(),
                None => 0,
            },
        }
    }
}

impl Default for AddrInfoHints {
    /// Blank hints: every field zero, so nothing is narrowed.
    fn default() -> (r: Self)
        ensures
            r == (AddrInfoHints { flags: 0, address: 0, socktype: 0, protocol: 0 }),
    {
        AddrInfoHints { flags: 0, address: 0, socktype: 0, protocol: 0 }
    }
}

} // verus!
