//! Error taxonomy of the library.
//!
//! Validation errors (a malformed domain name or resolver literal) are
//! returned before any network work; transport errors carry the
//! operating-system error code of the failed socket call; a short
//! response is one below the 12-byte header minimum, fatal for that
//! response only.

use vstd::prelude::*;

verus! {

/// An error of query construction or of the one-shot UDP exchange.
#[derive(Clone, Copy, Debug, PartialEq, Eq, Structural)]
pub enum DnsError {
    /// The domain name was empty; the single-question builder rejects it.
    EmptyName,
    /// A label of the domain name exceeds 63 bytes.
    LabelTooLong,
    /// The resolver address was not a valid IPv4 dotted-quad literal.
    InvalidResolver,
    /// A socket call failed; carries the code the call returned.
    Transport { code: i64 },
    /// A response shorter than the 12-byte header minimum.
    ShortResponse,
}

impl DnsError {
    /// A short description of the error, for diagnostics.
    pub fn message(&self) -> (r: &'static str)
        ensures
            r@.len() > 0,
    {
        let s: &'static str = match self {
            DnsError::EmptyName => "empty domain name",
            DnsError::LabelTooLong => "domain name label longer than 63 bytes",
            DnsError::InvalidResolver => "invalid resolver address literal",
            DnsError::Transport { .. } => "socket operation failed",
            DnsError::ShortResponse => "response shorter than a DNS header",
        };
        proof {
            reveal_strlit("empty domain name");
            reveal_strlit("domain name label longer than 63 bytes");
            reveal_strlit("invalid resolver address literal");
            reveal_strlit("socket operation failed");
            reveal_strlit("response shorter than a DNS header");
        }
        s
    }
}

/// A failed address lookup, carrying the status code that the
/// resolution routine reported.
#[derive(Clone, Copy, Debug, PartialEq, Eq, Structural)]
pub struct LookupError {
    /// The nonzero status code of the failed lookup.
    pub code: i32,
}

/// Given a lookup status code, return `Ok` exactly on the zero
/// (success) code, and otherwise an error carrying the code.
pub fn lookup_errno(err: i32) -> (r: Result<(), LookupError>)
    ensures
        err == 0 <==> r is Ok,
        r matches Err(e) ==> e.code == err,
{
    match err {
        0 => Ok(()),
        _ => Err(LookupError { code: err }),
    }
}

} // verus!
