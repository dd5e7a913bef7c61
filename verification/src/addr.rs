//! IPv4 addresses as plain octets: parsing the dotted-quad literal a
//! resolver is configured with, and the explicit byte layout of the
//! socket-address structure a datagram socket is aimed with.
//!
//! A literal is four decimal parts separated by dots, each one to three
//! digits, at most 255, and without leading zeros. The socket-address
//! layout is written out as a size-checked serialization function
//! rather than any pointer aliasing of operating-system structs.

use vstd::prelude::*;

use crate::err::DnsError;
use crate::qname::{find_sep, labels, lemma_split_acc_label, lemma_split_acc_len, split_acc,
    LABEL_SEP};
use crate::wire::be16;

verus! {

/// An IPv4 address held as its four octets, highest first.
#[derive(Clone, Copy, Debug, PartialEq, Eq, Structural)]
pub struct Ipv4 {
    /// The first (highest) octet.
    pub a: u8,
    /// The second octet.
    pub b: u8,
    /// The third octet.
    pub c: u8,
    /// The fourth (lowest) octet.
    pub d: u8,
}

/// Whether a byte is a decimal digit.
pub open spec fn is_digit(b: u8) -> bool {
    48 <= b <= 57
}

/// The decimal value of a digit string, highest digit first.
pub open spec fn dec_value(p: Seq<u8>) -> int
    decreases p.len(),
{
    if p.len() == 0 {
        0
    } else {
        dec_value(p.drop_last()) * 10 + (p.last() - 48)
    }
}

/// Whether one dotted-quad part is a well-formed octet: one to three
/// decimal digits, no leading zero, value at most 255.
pub open spec fn octet_ok(p: Seq<u8>) -> bool {
    &&& 1 <= p.len() <= 3
    &&& forall|j: int| 0 <= j < p.len() ==> is_digit(#[trigger] p[j])
    &&& p.len() > 1 ==> p[0] != 48
    &&& dec_value(p) <= 255
}

/// Whether a byte string is a valid IPv4 dotted-quad literal: exactly
/// four parts split on dots, each a well-formed octet.
pub open spec fn ipv4_valid(s: Seq<u8>) -> bool {
    &&& labels(s).len() == 4
    &&& forall|k: int| 0 <= k < 4 ==> octet_ok(#[trigger] labels(s)[k])
}

/// The address a valid dotted-quad literal denotes.
pub open spec fn ipv4_of(s: Seq<u8>) -> Ipv4 {
    Ipv4 {
        a: dec_value(labels(s)[0]) as u8,
        b: dec_value(labels(s)[1]) as u8,
        c: dec_value(labels(s)[2]) as u8,
        d: dec_value(labels(s)[3]) as u8,
    }
}

/// The decimal value of a one-digit string.
proof fn lemma_dec_value1(p: Seq<u8>)
    requires
        p.len() == 1,
    ensures
        dec_value(p) == p[0] - 48,
{
    assert(p.drop_last() =~= Seq::<u8>::empty());
    assert(dec_value(Seq::<u8>::empty()) == 0);
}

/// The decimal value of a two-digit string.
proof fn lemma_dec_value2(p: Seq<u8>)
    requires
        p.len() == 2,
    ensures
        dec_value(p) == (p[0] - 48) * 10 + (p[1] - 48),
{
    lemma_dec_value1(p.drop_last());
    assert(p.drop_last()[0] == p[0]);
}

/// The decimal value of a three-digit string.
proof fn lemma_dec_value3(p: Seq<u8>)
    requires
        p.len() == 3,
    ensures
        dec_value(p) == (p[0] - 48) * 100 + (p[1] - 48) * 10 + (p[2] - 48),
{
    lemma_dec_value2(p.drop_last());
    assert(p.drop_last()[0] == p[0] && p.drop_last()[1] == p[1]);
}

/// Reads one dotted-quad part starting at `from`: returns the index of
/// the separator (or end) that closes the part, and its value exactly
/// when the part is a well-formed octet.
#[verifier::loop_isolation(false)]
fn parse_octet(s: &[u8], from: usize) -> (r: (Option<u8>, usize))
    requires
        from <= s@.len(),
    ensures
        ({
            let (v, e) = r;
            &&& from <= e <= s@.len()
            &&& forall|j: int| from <= j < e ==> s@[j] != LABEL_SEP
            &&& e < s@.len() ==> s@[e as int] == LABEL_SEP
            &&& (v is Some <==> octet_ok(s@.subrange(from as int, e as int)))
            &&& (v matches Some(x) ==> x == dec_value(s@.subrange(from as int, e as int)))
        }),
{
    let e: usize = find_sep(s, from);
    let ghost p = s@.subrange(from as int, e as int);
    let ll: usize = e - from;
    if ll == 0 || ll > 3 {
        return (None, e);
    }
    let mut j: usize = from;
    while j < e
        invariant
            from <= j <= e <= s@.len(),
            forall|t: int| from <= t < j ==> is_digit(s@[t]),
        decreases e - j,
    {
        if s[j] < 48 || s[j] > 57 {
            proof {
                assert(p[j - from] == s@[j as int]);
                assert(!is_digit(p[j - from]));
            }
            return (None, e);
        }
        j = j + 1;
    }
    assert(forall|t: int| 0 <= t < p.len() ==> is_digit(#[trigger] p[t]));
    if ll > 1 && s[from] == 48 {
        return (None, e);
    }
    let v: u16 = if ll == 1 {
        proof {
            lemma_dec_value1(p);
        }
        (s[from] - 48) as u16
    } else if ll == 2 {
        proof {
            lemma_dec_value2(p);
        }
        (s[from] - 48) as u16 * 10 + (s[from + 1] - 48) as u16
    } else {
        proof {
            lemma_dec_value3(p);
        }
        (s[from] - 48) as u16 * 100 + (s[from + 1] - 48) as u16 * 10 + (s[from + 2] - 48) as u16
    };
    assert(v == dec_value(p));
    if v > 255 {
        return (None, e);
    }
    (Some(v as u8), e)
}

/// Parses an IPv4 dotted-quad literal. Exactly the well-formed literals
/// parse, to the address they denote; anything else is the resolver
/// configuration error.
pub fn parse_ipv4(s: &[u8]) -> (r: Result<Ipv4, DnsError>)
    ensures
        r is Ok <==> ipv4_valid(s@),
        r matches Ok(ip) ==> ip == ipv4_of(s@),
        r matches Err(e) ==> e == DnsError::InvalidResolver,
{
    let n: usize = s.len();
    let (v0, e0) = parse_octet(s, 0);
    let ghost p0 = s@.subrange(0, e0 as int);
    proof {
        lemma_split_acc_label(s@, 0, e0 as int, Seq::empty());
        assert(Seq::<u8>::empty() + p0 =~= p0);
        assert(labels(s@)[0] == p0);
    }
    if e0 == n {
        proof {
            assert(labels(s@).len() == 1);
        }
        return Err(DnsError::InvalidResolver);
    }
    let a: u8 = match v0 {
        Some(x) => x,
        None => {
            return Err(DnsError::InvalidResolver);
        },
    };
    let i1: usize = e0 + 1;
    let (v1, e1) = parse_octet(s, i1);
    let ghost p1 = s@.subrange(i1 as int, e1 as int);
    proof {
        lemma_split_acc_label(s@, i1 as int, e1 as int, Seq::empty());
        assert(Seq::<u8>::empty() + p1 =~= p1);
        assert(labels(s@)[1] == p1);
    }
    if e1 == n {
        proof {
            assert(labels(s@).len() == 2);
        }
        return Err(DnsError::InvalidResolver);
    }
    let b: u8 = match v1 {
        Some(x) => x,
        None => {
            return Err(DnsError::InvalidResolver);
        },
    };
    let i2: usize = e1 + 1;
    let (v2, e2) = parse_octet(s, i2);
    let ghost p2 = s@.subrange(i2 as int, e2 as int);
    proof {
        lemma_split_acc_label(s@, i2 as int, e2 as int, Seq::empty());
        assert(Seq::<u8>::empty() + p2 =~= p2);
        assert(labels(s@)[2] == p2);
    }
    if e2 == n {
        proof {
            assert(labels(s@).len() == 3);
        }
        return Err(DnsError::InvalidResolver);
    }
    let c: u8 = match v2 {
        Some(x) => x,
        None => {
            return Err(DnsError::InvalidResolver);
        },
    };
    let i3: usize = e2 + 1;
    let (v3, e3) = parse_octet(s, i3);
    let ghost p3 = s@.subrange(i3 as int, e3 as int);
    proof {
        lemma_split_acc_label(s@, i3 as int, e3 as int, Seq::empty());
        assert(Seq::<u8>::empty() + p3 =~= p3);
        assert(labels(s@)[3] == p3);
    }
    if e3 < n {
        proof {
            lemma_split_acc_len(s@, e3 as int + 1, Seq::empty());
            assert(labels(s@).len() >= 5);
        }
        return Err(DnsError::InvalidResolver);
    }
    let d: u8 = match v3 {
        Some(x) => x,
        None => {
            return Err(DnsError::InvalidResolver);
        },
    };
    proof {
        assert(labels(s@).len() == 4);
    }
    Ok(Ipv4 { a, b, c, d })
}

/// The 16 bytes of an AF_INET socket address aimed at `ip` on `port`,
/// as laid out on the little-endian platforms this library targets:
/// the address family 2 in the platform's (little-endian) byte order,
/// the port in network byte order, the four address octets in network
/// order, and eight bytes of zero padding.
pub open spec fn spec_sockaddr_in(ip: Ipv4, port: u16) -> Seq<u8> {
    seq![2u8, 0u8] + be16(port) + seq![ip.a, ip.b, ip.c, ip.d, 0u8, 0u8, 0u8, 0u8, 0u8, 0u8, 0u8, 0u8]
}

/// Serializes the socket-address structure for `ip` and `port` as an
/// explicit, size-checked byte layout.
pub fn sockaddr_in_bytes(ip: &Ipv4, port: u16) -> (r: Vec<u8>)
    ensures
        r@ == spec_sockaddr_in(*ip, port),
        r@.len() == 16,
{
    let mut r: Vec<u8> = Vec::new();
    r.push(2);
    r.push(0);
    r.push((port >> 8) as u8);
    r.push((port & 0xff) as u8);
    r.push(ip.a);
    r.push(ip.b);
    r.push(ip.c);
    r.push(ip.d);
    let mut k: usize = 0;
    while k < 8
        invariant
            k <= 8,
            r@.len() == 8 + k,
            r@ =~= spec_sockaddr_in(*ip, port).take(8 + k as int),
        decreases 8 - k,
    {
        r.push(0);
        k = k + 1;
        proof {
            assert(spec_sockaddr_in(*ip, port)[7 + k as int] == 0u8);
            assert(r@ =~= spec_sockaddr_in(*ip, port).take(8 + k as int));
        }
    }
    proof {
        assert(r@ =~= spec_sockaddr_in(*ip, port));
    }
    r
}

} // verus!
