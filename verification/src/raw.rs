//! The raw DNS query builder: a logical header bit-packed into its
//! 12 wire bytes, followed by the QNAME and the question trailer, all
//! in network byte order; and the `Raw` facade that composes a complete
//! single-question request for a configured resolver.
//!
//! The buffer built here is ready to hand to a datagram transport; the
//! socket work itself stays outside this crate.

use vstd::prelude::*;
use vstd::string::StringSliceAdditionalSpecFns;

use crate::addr::{ipv4_of, ipv4_valid, parse_ipv4, Ipv4};
use crate::err::DnsError;
use crate::qname::{encode_qname, qname_encoding, qname_valid};
use crate::wire::{be16, be16_val, flags_word, pack_flags, push_u16_be, read_u16_be};

verus! {

/// QTYPE of an A (host address) question.
pub const QTYPE_A: u16 = 1;

/// QCLASS of an Internet-class question.
pub const QCLASS_IN: u16 = 1;

/// The smallest length a response can have and still hold a header.
pub const MIN_HEADER_LEN: usize = 12;

/// A logical DNS message header: the 16-bit transaction ID, the flag
/// fields, and the four section counts.
///
/// Only the opcode, the response code and the recursion-desired flag
/// enter the flags word this builder writes; the remaining flag fields
/// are carried for the caller but stay zero bits on the wire.
#[derive(Clone, Copy, Debug, PartialEq, Eq, Structural)]
pub struct DnsHeader {
    /// Caller-chosen 16-bit correlation value; occupies the first two
    /// wire bytes, big-endian.
    pub id: u16,
    /// Whether the message is a query.
    pub query: bool,
    /// 4-bit operation code.
    pub opcode: u16,
    /// Authoritative-answer flag.
    pub authoritative: bool,
    /// Truncation flag.
    pub truncated: bool,
    /// Recursion-desired flag; bit 8 of the flags word.
    pub recursion_desired: bool,
    /// Recursion-available flag.
    pub recursion_available: bool,
    /// Authenticated-data flag.
    pub authenticated_data: bool,
    /// Checking-disabled flag.
    pub checking_disabled: bool,
    /// 4-bit response code.
    pub response_code: u8,
    /// Number of question records.
    pub questions: u16,
    /// Number of answer records.
    pub answers: u16,
    /// Number of name-server records.
    pub nameservers: u16,
    /// Number of additional records.
    pub additional: u16,
}

/// The QTYPE and QCLASS trailer of the single A/IN question.
pub open spec fn question_trailer() -> Seq<u8> {
    be16(QTYPE_A) + be16(QCLASS_IN)
}

impl DnsHeader {
    /// Whether the 4-bit fields of the header fit their width.
    pub open spec fn wf(self) -> bool {
        self.opcode < 16 && self.response_code < 16
    }

    /// The flags word of this header: opcode in bits 11-14, the
    /// recursion-desired bit, and the response code in bits 0-3.
    pub open spec fn flags(self) -> u16 {
        flags_word(self.opcode, self.response_code, self.recursion_desired)
    }

    /// The 12 wire bytes of this header: transaction ID, flags word,
    /// and the four counts, each big-endian.
    pub open spec fn header_bytes(self) -> Seq<u8> {
        be16(self.id) + be16(self.flags()) + be16(self.questions) + be16(self.answers) + be16(
            self.nameservers,
        ) + be16(self.additional)
    }

    /// A header's wire form is always exactly 12 bytes.
    pub proof fn lemma_header_len(self)
        ensures
            self.header_bytes().len() == 12,
    {
    }

    /// Appends this header, the QNAME of `name`, and the A/IN question
    /// trailer to `data`: the complete wire form of a single-question
    /// message. Exactly the names whose labels fit in 63 bytes encode;
    /// on a longer label `data` stays untouched.
    pub fn make(&self, data: &mut Vec<u8>, name: &[u8]) -> (r: Result<(), DnsError>)
        requires
            self.wf(),
        ensures
            r is Ok <==> qname_valid(name@),
            r is Ok ==> final(data)@ == old(data)@ + self.header_bytes() + qname_encoding(name@)
                + question_trailer(),
            r is Err ==> final(data)@ == old(data)@ && r == Err::<(), DnsError>(
                DnsError::LabelTooLong,
            ),
    {
        let mut q: Vec<u8> = Vec::new();
        match encode_qname(name, &mut q) {
            Err(e) => {
                return Err(e);
            },
            Ok(()) => {},
        }
        push_u16_be(data, self.id);
        let flags: u16 = pack_flags(self.opcode, self.response_code, self.recursion_desired);
        push_u16_be(data, flags);
        push_u16_be(data, self.questions);
        push_u16_be(data, self.answers);
        push_u16_be(data, self.nameservers);
        push_u16_be(data, self.additional);
        data.append(&mut q);
        push_u16_be(data, QTYPE_A);
        push_u16_be(data, QCLASS_IN);
        proof {
            assert(data@ =~= old(data)@ + self.header_bytes() + qname_encoding(name@)
                + question_trailer());
        }
        Ok(())
    }
}

/// The header of a standard single-question query: opcode 0, recursion
/// desired, one question, no other records.
pub open spec fn query_header(id: u16) -> DnsHeader {
    DnsHeader {
        id,
        query: true,
        opcode: 0,
        authoritative: false,
        truncated: false,
        recursion_desired: true,
        recursion_available: false,
        authenticated_data: false,
        checking_disabled: false,
        response_code: 0,
        questions: 1,
        answers: 0,
        nameservers: 0,
        additional: 0,
    }
}

/// The complete request datagram for a standard A/IN query: the query
/// header, the QNAME, and the question trailer.
pub open spec fn query_bytes(id: u16, name: Seq<u8>) -> Seq<u8> {
    query_header(id).header_bytes() + qname_encoding(name) + question_trailer()
}

/// Builds the complete request buffer for a standard recursive A/IN
/// query on `name` under transaction ID `id`. Fails only on malformed
/// input: the empty name, or a label longer than 63 bytes.
pub fn build_query(id: u16, name: &[u8]) -> (r: Result<Vec<u8>, DnsError>)
    ensures
        r is Ok <==> name@.len() > 0 && qname_valid(name@),
        r matches Ok(buf) ==> buf@ == query_bytes(id, name@),
        r matches Err(e) ==> (e == DnsError::EmptyName && name@.len() == 0) || (e
            == DnsError::LabelTooLong && name@.len() > 0 && !qname_valid(name@)),
{
    if name.len() == 0 {
        return Err(DnsError::EmptyName);
    }
    let header = DnsHeader {
        id,
        query: true,
        opcode: 0,
        authoritative: false,
        truncated: false,
        recursion_desired: true,
        recursion_available: false,
        authenticated_data: false,
        checking_disabled: false,
        response_code: 0,
        questions: 1,
        answers: 0,
        nameservers: 0,
        additional: 0,
    };
    let mut buf: Vec<u8> = Vec::new();
    match header.make(&mut buf, name) {
        Err(e) => Err(e),
        Ok(()) => Ok(buf),
    }
}

/// Round-trip identity on the ID field: the first two bytes of a built
/// query, read back big-endian, are exactly the transaction ID that
/// was supplied.
pub proof fn lemma_query_id_round_trip(id: u16, name: Seq<u8>)
    ensures
        query_bytes(id, name).len() >= 12,
        be16_val(query_bytes(id, name)[0], query_bytes(id, name)[1]) == id,
{
    crate::wire::lemma_be16_round_trip(id);
    assert(query_bytes(id, name)[0] == be16(id)[0]);
    assert(query_bytes(id, name)[1] == be16(id)[1]);
}

/// Checks that a received datagram is long enough to hold a DNS
/// header; anything shorter is fatal for this response.
pub fn check_response(buf: &[u8]) -> (r: Result<(), DnsError>)
    ensures
        r is Ok <==> buf@.len() >= MIN_HEADER_LEN,
        r matches Err(e) ==> e == DnsError::ShortResponse,
{
    if buf.len() >= MIN_HEADER_LEN {
        Ok(())
    } else {
        Err(DnsError::ShortResponse)
    }
}

/// Reads the transaction ID out of a received datagram, for matching a
/// response to its request.
pub fn response_id(buf: &[u8]) -> (r: u16)
    requires
        buf@.len() >= 2,
    ensures
        r == be16_val(buf@[0], buf@[1]),
{
    read_u16_be(buf, 0)
}

/// The well-known public resolver used when none is configured.
pub fn default_dns_server() -> (r: Ipv4)
    ensures
        r == (Ipv4 { a: 8, b: 8, c: 8, d: 8 }),
{
    Ipv4 { a: 8, b: 8, c: 8, d: 8 }
}

/// The request builder for raw queries against a nameserver: holds the
/// configured resolver address and produces ready-to-send request
/// buffers for it.
#[derive(Clone, Copy, Debug, PartialEq, Eq, Structural)]
pub struct Raw {
    /// The resolver the queries are aimed at.
    pub dns: Ipv4,
}

impl Raw {
    /// Configures a resolver from an IPv4 dotted-quad literal. Exactly
    /// the well-formed literals are accepted; an invalid literal is a
    /// configuration error, never a silent fallback to the default.
    pub fn set_dns(dns: &str) -> (r: Result<Raw, DnsError>)
        ensures
            r is Ok <==> ipv4_valid(dns.spec_bytes()),
            r matches Ok(raw) ==> raw.dns == ipv4_of(dns.spec_bytes()),
            r matches Err(e) ==> e == DnsError::InvalidResolver,
    {
        match parse_ipv4(dns.as_bytes()) {
            Ok(ip) => Ok(Raw { dns: ip }),
            Err(e) => Err(e),
        }
    }

    /// Builds the request buffer for a standard recursive A/IN query on
    /// `name` under transaction ID `id`, aimed at this resolver. Fails
    /// only on malformed input: the empty name, or a label longer than
    /// 63 bytes.
    pub fn build(&self, name: &str, id: u16) -> (r: Result<Vec<u8>, DnsError>)
        ensures
            r is Ok <==> name.spec_bytes().len() > 0 && qname_valid(name.spec_bytes()),
            r matches Ok(buf) ==> buf@ == query_bytes(id, name.spec_bytes()),
            r matches Err(e) ==> (e == DnsError::EmptyName && name.spec_bytes().len() == 0) || (e
                == DnsError::LabelTooLong && !qname_valid(name.spec_bytes())),
    {
        build_query(id, name.as_bytes())
    }

    /// Builds the same request buffer against the default resolver.
    pub fn build_default(name: &str, id: u16) -> (r: Result<Vec<u8>, DnsError>)
        ensures
            r is Ok <==> name.spec_bytes().len() > 0 && qname_valid(name.spec_bytes()),
            r matches Ok(buf) ==> buf@ == query_bytes(id, name.spec_bytes()),
            r matches Err(e) ==> (e == DnsError::EmptyName && name.spec_bytes().len() == 0) || (e
                == DnsError::LabelTooLong && !qname_valid(name.spec_bytes())),
    {
        let raw = Raw { dns: default_dns_server() };
        raw.build(name, id)
    }
}

} // verus!
