use dns_lookup::qname::encode_qname;
use dns_lookup::raw::{build_query, check_response, response_id};
use dns_lookup::{DnsError, DnsHeader, Raw};

// The repository's end-to-end expectation, asserted on the request this
// builder constructs (the captured-response form of the flags cannot be
// reproduced without a live nameserver): after the two ID bytes come
// the query flags with recursion desired, one question, no other
// records, the QNAME of google.com, and the A/IN trailer.
#[test]
fn test_build_google_request() {
    let expected: Vec<u8> = vec![
        1, 0, 0, 1, 0, 0, 0, 0, 0, 0, 6, 103, 111, 111, 103, 108, 101, 3, 99, 111, 109, 0, 0, 1,
        0, 1,
    ];
    let raw = Raw::set_dns("8.8.4.4").unwrap();
    let result = raw.build("google.com", 0x1234).unwrap();
    assert_eq!(result.len(), 28);
    assert_eq!(result[0], 0x12);
    assert_eq!(result[1], 0x34);
    assert_eq!(&result[2..], &expected[..]);
}

#[test]
fn test_build_default_same_bytes() {
    let raw = Raw::set_dns("8.8.4.4").unwrap();
    let a = raw.build("google.com", 7).unwrap();
    let b = Raw::build_default("google.com", 7).unwrap();
    assert_eq!(a, b);
}

#[test]
fn test_build_deterministic() {
    let a = build_query(999, "example.org".as_bytes()).unwrap();
    let b = build_query(999, "example.org".as_bytes()).unwrap();
    assert_eq!(a, b);
}

#[test]
fn test_qname_google_bytes() {
    let mut buf: Vec<u8> = Vec::new();
    encode_qname("google.com".as_bytes(), &mut buf).unwrap();
    assert_eq!(buf, vec![6, 103, 111, 111, 103, 108, 101, 3, 99, 111, 109, 0]);
}

#[test]
fn test_label_63_encodes() {
    let label = "a".repeat(63);
    let name = format!("{}.com", label);
    let result = build_query(1, name.as_bytes()).unwrap();
    // length byte of the first label
    assert_eq!(result[12], 63);
    assert_eq!(result.len(), 12 + 1 + 63 + 1 + 3 + 1 + 4);
}

#[test]
fn test_label_64_rejected() {
    let label = "a".repeat(64);
    let name = format!("{}.com", label);
    assert_eq!(
        build_query(1, name.as_bytes()),
        Err(DnsError::LabelTooLong)
    );
    let mut buf: Vec<u8> = vec![9];
    assert_eq!(
        encode_qname(label.as_bytes(), &mut buf),
        Err(DnsError::LabelTooLong)
    );
    // a rejected name leaves the buffer untouched
    assert_eq!(buf, vec![9]);
}

#[test]
fn test_empty_name_policy() {
    // the encoder maps the empty name to the root label ...
    let mut buf: Vec<u8> = Vec::new();
    encode_qname("".as_bytes(), &mut buf).unwrap();
    assert_eq!(buf, vec![0]);
    // ... while the single-question builder rejects it
    assert_eq!(build_query(1, "".as_bytes()), Err(DnsError::EmptyName));
    let raw = Raw::set_dns("8.8.4.4").unwrap();
    assert_eq!(raw.build("", 1), Err(DnsError::EmptyName));
}

#[test]
fn test_trailing_dot_ignored() {
    let mut a: Vec<u8> = Vec::new();
    let mut b: Vec<u8> = Vec::new();
    encode_qname("google.com.".as_bytes(), &mut a).unwrap();
    encode_qname("google.com".as_bytes(), &mut b).unwrap();
    assert_eq!(a, b);
}

#[test]
fn test_id_round_trip() {
    let buf = build_query(0xBEEF, "example.com".as_bytes()).unwrap();
    assert_eq!(response_id(&buf), 0xBEEF);
    let buf0 = build_query(0, "example.com".as_bytes()).unwrap();
    assert_eq!(response_id(&buf0), 0);
}

#[test]
fn test_header_make_bytes() {
    let header = DnsHeader {
        id: 0xABCD,
        query: true,
        opcode: 2,
        authoritative: false,
        truncated: false,
        recursion_desired: false,
        recursion_available: false,
        authenticated_data: false,
        checking_disabled: false,
        response_code: 3,
        questions: 1,
        answers: 2,
        nameservers: 3,
        additional: 4,
    };
    let mut data: Vec<u8> = Vec::new();
    header.make(&mut data, "ab".as_bytes()).unwrap();
    let expected: Vec<u8> = vec![
        0xAB, 0xCD, // id
        0x10, 0x03, // flags: opcode 2 << 11, rcode 3, no recursion bit
        0, 1, 0, 2, 0, 3, 0, 4, // counts
        2, 97, 98, 0, // qname "ab"
        0, 1, 0, 1, // qtype, qclass
    ];
    assert_eq!(data, expected);
}

#[test]
fn test_check_response_length() {
    let short: Vec<u8> = vec![0; 11];
    assert_eq!(check_response(&short), Err(DnsError::ShortResponse));
    let exact: Vec<u8> = vec![0; 12];
    assert_eq!(check_response(&exact), Ok(()));
    let long: Vec<u8> = vec![0; 512];
    assert_eq!(check_response(&long), Ok(()));
}
