use dns_lookup::addr::{parse_ipv4, sockaddr_in_bytes};
use dns_lookup::{DnsError, Ipv4, Raw};

#[test]
fn test_parse_ipv4_valid() {
    assert_eq!(
        parse_ipv4("8.8.4.4".as_bytes()),
        Ok(Ipv4 { a: 8, b: 8, c: 4, d: 4 })
    );
    assert_eq!(
        parse_ipv4("127.0.0.1".as_bytes()),
        Ok(Ipv4 { a: 127, b: 0, c: 0, d: 1 })
    );
    assert_eq!(
        parse_ipv4("255.255.255.255".as_bytes()),
        Ok(Ipv4 { a: 255, b: 255, c: 255, d: 255 })
    );
    assert_eq!(
        parse_ipv4("0.0.0.0".as_bytes()),
        Ok(Ipv4 { a: 0, b: 0, c: 0, d: 0 })
    );
    assert_eq!(
        parse_ipv4("192.168.0.1".as_bytes()),
        Ok(Ipv4 { a: 192, b: 168, c: 0, d: 1 })
    );
}

#[test]
fn test_parse_ipv4_invalid() {
    let bad = [
        "",
        "8",
        "8.8",
        "8.8.4",
        "8.8.4.4.4",
        "8.8.4.4.",
        ".8.8.4.4",
        "256.0.0.1",
        "1.2.3.999",
        "01.2.3.4",
        "1.2.3.00",
        "a.b.c.d",
        "1..2.3",
        "1.2.3.4x",
        "1234.5.6.7",
    ];
    for s in bad.iter() {
        assert_eq!(parse_ipv4(s.as_bytes()), Err(DnsError::InvalidResolver));
    }
}

#[test]
fn test_set_dns() {
    let raw = Raw::set_dns("8.8.4.4").unwrap();
    assert_eq!(raw.dns, Ipv4 { a: 8, b: 8, c: 4, d: 4 });
    assert_eq!(Raw::set_dns("not an ip"), Err(DnsError::InvalidResolver));
    assert_eq!(Raw::set_dns("999.0.0.1"), Err(DnsError::InvalidResolver));
}

#[test]
fn test_sockaddr_layout() {
    let ip = Ipv4 { a: 8, b: 8, c: 4, d: 4 };
    let bytes = sockaddr_in_bytes(&ip, 53);
    assert_eq!(
        bytes,
        vec![2, 0, 0, 53, 8, 8, 4, 4, 0, 0, 0, 0, 0, 0, 0, 0]
    );
    let high_port = sockaddr_in_bytes(&Ipv4 { a: 127, b: 0, c: 0, d: 1 }, 0xABCD);
    assert_eq!(
        high_port,
        vec![2, 0, 0xAB, 0xCD, 127, 0, 0, 1, 0, 0, 0, 0, 0, 0, 0, 0]
    );
    assert_eq!(high_port.len(), 16);
}
