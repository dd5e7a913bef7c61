use dns_lookup::{AddrFamily, AddrInfoHints, Protocol, SockType};

#[test]
fn test_addrinfohints() {
    assert_eq!(
        AddrInfoHints {
            flags: 1,
            address: AddrFamily::Inet.to_c_int(),
            socktype: SockType::Stream.to_c_int(),
            ..AddrInfoHints::default()
        },
        AddrInfoHints::new(
            Some(1),
            Some(AddrFamily::Inet),
            Some(SockType::Stream),
            None
        )
    );

    assert_eq!(
        AddrInfoHints {
            address: AddrFamily::Inet.to_c_int(),
            socktype: SockType::Stream.to_c_int(),
            ..AddrInfoHints::default()
        },
        AddrInfoHints::new(None, Some(AddrFamily::Inet), Some(SockType::Stream), None)
    );
}

#[test]
fn test_addrinfohints_default_is_blank() {
    let d = AddrInfoHints::default();
    assert_eq!(d.flags, 0);
    assert_eq!(d.address, 0);
    assert_eq!(d.socktype, 0);
    assert_eq!(d.protocol, 0);
}

#[test]
fn test_addrinfohints_protocol() {
    let h = AddrInfoHints::new(None, None, None, Some(Protocol::UDP));
    assert_eq!(h.protocol, Protocol::UDP.to_c_int());
    assert_eq!(h.flags, 0);
    assert_eq!(h.address, 0);
    assert_eq!(h.socktype, 0);
}

#[test]
fn test_type_constants() {
    assert_eq!(SockType::Stream.to_c_int(), 1);
    assert_eq!(SockType::DGram.to_c_int(), 2);
    assert_eq!(SockType::Raw.to_c_int(), 3);
    assert_eq!(SockType::RDM.to_c_int(), 4);
    assert_eq!(Protocol::ICMP.to_c_int(), 1);
    assert_eq!(Protocol::TCP.to_c_int(), 6);
    assert_eq!(Protocol::UDP.to_c_int(), 17);
    assert_eq!(AddrFamily::Unix.to_c_int(), 1);
    assert_eq!(AddrFamily::Inet.to_c_int(), 2);
    assert_eq!(AddrFamily::Inet6.to_c_int(), 10);
}
