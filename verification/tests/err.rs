use dns_lookup::{lookup_errno, DnsError, LookupError};

#[test]
fn test_lookup_errno_zero_is_ok() {
    assert_eq!(lookup_errno(0), Ok(()));
}

#[test]
fn test_lookup_errno_nonzero_carries_code() {
    assert_eq!(lookup_errno(5), Err(LookupError { code: 5 }));
    assert_eq!(lookup_errno(-2), Err(LookupError { code: -2 }));
}

#[test]
fn test_error_messages_nonempty() {
    let errors = [
        DnsError::EmptyName,
        DnsError::LabelTooLong,
        DnsError::InvalidResolver,
        DnsError::Transport { code: -1 },
        DnsError::ShortResponse,
    ];
    for e in errors.iter() {
        assert!(!e.message().is_empty());
    }
}
