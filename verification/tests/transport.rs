use dns_lookup::transport::{
    transport_outcome, transport_start, transport_step, TransportAction, TransportPhase,
};
use dns_lookup::DnsError;

// Drives one full run of the transport state machine, handing back the
// given return codes one per performed call, and returns the terminal
// phase together with how many closes were requested.
fn drive(mut rcs: Vec<i64>) -> (TransportPhase, usize) {
    rcs.reverse();
    assert_eq!(transport_start(), TransportAction::Open);
    let mut phase = TransportPhase::Ready;
    let mut closes = 0;
    let mut steps = 0;
    loop {
        let rc = rcs.pop().unwrap_or(0);
        let (next, action) = transport_step(&phase, rc);
        phase = next;
        steps += 1;
        assert!(steps <= 6, "a run must stop within six steps");
        match action {
            TransportAction::Close => closes += 1,
            TransportAction::Stop => break,
            _ => {}
        }
    }
    (phase, closes)
}

#[test]
fn test_transport_success_path() {
    // open fd 3, bind ok, send 28 bytes, receive 512 bytes, close ok
    let (phase, closes) = drive(vec![3, 0, 28, 512, 0]);
    assert_eq!(phase, TransportPhase::DoneOk { len: 512 });
    assert_eq!(closes, 1);
    assert_eq!(transport_outcome(&phase), Ok(512));
}

#[test]
fn test_transport_open_failure() {
    // no socket was created, so no close is owed
    let (phase, closes) = drive(vec![-1]);
    assert_eq!(phase, TransportPhase::DoneErr { code: -1 });
    assert_eq!(closes, 0);
    assert_eq!(
        transport_outcome(&phase),
        Err(DnsError::Transport { code: -1 })
    );
}

#[test]
fn test_transport_bind_failure_closes() {
    let (phase, closes) = drive(vec![3, -13, 0]);
    assert_eq!(phase, TransportPhase::DoneErr { code: -13 });
    assert_eq!(closes, 1);
}

#[test]
fn test_transport_send_failure_closes() {
    let (phase, closes) = drive(vec![3, 0, -32, 0]);
    assert_eq!(phase, TransportPhase::DoneErr { code: -32 });
    assert_eq!(closes, 1);
}

#[test]
fn test_transport_recv_failure_closes() {
    let (phase, closes) = drive(vec![3, 0, 28, -11, 0]);
    assert_eq!(phase, TransportPhase::DoneErr { code: -11 });
    assert_eq!(closes, 1);
    assert_eq!(
        transport_outcome(&phase),
        Err(DnsError::Transport { code: -11 })
    );
}

#[test]
fn test_transport_empty_recv_is_failure() {
    let (phase, closes) = drive(vec![3, 0, 28, 0, 0]);
    assert_eq!(phase, TransportPhase::DoneErr { code: 0 });
    assert_eq!(closes, 1);
}

// The socket-lifecycle discipline under repetition: a thousand
// consecutive exchanges against a resolver that never answers leave no
// socket behind — every single run requests exactly one close before
// it stops.
#[test]
fn test_transport_thousand_failures_no_leak() {
    let mut open_sockets: i64 = 0;
    for k in 0..1000i64 {
        let mut phase = TransportPhase::Ready;
        let mut rc: i64 = 3; // the open call returns a descriptor
        open_sockets += 1;
        loop {
            let (next, action) = transport_step(&phase, rc);
            phase = next;
            match action {
                TransportAction::Bind => rc = 0,
                TransportAction::Send => rc = 28,
                TransportAction::Recv => rc = -101 - (k % 3), // unreachable resolver
                TransportAction::Close => {
                    open_sockets -= 1;
                    rc = 0;
                }
                TransportAction::Stop => break,
                TransportAction::Open => rc = 3,
            }
        }
        assert!(matches!(phase, TransportPhase::DoneErr { .. }));
    }
    assert_eq!(open_sockets, 0);
}
