use pineapple::ffi::{self, ByteBuffer};
use pineapple::hole_punching::{
    deadline_passed, HolePunchSchedule, PunchStep, ReceiveEvent, ReceiveOutcome,
    DEFAULT_PUNCH_TIMEOUT_MS,
};
use pineapple::nat_traversal::{
    is_initiator, ConnectionState, NatTraversal, NatTraversalConfig, NatTraversalError,
};
use pineapple::probe::ProbePacket;
use pineapple::stun::{IpAddress, SocketAddress};
use pineapple::tcp_connect::{
    listen_connect_step, ListenAction, ListenEvent, ConnectResult, OpenAction, OpenEvent, OpenPhase, SimultaneousOpen, TcpConnectError,
    DEFAULT_TCP_TIMEOUT_MS,
};

fn config(fp: &str) -> NatTraversalConfig {
    NatTraversalConfig {
        signalling_url: "wss://broker.example:8443".to_string(),
        stun_server_addr: SocketAddress { ip: IpAddress::V4(vec![192, 0, 2, 1]), port: 3478 },
        local_fingerprint: fp.to_string(),
        signing_key: [3u8; 32],
        tcp_port: 0,
    }
}

#[test]
fn self_connect_is_refused() {
    let mut nat = NatTraversal::new(config("alice"));
    assert_eq!(
        nat.begin("alice"),
        Err(NatTraversalError::InvalidConfiguration("fingerprint".to_string()))
    );
    assert_eq!(nat.state(), &ConnectionState::Idle);
}

#[test]
fn happy_path_ladder_reaches_connected() {
    let mut nat = NatTraversal::new(config("alice"));
    assert_eq!(nat.state(), &ConnectionState::Idle);
    nat.begin("bob").unwrap();
    assert_eq!(nat.state(), &ConnectionState::ConnectingSignalling);
    let ladder = [
        ConnectionState::Registering,
        ConnectionState::StunDiscovery,
        ConnectionState::SendingOffer,
        ConnectionState::UdpHolePunching,
        ConnectionState::TcpConnecting,
        ConnectionState::Connected,
    ];
    for expected in ladder.iter() {
        assert_eq!(nat.advance(), expected);
    }
    assert_eq!(nat.advance(), &ConnectionState::Connected);
    assert_eq!(
        nat.begin("bob"),
        Err(NatTraversalError::ProtocolViolation("pipeline already started".to_string()))
    );
}

#[test]
fn probe_never_arrives() {
    let mut nat = NatTraversal::new(config("alice"));
    nat.begin("bob").unwrap();
    for _ in 0..4 {
        nat.advance();
    }
    assert_eq!(nat.state(), &ConnectionState::UdpHolePunching);
    let mut schedule = HolePunchSchedule::new(DEFAULT_PUNCH_TIMEOUT_MS);
    assert_eq!(schedule.poll(30_000), PunchStep::Continue { send_burst: true });
    assert_eq!(schedule.poll(30_001), PunchStep::TimedOut);
    let e = nat.fail(NatTraversalError::HolePunchTimeout);
    assert_eq!(e, NatTraversalError::HolePunchTimeout);
    assert_eq!(nat.state(), &ConnectionState::Failed("UDP hole punching failed".to_string()));
    nat.fail(NatTraversalError::SimultaneousOpenTimeout);
    assert_eq!(nat.state(), &ConnectionState::Failed("UDP hole punching failed".to_string()));
    assert_eq!(nat.advance(), &ConnectionState::Failed("UDP hole punching failed".to_string()));
}

#[test]
fn stun_failure_is_recorded_with_phase() {
    let mut nat = NatTraversal::new(config("alice"));
    nat.begin("bob").unwrap();
    nat.advance();
    nat.advance();
    nat.fail(NatTraversalError::StunFailed("timeout".to_string()));
    assert_eq!(nat.state(), &ConnectionState::Failed("STUN query failed".to_string()));
}

#[test]
fn smaller_identifier_initiates_on_both_sides() {
    assert!(is_initiator("alice", "bob"));
    assert!(!is_initiator("bob", "alice"));
    assert!(is_initiator("al", "alice"));
    assert!(!is_initiator("alice", "al"));
    assert!(!is_initiator("same", "same"));
}

#[test]
fn burst_schedule() {
    let mut s = HolePunchSchedule::new(1000);
    assert_eq!(s.poll(0), PunchStep::Continue { send_burst: false });
    assert_eq!(s.poll(200), PunchStep::Continue { send_burst: false });
    assert_eq!(s.poll(201), PunchStep::Continue { send_burst: true });
    assert_eq!(s.last_send_ms, 201);
    assert_eq!(s.poll(300), PunchStep::Continue { send_burst: false });
    assert_eq!(s.poll(402), PunchStep::Continue { send_burst: true });
    assert_eq!(s.poll(1000), PunchStep::Continue { send_burst: true });
    assert_eq!(s.poll(1001), PunchStep::TimedOut);
    assert!(deadline_passed(11, 10));
    assert!(!deadline_passed(10, 10));
}

#[test]
fn received_probe_gives_peer_port() {
    let probe = ProbePacket::signed(1, 40123, &[5u8; 32]).to_bytes();
    assert_eq!(
        HolePunchSchedule::on_receive(&ReceiveEvent::Datagram(probe.clone())),
        ReceiveOutcome::PeerPort(40123)
    );
    assert_eq!(
        HolePunchSchedule::on_receive(&ReceiveEvent::Datagram(probe[..77].to_vec())),
        ReceiveOutcome::Retry
    );
    assert_eq!(HolePunchSchedule::on_receive(&ReceiveEvent::WouldBlock), ReceiveOutcome::Sleep(10));
    assert_eq!(HolePunchSchedule::on_receive(&ReceiveEvent::Failed), ReceiveOutcome::Retry);
}

#[test]
fn direct_connect_wins_the_race() {
    let mut open = SimultaneousOpen::new(DEFAULT_TCP_TIMEOUT_MS);
    assert_eq!(open.step(OpenEvent::DirectConnected), OpenAction::UseStream);
    assert_eq!(open.phase, OpenPhase::Done);
}

#[test]
fn simultaneous_open_completes_after_polling() {
    let mut open = SimultaneousOpen::new(10_000);
    assert_eq!(open.step(OpenEvent::DirectFailed), OpenAction::OpenReusedPort);
    assert_eq!(
        open.step(OpenEvent::ConnectReturned(ConnectResult::InProgress)),
        OpenAction::Wait(0)
    );
    assert_eq!(
        open.step(OpenEvent::Polled { elapsed_ms: 600, established: false }),
        OpenAction::Wait(100)
    );
    assert_eq!(
        open.step(OpenEvent::Polled { elapsed_ms: 700, established: true }),
        OpenAction::UseStream
    );
    assert_eq!(open.phase, OpenPhase::Done);
}

#[test]
fn simultaneous_open_failures() {
    let mut open = SimultaneousOpen::new(10_000);
    open.step(OpenEvent::DirectFailed);
    open.step(OpenEvent::ConnectReturned(ConnectResult::InProgress));
    assert_eq!(
        open.step(OpenEvent::Polled { elapsed_ms: 10_001, established: true }),
        OpenAction::Fail(TcpConnectError::Timeout)
    );
    let mut refused = SimultaneousOpen::new(10_000);
    refused.step(OpenEvent::DirectFailed);
    assert_eq!(
        refused.step(OpenEvent::ConnectReturned(ConnectResult::Refused("denied".to_string()))),
        OpenAction::Fail(TcpConnectError::ConnectFailed("denied".to_string()))
    );
    let mut unbound = SimultaneousOpen::new(10_000);
    unbound.step(OpenEvent::DirectFailed);
    assert_eq!(
        unbound.step(OpenEvent::BindFailed("in use".to_string())),
        OpenAction::Fail(TcpConnectError::BindFailed("in use".to_string()))
    );
    let mut early = SimultaneousOpen::new(10_000);
    assert_eq!(
        early.step(OpenEvent::Polled { elapsed_ms: 0, established: true }),
        OpenAction::Fail(TcpConnectError::ConnectFailed("event out of order".to_string()))
    );
    assert_eq!(
        NatTraversalError::from_tcp(TcpConnectError::Timeout),
        NatTraversalError::SimultaneousOpenTimeout
    );
}

#[test]
fn config_verifying_key_matches_secret() {
    let c = config("alice");
    let expected = ed25519_dalek::SigningKey::from_bytes(&[3u8; 32]).verifying_key().to_bytes();
    assert_eq!(c.verifying_key(), expected);
    let p = ProbePacket::signed(8, 9, &c.signing_key);
    assert_eq!(p.verify(&c.verifying_key()), Ok(()));
}

#[test]
fn byte_buffers() {
    let b = ByteBuffer::from_vec(vec![1, 2, 3]);
    assert_eq!(b.len(), 3);
    assert_eq!(b.into_vec(), vec![1, 2, 3]);
    assert_eq!(ByteBuffer::empty().len(), 0);
}

#[test]
fn plain_states_and_names() {
    let failed = ConnectionState::Failed("x".to_string());
    assert_eq!(ffi::ConnectionState::from_state(&failed), ffi::ConnectionState::Failed);
    assert_eq!(
        ffi::ConnectionState::from_state(&ConnectionState::StunDiscovery),
        ffi::ConnectionState::StunDiscovery
    );
    assert_eq!(ffi::ConnectionState::StunDiscovery.name(), "STUN discovery");
    assert_eq!(ffi::ConnectionState::ConnectingSignalling.name(), "Connecting to signalling");
}

#[test]
fn listen_and_connect_turns() {
    assert_eq!(listen_connect_step(1000, ListenEvent::Turn { elapsed_ms: 1000 }), ListenAction::TryAccept);
    assert_eq!(listen_connect_step(1000, ListenEvent::Turn { elapsed_ms: 1001 }), ListenAction::TimedOut);
    assert_eq!(listen_connect_step(1000, ListenEvent::Accepted), ListenAction::UseAccepted);
    assert_eq!(listen_connect_step(1000, ListenEvent::NothingAccepted), ListenAction::TryConnect);
    assert_eq!(listen_connect_step(1000, ListenEvent::Connected), ListenAction::UseOutbound);
    assert_eq!(listen_connect_step(1000, ListenEvent::ConnectFailed), ListenAction::Wait(100));
}
