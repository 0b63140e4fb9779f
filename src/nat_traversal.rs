//! The pipeline that turns two identifiers into a direct TCP stream:
//! signalling, STUN discovery, offer exchange, hole punching, simultaneous
//! open. This is its state machine, its configuration and its errors; the
//! caller performs each phase's I/O between the transitions.
use vstd::prelude::*;
use vstd::string::StringSliceAdditionalSpecFns;
use crate::probe::{ed25519_public_key, verifying_key_bytes};
use crate::signalling::SignallingError;
use crate::stun::{stun_reason, SocketAddress, StunError};
use crate::tcp_connect::TcpConnectError;

verus! {

/// Where the pipeline stands.
#[derive(Debug, Clone, PartialEq, Eq)]
pub enum ConnectionState {
    Idle,
    ConnectingSignalling,
    Registering,
    StunDiscovery,
    SendingOffer,
    WaitingForOffer,
    UdpHolePunching,
    TcpConnecting,
    Connected,
    Failed(String),
}

/// Whether no transition leaves the state.
pub open spec fn is_terminal(s: ConnectionState) -> bool {
    s is Connected || s is Failed
}

/// The state that follows a completed phase. The pipeline leaves `Idle`
/// only through `begin`, and the terminal states stay.
pub open spec fn next_state(s: ConnectionState) -> ConnectionState {
    match s {
        ConnectionState::ConnectingSignalling => ConnectionState::Registering,
        ConnectionState::Registering => ConnectionState::StunDiscovery,
        ConnectionState::StunDiscovery => ConnectionState::SendingOffer,
        ConnectionState::SendingOffer => ConnectionState::UdpHolePunching,
        ConnectionState::WaitingForOffer => ConnectionState::UdpHolePunching,
        ConnectionState::UdpHolePunching => ConnectionState::TcpConnecting,
        ConnectionState::TcpConnecting => ConnectionState::Connected,
        _ => s,
    }
}

/// Position of a state on the ladder; `Failed` stands above all. No
/// transition lowers it.
pub open spec fn rank(s: ConnectionState) -> int {
    match s {
        ConnectionState::Idle => 0,
        ConnectionState::ConnectingSignalling => 1,
        ConnectionState::Registering => 2,
        ConnectionState::StunDiscovery => 3,
        ConnectionState::SendingOffer => 4,
        ConnectionState::WaitingForOffer => 5,
        ConnectionState::UdpHolePunching => 6,
        ConnectionState::TcpConnecting => 7,
        ConnectionState::Connected => 8,
        ConnectionState::Failed(_) => 9,
    }
}

/// The reason recorded when the phase `s` fails.
pub open spec fn failure_reason(s: ConnectionState) -> Seq<char> {
    match s {
        ConnectionState::ConnectingSignalling => "failed to connect to signalling server"@,
        ConnectionState::Registering => "failed to register with signalling server"@,
        ConnectionState::StunDiscovery => "STUN query failed"@,
        ConnectionState::SendingOffer => "failed to exchange offers"@,
        ConnectionState::WaitingForOffer => "failed to exchange offers"@,
        ConnectionState::UdpHolePunching => "UDP hole punching failed"@,
        ConnectionState::TcpConnecting => "TCP simultaneous open failed"@,
        _ => "pipeline failed"@,
    }
}

/// The failure that ends a pipeline.
#[derive(Debug, Clone, PartialEq, Eq)]
pub enum NatTraversalError {
    /// TCP, TLS or WebSocket upgrade to the broker failed.
    SignallingConnectionFailed,
    /// The broker refused the identifier.
    RegistrationFailed(String),
    /// No usable STUN response.
    StunFailed(String),
    /// No probe from the peer before the deadline.
    HolePunchTimeout,
    /// The TCP handshake did not complete before the deadline.
    SimultaneousOpenTimeout,
    /// A socket could not be set up.
    SocketFailed(String),
    /// An unexpected message at a synchronisation point.
    ProtocolViolation(String),
    /// A malformed input; names the field.
    InvalidConfiguration(String),
}

impl NatTraversalError {
    /// The pipeline's view of a STUN failure.
    pub fn from_stun(e: StunError) -> (r: NatTraversalError)
        ensures
            r matches NatTraversalError::StunFailed(m) && m@ == stun_reason(e),
    {
        NatTraversalError::StunFailed(e.reason())
    }

    /// The pipeline's view of a signalling failure.
    pub fn from_signalling(e: SignallingError) -> (r: NatTraversalError)
        ensures
            r == match e {
                SignallingError::RegistrationFailed(m) => NatTraversalError::RegistrationFailed(m),
                SignallingError::InvalidMessage(m) => NatTraversalError::ProtocolViolation(m),
                _ => NatTraversalError::SignallingConnectionFailed,
            },
    {
        match e {
            SignallingError::RegistrationFailed(m) => NatTraversalError::RegistrationFailed(m),
            SignallingError::InvalidMessage(m) => NatTraversalError::ProtocolViolation(m),
            _ => NatTraversalError::SignallingConnectionFailed,
        }
    }

    /// The pipeline's view of a simultaneous-open failure.
    pub fn from_tcp(e: TcpConnectError) -> (r: NatTraversalError)
        ensures
            r == match e {
                TcpConnectError::Timeout => NatTraversalError::SimultaneousOpenTimeout,
                TcpConnectError::BindFailed(m) => NatTraversalError::SocketFailed(m),
                TcpConnectError::ConnectFailed(m) => NatTraversalError::SocketFailed(m),
            },
    {
        match e {
            TcpConnectError::Timeout => NatTraversalError::SimultaneousOpenTimeout,
            TcpConnectError::BindFailed(m) => NatTraversalError::SocketFailed(m),
            TcpConnectError::ConnectFailed(m) => NatTraversalError::SocketFailed(m),
        }
    }
}

/// What the embedding application supplies.
#[derive(Debug, Clone, PartialEq, Eq)]
pub struct NatTraversalConfig {
    /// `wss://host:port` of the broker.
    pub signalling_url: String,
    pub stun_server_addr: SocketAddress,
    /// This endpoint's identifier.
    pub local_fingerprint: String,
    /// Ed25519 secret key that signs the probes.
    pub signing_key: [u8; 32],
    /// Local TCP port of the simultaneous open (0: ephemeral).
    pub tcp_port: u16,
}

impl NatTraversalConfig {
    /// The verifying key that checks this endpoint's probes.
    pub fn verifying_key(&self) -> (r: [u8; 32])
        ensures
            r@ == ed25519_public_key(self.signing_key@),
    {
        verifying_key_bytes(&self.signing_key)
    }
}

/// One pipeline: its configuration and the state it has reached.
#[derive(Debug)]
pub struct NatTraversal {
    config: NatTraversalConfig,
    state: ConnectionState,
}

impl NatTraversal {
    pub closed spec fn config_spec(&self) -> NatTraversalConfig {
        self.config
    }

    pub closed spec fn state_spec(&self) -> ConnectionState {
        self.state
    }

    /// A pipeline that has not started.
    pub fn new(config: NatTraversalConfig) -> (r: NatTraversal)
        ensures
            r.config_spec() == config,
            r.state_spec() == ConnectionState::Idle,
    {
        NatTraversal { config, state: ConnectionState::Idle }
    }

    /// The current state.
    pub fn state(&self) -> (r: &ConnectionState)
        ensures
            *r == self.state_spec(),
    {
        &self.state
    }

    /// The configuration.
    pub fn config(&self) -> (r: &NatTraversalConfig)
        ensures
            *r == self.config_spec(),
    {
        &self.config
    }

    /// Starts the pipeline towards `peer_fingerprint`: only from `Idle`, and
    /// never towards this endpoint's own identifier.
    pub fn begin(&mut self, peer_fingerprint: &str) -> (r: Result<(), NatTraversalError>)
        ensures
            final(self).config_spec() == old(self).config_spec(),
            rank(final(self).state_spec()) >= rank(old(self).state_spec()),
            !(old(self).state_spec() is Idle) ==> (r matches Err(
                NatTraversalError::ProtocolViolation(m),
            ) && m@ == "pipeline already started"@) && final(self).state_spec() == old(
                self,
            ).state_spec(),
            old(self).state_spec() is Idle && old(self).config_spec().local_fingerprint@
                == peer_fingerprint@ ==> (r matches Err(
                NatTraversalError::InvalidConfiguration(m),
            ) && m@ == "fingerprint"@) && final(self).state_spec() == old(self).state_spec(),
            old(self).state_spec() is Idle && old(self).config_spec().local_fingerprint@
                != peer_fingerprint@ ==> r is Ok && final(self).state_spec()
                == ConnectionState::ConnectingSignalling,
    {
        match self.state {
            ConnectionState::Idle => {},
            _ => {
                return Err(NatTraversalError::ProtocolViolation("pipeline already started".to_owned()));
            },
        }
        let peer = peer_fingerprint.to_owned();
        if self.config.local_fingerprint == peer {
            return Err(NatTraversalError::InvalidConfiguration("fingerprint".to_owned()));
        }
        self.state = ConnectionState::ConnectingSignalling;
        Ok(())
    }

    /// Records that the current phase completed; returns the new state.
    pub fn advance(&mut self) -> (r: &ConnectionState)
        ensures
            final(self).config_spec() == old(self).config_spec(),
            final(self).state_spec() == next_state(old(self).state_spec()),
            rank(final(self).state_spec()) >= rank(old(self).state_spec()),
            *r == final(self).state_spec(),
    {
        let next = match self.state {
            ConnectionState::ConnectingSignalling => ConnectionState::Registering,
            ConnectionState::Registering => ConnectionState::StunDiscovery,
            ConnectionState::StunDiscovery => ConnectionState::SendingOffer,
            ConnectionState::SendingOffer => ConnectionState::UdpHolePunching,
            ConnectionState::WaitingForOffer => ConnectionState::UdpHolePunching,
            ConnectionState::UdpHolePunching => ConnectionState::TcpConnecting,
            ConnectionState::TcpConnecting => ConnectionState::Connected,
            _ => {
                return &self.state;
            },
        };
        self.state = next;
        &self.state
    }

    /// Records that the current phase failed with `error`, which it hands
    /// back; a terminal state stays as it is.
    pub fn fail(&mut self, error: NatTraversalError) -> (r: NatTraversalError)
        ensures
            r == error,
            final(self).config_spec() == old(self).config_spec(),
            rank(final(self).state_spec()) >= rank(old(self).state_spec()),
            is_terminal(old(self).state_spec()) ==> final(self).state_spec() == old(
                self,
            ).state_spec(),
            !is_terminal(old(self).state_spec()) ==> (final(self).state_spec() matches ConnectionState::Failed(
                m,
            ) && m@ == failure_reason(old(self).state_spec())),
    {
        let reason = match self.state {
            ConnectionState::Connected | ConnectionState::Failed(_) => {
                return error;
            },
            ConnectionState::ConnectingSignalling => "failed to connect to signalling server".to_owned(),
            ConnectionState::Registering => "failed to register with signalling server".to_owned(),
            ConnectionState::StunDiscovery => "STUN query failed".to_owned(),
            ConnectionState::SendingOffer => "failed to exchange offers".to_owned(),
            ConnectionState::WaitingForOffer => "failed to exchange offers".to_owned(),
            ConnectionState::UdpHolePunching => "UDP hole punching failed".to_owned(),
            ConnectionState::TcpConnecting => "TCP simultaneous open failed".to_owned(),
            ConnectionState::Idle => "pipeline failed".to_owned(),
        };
        self.state = ConnectionState::Failed(reason);
        error
    }
}

/// Byte-wise lexicographic order, the order of `str`.
pub open spec fn bytes_lt(a: Seq<u8>, b: Seq<u8>) -> bool
    decreases a.len(),
{
    if b.len() == 0 {
        false
    } else if a.len() == 0 {
        true
    } else if a[0] != b[0] {
        a[0] < b[0]
    } else {
        bytes_lt(a.drop_first(), b.drop_first())
    }
}

/// Whether this endpoint starts the session on the stream: the one with the
/// smaller identifier does.
pub fn is_initiator(local_fingerprint: &str, peer_fingerprint: &str) -> (r: bool)
    ensures
        r == bytes_lt(local_fingerprint.spec_bytes(), peer_fingerprint.spec_bytes()),
{
    let a = local_fingerprint.as_bytes();
    let b = peer_fingerprint.as_bytes();
    let mut i: usize = 0;
    assert(a@.subrange(0, a@.len() as int) =~= a@);
    assert(b@.subrange(0, b@.len() as int) =~= b@);
    while i < a.len() && i < b.len()
        invariant
            a@ == local_fingerprint.spec_bytes(),
            b@ == peer_fingerprint.spec_bytes(),
            i <= a@.len(),
            i <= b@.len(),
            bytes_lt(a@, b@) == bytes_lt(a@.subrange(i as int, a@.len() as int), b@.subrange(i as int, b@.len() as int)),
        decreases a@.len() - i,
    {
        if a[i] != b[i] {
            assert(a@.subrange(i as int, a@.len() as int)[0] == a@[i as int]);
            assert(b@.subrange(i as int, b@.len() as int)[0] == b@[i as int]);
            return a[i] < b[i];
        }
        assert(a@.subrange(i as int, a@.len() as int).drop_first() =~= a@.subrange(i + 1, a@.len() as int));
        assert(b@.subrange(i as int, b@.len() as int).drop_first() =~= b@.subrange(i + 1, b@.len() as int));
        i = i + 1;
    }
    i < b.len()
}

/// Of two different identifiers exactly one is the smaller, so the two
/// peers agree on who initiates: when `a < b`, the side of `a` initiates and
/// the side of `b` does not.
pub proof fn lemma_one_initiator(a: Seq<u8>, b: Seq<u8>)
    ensures
        bytes_lt(a, b) ==> !bytes_lt(b, a),
        a != b ==> bytes_lt(a, b) || bytes_lt(b, a),
        !bytes_lt(a, a),
    decreases a.len(),
{
    if a.len() > 0 && b.len() > 0 && a[0] == b[0] {
        lemma_one_initiator(a.drop_first(), b.drop_first());
        if a != b {
            assert(a =~= seq![a[0]] + a.drop_first());
            assert(b =~= seq![b[0]] + b.drop_first());
        }
    }
    if a.len() > 0 {
        lemma_one_initiator(a.drop_first(), a.drop_first());
    }
    if a.len() == 0 && b.len() == 0 {
        assert(a =~= b);
    }
}

} // verus!
