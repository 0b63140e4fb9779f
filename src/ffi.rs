//! Plain-value forms of what the C interface hands across: byte buffers,
//! handles and a payload-free connection state.
use vstd::prelude::*;
use crate::nat_traversal;

verus! {

/// Opaque handle of a pipeline on the C side.
pub struct NatTraversalHandle {
    _private: [u8; 0],
}

/// Opaque handle of a session on the C side.
pub struct SessionHandle {
    _private: [u8; 0],
}

/// The pipeline's state without the failure reason.
#[derive(Debug, Clone, Copy, PartialEq, Eq, Structural)]
pub enum ConnectionState {
    Idle,
    ConnectingSignalling,
    Registering,
    StunDiscovery,
    SendingOffer,
    WaitingForOffer,
    UdpHolePunching,
    TcpConnecting,
    Connected,
    Failed,
}

/// The payload-free form of a pipeline state.
pub open spec fn plain_state(s: nat_traversal::ConnectionState) -> ConnectionState {
    match s {
        nat_traversal::ConnectionState::Idle => ConnectionState::Idle,
        nat_traversal::ConnectionState::ConnectingSignalling => ConnectionState::ConnectingSignalling,
        nat_traversal::ConnectionState::Registering => ConnectionState::Registering,
        nat_traversal::ConnectionState::StunDiscovery => ConnectionState::StunDiscovery,
        nat_traversal::ConnectionState::SendingOffer => ConnectionState::SendingOffer,
        nat_traversal::ConnectionState::WaitingForOffer => ConnectionState::WaitingForOffer,
        nat_traversal::ConnectionState::UdpHolePunching => ConnectionState::UdpHolePunching,
        nat_traversal::ConnectionState::TcpConnecting => ConnectionState::TcpConnecting,
        nat_traversal::ConnectionState::Connected => ConnectionState::Connected,
        nat_traversal::ConnectionState::Failed(_) => ConnectionState::Failed,
    }
}

/// The display name of each state.
pub open spec fn state_name(s: ConnectionState) -> Seq<char> {
    match s {
        ConnectionState::Idle => "Idle"@,
        ConnectionState::ConnectingSignalling => "Connecting to signalling"@,
        ConnectionState::Registering => "Registering"@,
        ConnectionState::StunDiscovery => "STUN discovery"@,
        ConnectionState::SendingOffer => "Sending offer"@,
        ConnectionState::WaitingForOffer => "Waiting for offer"@,
        ConnectionState::UdpHolePunching => "UDP hole punching"@,
        ConnectionState::TcpConnecting => "TCP connecting"@,
        ConnectionState::Connected => "Connected"@,
        ConnectionState::Failed => "Failed"@,
    }
}

impl ConnectionState {
    /// Drops the failure reason of a pipeline state.
    pub fn from_state(s: &nat_traversal::ConnectionState) -> (r: ConnectionState)
        ensures
            r == plain_state(*s),
    {
        match s {
            nat_traversal::ConnectionState::Idle => ConnectionState::Idle,
            nat_traversal::ConnectionState::ConnectingSignalling => ConnectionState::ConnectingSignalling,
            nat_traversal::ConnectionState::Registering => ConnectionState::Registering,
            nat_traversal::ConnectionState::StunDiscovery => ConnectionState::StunDiscovery,
            nat_traversal::ConnectionState::SendingOffer => ConnectionState::SendingOffer,
            nat_traversal::ConnectionState::WaitingForOffer => ConnectionState::WaitingForOffer,
            nat_traversal::ConnectionState::UdpHolePunching => ConnectionState::UdpHolePunching,
            nat_traversal::ConnectionState::TcpConnecting => ConnectionState::TcpConnecting,
            nat_traversal::ConnectionState::Connected => ConnectionState::Connected,
            nat_traversal::ConnectionState::Failed(_) => ConnectionState::Failed,
        }
    }

    /// The display name.
    pub fn name(&self) -> (r: String)
        ensures
            r@ == state_name(*self),
    {
        match self {
            ConnectionState::Idle => "Idle".to_owned(),
            ConnectionState::ConnectingSignalling => "Connecting to signalling".to_owned(),
            ConnectionState::Registering => "Registering".to_owned(),
            ConnectionState::StunDiscovery => "STUN discovery".to_owned(),
            ConnectionState::SendingOffer => "Sending offer".to_owned(),
            ConnectionState::WaitingForOffer => "Waiting for offer".to_owned(),
            ConnectionState::UdpHolePunching => "UDP hole punching".to_owned(),
            ConnectionState::TcpConnecting => "TCP connecting".to_owned(),
            ConnectionState::Connected => "Connected".to_owned(),
            ConnectionState::Failed => "Failed".to_owned(),
        }
    }
}

/// A buffer of bytes handed across the C interface.
pub struct ByteBuffer {
    bytes: Vec<u8>,
}

impl View for ByteBuffer {
    type V = Seq<u8>;

    closed spec fn view(&self) -> Seq<u8> {
        self.bytes@
    }
}

impl ByteBuffer {
    /// A buffer that owns `vec`'s bytes.
    pub fn from_vec(vec: Vec<u8>) -> (r: ByteBuffer)
        ensures
            r@ == vec@,
    {
        ByteBuffer { bytes: vec }
    }

    /// The bytes, handed back.
    pub fn into_vec(self) -> (r: Vec<u8>)
        ensures
            r@ == self@,
    {
        self.bytes
    }

    /// A buffer with no bytes.
    pub fn empty() -> (r: ByteBuffer)
        ensures
            r@ == Seq::<u8>::empty(),
    {
        ByteBuffer { bytes: Vec::new() }
    }

    /// Number of bytes.
    pub fn len(&self) -> (r: usize)
        ensures
            r == self@.len(),
    {
        self.bytes.len()
    }
}

} // verus!
