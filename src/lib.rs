//! NAT traversal core: the probe codec, the STUN binding parser, the
//! rendezvous protocol's decisions, the hole-punching and simultaneous-open
//! schedules, and the pipeline state machine that sequences them.
pub mod bytes;
pub mod ffi;
pub mod hole_punching;
pub mod nat_traversal;
pub mod probe;
pub mod random;
pub mod signalling;
pub mod stun;
pub mod tcp_connect;

pub use hole_punching::{HolePunchSchedule, PunchStep, ReceiveEvent, ReceiveOutcome};
pub use nat_traversal::{is_initiator, ConnectionState, NatTraversal, NatTraversalConfig,
    NatTraversalError};
pub use probe::{ProbeError, ProbePacket};
pub use signalling::{Candidate, PeerInfo, SignallingError, SignallingMessage, SignallingSession};
pub use stun::{IpAddress, SocketAddress, StunError, StunResponse};
pub use tcp_connect::{SimultaneousOpen, TcpConnectError};
