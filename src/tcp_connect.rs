//! Decisions of the TCP simultaneous open. The caller owns the sockets: it
//! reports each outcome as an event and performs the action handed back.
use vstd::prelude::*;
use crate::hole_punching::{deadline_passed, past_deadline};

verus! {

/// Budget of the opportunistic direct connect, in milliseconds.
pub const DIRECT_CONNECT_TIMEOUT_MS: u64 = 500;

/// Interval between two checks of the handshake, in milliseconds.
pub const POLL_INTERVAL_MS: u64 = 100;

/// How long the simultaneous open may take, in milliseconds.
pub const DEFAULT_TCP_TIMEOUT_MS: u64 = 10000;

/// Why no TCP stream came out.
#[derive(Debug, Clone, PartialEq, Eq)]
pub enum TcpConnectError {
    /// The handshake did not complete before the deadline.
    Timeout,
    /// The port-reusing socket could not be created or bound.
    BindFailed(String),
    /// The connect call failed outright.
    ConnectFailed(String),
}

/// What a non-blocking connect returned.
#[derive(Debug, Clone, PartialEq, Eq)]
pub enum ConnectResult {
    /// Connected at once.
    Connected,
    /// The handshake is under way.
    InProgress,
    /// Any other error, with its description.
    Refused(String),
}

/// What happened since the last step.
#[derive(Debug, Clone, PartialEq, Eq)]
pub enum OpenEvent {
    /// The direct connect succeeded.
    DirectConnected,
    /// The direct connect failed or ran out of time.
    DirectFailed,
    /// Creating, configuring or binding the reusing socket failed.
    BindFailed(String),
    /// The connect on the reusing socket returned.
    ConnectReturned(ConnectResult),
    /// A check of the handshake at `elapsed_ms` since the phase began.
    Polled { elapsed_ms: u64, established: bool },
}

/// What the caller does next.
#[derive(Debug, Clone, PartialEq, Eq)]
pub enum OpenAction {
    /// Hand the connected stream (restored to blocking) to the caller.
    UseStream,
    /// Create a socket with address and port reuse, bind it to the local
    /// port, make it non-blocking and connect it to the peer.
    OpenReusedPort,
    /// Sleep this many milliseconds, then check the handshake again.
    Wait(u64),
    /// Give up with this error.
    Fail(TcpConnectError),
}

/// Where the procedure stands.
#[derive(Debug, Clone, Copy, PartialEq, Eq, Structural)]
pub enum OpenPhase {
    /// The direct connect is being tried.
    Direct,
    /// The reusing socket is being set up and connected.
    Binding,
    /// The handshake is awaited.
    Polling,
    /// A stream was handed out or the procedure failed.
    Done,
}

/// The phase that follows `phase` on `event`, for a deadline of `timeout_ms`.
pub open spec fn next_open_phase(phase: OpenPhase, timeout_ms: u64, event: OpenEvent) -> OpenPhase {
    match (phase, event) {
        (OpenPhase::Direct, OpenEvent::DirectFailed) => OpenPhase::Binding,
        (OpenPhase::Binding, OpenEvent::ConnectReturned(ConnectResult::InProgress)) => {
            OpenPhase::Polling
        },
        (OpenPhase::Polling, OpenEvent::Polled { elapsed_ms, established }) => {
            if !past_deadline(elapsed_ms, timeout_ms) && !established {
                OpenPhase::Polling
            } else {
                OpenPhase::Done
            }
        },
        _ => OpenPhase::Done,
    }
}

/// Whether `action` is what follows `phase` on `event`, for a deadline of
/// `timeout_ms`. An event that does not belong to the phase ends the
/// procedure with a connect failure.
pub open spec fn open_action(
    phase: OpenPhase,
    timeout_ms: u64,
    event: OpenEvent,
    action: OpenAction,
) -> bool {
    match (phase, event) {
        (OpenPhase::Direct, OpenEvent::DirectConnected) => action == OpenAction::UseStream,
        (OpenPhase::Direct, OpenEvent::DirectFailed) => action == OpenAction::OpenReusedPort,
        (OpenPhase::Binding, OpenEvent::BindFailed(m)) => action == OpenAction::Fail(
            TcpConnectError::BindFailed(m),
        ),
        (OpenPhase::Binding, OpenEvent::ConnectReturned(ConnectResult::Connected)) => action
            == OpenAction::UseStream,
        (OpenPhase::Binding, OpenEvent::ConnectReturned(ConnectResult::InProgress)) => action
            == OpenAction::Wait(0),
        (OpenPhase::Binding, OpenEvent::ConnectReturned(ConnectResult::Refused(m))) => action
            == OpenAction::Fail(TcpConnectError::ConnectFailed(m)),
        (OpenPhase::Polling, OpenEvent::Polled { elapsed_ms, established }) => {
            if past_deadline(elapsed_ms, timeout_ms) {
                action == OpenAction::Fail(TcpConnectError::Timeout)
            } else if established {
                action == OpenAction::UseStream
            } else {
                action == OpenAction::Wait(POLL_INTERVAL_MS)
            }
        },
        _ => action matches OpenAction::Fail(TcpConnectError::ConnectFailed(m)) && m@
            == "event out of order"@,
    }
}

/// The state of one simultaneous open.
#[derive(Debug, Clone, Copy, PartialEq, Eq, Structural)]
pub struct SimultaneousOpen {
    pub phase: OpenPhase,
    /// Deadline of the handshake, in milliseconds since the phase began.
    pub timeout_ms: u64,
}

impl SimultaneousOpen {
    /// A procedure that starts with the direct connect.
    pub fn new(timeout_ms: u64) -> (r: SimultaneousOpen)
        ensures
            r.phase == OpenPhase::Direct,
            r.timeout_ms == timeout_ms,
    {
        SimultaneousOpen { phase: OpenPhase::Direct, timeout_ms }
    }

    /// Takes one event and says what to do next.
    pub fn step(&mut self, event: OpenEvent) -> (r: OpenAction)
        ensures
            final(self).timeout_ms == old(self).timeout_ms,
            final(self).phase == next_open_phase(old(self).phase, old(self).timeout_ms, event),
            open_action(old(self).phase, old(self).timeout_ms, event, r),
    {
        let timeout_ms = self.timeout_ms;
        match (self.phase, event) {
            (OpenPhase::Direct, OpenEvent::DirectConnected) => {
                self.phase = OpenPhase::Done;
                OpenAction::UseStream
            },
            (OpenPhase::Direct, OpenEvent::DirectFailed) => {
                self.phase = OpenPhase::Binding;
                OpenAction::OpenReusedPort
            },
            (OpenPhase::Binding, OpenEvent::BindFailed(m)) => {
                self.phase = OpenPhase::Done;
                OpenAction::Fail(TcpConnectError::BindFailed(m))
            },
            (OpenPhase::Binding, OpenEvent::ConnectReturned(ConnectResult::Connected)) => {
                self.phase = OpenPhase::Done;
                OpenAction::UseStream
            },
            (OpenPhase::Binding, OpenEvent::ConnectReturned(ConnectResult::InProgress)) => {
                self.phase = OpenPhase::Polling;
                OpenAction::Wait(0)
            },
            (OpenPhase::Binding, OpenEvent::ConnectReturned(ConnectResult::Refused(m))) => {
                self.phase = OpenPhase::Done;
                OpenAction::Fail(TcpConnectError::ConnectFailed(m))
            },
            (OpenPhase::Polling, OpenEvent::Polled { elapsed_ms, established }) => {
                if deadline_passed(elapsed_ms, timeout_ms) {
                    self.phase = OpenPhase::Done;
                    OpenAction::Fail(TcpConnectError::Timeout)
                } else if established {
                    self.phase = OpenPhase::Done;
                    OpenAction::UseStream
                } else {
                    OpenAction::Wait(POLL_INTERVAL_MS)
                }
            },
            _ => {
                self.phase = OpenPhase::Done;
                OpenAction::Fail(TcpConnectError::ConnectFailed("event out of order".to_owned()))
            },
        }
    }
}

/// What happened in the listen-and-connect procedure.
#[derive(Debug, Clone, Copy, PartialEq, Eq, Structural)]
pub enum ListenEvent {
    /// A new turn begins at `elapsed_ms` since the procedure began.
    Turn { elapsed_ms: u64 },
    /// The listener accepted a connection.
    Accepted,
    /// Nothing was waiting on the listener, or accepting failed.
    NothingAccepted,
    /// The outbound connect succeeded.
    Connected,
    /// The outbound connect failed or ran out of time.
    ConnectFailed,
}

/// What the caller of the listen-and-connect procedure does next.
#[derive(Debug, Clone, Copy, PartialEq, Eq, Structural)]
pub enum ListenAction {
    /// Try one non-blocking accept.
    TryAccept,
    /// Try one outbound connect, bounded by the poll interval.
    TryConnect,
    /// Hand out the accepted stream, restored to blocking.
    UseAccepted,
    /// Hand out the outbound stream.
    UseOutbound,
    /// Sleep this many milliseconds, then start a new turn.
    Wait(u64),
    /// The deadline passed.
    TimedOut,
}

/// The listen-and-connect alternative: each turn first checks the deadline,
/// then tries to accept, then tries to connect out, then waits.
pub fn listen_connect_step(timeout_ms: u64, event: ListenEvent) -> (r: ListenAction)
    ensures
        r == match event {
            ListenEvent::Turn { elapsed_ms } => if past_deadline(elapsed_ms, timeout_ms) {
                ListenAction::TimedOut
            } else {
                ListenAction::TryAccept
            },
            ListenEvent::Accepted => ListenAction::UseAccepted,
            ListenEvent::NothingAccepted => ListenAction::TryConnect,
            ListenEvent::Connected => ListenAction::UseOutbound,
            ListenEvent::ConnectFailed => ListenAction::Wait(POLL_INTERVAL_MS),
        },
{
    match event {
        ListenEvent::Turn { elapsed_ms } => {
            if deadline_passed(elapsed_ms, timeout_ms) {
                ListenAction::TimedOut
            } else {
                ListenAction::TryAccept
            }
        },
        ListenEvent::Accepted => ListenAction::UseAccepted,
        ListenEvent::NothingAccepted => ListenAction::TryConnect,
        ListenEvent::Connected => ListenAction::UseOutbound,
        ListenEvent::ConnectFailed => ListenAction::Wait(POLL_INTERVAL_MS),
    }
}

} // verus!
