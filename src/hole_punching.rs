//! Decisions of the UDP hole-punching loop. The caller owns the socket: it
//! asks the schedule what to do at each turn, sends the probe burst when told,
//! and hands back what its non-blocking receive produced.
use vstd::prelude::*;
use crate::bytes::{be16, read_be16};
use crate::probe::{probe_defect, ProbePacket};

verus! {

/// Interval between two probe bursts, in milliseconds.
pub const PROBE_INTERVAL_MS: u64 = 200;

/// Pause after a receive that found nothing, in milliseconds.
pub const IDLE_SLEEP_MS: u64 = 10;

/// How long the hole puncher waits for the peer's probe, in milliseconds.
pub const DEFAULT_PUNCH_TIMEOUT_MS: u64 = 30000;

/// Whether a deadline of `timeout_ms` after phase entry has passed.
pub open spec fn past_deadline(elapsed_ms: u64, timeout_ms: u64) -> bool {
    elapsed_ms > timeout_ms
}

/// Whether more than an interval has gone by since `last_ms`.
pub open spec fn burst_due(elapsed_ms: u64, last_ms: u64) -> bool {
    elapsed_ms >= last_ms && elapsed_ms - last_ms > PROBE_INTERVAL_MS
}

/// Whether a deadline of `timeout_ms` after phase entry has passed.
pub fn deadline_passed(elapsed_ms: u64, timeout_ms: u64) -> (r: bool)
    ensures
        r == past_deadline(elapsed_ms, timeout_ms),
{
    elapsed_ms > timeout_ms
}

/// What the loop does at one turn.
#[derive(Debug, Clone, Copy, PartialEq, Eq, Structural)]
pub enum PunchStep {
    /// The deadline passed before a probe arrived.
    TimedOut,
    /// Keep going: send a burst to every candidate first if `send_burst`,
    /// then try one receive.
    Continue { send_burst: bool },
}

/// What one non-blocking receive produced.
#[derive(Debug, Clone, PartialEq, Eq)]
pub enum ReceiveEvent {
    /// A datagram with these bytes.
    Datagram(Vec<u8>),
    /// Nothing was waiting.
    WouldBlock,
    /// Another socket error; it is not fatal.
    Failed,
}

/// What to do with a receive's result.
#[derive(Debug, Clone, Copy, PartialEq, Eq, Structural)]
pub enum ReceiveOutcome {
    /// The peer's probe arrived, advertising this TCP port.
    PeerPort(u16),
    /// Nothing came: sleep this many milliseconds before the next turn.
    Sleep(u64),
    /// Not a probe, or a transient error: go on at once.
    Retry,
}

/// The timing state of one hole-punching phase; times are milliseconds since
/// the phase began.
#[derive(Debug, Clone, Copy, PartialEq, Eq, Structural)]
pub struct HolePunchSchedule {
    pub timeout_ms: u64,
    pub last_send_ms: u64,
}

impl HolePunchSchedule {
    /// A schedule that starts now, counting the start as the last burst.
    pub fn new(timeout_ms: u64) -> (r: HolePunchSchedule)
        ensures
            r.timeout_ms == timeout_ms,
            r.last_send_ms == 0,
    {
        HolePunchSchedule { timeout_ms, last_send_ms: 0 }
    }

    /// The turn at `elapsed_ms`: fail once the deadline has passed; else send
    /// a burst when more than an interval has gone by since the last one.
    pub fn poll(&mut self, elapsed_ms: u64) -> (r: PunchStep)
        ensures
            final(self).timeout_ms == old(self).timeout_ms,
            past_deadline(elapsed_ms, old(self).timeout_ms) ==> r == PunchStep::TimedOut
                && *final(self) == *old(self),
            !past_deadline(elapsed_ms, old(self).timeout_ms) && burst_due(
                elapsed_ms,
                old(self).last_send_ms,
            ) ==> r == (PunchStep::Continue { send_burst: true }) && final(self).last_send_ms
                == elapsed_ms,
            !past_deadline(elapsed_ms, old(self).timeout_ms) && !burst_due(
                elapsed_ms,
                old(self).last_send_ms,
            ) ==> r == (PunchStep::Continue { send_burst: false }) && *final(self) == *old(
                self,
            ),
    {
        if deadline_passed(elapsed_ms, self.timeout_ms) {
            return PunchStep::TimedOut;
        }
        if elapsed_ms >= self.last_send_ms && elapsed_ms - self.last_send_ms > PROBE_INTERVAL_MS {
            self.last_send_ms = elapsed_ms;
            PunchStep::Continue { send_burst: true }
        } else {
            PunchStep::Continue { send_burst: false }
        }
    }

    /// The decision on a receive: a datagram that parses as a probe ends the
    /// phase with its TCP port (its signature is not checked, as no
    /// verifying key of the peer is known); anything else is skipped.
    pub fn on_receive(event: &ReceiveEvent) -> (r: ReceiveOutcome)
        ensures
            match event {
                ReceiveEvent::Datagram(d) => if probe_defect(d@) is None {
                    r == ReceiveOutcome::PeerPort(be16(d@[12], d@[13]))
                } else {
                    r == ReceiveOutcome::Retry
                },
                ReceiveEvent::WouldBlock => r == ReceiveOutcome::Sleep(IDLE_SLEEP_MS),
                ReceiveEvent::Failed => r == ReceiveOutcome::Retry,
            },
    {
        match event {
            ReceiveEvent::Datagram(d) => {
                match ProbePacket::from_bytes(d.as_slice()) {
                    Ok(_) => {
                        let port = read_be16(d.as_slice(), 12);
                        ReceiveOutcome::PeerPort(port)
                    },
                    Err(_) => ReceiveOutcome::Retry,
                }
            },
            ReceiveEvent::WouldBlock => ReceiveOutcome::Sleep(IDLE_SLEEP_MS),
            ReceiveEvent::Failed => ReceiveOutcome::Retry,
        }
    }
}

} // verus!
