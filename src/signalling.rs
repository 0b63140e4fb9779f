//! The rendezvous protocol with the signalling broker, as decisions on
//! messages. The caller owns the WebSocket and the JSON codec: it sends the
//! messages built here and hands back what it received.
use vstd::prelude::*;

verus! {

/// A message of the rendezvous protocol; addresses travel as text.
#[allow(inconsistent_fields)]
#[derive(Debug, Clone, PartialEq, Eq)]
pub enum SignallingMessage {
    Register { fingerprint: String },
    RegisterAck { success: bool, message: String },
    Offer {
        target_fingerprint: String,
        external_ip: String,
        external_port: u16,
        local_ip: String,
        local_port: u16,
        nonce: u64,
        fingerprint: String,
    },
    ForwardOffer {
        from_fingerprint: String,
        external_ip: String,
        external_port: u16,
        local_ip: String,
        local_port: u16,
        nonce: u64,
    },
    OfferResponse { success: bool, message: Option<String> },
    Keepalive,
    Error { message: String },
}

/// Why the rendezvous failed.
#[derive(Debug, Clone, PartialEq, Eq)]
pub enum SignallingError {
    ConnectionFailed(String),
    RegistrationFailed(String),
    SendFailed(String),
    ReceiveFailed(String),
    InvalidMessage(String),
}

/// An address at which a peer may be reached, as the broker relays it.
#[derive(Debug, Clone, PartialEq, Eq)]
pub struct Candidate {
    pub ip: String,
    pub port: u16,
}

impl Candidate {
    /// A copy of this candidate.
    pub fn duplicate(&self) -> (r: Candidate)
        ensures
            r == *self,
    {
        Candidate { ip: self.ip.clone(), port: self.port }
    }
}

/// What the broker relayed about the peer.
#[derive(Debug, Clone, PartialEq, Eq)]
pub struct PeerInfo {
    pub fingerprint: String,
    pub external_addr: Candidate,
    pub local_addr: Candidate,
    pub nonce: u64,
}

impl PeerInfo {
    /// The addresses that probes go to: the reflexive one, then the local one.
    pub fn candidates(&self) -> (r: Vec<Candidate>)
        ensures
            r@ == seq![self.external_addr, self.local_addr],
    {
        let mut r: Vec<Candidate> = Vec::new();
        r.push(self.external_addr.duplicate());
        r.push(self.local_addr.duplicate());
        assert(r@ =~= seq![self.external_addr, self.local_addr]);
        r
    }

    /// Where the TCP handshake goes: the peer's reflexive IP with the port
    /// that its probe advertised.
    pub fn tcp_target(&self, tcp_port: u16) -> (r: Candidate)
        ensures
            r.ip == self.external_addr.ip,
            r.port == tcp_port,
    {
        Candidate { ip: self.external_addr.ip.clone(), port: tcp_port }
    }
}

/// The kinds of WebSocket frame.
#[derive(Debug, Clone, Copy, PartialEq, Eq, Structural)]
pub enum FrameKind {
    Text,
    Binary,
    Ping,
    Pong,
    Close,
}

/// What the client does with a received frame.
#[derive(Debug, Clone, Copy, PartialEq, Eq, Structural)]
pub enum FrameAction {
    /// Decode the text as one message.
    Decode,
    /// Answer with a Pong that carries the same payload.
    ReplyPong,
    /// Skip it.
    Ignore,
    /// The broker closed the connection.
    Closed,
}

/// Where the wait for the peer's offer stands after one message.
#[derive(Debug, Clone, PartialEq, Eq)]
pub enum OfferProgress {
    /// The peer's offer arrived.
    Peer(PeerInfo),
    /// The broker reported an error.
    Failed(SignallingError),
    /// Any other message: keep reading.
    Waiting,
}

/// The client's side of the protocol: the identifier it registered, if any.
#[derive(Debug, Clone, PartialEq, Eq)]
pub struct SignallingSession {
    pub local_fingerprint: Option<String>,
}

/// The reply to a registration, as a result.
pub open spec fn registration_result(reply: SignallingMessage, r: Result<(), SignallingError>) -> bool {
    match reply {
        SignallingMessage::RegisterAck { success, message } => if success {
            r is Ok
        } else {
            r == Err::<(), SignallingError>(SignallingError::RegistrationFailed(message))
        },
        _ => r matches Err(SignallingError::InvalidMessage(m)) && m@
            == "unexpected registration response"@,
    }
}

/// The step of the wait for the peer's offer on one message.
pub open spec fn offer_progress(reply: SignallingMessage) -> OfferProgress {
    match reply {
        SignallingMessage::ForwardOffer {
            from_fingerprint,
            external_ip,
            external_port,
            local_ip,
            local_port,
            nonce,
        } => OfferProgress::Peer(
            PeerInfo {
                fingerprint: from_fingerprint,
                external_addr: Candidate { ip: external_ip, port: external_port },
                local_addr: Candidate { ip: local_ip, port: local_port },
                nonce,
            },
        ),
        SignallingMessage::Error { message } => OfferProgress::Failed(
            SignallingError::InvalidMessage(message),
        ),
        _ => OfferProgress::Waiting,
    }
}

/// The `type` tags of the protocol's messages.
pub open spec fn known_type(tag: Seq<char>) -> bool {
    tag == "register"@ || tag == "register_ack"@ || tag == "offer"@ || tag == "forward_offer"@
        || tag == "offer_response"@ || tag == "keepalive"@ || tag == "error"@
}

impl SignallingMessage {
    /// Whether `tag` names a message of the protocol; a message with another
    /// tag is skipped, not refused.
    pub fn is_known_type(tag: &str) -> (r: bool)
        ensures
            r == known_type(tag@),
    {
        let t = tag.to_owned();
        t == "register".to_owned() || t == "register_ack".to_owned() || t == "offer".to_owned()
            || t == "forward_offer".to_owned() || t == "offer_response".to_owned() || t
            == "keepalive".to_owned() || t == "error".to_owned()
    }
}

impl SignallingSession {
    /// A session that has not registered yet.
    pub fn new() -> (r: SignallingSession)
        ensures
            r.local_fingerprint is None,
    {
        SignallingSession { local_fingerprint: None }
    }

    /// The message that claims `fingerprint` with the broker.
    pub fn register_message(fingerprint: &str) -> (r: SignallingMessage)
        ensures
            r matches SignallingMessage::Register { fingerprint: f } && f@ == fingerprint@,
    {
        SignallingMessage::Register { fingerprint: fingerprint.to_owned() }
    }

    /// Takes the broker's reply to `register`: a positive acknowledgement
    /// records the identifier; a negative one fails with its message; any
    /// other message breaks the protocol.
    pub fn on_register_reply(&mut self, fingerprint: &str, reply: SignallingMessage) -> (r: Result<
        (),
        SignallingError,
    >)
        ensures
            registration_result(reply, r),
            r is Ok ==> (final(self).local_fingerprint matches Some(f) && f@ == fingerprint@),
            r is Err ==> *final(self) == *old(self),
    {
        match reply {
            SignallingMessage::RegisterAck { success, message } => {
                if success {
                    self.local_fingerprint = Some(fingerprint.to_owned());
                    Ok(())
                } else {
                    Err(SignallingError::RegistrationFailed(message))
                }
            },
            _ => Err(SignallingError::InvalidMessage("unexpected registration response".to_owned())),
        }
    }

    /// The offer to `target_fingerprint` with both candidates and `nonce`;
    /// it needs a registered identifier.
    pub fn offer_message(
        &self,
        target_fingerprint: &str,
        external: &Candidate,
        local: &Candidate,
        nonce: u64,
    ) -> (r: Result<SignallingMessage, SignallingError>)
        ensures
            match self.local_fingerprint {
                None => r matches Err(SignallingError::InvalidMessage(m)) && m@ == "not registered"@,
                Some(own) => r matches Ok(
                    SignallingMessage::Offer {
                        target_fingerprint: t,
                        external_ip: ei,
                        external_port: ep,
                        local_ip: li,
                        local_port: lp,
                        nonce: n,
                        fingerprint: f,
                    },
                ) && t@ == target_fingerprint@ && ei == external.ip && ep == external.port && li
                    == local.ip && lp == local.port && n == nonce && f == own,
            },
    {
        match &self.local_fingerprint {
            None => Err(SignallingError::InvalidMessage("not registered".to_owned())),
            Some(own) => Ok(
                SignallingMessage::Offer {
                    target_fingerprint: target_fingerprint.to_owned(),
                    external_ip: external.ip.clone(),
                    external_port: external.port,
                    local_ip: local.ip.clone(),
                    local_port: local.port,
                    nonce,
                    fingerprint: own.clone(),
                },
            ),
        }
    }

    /// The offer as `offer_message` builds it, under a fresh random nonce.
    pub fn new_offer(&self, target_fingerprint: &str, external: &Candidate, local: &Candidate) -> (r:
        Result<SignallingMessage, SignallingError>)
        ensures
            match self.local_fingerprint {
                None => r matches Err(SignallingError::InvalidMessage(m)) && m@ == "not registered"@,
                Some(own) => r matches Ok(
                    SignallingMessage::Offer {
                        target_fingerprint: t,
                        external_ip: ei,
                        external_port: ep,
                        local_ip: li,
                        local_port: lp,
                        nonce: _,
                        fingerprint: f,
                    },
                ) && t@ == target_fingerprint@ && ei == external.ip && ep == external.port && li
                    == local.ip && lp == local.port && f == own,
            },
    {
        let nonce = rand::random::<u64>();
        self.offer_message(target_fingerprint, external, local, nonce)
    }

    /// Takes one message while waiting for the peer's offer. The first
    /// `forward_offer` is the peer's, whenever it arrives; a broker `error`
    /// ends the wait; everything else is skipped.
    pub fn on_offer_reply(&self, reply: SignallingMessage) -> (r: OfferProgress)
        ensures
            r == offer_progress(reply),
    {
        match reply {
            SignallingMessage::ForwardOffer {
                from_fingerprint,
                external_ip,
                external_port,
                local_ip,
                local_port,
                nonce,
            } => OfferProgress::Peer(
                PeerInfo {
                    fingerprint: from_fingerprint,
                    external_addr: Candidate { ip: external_ip, port: external_port },
                    local_addr: Candidate { ip: local_ip, port: local_port },
                    nonce,
                },
            ),
            SignallingMessage::Error { message } => OfferProgress::Failed(
                SignallingError::InvalidMessage(message),
            ),
            _ => OfferProgress::Waiting,
        }
    }

    /// What to do with a received frame: text carries a message, a ping is
    /// answered, a close ends the session, the rest is skipped.
    pub fn frame_action(kind: FrameKind) -> (r: FrameAction)
        ensures
            r == match kind {
                FrameKind::Text => FrameAction::Decode,
                FrameKind::Ping => FrameAction::ReplyPong,
                FrameKind::Close => FrameAction::Closed,
                FrameKind::Binary | FrameKind::Pong => FrameAction::Ignore,
            },
    {
        match kind {
            FrameKind::Text => FrameAction::Decode,
            FrameKind::Ping => FrameAction::ReplyPong,
            FrameKind::Close => FrameAction::Closed,
            FrameKind::Binary | FrameKind::Pong => FrameAction::Ignore,
        }
    }
}

} // verus!
