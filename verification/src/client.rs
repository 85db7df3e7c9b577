//! The non-blocking Flight client facade exposed to a sandboxed guest.
//!
//! Every operation follows a start / ready / finish discipline over a tagged
//! state machine. The host performs the transport work in the background and
//! reports its outcome as an event; the functions here make every decision:
//! which pre-states are legal, which error is returned, and what the next
//! state is. Transitions are linear: no state is re-entered except
//! `Connected`, and `Closed` is terminal.

use vstd::prelude::*;

verus! {

/// Error codes surfaced to the guest.
#[derive(Debug, Clone)]
pub enum ErrorCode {
    AlreadyConnected,
    ConnectionRefused(String),
    InProgress,
    InternalError(Option<String>),
    InvalidParameter,
    InvalidState,
    NotInProgress,
    WouldBlock,
}

/// What the background connect task reported.
#[derive(Debug, Clone)]
pub enum ConnectOutcome {
    /// The channel was established.
    Established,
    /// The transport refused the connection, with its message.
    Refused(String),
    /// The completion channel itself was lost, with its message.
    Lost(String),
}

/// What the background handshake task reported.
#[derive(Debug, Clone)]
pub enum HandshakeOutcome {
    /// Attestation succeeded and the server issued this bearer token.
    Token(String),
    /// The handshake failed, with its message.
    Failed(String),
    /// The completion channel itself was lost, with its message.
    Lost(String),
}

/// What a background `do_get` or `do_put` task reported.
#[derive(Debug, Clone)]
pub enum RpcOutcome {
    /// The call succeeded and a response handle is available.
    Succeeded,
    /// The call failed, with its message.
    Failed(String),
    /// The completion channel itself was lost, with its message.
    Lost(String),
}

/// Result of polling a completion channel without blocking.
#[derive(Debug, Clone)]
pub enum PollOutcome<T> {
    Pending,
    Ready(T),
}

/// Outcome delivered while waiting on the readiness pollable.
#[derive(Debug, Clone)]
pub enum ReadyOutcome {
    Connect(ConnectOutcome),
    Handshake(HandshakeOutcome),
    DoGet(RpcOutcome),
    DoPut(RpcOutcome),
}

/// Outcome of handing one frame to the bounded send queue.
#[derive(Debug, Clone)]
pub enum SendOutcome {
    /// The frame was queued.
    Accepted,
    /// The queue is full.
    Full,
    /// The receiving end of the queue is gone.
    Disconnected,
}

/// The client's position in the start / ready / finish discipline.
#[derive(Debug, Clone)]
pub enum FlightClientState {
    Default,
    Connecting,
    ConnectReady(ConnectOutcome),
    Connected,
    HandshakeProgress,
    HandshakeReady(HandshakeOutcome),
    DoGetProgress,
    DoGetReady(RpcOutcome),
    DoPutSendProgress,
    DoPutRecvProgress,
    DoPutReady(RpcOutcome),
    Closed,
}

/// The state behind one guest-visible Flight client resource.
#[derive(Debug)]
pub struct HostFlightClient {
    pub state: FlightClientState,
    pub token: Option<String>,
}

/// State and result after a delivered connect outcome is consumed.
pub open spec fn connect_step(pre: HostFlightClient, o: ConnectOutcome) -> (HostFlightClient,
    Result<(), ErrorCode>,
) {
    match o {
        ConnectOutcome::Established => (
            (HostFlightClient { state: FlightClientState::Connected, ..pre }),
            Ok(()),
        ),
        ConnectOutcome::Refused(m) => (
            (HostFlightClient { state: FlightClientState::Closed, ..pre }),
            Err(ErrorCode::ConnectionRefused(m)),
        ),
        ConnectOutcome::Lost(m) => (
            (HostFlightClient { state: FlightClientState::Closed, ..pre }),
            Err(ErrorCode::InternalError(Some(m))),
        ),
    }
}

/// State and result after a delivered handshake outcome is consumed: a token
/// binds the session and returns to `Connected`; any failure of the
/// background operation closes the client, which then needs a fresh
/// resource.
pub open spec fn handshake_step(pre: HostFlightClient, o: HandshakeOutcome) -> (HostFlightClient,
    Result<(), ErrorCode>,
) {
    match o {
        HandshakeOutcome::Token(t) => (
            (HostFlightClient { state: FlightClientState::Connected, token: Some(t) }),
            Ok(()),
        ),
        HandshakeOutcome::Failed(m) => (
            (HostFlightClient { state: FlightClientState::Closed, ..pre }),
            Err(ErrorCode::InternalError(Some(m))),
        ),
        HandshakeOutcome::Lost(m) => (
            (HostFlightClient { state: FlightClientState::Closed, ..pre }),
            Err(ErrorCode::InternalError(Some(m))),
        ),
    }
}

/// State and result after a delivered `do_get` / `do_put` outcome is
/// consumed: on success the caller receives a fresh response handle and the
/// client returns to `Connected`; any failure of the background operation
/// closes the client, which then needs a fresh resource.
pub open spec fn rpc_step(pre: HostFlightClient, o: RpcOutcome) -> (HostFlightClient, Result<
    (),
    ErrorCode,
>) {
    match o {
        RpcOutcome::Succeeded => (
            (HostFlightClient { state: FlightClientState::Connected, ..pre }),
            Ok(()),
        ),
        RpcOutcome::Failed(m) => (
            (HostFlightClient { state: FlightClientState::Closed, ..pre }),
            Err(ErrorCode::InternalError(Some(m))),
        ),
        RpcOutcome::Lost(m) => (
            (HostFlightClient { state: FlightClientState::Closed, ..pre }),
            Err(ErrorCode::InternalError(Some(m))),
        ),
    }
}

/// The request data a client's report must carry: the first 64 bytes of
/// the nonce the server sent in round one; a shorter nonce is refused.
pub fn nonce_request_data(payload: &Vec<u8>) -> (r: Option<Vec<u8>>)
    ensures
        payload@.len() >= 64 ==> (r matches Some(v) && v@ == payload@.subrange(0, 64)),
        payload@.len() < 64 ==> r is None,
{
    if payload.len() < 64 {
        return None;
    }
    let mut out: Vec<u8> = Vec::new();
    let mut i: usize = 0;
    while i < 64
        invariant
            0 <= i <= 64,
            payload@.len() >= 64,
            out@ == payload@.subrange(0, i as int),
        decreases 64 - i,
    {
        out.push(payload[i]);
        proof {
            assert(payload@.subrange(0, i as int + 1) =~= payload@.subrange(0, i as int).push(
                payload@[i as int],
            ));
        }
        i = i + 1;
    }
    Some(out)
}

impl HostFlightClient {
    /// A fresh client resource, not yet connected.
    pub fn create_client() -> (r: Self)
        ensures
            r.state is Default,
            r.token is None,
    {
        HostFlightClient { state: FlightClientState::Default, token: None }
    }

    /// Stores a background outcome delivered while the guest awaited the
    /// readiness pollable; outcomes for any other phase are ignored.
    pub fn ready(&mut self, ev: ReadyOutcome)
        ensures
            final(self).token == old(self).token,
            match (old(self).state, ev) {
                (FlightClientState::Connecting, ReadyOutcome::Connect(o)) => final(self).state
                    == FlightClientState::ConnectReady(o),
                (FlightClientState::HandshakeProgress, ReadyOutcome::Handshake(o)) => final(self).state == FlightClientState::HandshakeReady(o),
                (FlightClientState::DoGetProgress, ReadyOutcome::DoGet(o)) => final(self).state
                    == FlightClientState::DoGetReady(o),
                (FlightClientState::DoPutRecvProgress, ReadyOutcome::DoPut(o)) => final(self).state == FlightClientState::DoPutReady(o),
                _ => final(self).state == old(self).state,
            },
    {
        match (&self.state, ev) {
            (FlightClientState::Connecting, ReadyOutcome::Connect(o)) => {
                self.state = FlightClientState::ConnectReady(o);
            },
            (FlightClientState::HandshakeProgress, ReadyOutcome::Handshake(o)) => {
                self.state = FlightClientState::HandshakeReady(o);
            },
            (FlightClientState::DoGetProgress, ReadyOutcome::DoGet(o)) => {
                self.state = FlightClientState::DoGetReady(o);
            },
            (FlightClientState::DoPutRecvProgress, ReadyOutcome::DoPut(o)) => {
                self.state = FlightClientState::DoPutReady(o);
            },
            (_, _) => {},
        }
    }

    /// Begins connecting. Legal only from `Default`; any other state is
    /// already connected (or further along) and is left unchanged.
    pub fn start_connect(&mut self) -> (r: Result<(), ErrorCode>)
        ensures
            match old(self).state {
                FlightClientState::Default => final(self).state == FlightClientState::Connecting
                    && final(self).token == old(self).token && r is Ok,
                _ => *final(self) == *old(self) && r matches Err(ErrorCode::AlreadyConnected),
            },
    {
        match &self.state {
            FlightClientState::Default => {
                self.state = FlightClientState::Connecting;
                Ok(())
            },
            _ => Err(ErrorCode::AlreadyConnected),
        }
    }

    /// Completes a connect. `poll` is the state of the background task's
    /// completion channel; it is consulted only from `Connecting`.
    pub fn finish_connect(&mut self, poll: PollOutcome<ConnectOutcome>) -> (r: Result<
        (),
        ErrorCode,
    >)
        ensures
            match old(self).state {
                FlightClientState::ConnectReady(o) => (*final(self), r) == connect_step(
                    *old(self),
                    o,
                ),
                FlightClientState::Connecting => match poll {
                    PollOutcome::Pending => *final(self) == *old(self) && r matches Err(
                        ErrorCode::WouldBlock,
                    ),
                    PollOutcome::Ready(o) => (*final(self), r) == connect_step(*old(self), o),
                },
                _ => *final(self) == *old(self) && r matches Err(ErrorCode::NotInProgress),
            },
    {
        let mut prev = FlightClientState::Closed;
        core::mem::swap(&mut self.state, &mut prev);
        let outcome = match prev {
            FlightClientState::ConnectReady(o) => o,
            FlightClientState::Connecting => {
                match poll {
                    PollOutcome::Pending => {
                        self.state = FlightClientState::Connecting;
                        return Err(ErrorCode::WouldBlock);
                    },
                    PollOutcome::Ready(o) => o,
                }
            },
            prev => {
                self.state = prev;
                return Err(ErrorCode::NotInProgress);
            },
        };
        match outcome {
            ConnectOutcome::Established => {
                self.state = FlightClientState::Connected;
                Ok(())
            },
            ConnectOutcome::Refused(m) => {
                self.state = FlightClientState::Closed;
                Err(ErrorCode::ConnectionRefused(m))
            },
            ConnectOutcome::Lost(m) => {
                self.state = FlightClientState::Closed;
                Err(ErrorCode::InternalError(Some(m)))
            },
        }
    }

    /// Begins the attested handshake. Legal only from `Connected`.
    pub fn start_handshake(&mut self) -> (r: Result<(), ErrorCode>)
        ensures
            match old(self).state {
                FlightClientState::Connected => final(self).state
                    == FlightClientState::HandshakeProgress && final(self).token == old(self).token && r is Ok,
                FlightClientState::HandshakeProgress => *final(self) == *old(self) && r matches Err(
                    ErrorCode::InProgress,
                ),
                _ => *final(self) == *old(self) && r matches Err(ErrorCode::InvalidState),
            },
    {
        match &self.state {
            FlightClientState::Connected => {
                self.state = FlightClientState::HandshakeProgress;
                Ok(())
            },
            FlightClientState::HandshakeProgress => Err(ErrorCode::InProgress),
            _ => Err(ErrorCode::InvalidState),
        }
    }

    /// Completes the handshake; on success the issued bearer token is stored
    /// and the client returns to `Connected`.
    pub fn finish_handshake(&mut self, poll: PollOutcome<HandshakeOutcome>) -> (r: Result<
        (),
        ErrorCode,
    >)
        ensures
            match old(self).state {
                FlightClientState::HandshakeReady(o) => (*final(self), r) == handshake_step(
                    *old(self),
                    o,
                ),
                FlightClientState::HandshakeProgress => match poll {
                    PollOutcome::Pending => *final(self) == *old(self) && r matches Err(
                        ErrorCode::WouldBlock,
                    ),
                    PollOutcome::Ready(o) => (*final(self), r) == handshake_step(*old(self), o),
                },
                _ => *final(self) == *old(self) && r matches Err(ErrorCode::NotInProgress),
            },
    {
        let mut prev = FlightClientState::Closed;
        core::mem::swap(&mut self.state, &mut prev);
        let outcome = match prev {
            FlightClientState::HandshakeReady(o) => o,
            FlightClientState::HandshakeProgress => {
                match poll {
                    PollOutcome::Pending => {
                        self.state = FlightClientState::HandshakeProgress;
                        return Err(ErrorCode::WouldBlock);
                    },
                    PollOutcome::Ready(o) => o,
                }
            },
            prev => {
                self.state = prev;
                return Err(ErrorCode::NotInProgress);
            },
        };
        match outcome {
            HandshakeOutcome::Token(t) => {
                self.state = FlightClientState::Connected;
                self.token = Some(t);
                Ok(())
            },
            HandshakeOutcome::Failed(m) => {
                self.state = FlightClientState::Closed;
                Err(ErrorCode::InternalError(Some(m)))
            },
            HandshakeOutcome::Lost(m) => {
                self.state = FlightClientState::Closed;
                Err(ErrorCode::InternalError(Some(m)))
            },
        }
    }

    /// Begins a `do_get`. Legal only from `Connected`.
    pub fn start_do_get(&mut self) -> (r: Result<(), ErrorCode>)
        ensures
            match old(self).state {
                FlightClientState::Connected => final(self).state
                    == FlightClientState::DoGetProgress && final(self).token == old(self).token
                    && r is Ok,
                FlightClientState::DoGetProgress => *final(self) == *old(self) && r matches Err(
                    ErrorCode::InProgress,
                ),
                _ => *final(self) == *old(self) && r matches Err(ErrorCode::InvalidState),
            },
    {
        match &self.state {
            FlightClientState::Connected => {
                self.state = FlightClientState::DoGetProgress;
                Ok(())
            },
            FlightClientState::DoGetProgress => Err(ErrorCode::InProgress),
            _ => Err(ErrorCode::InvalidState),
        }
    }

    /// Completes a `do_get`; `Ok` means the caller now holds a fresh
    /// incoming-response handle.
    pub fn finish_do_get(&mut self, poll: PollOutcome<RpcOutcome>) -> (r: Result<(), ErrorCode>)
        ensures
            match old(self).state {
                FlightClientState::DoGetReady(o) => (*final(self), r) == rpc_step(*old(self), o),
                FlightClientState::DoGetProgress => match poll {
                    PollOutcome::Pending => *final(self) == *old(self) && r matches Err(
                        ErrorCode::WouldBlock,
                    ),
                    PollOutcome::Ready(o) => (*final(self), r) == rpc_step(*old(self), o),
                },
                _ => *final(self) == *old(self) && r matches Err(ErrorCode::NotInProgress),
            },
    {
        let mut prev = FlightClientState::Closed;
        core::mem::swap(&mut self.state, &mut prev);
        let outcome = match prev {
            FlightClientState::DoGetReady(o) => o,
            FlightClientState::DoGetProgress => {
                match poll {
                    PollOutcome::Pending => {
                        self.state = FlightClientState::DoGetProgress;
                        return Err(ErrorCode::WouldBlock);
                    },
                    PollOutcome::Ready(o) => o,
                }
            },
            prev => {
                self.state = prev;
                return Err(ErrorCode::NotInProgress);
            },
        };
        match outcome {
            RpcOutcome::Succeeded => {
                self.state = FlightClientState::Connected;
                Ok(())
            },
            RpcOutcome::Failed(m) => {
                self.state = FlightClientState::Closed;
                Err(ErrorCode::InternalError(Some(m)))
            },
            RpcOutcome::Lost(m) => {
                self.state = FlightClientState::Closed;
                Err(ErrorCode::InternalError(Some(m)))
            },
        }
    }

    /// Begins a `do_put`. Legal only from `Connected`.
    pub fn start_do_put(&mut self) -> (r: Result<(), ErrorCode>)
        ensures
            match old(self).state {
                FlightClientState::Connected => final(self).state
                    == FlightClientState::DoPutSendProgress && final(self).token == old(self).token && r is Ok,
                FlightClientState::DoPutSendProgress => *final(self) == *old(self) && r matches Err(
                    ErrorCode::InProgress,
                ),
                FlightClientState::DoPutRecvProgress => *final(self) == *old(self) && r matches Err(
                    ErrorCode::InProgress,
                ),
                _ => *final(self) == *old(self) && r matches Err(ErrorCode::InvalidState),
            },
    {
        match &self.state {
            FlightClientState::Connected => {
                self.state = FlightClientState::DoPutSendProgress;
                Ok(())
            },
            FlightClientState::DoPutSendProgress => Err(ErrorCode::InProgress),
            FlightClientState::DoPutRecvProgress => Err(ErrorCode::InProgress),
            _ => Err(ErrorCode::InvalidState),
        }
    }

    /// Hands one frame to the send queue, or finishes the sending phase.
    /// `data` is the outcome of queueing a frame, `None` when no frame was
    /// offered; offering nothing without finishing is an invalid parameter
    /// and leaves the state untouched. A full queue is a would-block with
    /// the sending state preserved, so the guest retries on the pollable; a
    /// lost queue closes the client.
    pub fn do_put(&mut self, data: Option<SendOutcome>, fin: bool) -> (r: Result<(), ErrorCode>)
        ensures
            match old(self).state {
                FlightClientState::DoPutSendProgress => {
                    if data is None && !fin {
                        *final(self) == *old(self) && r matches Err(ErrorCode::InvalidParameter)
                    } else {
                        match data {
                            Some(SendOutcome::Full) => *final(self) == *old(self) && r matches Err(
                                ErrorCode::WouldBlock,
                            ),
                            Some(SendOutcome::Disconnected) => final(self).state
                                == FlightClientState::Closed && final(self).token == old(self).token && (r matches Err(ErrorCode::InternalError(Some(m))) && m@
                                == "rx closed"@),
                            _ => final(self).token == old(self).token && r is Ok && final(self).state == (if fin {
                                FlightClientState::DoPutRecvProgress
                            } else {
                                FlightClientState::DoPutSendProgress
                            }),
                        }
                    }
                },
                _ => *final(self) == *old(self) && r matches Err(ErrorCode::InvalidState),
            },
    {
        match &self.state {
            FlightClientState::DoPutSendProgress => {},
            _ => {
                return Err(ErrorCode::InvalidState);
            },
        }
        if data.is_none() && !fin {
            return Err(ErrorCode::InvalidParameter);
        }
        match data {
            Some(SendOutcome::Full) => {
                return Err(ErrorCode::WouldBlock);
            },
            Some(SendOutcome::Disconnected) => {
                self.state = FlightClientState::Closed;
                return Err(ErrorCode::InternalError(Some("rx closed".to_owned())));
            },
            _ => {},
        }
        if fin {
            self.state = FlightClientState::DoPutRecvProgress;
        } else {
            self.state = FlightClientState::DoPutSendProgress;
        }
        Ok(())
    }

    /// Completes a `do_put`; `Ok` means the caller now holds a fresh
    /// incoming-put-response handle.
    pub fn finish_do_put(&mut self, poll: PollOutcome<RpcOutcome>) -> (r: Result<(), ErrorCode>)
        ensures
            match old(self).state {
                FlightClientState::DoPutReady(o) => (*final(self), r) == rpc_step(*old(self), o),
                FlightClientState::DoPutRecvProgress => match poll {
                    PollOutcome::Pending => *final(self) == *old(self) && r matches Err(
                        ErrorCode::WouldBlock,
                    ),
                    PollOutcome::Ready(o) => (*final(self), r) == rpc_step(*old(self), o),
                },
                _ => *final(self) == *old(self) && r matches Err(ErrorCode::NotInProgress),
            },
    {
        let mut prev = FlightClientState::Closed;
        core::mem::swap(&mut self.state, &mut prev);
        let outcome = match prev {
            FlightClientState::DoPutReady(o) => o,
            FlightClientState::DoPutRecvProgress => {
                match poll {
                    PollOutcome::Pending => {
                        self.state = FlightClientState::DoPutRecvProgress;
                        return Err(ErrorCode::WouldBlock);
                    },
                    PollOutcome::Ready(o) => o,
                }
            },
            prev => {
                self.state = prev;
                return Err(ErrorCode::NotInProgress);
            },
        };
        match outcome {
            RpcOutcome::Succeeded => {
                self.state = FlightClientState::Connected;
                Ok(())
            },
            RpcOutcome::Failed(m) => {
                self.state = FlightClientState::Closed;
                Err(ErrorCode::InternalError(Some(m)))
            },
            RpcOutcome::Lost(m) => {
                self.state = FlightClientState::Closed;
                Err(ErrorCode::InternalError(Some(m)))
            },
        }
    }
}

} // verus!
