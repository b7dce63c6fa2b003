//! From an accepted connection to one that can be served.

use vstd::prelude::*;

use crate::address::{self, ipv4_text, IpAddress};
use crate::clock::{self, nanos_between};
use crate::error::{DocumentDBError, Failure};
use crate::tls::{self, peek_timeout, DetectAction, DetectEvent, TlsDetection};

verus! {

/// Seconds of silence after which a TCP connection is probed.
pub const TCP_KEEPALIVE_TIME_SECS: u64 = 180;

/// Seconds between two probes.
pub const TCP_KEEPALIVE_INTERVAL_SECS: u64 = 60;

/// Size of the read buffer of a connection.
pub const STREAM_READ_BUFFER_SIZE: usize = 8192;

/// Size of the write buffer of a connection.
pub const STREAM_WRITE_BUFFER_SIZE: usize = 8192;

/// How a client reaches the gateway.
#[derive(Clone, Copy, Debug, PartialEq, Eq, Structural)]
pub enum Transport {
    Tcp,
    UnixSocket,
}

/// What the gateway knows of a client when it starts serving it.
#[derive(Clone, Copy, Debug, PartialEq, Eq, Structural)]
pub struct ConnectionProfile {
    pub transport: Transport,
    /// The address of the client; a client on a Unix domain socket has none.
    pub peer: Option<IpAddress>,
    pub tls: bool,
}

impl ConnectionProfile {
    /// A client on TCP, known by its canonical address.
    pub open spec fn of_tcp(peer: IpAddress, tls: bool) -> ConnectionProfile {
        ConnectionProfile {
            transport: Transport::Tcp,
            peer: Some(peer.spec_canonical()),
            tls,
        }
    }

    /// A client on a Unix domain socket, which is local and needs no TLS.
    pub fn unix_socket() -> (profile: ConnectionProfile)
        ensures
            profile == (ConnectionProfile {
                transport: Transport::UnixSocket,
                peer: None,
                tls: false,
            }),
    {
        ConnectionProfile { transport: Transport::UnixSocket, peer: None, tls: false }
    }

    /// A client that the listener on the Unix domain socket has accepted, or
    /// failed to.
    pub fn accepted_unix<E>(accepted: Result<(), E>) -> (profile: Result<ConnectionProfile, E>)
        ensures
            profile == (match accepted {
                Ok(_) => Ok(
                    ConnectionProfile { transport: Transport::UnixSocket, peer: None, tls: false },
                ),
                Err(error) => Err(error),
            }),
    {
        match accepted {
            Ok(_) => Ok(ConnectionProfile::unix_socket()),
            Err(error) => Err(error),
        }
    }

    /// The name of the transport.
    pub fn transport_protocol(&self) -> (name: String)
        ensures
            name@ == (match self.transport {
                Transport::Tcp => "TCP"@,
                Transport::UnixSocket => "UnixSocket"@,
            }),
    {
        match self.transport {
            Transport::Tcp => "TCP".to_string(),
            Transport::UnixSocket => "UnixSocket".to_string(),
        }
    }

    /// What the client is called: by its IPv4 address in dotted form, by its IPv6
    /// address, of which `ipv6_text` is the text, or local when it has none.
    pub fn client_address(&self, ipv6_text: &str) -> (name: String)
        ensures
            name@ == (match self.peer {
                Some(IpAddress::V4(number)) => address::dotted(number),
                Some(IpAddress::V6(_)) => ipv6_text@,
                None => "localhost"@,
            }),
    {
        match self.peer {
            Some(IpAddress::V4(number)) => ipv4_text(number),
            Some(IpAddress::V6(_)) => ipv6_text.to_string(),
            None => "localhost".to_string(),
        }
    }
}

/// What came of the last thing that receiving a client asked for.
#[derive(Debug)]
pub enum ReceptionEvent<E> {
    ContextCreated(Result<(), E>),
    StreamBuffered(Result<(), E>),
    /// The client has been served until its connection closed.
    Served,
}

/// What receiving a client asks for.
#[derive(Clone, Copy, Debug, PartialEq, Eq, Structural)]
pub enum ReceptionAction {
    /// Create the context that holds what is known of the client.
    CreateContext,
    /// Put buffers of these sizes on the connection.
    BufferStream { read_size: usize, write_size: usize },
    /// Serve the client.
    Serve,
    /// Nothing: the client has been served, or cannot be.
    Finish,
}

/// Receiving a client on a connection that is ready for it, over TCP with or
/// without TLS or on the Unix domain socket.
#[derive(Debug)]
pub enum Reception<E> {
    CreatingContext,
    Buffering,
    Serving,
    Finished(Result<(), E>),
}

impl<E> Reception<E> {
    /// What to do next.
    pub open spec fn spec_action(self) -> ReceptionAction {
        match self {
            Reception::CreatingContext => ReceptionAction::CreateContext,
            Reception::Buffering => ReceptionAction::BufferStream {
                read_size: STREAM_READ_BUFFER_SIZE,
                write_size: STREAM_WRITE_BUFFER_SIZE,
            },
            Reception::Serving => ReceptionAction::Serve,
            Reception::Finished(_) => ReceptionAction::Finish,
        }
    }

    /// The reception after `event`. An event that was not asked for changes
    /// nothing.
    pub open spec fn next(self, event: ReceptionEvent<E>) -> Reception<E> {
        match (self, event) {
            (Reception::CreatingContext, ReceptionEvent::ContextCreated(Ok(_))) =>
                Reception::Buffering,
            (Reception::Buffering, ReceptionEvent::StreamBuffered(Ok(_))) => Reception::Serving,
            (Reception::Serving, ReceptionEvent::Served) => Reception::Finished(Ok(())),
            (Reception::CreatingContext, ReceptionEvent::ContextCreated(Err(error)))
            | (Reception::Buffering, ReceptionEvent::StreamBuffered(Err(error))) =>
                Reception::Finished(Err(error)),
            (same, _) => same,
        }
    }

    /// Begins to receive a client.
    pub fn start() -> (reception: Reception<E>)
        ensures
            reception == Reception::<E>::CreatingContext,
    {
        Reception::CreatingContext
    }

    /// What to do next.
    pub fn action(&self) -> (action: ReceptionAction)
        ensures
            action == self.spec_action(),
    {
        match self {
            Reception::CreatingContext => ReceptionAction::CreateContext,
            Reception::Buffering => ReceptionAction::BufferStream {
                read_size: STREAM_READ_BUFFER_SIZE,
                write_size: STREAM_WRITE_BUFFER_SIZE,
            },
            Reception::Serving => ReceptionAction::Serve,
            Reception::Finished(_) => ReceptionAction::Finish,
        }
    }

    /// Takes in what came of the last action.
    pub fn step(self, event: ReceptionEvent<E>) -> (reception: Reception<E>)
        ensures
            reception == self.next(event),
    {
        match (self, event) {
            (Reception::CreatingContext, ReceptionEvent::ContextCreated(Ok(_))) =>
                Reception::Buffering,
            (Reception::Buffering, ReceptionEvent::StreamBuffered(Ok(_))) => Reception::Serving,
            (Reception::Serving, ReceptionEvent::Served) => Reception::Finished(Ok(())),
            (Reception::CreatingContext, ReceptionEvent::ContextCreated(Err(error)))
            | (Reception::Buffering, ReceptionEvent::StreamBuffered(Err(error))) =>
                Reception::Finished(Err(error)),
            (same, _) => same,
        }
    }
}

/// A client is served exactly when its context can be created and its stream
/// buffered; otherwise the first of the two errors is reported.
pub proof fn reception_needs_context_and_buffers<E>(
    context: Result<(), E>,
    buffered: Result<(), E>,
)
    ensures
        ({
            let ready = Reception::<E>::CreatingContext.next(
                ReceptionEvent::ContextCreated(context),
            ).next(ReceptionEvent::StreamBuffered(buffered));
            match (context, buffered) {
                (Err(error), _) => ready == Reception::<E>::Finished(Err(error)),
                (_, Err(error)) => ready == Reception::<E>::Finished(Err(error)),
                _ => {
                    &&& ready == Reception::<E>::Serving
                    &&& ready.next(ReceptionEvent::Served) == Reception::<E>::Finished(Ok(()))
                },
            }
        }),
{
}

/// What came of the last thing that setting up a TCP connection asked for.
#[derive(Debug)]
pub enum TcpEvent<E> {
    NoDelaySet(Result<(), E>),
    KeepaliveSet(Result<(), E>),
    Detect(DetectEvent),
    SessionCreated(Result<(), E>),
    StreamCreated(Result<(), E>),
    /// The handshake succeeded, or failed for the rendered reason.
    HandshakeDone(Result<(), String>),
    Reception(ReceptionEvent<E>),
}

/// What setting up a TCP connection asks for.
#[derive(Clone, Copy, Debug, PartialEq, Eq, Structural)]
pub enum TcpAction {
    /// Send small segments without delay.
    SetNoDelay,
    /// Probe a silent peer after `time_secs`, every `interval_secs`.
    SetKeepalive { time_secs: u64, interval_secs: u64 },
    /// Go on finding out whether the client speaks TLS.
    Detect(DetectAction),
    /// Create a TLS session.
    CreateSession,
    /// Put the TLS session on the connection.
    CreateStream,
    /// Accept the client's TLS handshake.
    Handshake,
    /// Go on receiving the client.
    Reception(ConnectionProfile, ReceptionAction),
    /// Nothing: the connection is over.
    Finish,
}

/// How far a TCP connection has come.
#[derive(Debug)]
pub enum TcpPhase<E> {
    SettingNoDelay,
    SettingKeepalive,
    /// Telling TLS from plain text, since `since`.
    Detecting { since: u128, detection: TlsDetection },
    CreatingSession,
    CreatingStream,
    Handshaking,
    /// Receiving the client, over TLS or in plain text.
    Receiving { tls: bool, reception: Reception<E> },
    Finished(Result<(), Failure<E>>),
}

/// A TCP connection on its way from being accepted to being over.
#[derive(Debug)]
pub struct TcpConnection<E> {
    pub enforce_tls: bool,
    pub peer: IpAddress,
    pub phase: TcpPhase<E>,
}

impl<E> TcpConnection<E> {
    /// What to do next.
    pub open spec fn spec_action(self) -> TcpAction {
        match self.phase {
            TcpPhase::SettingNoDelay => TcpAction::SetNoDelay,
            TcpPhase::SettingKeepalive => TcpAction::SetKeepalive {
                time_secs: TCP_KEEPALIVE_TIME_SECS,
                interval_secs: TCP_KEEPALIVE_INTERVAL_SECS,
            },
            TcpPhase::Detecting { detection, .. } => TcpAction::Detect(detection.spec_action()),
            TcpPhase::CreatingSession => TcpAction::CreateSession,
            TcpPhase::CreatingStream => TcpAction::CreateStream,
            TcpPhase::Handshaking => TcpAction::Handshake,
            TcpPhase::Receiving { tls, reception } => TcpAction::Reception(
                ConnectionProfile::of_tcp(self.peer, tls),
                reception.spec_action(),
            ),
            TcpPhase::Finished(_) => TcpAction::Finish,
        }
    }

    /// The phase that follows when telling TLS from plain text has come to
    /// `detection`, having gone on since `since`.
    pub open spec fn detected(since: u128, detection: TlsDetection) -> TcpPhase<E> {
        match detection {
            TlsDetection::Finished(Ok(true)) => TcpPhase::CreatingSession,
            TlsDetection::Finished(Ok(false)) => TcpPhase::Receiving {
                tls: false,
                reception: Reception::CreatingContext,
            },
            TlsDetection::Finished(Err(error)) => TcpPhase::Finished(Err(Failure::Gateway(error))),
            _ => TcpPhase::Detecting { since, detection },
        }
    }

    /// The phase that follows when receiving the client has come to `reception`.
    pub open spec fn received(tls: bool, reception: Reception<E>) -> TcpPhase<E> {
        match reception {
            Reception::Finished(Ok(_)) => TcpPhase::Finished(Ok(())),
            Reception::Finished(Err(error)) => TcpPhase::Finished(Err(Failure::Service(error))),
            _ => TcpPhase::Receiving { tls, reception },
        }
    }

    /// The phase after `event` at `now`. An event that was not asked for changes
    /// nothing.
    pub open spec fn next_phase(self, event: TcpEvent<E>, now: u128) -> TcpPhase<E> {
        match (self.phase, event) {
            (TcpPhase::SettingNoDelay, TcpEvent::NoDelaySet(Ok(_))) => TcpPhase::SettingKeepalive,
            (TcpPhase::SettingKeepalive, TcpEvent::KeepaliveSet(Ok(_))) => if self.enforce_tls {
                TcpPhase::CreatingSession
            } else {
                TcpPhase::Detecting { since: now, detection: TlsDetection::Peeking }
            },
            (TcpPhase::Detecting { since, detection }, TcpEvent::Detect(event)) => Self::detected(
                since,
                detection.next(event, clock::span(since, now) as u128),
            ),
            (TcpPhase::CreatingSession, TcpEvent::SessionCreated(Ok(_))) =>
                TcpPhase::CreatingStream,
            (TcpPhase::CreatingStream, TcpEvent::StreamCreated(Ok(_))) => TcpPhase::Handshaking,
            (TcpPhase::Handshaking, TcpEvent::HandshakeDone(Ok(_))) => TcpPhase::Receiving {
                tls: true,
                reception: Reception::CreatingContext,
            },
            (TcpPhase::Handshaking, TcpEvent::HandshakeDone(Err(reason))) => TcpPhase::Finished(
                Err(Failure::Gateway(DocumentDBError::HandshakeFailed(reason))),
            ),
            (TcpPhase::Receiving { tls, reception }, TcpEvent::Reception(event)) => Self::received(
                tls,
                reception.next(event),
            ),
            (TcpPhase::SettingNoDelay, TcpEvent::NoDelaySet(Err(error)))
            | (TcpPhase::SettingKeepalive, TcpEvent::KeepaliveSet(Err(error)))
            | (TcpPhase::CreatingSession, TcpEvent::SessionCreated(Err(error)))
            | (TcpPhase::CreatingStream, TcpEvent::StreamCreated(Err(error))) =>
                TcpPhase::Finished(Err(Failure::Service(error))),
            (same, _) => same,
        }
    }

    /// The connection after `event` at `now`.
    pub open spec fn next(self, event: TcpEvent<E>, now: u128) -> TcpConnection<E> {
        TcpConnection { phase: self.next_phase(event, now), ..self }
    }

    /// The connection after all of `inputs`, in order: events, each with the time
    /// at which it happened.
    pub open spec fn after(self, inputs: Seq<(TcpEvent<E>, u128)>) -> TcpConnection<E>
        decreases inputs.len(),
    {
        if inputs.len() == 0 {
            self
        } else {
            let (event, now) = inputs.last();
            self.after(inputs.drop_last()).next(event, now)
        }
    }

    /// A connection that the listener has accepted, or failed to.
    pub fn accepted(
        accepted: Result<IpAddress, E>,
        enforce_tls: bool,
    ) -> (connection: Result<TcpConnection<E>, E>)
        ensures
            match accepted {
                Ok(peer) => connection == Ok::<TcpConnection<E>, E>(
                    TcpConnection { enforce_tls, peer, phase: TcpPhase::SettingNoDelay },
                ),
                Err(error) => connection == Err::<TcpConnection<E>, E>(error),
            },
    {
        match accepted {
            Ok(peer) => Ok(TcpConnection { enforce_tls, peer, phase: TcpPhase::SettingNoDelay }),
            Err(error) => Err(error),
        }
    }

    /// What to do next.
    pub fn action(&self) -> (action: TcpAction)
        ensures
            action == self.spec_action(),
    {
        match &self.phase {
            TcpPhase::SettingNoDelay => TcpAction::SetNoDelay,
            TcpPhase::SettingKeepalive => TcpAction::SetKeepalive {
                time_secs: TCP_KEEPALIVE_TIME_SECS,
                interval_secs: TCP_KEEPALIVE_INTERVAL_SECS,
            },
            TcpPhase::Detecting { detection, .. } => TcpAction::Detect(detection.action()),
            TcpPhase::CreatingSession => TcpAction::CreateSession,
            TcpPhase::CreatingStream => TcpAction::CreateStream,
            TcpPhase::Handshaking => TcpAction::Handshake,
            TcpPhase::Receiving { tls, reception } => TcpAction::Reception(
                ConnectionProfile {
                    transport: Transport::Tcp,
                    peer: Some(self.peer.canonical()),
                    tls: *tls,
                },
                reception.action(),
            ),
            TcpPhase::Finished(_) => TcpAction::Finish,
        }
    }

    /// The nanoseconds that a peek may take at `now`: what the client has left to
    /// send its first bytes, while they are awaited, and otherwise none.
    pub fn peek_time(&self, now: u128) -> (nanos: u128)
        ensures
            nanos == (match self.phase {
                TcpPhase::Detecting { since, .. } => tls::time_left(
                    clock::span(since, now) as u128,
                ),
                _ => 0,
            }),
    {
        match &self.phase {
            TcpPhase::Detecting { since, .. } => peek_timeout(nanos_between(*since, now)),
            _ => 0,
        }
    }

    /// Takes in what came of the last action, at `now`.
    pub fn step(self, event: TcpEvent<E>, now: u128) -> (connection: TcpConnection<E>)
        ensures
            connection == self.next(event, now),
    {
        let phase = match (self.phase, event) {
            (TcpPhase::SettingNoDelay, TcpEvent::NoDelaySet(Ok(_))) => TcpPhase::SettingKeepalive,
            (TcpPhase::SettingKeepalive, TcpEvent::KeepaliveSet(Ok(_))) => {
                if self.enforce_tls {
                    TcpPhase::CreatingSession
                } else {
                    TcpPhase::Detecting { since: now, detection: TlsDetection::Peeking }
                }
            },
            (TcpPhase::Detecting { since, detection }, TcpEvent::Detect(event)) => match detection.step(
                event,
                nanos_between(since, now),
            ) {
                TlsDetection::Finished(Ok(true)) => TcpPhase::CreatingSession,
                TlsDetection::Finished(Ok(false)) => TcpPhase::Receiving {
                    tls: false,
                    reception: Reception::start(),
                },
                TlsDetection::Finished(Err(error)) => TcpPhase::Finished(
                    Err(Failure::Gateway(error)),
                ),
                detection => TcpPhase::Detecting { since, detection },
            },
            (TcpPhase::CreatingSession, TcpEvent::SessionCreated(Ok(_))) =>
                TcpPhase::CreatingStream,
            (TcpPhase::CreatingStream, TcpEvent::StreamCreated(Ok(_))) => TcpPhase::Handshaking,
            (TcpPhase::Handshaking, TcpEvent::HandshakeDone(Ok(_))) => TcpPhase::Receiving {
                tls: true,
                reception: Reception::start(),
            },
            (TcpPhase::Handshaking, TcpEvent::HandshakeDone(Err(reason))) => TcpPhase::Finished(
                Err(Failure::Gateway(DocumentDBError::HandshakeFailed(reason))),
            ),
            (TcpPhase::Receiving { tls, reception }, TcpEvent::Reception(event)) => match reception.step(
                event,
            ) {
                Reception::Finished(Ok(_)) => TcpPhase::Finished(Ok(())),
                Reception::Finished(Err(error)) => TcpPhase::Finished(
                    Err(Failure::Service(error)),
                ),
                reception => TcpPhase::Receiving { tls, reception },
            },
            (TcpPhase::SettingNoDelay, TcpEvent::NoDelaySet(Err(error)))
            | (TcpPhase::SettingKeepalive, TcpEvent::KeepaliveSet(Err(error)))
            | (TcpPhase::CreatingSession, TcpEvent::SessionCreated(Err(error)))
            | (TcpPhase::CreatingStream, TcpEvent::StreamCreated(Err(error))) =>
                TcpPhase::Finished(Err(Failure::Service(error))),
            (same, _) => same,
        };
        TcpConnection { enforce_tls: self.enforce_tls, peer: self.peer, phase }
    }
}

/// A connection that is about to be configured, as the listener hands it over.
pub open spec fn fresh<E>(enforce_tls: bool, peer: IpAddress) -> TcpConnection<E> {
    TcpConnection { enforce_tls, peer, phase: TcpPhase::SettingNoDelay }
}

/// Where TLS is enforced, no client is received in plain text and none is spared
/// the handshake: a client that is being received has completed it.
pub proof fn enforced_tls_is_never_bypassed<E>(peer: IpAddress, inputs: Seq<(TcpEvent<E>, u128)>)
    ensures
        fresh::<E>(true, peer).after(inputs).enforce_tls,
        !(fresh::<E>(true, peer).after(inputs).phase is Detecting),
        fresh::<E>(true, peer).after(inputs).phase matches TcpPhase::Receiving { tls, .. } ==> tls,
    decreases inputs.len(),
{
    if inputs.len() > 0 {
        enforced_tls_is_never_bypassed(peer, inputs.drop_last());
    }
}

/// A client is received over TLS only after its handshake succeeded.
pub proof fn tls_needs_a_handshake<E>(
    connection: TcpConnection<E>,
    event: TcpEvent<E>,
    now: u128,
)
    requires
        !(connection.phase matches TcpPhase::Receiving { tls, .. } && tls),
        connection.next(event, now).phase matches TcpPhase::Receiving { tls, .. } && tls,
    ensures
        connection.phase is Handshaking,
        event matches TcpEvent::HandshakeDone(Ok(_)),
{
}

/// A step on the way to serving the client has failed with `failure`: configuring
/// the socket, telling TLS from plain text, setting up TLS or its handshake,
/// creating the client's context, or buffering its stream.
pub open spec fn fails_with<E>(
    connection: TcpConnection<E>,
    event: TcpEvent<E>,
    now: u128,
    failure: Failure<E>,
) -> bool {
    match (connection.phase, event) {
        (TcpPhase::SettingNoDelay, TcpEvent::NoDelaySet(Err(error)))
        | (TcpPhase::SettingKeepalive, TcpEvent::KeepaliveSet(Err(error)))
        | (TcpPhase::CreatingSession, TcpEvent::SessionCreated(Err(error)))
        | (TcpPhase::CreatingStream, TcpEvent::StreamCreated(Err(error)))
        | (
            TcpPhase::Receiving { reception: Reception::CreatingContext, .. },
            TcpEvent::Reception(ReceptionEvent::ContextCreated(Err(error))),
        )
        | (
            TcpPhase::Receiving { reception: Reception::Buffering, .. },
            TcpEvent::Reception(ReceptionEvent::StreamBuffered(Err(error))),
        ) => failure == Failure::Service(error),
        (TcpPhase::Detecting { since, detection }, TcpEvent::Detect(event)) => exists|error|
            #![auto]
            failure == Failure::<E>::Gateway(error) && detection.next(
                event,
                clock::span(since, now) as u128,
            ) == TlsDetection::Finished(Err(error)),
        (TcpPhase::Handshaking, TcpEvent::HandshakeDone(Err(reason))) => failure
            == Failure::<E>::Gateway(DocumentDBError::HandshakeFailed(reason)),
        _ => false,
    }
}

/// A connection ends with an error exactly when a step on the way to serving the
/// client fails, and with the error of that step; it ends with success exactly
/// when the client has been served.
pub proof fn connection_ends_for_cause<E>(
    connection: TcpConnection<E>,
    event: TcpEvent<E>,
    now: u128,
)
    requires
        !(connection.phase is Finished),
        connection.phase matches TcpPhase::Receiving { reception, .. } ==> !(reception is Finished),
    ensures
        forall|failure: Failure<E>|
            connection.next(event, now).phase == TcpPhase::<E>::Finished(Err(failure))
                <==> #[trigger] fails_with(connection, event, now, failure),
        connection.next(event, now).phase == TcpPhase::<E>::Finished(Ok(())) <==> {
            &&& connection.phase matches TcpPhase::Receiving { reception, .. }
            &&& reception is Serving
            &&& event matches TcpEvent::Reception(ReceptionEvent::Served)
        },
{
    assert forall|failure: Failure<E>|
        connection.next(event, now).phase == TcpPhase::<E>::Finished(Err(failure))
            <==> #[trigger] fails_with(connection, event, now, failure) by {
        if let Failure::Gateway(error) = failure {
            assert(failure == Failure::<E>::Gateway(error));
        }
    }
}

/// Where TLS is not enforced, a client has a limited time to send the bytes that
/// tell whether it speaks TLS: once that time is over, the next peek, whatever
/// it shows, ends the search.
pub proof fn search_for_tls_is_limited<E>(
    connection: TcpConnection<E>,
    since: u128,
    event: DetectEvent,
    now: u128,
)
    requires
        connection.phase == (TcpPhase::<E>::Detecting { since, detection: TlsDetection::Peeking }),
        !(event is Waited),
        now >= since + tls::TLS_PEEK_TIMEOUT_SECS * 1_000_000_000,
    ensures
        !(connection.next(TcpEvent::Detect(event), now).phase is Detecting),
{
    tls::client_has_limited_time(event, clock::span(since, now) as u128);
}

/// Whatever happens on a connection, the client keeps the address it came with,
/// and is known by the canonical form of it.
pub proof fn client_keeps_its_address<E>(
    enforce_tls: bool,
    peer: IpAddress,
    inputs: Seq<(TcpEvent<E>, u128)>,
)
    ensures
        fresh::<E>(enforce_tls, peer).after(inputs).peer == peer,
        fresh::<E>(enforce_tls, peer).after(inputs).spec_action() matches TcpAction::Reception(profile, _)
            ==> profile.peer == Some(peer.spec_canonical()) && profile.transport == Transport::Tcp,
    decreases inputs.len(),
{
    if inputs.len() > 0 {
        client_keeps_its_address(enforce_tls, peer, inputs.drop_last());
    }
}

/// Receiving a client goes from its context to its buffers, of 8 KiB each way, to
/// serving it; each failure ends it with its error, and it is over when the client
/// has been served. It asks for the step that it is at, and what it did not ask for
/// changes nothing.
pub proof fn reception_goes_step_by_step<E>(
    reception: Reception<E>,
    event: ReceptionEvent<E>,
    outcome: Result<(), E>,
)
    ensures
        Reception::<E>::CreatingContext.spec_action() == ReceptionAction::CreateContext,
        Reception::<E>::Buffering.spec_action() == (ReceptionAction::BufferStream {
            read_size: 8192,
            write_size: 8192,
        }),
        Reception::<E>::Serving.spec_action() == ReceptionAction::Serve,
        Reception::<E>::Finished(outcome).spec_action() == ReceptionAction::Finish,
        reception is CreatingContext && event == ReceptionEvent::<E>::ContextCreated(outcome)
            ==> reception.next(event) == (match outcome {
            Ok(_) => Reception::<E>::Buffering,
            Err(error) => Reception::<E>::Finished(Err(error)),
        }),
        reception is CreatingContext && !(event is ContextCreated) ==> reception.next(event)
            == reception,
        reception is Buffering && event == ReceptionEvent::<E>::StreamBuffered(outcome)
            ==> reception.next(event) == (match outcome {
            Ok(_) => Reception::<E>::Serving,
            Err(error) => Reception::<E>::Finished(Err(error)),
        }),
        reception is Buffering && !(event is StreamBuffered) ==> reception.next(event) == reception,
        reception is Serving && event is Served ==> reception.next(event)
            == Reception::<E>::Finished(Ok(())),
        reception is Serving && !(event is Served) ==> reception.next(event) == reception,
        reception is Finished ==> reception.next(event) == reception,
{
}

/// A TCP connection asks for the step that it is at. Probes start after three
/// minutes of silence and come every minute; a client is received as one on TCP,
/// under its canonical address, with or without TLS as was found out.
pub proof fn connection_asks_for_its_step<E>(
    connection: TcpConnection<E>,
    since: u128,
    detection: TlsDetection,
    tls: bool,
    reception: Reception<E>,
)
    ensures
        ({
            let action = connection.spec_action();
            let profile = ConnectionProfile {
                transport: Transport::Tcp,
                peer: Some(connection.peer.spec_canonical()),
                tls,
            };
            &&& connection.phase is SettingNoDelay ==> action == TcpAction::SetNoDelay
            &&& connection.phase is SettingKeepalive ==> action == TcpAction::SetKeepalive {
                time_secs: 180,
                interval_secs: 60,
            }
            &&& connection.phase == (TcpPhase::<E>::Detecting { since, detection }) ==> action
                == TcpAction::Detect(detection.spec_action())
            &&& connection.phase is CreatingSession ==> action == TcpAction::CreateSession
            &&& connection.phase is CreatingStream ==> action == TcpAction::CreateStream
            &&& connection.phase is Handshaking ==> action == TcpAction::Handshake
            &&& connection.phase == (TcpPhase::<E>::Receiving { tls, reception }) ==> action
                == TcpAction::Reception(profile, reception.spec_action())
            &&& connection.phase is Finished ==> action == TcpAction::Finish
        }),
{
}

/// A TCP connection that is configured goes on to TLS where it is enforced, and
/// else to finding out whether the client speaks it, from that moment on. Setting
/// up TLS goes from the session to the stream to the handshake, and a handshake
/// that succeeded to receiving the client over TLS.
pub proof fn connection_goes_step_by_step<E>(connection: TcpConnection<E>, now: u128)
    ensures
        ({
            let fresh = Reception::<E>::CreatingContext;
            let no_delay = connection.next(TcpEvent::NoDelaySet(Ok(())), now);
            let keepalive = connection.next(TcpEvent::KeepaliveSet(Ok(())), now);
            let session = connection.next(TcpEvent::SessionCreated(Ok(())), now);
            let stream = connection.next(TcpEvent::StreamCreated(Ok(())), now);
            let handshake = connection.next(TcpEvent::HandshakeDone(Ok(())), now);
            &&& connection.phase is SettingNoDelay ==> no_delay.phase
                == TcpPhase::<E>::SettingKeepalive
            &&& connection.phase is SettingKeepalive && connection.enforce_tls ==> keepalive.phase
                == TcpPhase::<E>::CreatingSession
            &&& connection.phase is SettingKeepalive && !connection.enforce_tls ==> keepalive.phase
                == TcpPhase::<E>::Detecting { since: now, detection: TlsDetection::Peeking }
            &&& connection.phase is CreatingSession ==> session.phase
                == TcpPhase::<E>::CreatingStream
            &&& connection.phase is CreatingStream ==> stream.phase == TcpPhase::<E>::Handshaking
            &&& connection.phase is Handshaking ==> handshake.phase == TcpPhase::<E>::Receiving {
                tls: true,
                reception: fresh,
            }
        }),
{
}

/// Whatever is told to a TCP connection, where the client comes from and whether
/// TLS is enforced stay the same.
pub proof fn connection_keeps_what_it_is<E>(
    connection: TcpConnection<E>,
    event: TcpEvent<E>,
    now: u128,
)
    ensures
        connection.next(event, now).peer == connection.peer,
        connection.next(event, now).enforce_tls == connection.enforce_tls,
{
}

/// What a peek shows decides how a client is received: three bytes of a handshake
/// lead to setting up TLS, a byte that no handshake has leads to receiving the
/// client in plain text, and what does not tell yet, within five seconds, to
/// waiting; the time of the search runs on from where it began.
pub proof fn first_bytes_decide_how_a_client_is_received<E>(
    connection: TcpConnection<E>,
    since: u128,
    seen: Vec<u8>,
    now: u128,
)
    requires
        connection.phase == (TcpPhase::<E>::Detecting { since, detection: TlsDetection::Peeking }),
        seen@.len() > 0,
    ensures
        ({
            let phase = connection.next(TcpEvent::Detect(DetectEvent::Peeked(seen)), now).phase;
            let foreign = {
                ||| seen@[0] != 0x16
                ||| seen@.len() >= 2 && seen@[1] != 0x03
                ||| seen@.len() >= 3 && (seen@[2] < 0x01 || seen@[2] > 0x04)
            };
            &&& foreign ==> phase == TcpPhase::<E>::Receiving {
                tls: false,
                reception: Reception::CreatingContext,
            }
            &&& !foreign && seen@.len() >= 3 ==> phase == TcpPhase::<E>::CreatingSession
            &&& !foreign && seen@.len() < 3 && clock::span(since, now) < 5_000_000_000 ==> phase
                == TcpPhase::<E>::Detecting { since, detection: TlsDetection::Waiting }
            &&& !foreign && seen@.len() < 3 && clock::span(since, now) >= 5_000_000_000 ==> phase
                == TcpPhase::<E>::Finished(Err(Failure::Gateway(DocumentDBError::ReadTimedOut)))
        }),
{
    tls::peek_is_answered_by_its_bytes(seen, clock::span(since, now) as u128);
}

/// A search for TLS that goes on is gone on with, from where it began, and one that
/// failed ends the connection with its error.
pub proof fn search_for_tls_is_gone_on_with<E>(
    connection: TcpConnection<E>,
    since: u128,
    detection: TlsDetection,
    event: DetectEvent,
    now: u128,
    error: DocumentDBError,
)
    requires
        connection.phase == (TcpPhase::<E>::Detecting { since, detection }),
    ensures
        ({
            let found = detection.next(event, clock::span(since, now) as u128);
            let phase = connection.next(TcpEvent::Detect(event), now).phase;
            &&& !(found is Finished) ==> phase == TcpPhase::<E>::Detecting {
                since,
                detection: found,
            }
            &&& found == TlsDetection::Finished(Ok(true)) ==> phase
                == TcpPhase::<E>::CreatingSession
            &&& found == TlsDetection::Finished(Ok(false)) ==> phase == TcpPhase::<E>::Receiving {
                tls: false,
                reception: Reception::CreatingContext,
            }
            &&& found == TlsDetection::Finished(Err(error)) ==> phase == TcpPhase::<E>::Finished(
                Err(Failure::Gateway(error)),
            )
        }),
{
}

/// Receiving a client that goes on is gone on with, over TLS or in plain text as
/// before; when the client has been served the connection is over, and when it
/// cannot be the connection ends with that error.
pub proof fn reception_is_gone_on_with<E>(
    connection: TcpConnection<E>,
    tls: bool,
    reception: Reception<E>,
    event: ReceptionEvent<E>,
    now: u128,
    error: E,
)
    requires
        connection.phase == (TcpPhase::<E>::Receiving { tls, reception }),
    ensures
        ({
            let next = reception.next(event);
            let phase = connection.next(TcpEvent::Reception(event), now).phase;
            &&& !(next is Finished) ==> phase == TcpPhase::<E>::Receiving { tls, reception: next }
            &&& next == Reception::<E>::Finished(Ok(())) ==> phase == TcpPhase::<E>::Finished(
                Ok(()),
            )
            &&& next == Reception::<E>::Finished(Err(error)) ==> phase == TcpPhase::<E>::Finished(
                Err(Failure::Service(error)),
            )
        }),
{
}

/// A step of setting up a TCP connection that fails ends it with the error of that
/// step, and a handshake that fails with its reason.
pub proof fn failed_step_ends_the_connection<E>(
    connection: TcpConnection<E>,
    error: E,
    reason: String,
    now: u128,
)
    ensures
        ({
            let failed = TcpPhase::<E>::Finished(Err(Failure::Service(error)));
            let refused = TcpPhase::<E>::Finished(
                Err(Failure::Gateway(DocumentDBError::HandshakeFailed(reason))),
            );
            &&& connection.phase is SettingNoDelay ==> connection.next(
                TcpEvent::NoDelaySet(Err(error)),
                now,
            ).phase == failed
            &&& connection.phase is SettingKeepalive ==> connection.next(
                TcpEvent::KeepaliveSet(Err(error)),
                now,
            ).phase == failed
            &&& connection.phase is CreatingSession ==> connection.next(
                TcpEvent::SessionCreated(Err(error)),
                now,
            ).phase == failed
            &&& connection.phase is CreatingStream ==> connection.next(
                TcpEvent::StreamCreated(Err(error)),
                now,
            ).phase == failed
            &&& connection.phase is Handshaking ==> connection.next(
                TcpEvent::HandshakeDone(Err(reason)),
                now,
            ).phase == refused
        }),
{
}

/// What a TCP connection did not ask for leaves it as it is.
pub proof fn connection_ignores_what_it_did_not_ask_for<E>(
    connection: TcpConnection<E>,
    event: TcpEvent<E>,
    now: u128,
)
    requires
        match connection.phase {
            TcpPhase::SettingNoDelay => !(event is NoDelaySet),
            TcpPhase::SettingKeepalive => !(event is KeepaliveSet),
            TcpPhase::Detecting { .. } => !(event is Detect),
            TcpPhase::CreatingSession => !(event is SessionCreated),
            TcpPhase::CreatingStream => !(event is StreamCreated),
            TcpPhase::Handshaking => !(event is HandshakeDone),
            TcpPhase::Receiving { .. } => !(event is Reception),
            TcpPhase::Finished(_) => true,
        },
    ensures
        connection.next(event, now) == connection,
{
}

} // verus!
