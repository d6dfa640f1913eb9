//! The accept loop of a server, and the requests that it hands out.

use vstd::prelude::*;

use crate::connect;
use crate::crypto;
use crate::connect::{Connecting, ConnectRequest, ConnectResponse};
use crate::crypto::{default_provider, Provider};
use crate::error::{ConnectError, ServerError, SettingsError};
use crate::session::Session;
use crate::span;
use crate::tls;
use crate::tls::server_config;
use crate::wire;
use crate::wire::VARINT_LIMIT;

verus! {

/// Maximum number of H3/WebTransport handshakes (accepted QUIC connections that haven't yet produced a
/// [`Request`]) that a server drives at once. Without a cap, a peer that finishes the QUIC handshake
/// and then stalls (no control stream, no CONNECT) pins state indefinitely.
///
/// Because the server always dequeues from the underlying endpoint and closes anything over this cap
/// on arrival, this is a hard bound on the handshake state one endpoint can pin. It bounds the largest
/// burst of simultaneous connects that the endpoint will admit, so it is sized as a backstop rather
/// than a capacity limit.
pub const MAX_INFLIGHT_SESSION_HANDSHAKES: usize = 8192;

/// Per-handshake timeout for the H3 SETTINGS/CONNECT exchange, so a stalled peer can't hold a driven
/// slot forever.
pub const HANDSHAKE_TIMEOUT_SECS: u64 = 10;

/// `H3_EXCESSIVE_LOAD` from the HTTP/3 error space (RFC 9114, section 8.1), used to close connections
/// arriving while as many handshakes as allowed are already being driven. It is the H3 layer that is
/// out of capacity and no WebTransport session exists yet, so this is a raw HTTP/3 code rather than a
/// WebTransport code.
pub const H3_EXCESSIVE_LOAD: u64 = 0x0107;

/// Whether a freshly dequeued connection may join the `driven` handshakes where `max` are allowed.
pub fn has_capacity(driven: u64, max: usize) -> (r: bool)
    ensures
        r == (driven < max),
{
    driven < max as u64
}

/// Whether a freshly dequeued connection may join the driven handshake set under the default limits.
pub fn has_handshake_capacity(driven: usize) -> (r: bool)
    ensures
        r == (driven < MAX_INFLIGHT_SESSION_HANDSHAKES),
{
    has_capacity(driven as u64, MAX_INFLIGHT_SESSION_HANDSHAKES)
}

/// How many handshakes a server drives at once, and for how long each.
#[derive(Debug, Clone, Copy, PartialEq, Eq)]
pub struct HandshakeLimits {
    pub max_inflight: usize,
    pub timeout: std::time::Duration,
}

impl HandshakeLimits {
    /// Says that these are the default limits.
    pub open spec fn are_default(self) -> bool {
        &&& self.max_inflight == MAX_INFLIGHT_SESSION_HANDSHAKES
        &&& span::nanos(self.timeout) == HANDSHAKE_TIMEOUT_SECS * 1_000_000_000
    }
}

impl Default for HandshakeLimits {
    fn default() -> (r: Self)
        ensures
            r.are_default(),
    {
        HandshakeLimits {
            max_inflight: MAX_INFLIGHT_SESSION_HANDSHAKES,
            timeout: std::time::Duration::from_secs(HANDSHAKE_TIMEOUT_SECS),
        }
    }
}

/// What became of the connections that a server dequeued. The counters stop at their maximum.
#[derive(Debug, Clone, Copy, PartialEq, Eq, Structural)]
pub struct HandshakeStats {
    /// Connections whose handshake was driven.
    pub admitted: u64,
    /// Connections that were closed on arrival.
    pub rejected: u64,
    /// Handshakes that produced a request.
    pub completed: u64,
    /// Handshakes that failed.
    pub failed: u64,
    /// Handshakes that took too long.
    pub timed_out: u64,
    /// Handshakes that are being driven.
    pub inflight: u64,
    /// The most handshakes that were ever driven at once.
    pub inflight_high_water: u64,
}

impl Default for HandshakeStats {
    fn default() -> (r: Self)
        ensures
            r == HandshakeStats::none(),
    {
        HandshakeStats {
            admitted: 0,
            rejected: 0,
            completed: 0,
            failed: 0,
            timed_out: 0,
            inflight: 0,
            inflight_high_water: 0,
        }
    }
}

/// What can happen to a handshake.
pub enum Occurrence {
    Arrived,
    Completed,
    Failed,
    TimedOut,
}

/// One more, up to the maximum.
pub open spec fn counted(n: u64) -> u64 {
    if n < u64::MAX {
        (n + 1) as u64
    } else {
        n
    }
}

impl HandshakeStats {
    /// The statistics before anything happened.
    pub open spec fn none() -> HandshakeStats {
        HandshakeStats {
            admitted: 0,
            rejected: 0,
            completed: 0,
            failed: 0,
            timed_out: 0,
            inflight: 0,
            inflight_high_water: 0,
        }
    }

    /// Says that the counts add up: at most `max` handshakes are driven at once, and each that was
    /// admitted is in flight or has ended in one way.
    pub open spec fn consistent(self, max: usize) -> bool {
        &&& self.inflight <= self.inflight_high_water <= max
        &&& self.admitted < u64::MAX ==> self.admitted == self.completed + self.failed
            + self.timed_out + self.inflight
    }

    /// The statistics after something happened, where up to `max` handshakes are driven at once.
    pub open spec fn after(self, max: usize, what: Occurrence) -> HandshakeStats {
        match what {
            Occurrence::Arrived => if self.inflight < max {
                HandshakeStats {
                    admitted: counted(self.admitted),
                    inflight: (self.inflight + 1) as u64,
                    inflight_high_water: if self.inflight_high_water > self.inflight {
                        self.inflight_high_water
                    } else {
                        (self.inflight + 1) as u64
                    },
                    ..self
                }
            } else {
                HandshakeStats { rejected: counted(self.rejected), ..self }
            },
            Occurrence::Completed => HandshakeStats {
                completed: counted(self.completed),
                inflight: (self.inflight - 1) as u64,
                ..self
            },
            Occurrence::Failed => HandshakeStats {
                failed: counted(self.failed),
                inflight: (self.inflight - 1) as u64,
                ..self
            },
            Occurrence::TimedOut => HandshakeStats {
                timed_out: counted(self.timed_out),
                inflight: (self.inflight - 1) as u64,
                ..self
            },
        }
    }

    /// The statistics after `n` connections arrived in a row.
    pub open spec fn after_burst(self, max: usize, n: nat) -> HandshakeStats
        decreases n,
    {
        if n == 0 {
            self
        } else {
            self.after_burst(max, (n - 1) as nat).after(max, Occurrence::Arrived)
        }
    }
}

/// Counts what becomes of the connections that a server dequeues.
pub struct HandshakeCounters {
    max_inflight: usize,
    stats: HandshakeStats,
}

impl HandshakeCounters {
    #[verifier::type_invariant]
    spec fn well_formed(self) -> bool {
        self.stats.consistent(self.max_inflight)
    }

    /// How many handshakes may be driven at once.
    pub closed spec fn max(self) -> usize {
        self.max_inflight
    }

    /// The counts.
    pub closed spec fn counts(self) -> HandshakeStats {
        self.stats
    }

    /// Counters for up to `max_inflight` handshakes at once.
    pub fn new(max_inflight: usize) -> (r: Self)
        ensures
            r.max() == max_inflight,
            r.counts() == HandshakeStats::none(),
    {
        HandshakeCounters { max_inflight, stats: HandshakeStats::default() }
    }

    /// The counts so far.
    pub fn snapshot(&self) -> (r: HandshakeStats)
        ensures
            r == self.counts(),
            r.consistent(self.max()),
    {
        proof {
            use_type_invariant(self);
        }
        self.stats
    }

    /// Counts a connection that arrived, and says whether its handshake is to be driven.
    pub fn arrived(&mut self) -> (admitted: bool)
        ensures
            final(self).max() == old(self).max(),
            final(self).counts() == old(self).counts().after(old(self).max(), Occurrence::Arrived),
            admitted == (old(self).counts().inflight < old(self).max()),
    {
        proof {
            use_type_invariant(&*self);
        }
        let stats = self.stats;
        if has_capacity(stats.inflight, self.max_inflight) {
            let inflight: u64 = stats.inflight + 1;
            self.stats = HandshakeStats {
                admitted: stats.admitted.saturating_add(1),
                rejected: stats.rejected,
                completed: stats.completed,
                failed: stats.failed,
                timed_out: stats.timed_out,
                inflight,
                inflight_high_water: if stats.inflight_high_water >= inflight {
                    stats.inflight_high_water
                } else {
                    inflight
                },
            };
            true
        } else {
            self.stats = HandshakeStats {
                admitted: stats.admitted,
                rejected: stats.rejected.saturating_add(1),
                completed: stats.completed,
                failed: stats.failed,
                timed_out: stats.timed_out,
                inflight: stats.inflight,
                inflight_high_water: stats.inflight_high_water,
            };
            false
        }
    }

    /// Counts a handshake that produced a request.
    pub fn completed(&mut self)
        requires
            old(self).counts().inflight > 0,
        ensures
            final(self).max() == old(self).max(),
            final(self).counts() == old(self).counts().after(old(self).max(), Occurrence::Completed),
    {
        proof {
            use_type_invariant(&*self);
        }
        let stats = self.stats;
        self.stats = HandshakeStats {
            admitted: stats.admitted,
            rejected: stats.rejected,
            completed: stats.completed.saturating_add(1),
            failed: stats.failed,
            timed_out: stats.timed_out,
            inflight: stats.inflight - 1,
            inflight_high_water: stats.inflight_high_water,
        };
    }

    /// Counts a handshake that failed.
    pub fn failed(&mut self)
        requires
            old(self).counts().inflight > 0,
        ensures
            final(self).max() == old(self).max(),
            final(self).counts() == old(self).counts().after(old(self).max(), Occurrence::Failed),
    {
        proof {
            use_type_invariant(&*self);
        }
        let stats = self.stats;
        self.stats = HandshakeStats {
            admitted: stats.admitted,
            rejected: stats.rejected,
            completed: stats.completed,
            failed: stats.failed.saturating_add(1),
            timed_out: stats.timed_out,
            inflight: stats.inflight - 1,
            inflight_high_water: stats.inflight_high_water,
        };
    }

    /// Counts a handshake that took too long.
    pub fn timed_out(&mut self)
        requires
            old(self).counts().inflight > 0,
        ensures
            final(self).max() == old(self).max(),
            final(self).counts() == old(self).counts().after(old(self).max(), Occurrence::TimedOut),
    {
        proof {
            use_type_invariant(&*self);
        }
        let stats = self.stats;
        self.stats = HandshakeStats {
            admitted: stats.admitted,
            rejected: stats.rejected,
            completed: stats.completed,
            failed: stats.failed,
            timed_out: stats.timed_out.saturating_add(1),
            inflight: stats.inflight - 1,
            inflight_high_water: stats.inflight_high_water,
        };
    }
}

/// What happened while a server waits for requests of type `R`.
pub enum Event<R> {
    /// The endpoint yielded a connection.
    Connection,
    /// The endpoint is closed: there will be no more connections.
    EndpointClosed,
    /// A handshake that was driven came to an end.
    Handshake(Result<R, ServerError>),
}

/// What to do next.
pub enum Action<R> {
    /// Drive the connection's handshake, for at most so long.
    Drive { timeout: std::time::Duration },
    /// Close the connection with `code`.
    Reject { code: u64 },
    /// Look for the next event.
    Continue,
    /// Hand the request to the caller, or `None` after the last.
    Return(Option<R>),
}

/// A WebTransport server that accepts new sessions.
pub struct Server {
    limits: HandshakeLimits,
    counters: HandshakeCounters,
}

impl Server {
    #[verifier::type_invariant]
    spec fn well_formed(self) -> bool {
        self.counters.max() == self.limits.max_inflight
    }

    /// The limits of the server.
    pub closed spec fn handshake_limits(self) -> HandshakeLimits {
        self.limits
    }

    /// The counts of the server.
    pub closed spec fn counts(self) -> HandshakeStats {
        self.counters.counts()
    }

    /// Says that the server drives handshakes within `limits` and has seen no connection yet.
    pub open spec fn is_fresh(self, limits: HandshakeLimits) -> bool {
        &&& self.handshake_limits() == limits
        &&& self.counts() == HandshakeStats::none()
    }

    /// Create a new server that drives handshakes within the default limits.
    pub fn new() -> (r: Self)
        ensures
            r.handshake_limits().are_default(),
            r.counts() == HandshakeStats::none(),
    {
        Server::with_handshake_limits(HandshakeLimits::default())
    }

    /// Create a new server that drives handshakes within the given limits.
    pub fn with_handshake_limits(limits: HandshakeLimits) -> (r: Self)
        ensures
            r.handshake_limits() == limits,
            r.counts() == HandshakeStats::none(),
    {
        Server { limits, counters: HandshakeCounters::new(limits.max_inflight) }
    }

    /// What became of the connections so far.
    pub fn handshake_stats(&self) -> (r: HandshakeStats)
        ensures
            r == self.counts(),
            r.consistent(self.handshake_limits().max_inflight),
    {
        proof {
            use_type_invariant(self);
        }
        self.counters.snapshot()
    }

    /// What a handshake's end counts as.
    pub open spec fn occurrence<R>(res: Result<R, ServerError>) -> Occurrence {
        match res {
            Ok(_) => Occurrence::Completed,
            Err(ServerError::HandshakeTimeout) => Occurrence::TimedOut,
            Err(_) => Occurrence::Failed,
        }
    }

    /// One turn of the loop that accepts a new WebTransport session from a client.
    ///
    /// Connections are always dequeued: the endpoint's own queue is unbounded and the connections in
    /// it are undriven, so leaving them there would neither bound pinned state nor keep fresh sessions
    /// from queueing behind stalled handshakes.
    pub fn accept<R>(&mut self, event: Event<R>) -> (action: Action<R>)
        requires
            event is Handshake ==> old(self).counts().inflight > 0,
        ensures
            final(self).handshake_limits() == old(self).handshake_limits(),
            (match event {
                Event::Connection => {
                    &&& final(self).counts() == old(self).counts().after(
                        old(self).handshake_limits().max_inflight,
                        Occurrence::Arrived,
                    )
                    &&& action == if old(self).counts().inflight < old(
                        self).handshake_limits().max_inflight {
                        Action::Drive::<R> {
                            timeout: old(self).handshake_limits().timeout,
                        }
                    } else {
                        Action::Reject { code: H3_EXCESSIVE_LOAD }
                    }
                },
                Event::EndpointClosed => {
                    &&& final(self).counts() == old(self).counts()
                    &&& action == Action::Return::<R>(None)
                },
                Event::Handshake(res) => {
                    &&& final(self).counts() == old(self).counts().after(
                        old(self).handshake_limits().max_inflight,
                        Self::occurrence(res),
                    )
                    &&& action == (match res {
                        Ok(request) => Action::Return(Some(request)),
                        Err(_) => Action::Continue,
                    })
                },
            }),
    {
        proof {
            use_type_invariant(&*self);
        }
        let limits = self.limits;
        let mut counters = HandshakeCounters::new(limits.max_inflight);
        std::mem::swap(&mut counters, &mut self.counters);
        let action = match event {
            Event::Connection => if counters.arrived() {
                Action::Drive { timeout: limits.timeout }
            } else {
                // Over capacity: reject explicitly rather than pinning state.
                Action::Reject { code: H3_EXCESSIVE_LOAD }
            },
            Event::EndpointClosed => Action::Return(None),
            Event::Handshake(Ok(request)) => {
                counters.completed();
                Action::Return(Some(request))
            },
            Event::Handshake(Err(ServerError::HandshakeTimeout)) => {
                counters.timed_out();
                Action::Continue
            },
            Event::Handshake(Err(_)) => {
                counters.failed();
                Action::Continue
            },
        };
        self.counters = counters;
        action
    }
}

/// Construct a WebTransport [`Server`] using sane defaults.
pub struct ServerBuilder {
    pub provider: Provider,
    /// The address to listen on.
    pub addr: String,
    /// The server name (SNI) that the server answers for, where the QUIC layer routes connections by
    /// it.
    pub server_name: String,
    pub limits: HandshakeLimits,
}

impl Default for ServerBuilder {
    fn default() -> (r: Self)
        ensures
            r.has_defaults(),
    {
        ServerBuilder::new()
    }
}

impl ServerBuilder {
    /// Says that the builder has sane defaults. Which provider is the default depends on the process.
    pub open spec fn has_defaults(self) -> bool {
        &&& crypto::is_default(self.provider)
        &&& self.addr@ == "[::]:443"@
        &&& self.server_name@ == "localhost"@
        &&& self.limits.are_default()
    }

    /// Create a server builder with sane defaults.
    pub fn new() -> (r: Self)
        ensures
            r.has_defaults(),
    {
        ServerBuilder {
            provider: default_provider(),
            addr: "[::]:443".to_string(),
            server_name: "localhost".to_string(),
            limits: HandshakeLimits::default(),
        }
    }

    /// Listen on the specified address.
    pub fn with_addr(self, addr: String) -> (r: Self)
        ensures
            r == (ServerBuilder { addr, ..self }),
    {
        ServerBuilder {
            provider: self.provider,
            addr,
            server_name: self.server_name,
            limits: self.limits,
        }
    }

    /// Set the server name (SNI) that this server answers for.
    ///
    /// Where the QUIC layer routes incoming connections by the SNI in the client's `ClientHello`, the
    /// client must connect using a matching host name. Defaults to `"localhost"`.
    pub fn with_server_name(self, server_name: String) -> (r: Self)
        ensures
            r == (ServerBuilder { server_name, ..self }),
    {
        ServerBuilder {
            provider: self.provider,
            addr: self.addr,
            server_name,
            limits: self.limits,
        }
    }

    /// Drive handshakes within the given limits.
    pub fn with_handshake_limits(self, limits: HandshakeLimits) -> (r: Self)
        ensures
            r == (ServerBuilder { limits, ..self }),
    {
        ServerBuilder {
            provider: self.provider,
            addr: self.addr,
            server_name: self.server_name,
            limits,
        }
    }

    /// The TLS configuration to start the endpoint with, for a certificate chain and private key.
    pub fn tls_config(
        &self,
        chain: Vec<Vec<u8>>,
        key: rustls::pki_types::PrivateKeyDer<'static>,
    ) -> (r: Result<rustls::ServerConfig, ServerError>)
        ensures
            r is Ok <==> tls::can_serve(self.provider, tls::chain_of(chain@), key),
            (match r {
                Ok(config) => tls::serves(config, self.provider, tls::chain_of(chain@), key),
                Err(e) => e matches ServerError::Rustls(error) && tls::refuses_server(
                    self.provider,
                    chain,
                    key,
                    error,
                ),
            }),
    {
        server_config(&self.provider, chain, key)
    }

    /// The server, given whether its endpoint could be started with a certificate chain and private
    /// key, and else why not.
    pub fn with_certificate(&self, started: Result<(), String>) -> (r: Result<Server, ServerError>)
        ensures
            (match started {
                Ok(()) => r matches Ok(server) && server.is_fresh(self.limits),
                Err(text) => r == Err::<Server, ServerError>(ServerError::Build(text)),
            }),
    {
        match started {
            Ok(()) => Ok(Server::with_handshake_limits(self.limits)),
            Err(text) => Err(ServerError::Build(text)),
        }
    }
}

impl From<SettingsError> for ServerError {
    fn from(e: SettingsError) -> (r: Self) {
        ServerError::SettingsError(e)
    }
}

impl vstd::std_specs::convert::FromSpecImpl<SettingsError> for ServerError {
    open spec fn obeys_from_spec() -> bool {
        true
    }

    open spec fn from_spec(e: SettingsError) -> Self {
        ServerError::SettingsError(e)
    }
}

impl From<ConnectError> for ServerError {
    fn from(e: ConnectError) -> (r: Self) {
        ServerError::ConnectError(e)
    }
}

impl vstd::std_specs::convert::FromSpecImpl<ConnectError> for ServerError {
    open spec fn obeys_from_spec() -> bool {
        true
    }

    open spec fn from_spec(e: ConnectError) -> Self {
        ServerError::ConnectError(e)
    }
}

/// A mostly complete WebTransport handshake, awaiting the server's accept/reject decision.
pub struct Request {
    connect: Connecting,
}

impl Request {
    #[verifier::type_invariant]
    spec fn well_formed(self) -> bool {
        self.connect.session_id < VARINT_LIMIT
    }

    /// The CONNECT request that was received.
    pub closed spec fn connecting(self) -> Connecting {
        self.connect
    }

    /// Reads the client's CONNECT request, of which `data` has arrived on the stream `session_id`, once
    /// the SETTINGS are exchanged. `ended` says that nothing follows. `None` asks for more bytes; else
    /// the result comes with how many the request took.
    pub fn accept(data: &[u8], ended: bool, session_id: u64) -> (r: Option<
        Result<(Request, usize), ServerError>,
    >)
        requires
            session_id < VARINT_LIMIT,
        ensures
            (match connect::request_at(data@) {
                connect::RequestDecoding::Incomplete => if ended {
                    r matches Some(Err(ServerError::ConnectError(ConnectError::ProtoError(e))))
                        && connect::refuses_request(data, true, e)
                } else {
                    r is None
                },
                connect::RequestDecoding::Invalid => r matches Some(
                    Err(ServerError::ConnectError(ConnectError::ProtoError(e))),
                ) && connect::refuses_request(data, false, e),
                connect::RequestDecoding::Done(view, n) => r matches Some(Ok((request, len)))
                    && request.connecting().request@.seen() == view && request.connecting().session_id
                    == session_id && len == n && len <= data@.len(),
            }),
    {
        match Connecting::accept(data, ended, session_id) {
            None => None,
            Some(Ok((connect, n))) => Some(Ok((Request { connect }, n))),
            Some(Err(e)) => Some(Err(ServerError::from(e))),
        }
    }

    /// Accept the session with a 200 OK response: the result comes with the bytes to send.
    pub fn ok(self) -> (r: Result<(Session, Vec<u8>), ServerError>)
        ensures
            r matches Ok((session, bytes)) && session.id() == self.connecting().session_id
                && session.connect_request() == self.connecting().request
                && session.connect_response().status == connect::STATUS_OK
                && session.connect_response().protocol is None && session.error() is None
                && connect::carries_response(
                bytes@,
                (connect::ResponseView { status: connect::STATUS_OK, protocol: None }),
            ) && connect::writes_response(session.connect_response(), bytes),
    {
        self.respond(ConnectResponse::ok())
    }

    /// Reply to the session with the given response, usually 200 OK: the result comes with the bytes to
    /// send.
    pub fn respond(self, response: ConnectResponse) -> (r: Result<(Session, Vec<u8>), ServerError>)
        requires
            connect::is_status(response.status),
        ensures
            (match r {
                Ok((session, bytes)) => response.suits(self.connecting().request)
                    && connect::response_fits(response@) && session.id()
                    == self.connecting().session_id && session.connect_request()
                    == self.connecting().request && session.connect_response() == response
                    && session.error() is None && !session.is_closed()
                    && connect::carries_response(bytes@, response@) && connect::writes_response(
                    response,
                    bytes,
                ),
                Err(ServerError::ConnectError(ConnectError::ProtocolMismatch(p))) =>
                !response.suits(self.connecting().request) && response.protocol == Some(p),
                Err(ServerError::ConnectError(ConnectError::ProtoError(e))) => response.suits(
                    self.connecting().request,
                ) && !connect::response_fits(response@) && connect::no_response(response, e),
                Err(_) => false,
            }),
            response.protocol is None ==> r is Ok,
    {
        proof {
            use_type_invariant(&self);
        }
        match self.connect.respond(response) {
            Ok((connected, bytes)) => Ok((Session::new(connected), bytes)),
            Err(e) => Err(ServerError::from(e)),
        }
    }

    /// Reject the session with the given status code: the result is what to send before the stream is
    /// finished.
    pub fn reject(self, status: u16) -> (r: Result<Vec<u8>, ServerError>)
        requires
            connect::is_status(status),
        ensures
            r matches Ok(bytes) && connect::carries_response(
                bytes@,
                (connect::ResponseView { status, protocol: None }),
            ) && connect::writes_refusal(status, bytes),
    {
        match self.connect.reject(status) {
            Ok(bytes) => Ok(bytes),
            Err(e) => Err(ServerError::from(e)),
        }
    }

    /// Returns the CONNECT request that was sent by the client.
    pub fn connect(&self) -> (r: &ConnectRequest)
        ensures
            *r == self.connecting().request,
    {
        &self.connect.request
    }
}

/// A server that was built with nothing but an address and a certificate uses the default provider, speaks
/// HTTP/3 over TLS 1.3 and nothing else, presents the certificate chain to every client and asks none for
/// a certificate, answers for `"localhost"`, and drives handshakes within the default limits.
pub proof fn law_server_is_as_it_was_built(
    defaults: ServerBuilder,
    builder: ServerBuilder,
    addr: String,
    chain: Seq<Seq<u8>>,
    key: rustls::pki_types::PrivateKeyDer<'static>,
    config: rustls::ServerConfig,
    server: Server,
)
    requires
        defaults.has_defaults(),
        builder == (ServerBuilder { addr, ..defaults }),
        tls::serves(config, builder.provider, chain, key),
        server.is_fresh(builder.limits),
    ensures
        builder.addr == addr,
        builder.server_name@ == "localhost"@,
        crypto::is_default(builder.provider),
        tls::server_view(config) == (tls::ServerView {
            provider: *builder.provider,
            versions: seq![tls::TLS13],
            asks_clients: false,
            chain,
            protocols: seq![vstd::utf8::encode_utf8(crate::ALPN@)],
        }),
        tls::signs_by(config, key),
        server.handshake_limits().are_default(),
        server.counts() == HandshakeStats::none(),
{
}

/// Whatever happens, at most as many handshakes are driven at once as allowed, and each connection that
/// was admitted is in flight or has ended in exactly one way.
pub proof fn law_counts_stay_consistent(stats: HandshakeStats, max: usize, what: Occurrence)
    requires
        stats.consistent(max),
        what is Arrived || stats.inflight > 0,
    ensures
        stats.after(max, what).consistent(max),
{
}

/// However many connections arrive at once, every one is dequeued: slots are filled up to the limit, and
/// all the others are rejected, none queued. The counts are exact while they are below their maximum.
pub proof fn law_burst_fills_the_slots_and_rejects_the_rest(
    stats: HandshakeStats,
    max: usize,
    n: nat,
)
    requires
        stats.consistent(max),
        stats.admitted + n < u64::MAX,
        stats.rejected + n < u64::MAX,
    ensures
        ({
            let free = max - stats.inflight;
            let admitted = if n <= free {
                n as int
            } else {
                free
            };
            let end = stats.after_burst(max, n);
            &&& end.consistent(max)
            &&& end.admitted == stats.admitted + admitted
            &&& end.inflight == stats.inflight + admitted
            &&& end.rejected == stats.rejected + (n - admitted)
            &&& end.completed == stats.completed
            &&& end.failed == stats.failed
            &&& end.timed_out == stats.timed_out
        }),
    decreases n,
{
    if n > 0 {
        law_burst_fills_the_slots_and_rejects_the_rest(stats, max, (n - 1) as nat);
    }
}

/// A slot that a handshake leaves, in whichever way, is free for the next connection.
pub proof fn law_ended_handshake_frees_its_slot(stats: HandshakeStats, max: usize, what: Occurrence)
    requires
        stats.consistent(max),
        stats.inflight > 0,
        !(what is Arrived),
    ensures
        stats.after(max, what).inflight == stats.inflight - 1,
        stats.after(max, what).inflight < max,
        stats.after(max, what).inflight_high_water == stats.inflight_high_water,
{
}

/// The code for an overloaded server is one that QUIC can carry, and no peer takes it for the close of a
/// WebTransport session.
pub proof fn law_overload_is_no_session_close()
    ensures
        H3_EXCESSIVE_LOAD < VARINT_LIMIT,
        wire::webtransport_code(H3_EXCESSIVE_LOAD) is None,
{
}

/// A connection that arrives is admitted exactly if fewer handshakes are in flight than allowed. It counts as
/// admitted and in flight, or else as rejected, and as nothing else; the most that were ever in flight is
/// kept up.
pub proof fn law_arrivals_are_admitted_up_to_the_limit(counters: &mut HandshakeCounters, admitted: bool)
    requires
        call_ensures(HandshakeCounters::arrived, (counters,), admitted),
        old(counters).counts().admitted < u64::MAX,
        old(counters).counts().rejected < u64::MAX,
    ensures
        ({
            let before = old(counters).counts();
            let after = final(counters).counts();
            &&& admitted <==> before.inflight < old(counters).max()
            &&& after.admitted == before.admitted + if admitted {
                1int
            } else {
                0
            }
            &&& after.inflight == before.inflight + if admitted {
                1int
            } else {
                0
            }
            &&& after.rejected == before.rejected + if admitted {
                0int
            } else {
                1
            }
            &&& after.completed == before.completed
            &&& after.failed == before.failed
            &&& after.timed_out == before.timed_out
            &&& after.inflight_high_water >= before.inflight_high_water
            &&& admitted ==> after.inflight_high_water >= after.inflight
            &&& after.inflight_high_water == before.inflight_high_water || after.inflight_high_water
                == after.inflight
            &&& !admitted ==> after.inflight_high_water == before.inflight_high_water
        }),
        final(counters).max() == old(counters).max(),
{
}

/// A handshake that ends leaves its slot and counts as one of completed, failed and timed out, by what became
/// of it, and as nothing else.
pub proof fn law_ends_count_as_what_they_are(
    completed: &mut HandshakeCounters,
    failed: &mut HandshakeCounters,
    timed_out: &mut HandshakeCounters,
    before: HandshakeCounters,
)
    requires
        *old(completed) == before,
        *old(failed) == before,
        *old(timed_out) == before,
        call_ensures(HandshakeCounters::completed, (completed,), ()),
        call_ensures(HandshakeCounters::failed, (failed,), ()),
        call_ensures(HandshakeCounters::timed_out, (timed_out,), ()),
        before.counts().inflight > 0,
        before.counts().completed < u64::MAX,
        before.counts().failed < u64::MAX,
        before.counts().timed_out < u64::MAX,
    ensures
        ({
            let now = before.counts();
            let slot = (now.inflight - 1) as u64;
            &&& final(completed).counts() == (HandshakeStats {
                completed: (now.completed + 1) as u64,
                inflight: slot,
                ..now
            })
            &&& final(failed).counts() == (HandshakeStats {
                failed: (now.failed + 1) as u64,
                inflight: slot,
                ..now
            })
            &&& final(timed_out).counts() == (HandshakeStats {
                timed_out: (now.timed_out + 1) as u64,
                inflight: slot,
                ..now
            })
        }),
        final(completed).max() == before.max(),
        final(failed).max() == before.max(),
        final(timed_out).max() == before.max(),
{
}

/// Counters start at zero, tell what they count, and always add up: no more handshakes are in flight than
/// allowed, nor ever were, and every connection that was admitted is in flight or has ended in one way.
pub proof fn law_counters_add_up(
    max: usize,
    fresh: HandshakeCounters,
    zero: HandshakeStats,
    counters: HandshakeCounters,
    stats: HandshakeStats,
    none: HandshakeStats,
)
    requires
        call_ensures(HandshakeCounters::new, (max,), fresh),
        call_ensures(HandshakeCounters::snapshot, (&fresh,), zero),
        call_ensures(HandshakeCounters::snapshot, (&counters,), stats),
        call_ensures(HandshakeStats::default, (), none),
    ensures
        fresh.max() == max,
        zero == none,
        none.admitted == 0 && none.rejected == 0 && none.completed == 0 && none.failed == 0
            && none.timed_out == 0 && none.inflight == 0 && none.inflight_high_water == 0,
        stats == counters.counts(),
        stats.inflight <= stats.inflight_high_water <= counters.max(),
        stats.admitted < u64::MAX ==> stats.admitted == stats.completed + stats.failed
            + stats.timed_out + stats.inflight,
{
}

/// Whether there is room is whether fewer are driven than allowed: up to one below the limit and not at it.
pub proof fn law_room_ends_at_the_limit(
    driven: u64,
    max: usize,
    room: bool,
    few: usize,
    default_room: bool,
)
    requires
        call_ensures(has_capacity, (driven, max), room),
        call_ensures(has_handshake_capacity, (few,), default_room),
    ensures
        room <==> driven < max,
        default_room <==> few < 8192,
{
}

/// A server drives a connection that arrives, for as long as its limits say, while fewer are driven than they
/// allow, and else rejects it as overloaded; either way it is counted, and no connection is left waiting.
pub proof fn law_server_drives_or_rejects<R>(server: &mut Server, action: Action<R>)
    requires
        call_ensures(Server::accept::<R>, (server, Event::Connection), action),
        old(server).counts().admitted < u64::MAX,
        old(server).counts().rejected < u64::MAX,
    ensures
        ({
            let before = old(server).counts();
            let after = final(server).counts();
            if before.inflight < old(server).handshake_limits().max_inflight {
                &&& action == (Action::Drive::<R> { timeout: old(server).handshake_limits().timeout })
                &&& after.admitted == before.admitted + 1
                &&& after.inflight == before.inflight + 1
                &&& after.rejected == before.rejected
            } else {
                &&& action == (Action::Reject::<R> { code: 0x0107 })
                &&& after.admitted == before.admitted
                &&& after.inflight == before.inflight
                &&& after.rejected == before.rejected + 1
            }
        }),
        final(server).counts().completed == old(server).counts().completed,
        final(server).counts().failed == old(server).counts().failed,
        final(server).counts().timed_out == old(server).counts().timed_out,
        final(server).handshake_limits() == old(server).handshake_limits(),
{
}

/// A server hands out each request as soon as its handshake is complete, goes on after one that failed or took
/// too long, and ends when its endpoint does. Each end frees a slot and counts as what it is.
pub proof fn law_server_hands_out_what_is_complete<R>(
    done: &mut Server,
    failing: &mut Server,
    timing_out: &mut Server,
    closing: &mut Server,
    before: Server,
    request: R,
    e: ServerError,
    handed: Action<R>,
    failed: Action<R>,
    timed_out: Action<R>,
    closed: Action<R>,
)
    requires
        *old(done) == before,
        *old(failing) == before,
        *old(timing_out) == before,
        *old(closing) == before,
        call_ensures(Server::accept::<R>, (done, Event::Handshake(Ok(request))), handed),
        call_ensures(Server::accept::<R>, (failing, Event::Handshake(Err(e))), failed),
        call_ensures(
            Server::accept::<R>,
            (timing_out, Event::Handshake(Err(ServerError::HandshakeTimeout))),
            timed_out,
        ),
        call_ensures(Server::accept::<R>, (closing, Event::EndpointClosed), closed),
        !(e is HandshakeTimeout),
        before.counts().inflight > 0,
        before.counts().completed < u64::MAX,
        before.counts().failed < u64::MAX,
        before.counts().timed_out < u64::MAX,
    ensures
        handed == Action::Return(Some(request)),
        failed is Continue,
        timed_out is Continue,
        closed == Action::Return(None::<R>),
        ({
            let now = before.counts();
            let slot = (now.inflight - 1) as u64;
            &&& final(done).counts() == (HandshakeStats {
                completed: (now.completed + 1) as u64,
                inflight: slot,
                ..now
            })
            &&& final(failing).counts() == (HandshakeStats {
                failed: (now.failed + 1) as u64,
                inflight: slot,
                ..now
            })
            &&& final(timing_out).counts() == (HandshakeStats {
                timed_out: (now.timed_out + 1) as u64,
                inflight: slot,
                ..now
            })
            &&& final(closing).counts() == now
        }),
        final(done).handshake_limits() == before.handshake_limits(),
        final(failing).handshake_limits() == before.handshake_limits(),
        final(timing_out).handshake_limits() == before.handshake_limits(),
        final(closing).handshake_limits() == before.handshake_limits(),
{
}

/// A new server keeps the limits that it was given, or allows 8192 handshakes of ten seconds each, and has
/// seen nothing yet.
pub proof fn law_new_servers_keep_their_limits(
    limits: HandshakeLimits,
    server: Server,
    stats: HandshakeStats,
    default_limits: HandshakeLimits,
    default_server: Server,
)
    requires
        call_ensures(Server::with_handshake_limits, (limits,), server),
        call_ensures(Server::handshake_stats, (&server,), stats),
        call_ensures(HandshakeLimits::default, (), default_limits),
        call_ensures(Server::new, (), default_server),
    ensures
        server.handshake_limits() == limits,
        stats == server.counts(),
        stats.admitted == 0 && stats.rejected == 0 && stats.completed == 0 && stats.failed == 0
            && stats.timed_out == 0 && stats.inflight == 0 && stats.inflight_high_water == 0,
        default_limits.max_inflight == 8192,
        span::nanos(default_limits.timeout) == 10_000_000_000,
        default_server.handshake_limits().max_inflight == 8192,
        span::nanos(default_server.handshake_limits().timeout) == 10_000_000_000,
{
}

/// A builder starts with sane defaults, and what is set is set and changes nothing else; the server that comes
/// of it has the limits that were set, and the failure to start one is told.
pub proof fn law_builders_keep_what_they_are_given(
    fresh: ServerBuilder,
    builder: ServerBuilder,
    addr: String,
    at: ServerBuilder,
    name: String,
    named: ServerBuilder,
    limits: HandshakeLimits,
    limited: ServerBuilder,
    built: Result<Server, ServerError>,
    why: String,
    failed: Result<Server, ServerError>,
)
    requires
        call_ensures(ServerBuilder::new, (), fresh) || call_ensures(
            ServerBuilder::default,
            (),
            fresh,
        ),
        call_ensures(ServerBuilder::with_addr, (builder, addr), at),
        call_ensures(ServerBuilder::with_server_name, (builder, name), named),
        call_ensures(ServerBuilder::with_handshake_limits, (builder, limits), limited),
        call_ensures(ServerBuilder::with_certificate, (&builder, Ok(())), built),
        call_ensures(ServerBuilder::with_certificate, (&builder, Err(why)), failed),
    ensures
        fresh.addr@ == "[::]:443"@,
        fresh.server_name@ == "localhost"@,
        fresh.limits.max_inflight == 8192,
        span::nanos(fresh.limits.timeout) == 10_000_000_000,
        crypto::is_default(fresh.provider),
        at.addr == addr && at.server_name == builder.server_name && at.limits == builder.limits
            && at.provider == builder.provider,
        named.server_name == name && named.addr == builder.addr && named.limits == builder.limits
            && named.provider == builder.provider,
        limited.limits == limits && limited.addr == builder.addr && limited.server_name
            == builder.server_name && limited.provider == builder.provider,
        built matches Ok(server) && server.handshake_limits() == builder.limits
            && server.counts().admitted == 0 && server.counts().rejected == 0
            && server.counts().completed == 0 && server.counts().failed == 0
            && server.counts().timed_out == 0 && server.counts().inflight == 0,
        failed == Err::<Server, ServerError>(ServerError::Build(why)),
{
}

/// The endpoint of a server is started with the certificate chain and key that it is given and with the
/// provider of its builder, for `h3` over TLS 1.3 and nothing else, whenever these can be used.
pub proof fn law_builder_configures_its_endpoint(
    builder: ServerBuilder,
    chain: Vec<Vec<u8>>,
    key: rustls::pki_types::PrivateKeyDer<'static>,
    r: Result<rustls::ServerConfig, ServerError>,
)
    requires
        call_ensures(ServerBuilder::tls_config, (&builder, chain, key), r),
    ensures
        r is Ok <==> crypto::supports_tls13(*builder.provider) && tls::key_fits(
            *builder.provider,
            chain@.map_values(|cert: Vec<u8>| cert@),
            key,
        ),
        r matches Ok(config) ==> {
            &&& tls::server_view(config).provider == *builder.provider
            &&& tls::server_view(config).versions == seq![0x0304u16]
            &&& !tls::server_view(config).asks_clients
            &&& tls::server_view(config).chain == chain@.map_values(|cert: Vec<u8>| cert@)
            &&& tls::server_view(config).protocols.len() == 1
            &&& tls::server_view(config).protocols[0] == vstd::utf8::encode_utf8(crate::ALPN@)
            &&& tls::signs_by(config, key)
        },
        r matches Err(e) ==> (e matches ServerError::Rustls(error) && tls::refuses_server(
            builder.provider,
            chain,
            key,
            error,
        )),
{
}

/// A request that a server accepts is the one that it read off the stream, with the number of that stream,
/// and reading it gives what the bare CONNECT exchange gives.
pub proof fn law_request_is_what_was_read(
    data: &[u8],
    ended: bool,
    session_id: u64,
    r: Option<Result<(Request, usize), ServerError>>,
    bare: Option<Result<(Connecting, usize), ConnectError>>,
    request: Request,
    told: &ConnectRequest,
)
    requires
        call_ensures(Request::accept, (data, ended, session_id), r),
        call_ensures(Connecting::accept, (data, ended, session_id), bare),
        call_ensures(Request::connect, (&request,), told),
    ensures
        r is None <==> bare is None,
        (r matches Some(Ok(_))) <==> (bare matches Some(Ok(_))),
        r matches Some(Err(e)) ==> (e matches ServerError::ConnectError(ConnectError::ProtoError(_))),
        r matches Some(Ok((read, n))) ==> {
            &&& bare matches Some(Ok((connecting, m)))
            &&& n == m
            &&& read.connecting().session_id == session_id
            &&& read.connecting().request@.url == connecting.request@.url
            &&& read.connecting().request@.protocols == connecting.request@.protocols
        },
        *told == request.connecting().request,
{
    if let Some(Ok((read, _))) = r {
        if let Some(Ok((connecting, _))) = bare {
            assert(read.connecting().request@.seen() == connecting.request@.seen());
        }
    }
}

/// A server's answer establishes the session with the request, the response and the number of the stream, and
/// the client that reads it comes to a session with the same response. A plain acceptance always succeeds.
pub proof fn law_answer_establishes_the_session(
    request: Request,
    response: ConnectResponse,
    r: Result<(Session, Vec<u8>), ServerError>,
    accepted: Result<(Session, Vec<u8>), ServerError>,
    id: u64,
    client: ConnectRequest,
    number: u64,
    data: &[u8],
    rest: Seq<u8>,
    established: Result<Result<(connect::Connected, usize), ConnectError>, ConnectRequest>,
)
    requires
        call_ensures(Request::respond, (request, response), r),
        call_ensures(Request::ok, (request,), accepted),
        accepted matches Ok((session, bytes)) ==> data@ == bytes@ + rest && call_ensures(
            Session::session_id,
            (&session,),
            id,
        ),
        call_ensures(connect::Connected::establish, (client, number, data, false), established),
    ensures
        r matches Ok((session, _)) ==> session.id() == request.connecting().session_id
            && session.connect_request() == request.connecting().request
            && session.connect_response() == response && session.error() is None,
        response.protocol is None ==> r is Ok,
        forall|i: int|
            0 <= i < request.connecting().request.protocols@.len() && response.protocol == Some(
                #[trigger] request.connecting().request.protocols@[i],
            ) && connect::response_fits(response@) ==> r is Ok,
        response.protocol is Some && (forall|i: int|
            0 <= i < request.connecting().request.protocols@.len()
                ==> #[trigger] request.connecting().request.protocols@[i]@ != response.protocol->0@)
            ==> r == Err::<(Session, Vec<u8>), ServerError>(
            ServerError::ConnectError(ConnectError::ProtocolMismatch(response.protocol->0)),
        ),
        accepted is Ok,
        id == request.connecting().session_id,
        established matches Ok(Ok((own, n))) && own.response.status == 200 && own.response.protocol
            is None && own.request == client && own.session_id == number && n + rest.len()
            == data@.len(),
{
    assert forall|i: int|
        0 <= i < request.connecting().request.protocols@.len() && response.protocol == Some(
            #[trigger] request.connecting().request.protocols@[i],
        ) implies response.suits(request.connecting().request) by {
        assert(connect::texts(request.connecting().request.protocols@)[i] == response.protocol->0@);
    }
    if response.protocol is Some && response.suits(request.connecting().request) {
        let list = connect::texts(request.connecting().request.protocols@);
        let i = choose|i: int| 0 <= i < list.len() && list[i] == response.protocol->0@;
        assert(request.connecting().request.protocols@[i]@ == response.protocol->0@);
    }
    if let Ok((_, bytes)) = accepted {
        assert((bytes@ + rest).take((bytes@ + rest).len() as int) =~= bytes@ + rest);
        connect::law_response_reaches_the_client(
            bytes@,
            connect::ResponseView { status: 200, protocol: None },
            rest,
            (bytes@ + rest).len() as int,
        );
    }
}

/// The client is told the very status by which a server rejects its request, and rejecting always succeeds.
pub proof fn law_client_is_told_why_it_was_rejected(
    request: Request,
    status: u16,
    sent: Result<Vec<u8>, ServerError>,
    client: ConnectRequest,
    number: u64,
    data: &[u8],
    rest: Seq<u8>,
    r: Result<Result<(connect::Connected, usize), ConnectError>, ConnectRequest>,
)
    requires
        call_ensures(Request::reject, (request, status), sent),
        call_ensures(connect::Connected::establish, (client, number, data, false), r),
        status != 200,
        sent matches Ok(bytes) ==> data@ == bytes@ + rest,
    ensures
        sent is Ok,
        200 < status < 300 ==> r == Ok::<_, ConnectRequest>(
            Err::<(connect::Connected, usize), ConnectError>(ConnectError::ErrorStatus(status)),
        ),
        !(200 <= status < 300) ==> (r matches Ok(Err(ConnectError::ProtoError(e)))
            && connect::refused_with(e) == Some(status)),
{
    if let Ok(bytes) = sent {
        assert((bytes@ + rest).take((bytes@ + rest).len() as int) =~= bytes@ + rest);
        connect::law_response_reaches_the_client(
            bytes@,
            connect::ResponseView { status, protocol: None },
            rest,
            (bytes@ + rest).len() as int,
        );
    }
}

/// The errors of a handshake are handed on as what they are.
pub proof fn law_handshake_errors_are_handed_on(
    s: SettingsError,
    c: ConnectError,
    from_settings: ServerError,
    from_connect: ServerError,
)
    requires
        call_ensures(<ServerError as From<SettingsError>>::from, (s,), from_settings),
        call_ensures(<ServerError as From<ConnectError>>::from, (c,), from_connect),
    ensures
        from_settings == ServerError::SettingsError(s),
        from_connect == ServerError::ConnectError(c),
{
}

/// A count that has reached its maximum stays there, whatever it counts.
pub proof fn law_counters_stop_at_their_maximum(
    arriving: &mut HandshakeCounters,
    completing: &mut HandshakeCounters,
    failing: &mut HandshakeCounters,
    timing_out: &mut HandshakeCounters,
    admitted: bool,
)
    requires
        call_ensures(HandshakeCounters::arrived, (arriving,), admitted),
        call_ensures(HandshakeCounters::completed, (completing,), ()),
        call_ensures(HandshakeCounters::failed, (failing,), ()),
        call_ensures(HandshakeCounters::timed_out, (timing_out,), ()),
    ensures
        admitted <==> old(arriving).counts().inflight < old(arriving).max(),
        old(arriving).counts().admitted == u64::MAX ==> final(arriving).counts().admitted == u64::MAX,
        old(arriving).counts().rejected == u64::MAX ==> final(arriving).counts().rejected == u64::MAX,
        old(completing).counts().completed == u64::MAX ==> final(completing).counts().completed
            == u64::MAX,
        old(failing).counts().failed == u64::MAX ==> final(failing).counts().failed == u64::MAX,
        old(timing_out).counts().timed_out == u64::MAX ==> final(timing_out).counts().timed_out
            == u64::MAX,
        final(arriving).counts().inflight == old(arriving).counts().inflight + if admitted {
            1int
        } else {
            0
        },
{
}

} // verus!
