//! The errors of a session, split by whether the QUIC layer or WebTransport itself failed.

use vstd::prelude::*;
use web_transport_proto::ConnectError as ProtoConnectError;
use web_transport_proto::SettingsError as ProtoSettingsError;

use crate::wire;

verus! {

/// The ways in which a CONNECT exchange breaks the protocol, as the protocol crate reports them.
#[verifier::external_type_specification]
#[verifier::external_body]
pub struct ExProtoConnectError(ProtoConnectError);

/// The ways in which a SETTINGS exchange breaks the protocol, as the protocol crate reports them.
#[verifier::external_type_specification]
#[verifier::external_body]
pub struct ExProtoSettingsError(ProtoSettingsError);

/// The errors of the TLS library.
#[verifier::external_type_specification]
#[verifier::external_body]
pub struct ExTlsError(rustls::Error);

/// Why a QUIC connection came to an end, as far as a session tells the causes apart.
#[derive(Debug, PartialEq, Eq)]
pub enum ConnectionError {
    /// The peer closed the connection with an application error code.
    Application { code: u64 },
    /// Anything else: a timeout, a transport error, a local close.
    Other { reason: String },
}

/// Why a QUIC stream failed, as far as a session tells the causes apart.
#[derive(Debug, PartialEq, Eq)]
pub enum StreamError {
    /// The peer reset the stream, or asked for it to stop, with an application error code.
    Reset { code: u64 },
    /// The connection that carries the stream ended.
    Connection(ConnectionError),
    /// Anything else: the stream had already ended on this side.
    Other { reason: String },
}

/// Why the QUIC layer refused or failed to deliver a datagram.
#[derive(Debug, PartialEq, Eq)]
pub enum DatagramError {
    QueueAtCapacity,
    ExceedsPeerTransportLimits,
    Connection(ConnectionError),
    Other,
}

/// An error sending an application datagram.
#[derive(Debug, PartialEq, Eq)]
pub enum SendDatagramError {
    /// The datagram is larger than the peer's transport limits.
    TooLarge,
    /// The datagram send queue is at capacity.
    QueueAtCapacity,
}

/// An error reading or writing the WebTransport stream header, or a session-level close.
#[derive(Debug, PartialEq, Eq)]
pub enum WebTransportError {
    /// The session was closed with a code and a reason.
    Closed(u32, String),
    /// A stream or datagram names another session, or none.
    UnknownSession,
    StreamError(StreamError),
}

/// Errors returned by a session, split based on whether they are underlying QUIC errors or
/// WebTransport errors.
#[derive(Debug, PartialEq, Eq)]
pub enum SessionError {
    ConnectionError(ConnectionError),
    WebTransportError(WebTransportError),
    SendDatagram(SendDatagramError),
    /// The session ended on this side.
    LocallyClosed,
    /// The connection did not negotiate datagrams.
    DatagramUnsupported,
}

/// An error when writing to a send stream.
#[derive(Debug, PartialEq, Eq)]
pub enum WriteError {
    /// The peer sent STOP_SENDING with a WebTransport error code.
    Stopped(u32),
    /// The peer sent STOP_SENDING with a code outside the WebTransport range.
    InvalidStopped(u64),
    SessionError(SessionError),
    ClosedStream,
}

/// An error when reading from a receive stream.
#[derive(Debug, PartialEq, Eq)]
pub enum ReadError {
    SessionError(SessionError),
    /// The peer sent RESET_STREAM with a WebTransport error code.
    Reset(u32),
    /// The peer sent RESET_STREAM with a code outside the WebTransport range.
    InvalidReset(u64),
    ClosedStream,
}

/// An error in the CONNECT exchange that establishes a session.
#[derive(Debug)]
pub enum ConnectError {
    /// The QUIC stream was closed early.
    UnexpectedEnd,
    ProtoError(ProtoConnectError),
    ConnectionError(ConnectionError),
    /// The server answered with this HTTP status.
    ErrorStatus(u16),
    /// The selected protocol is not one of the request's.
    ProtocolMismatch(String),
}

/// An error in the SETTINGS exchange that opens an HTTP/3 connection.
#[derive(Debug)]
pub enum SettingsError {
    /// The QUIC stream was closed early.
    UnexpectedEnd,
    ProtoError(ProtoSettingsError),
    /// The peer does not support WebTransport.
    WebTransportUnsupported,
    ConnectionError(ConnectionError),
}

/// An error returned when connecting to a WebTransport endpoint.
#[derive(Debug)]
pub enum ClientError {
    UnexpectedEnd,
    Connection(ConnectionError),
    SettingsError(SettingsError),
    HttpError(ConnectError),
    InvalidDnsName(String),
    /// The endpoint could not be built.
    Build(String),
    Rustls(rustls::Error),
}

/// An error returned when accepting a new WebTransport session on the server.
#[derive(Debug)]
pub enum ServerError {
    UnexpectedEnd,
    Connection(ConnectionError),
    SettingsError(SettingsError),
    ConnectError(ConnectError),
    /// The endpoint could not be built.
    Build(String),
    Rustls(rustls::Error),
    /// The H3/WebTransport handshake took too long.
    HandshakeTimeout,
}

impl Clone for ConnectionError {
    fn clone(&self) -> (r: Self)
        ensures
            r == *self,
    {
        match self {
            ConnectionError::Application { code } => ConnectionError::Application { code: *code },
            ConnectionError::Other { reason } => ConnectionError::Other { reason: reason.clone() },
        }
    }
}

impl Clone for StreamError {
    fn clone(&self) -> (r: Self)
        ensures
            r == *self,
    {
        match self {
            StreamError::Reset { code } => StreamError::Reset { code: *code },
            StreamError::Connection(e) => StreamError::Connection(e.clone()),
            StreamError::Other { reason } => StreamError::Other { reason: reason.clone() },
        }
    }
}

impl Clone for SendDatagramError {
    fn clone(&self) -> (r: Self)
        ensures
            r == *self,
    {
        match self {
            SendDatagramError::TooLarge => SendDatagramError::TooLarge,
            SendDatagramError::QueueAtCapacity => SendDatagramError::QueueAtCapacity,
        }
    }
}

impl Clone for WebTransportError {
    fn clone(&self) -> (r: Self)
        ensures
            r == *self,
    {
        match self {
            WebTransportError::Closed(code, reason) => WebTransportError::Closed(
                *code,
                reason.clone(),
            ),
            WebTransportError::UnknownSession => WebTransportError::UnknownSession,
            WebTransportError::StreamError(e) => WebTransportError::StreamError(e.clone()),
        }
    }
}

impl Clone for SessionError {
    fn clone(&self) -> (r: Self)
        ensures
            r == *self,
    {
        match self {
            SessionError::ConnectionError(e) => SessionError::ConnectionError(e.clone()),
            SessionError::WebTransportError(e) => SessionError::WebTransportError(e.clone()),
            SessionError::SendDatagram(e) => SessionError::SendDatagram(e.clone()),
            SessionError::LocallyClosed => SessionError::LocallyClosed,
            SessionError::DatagramUnsupported => SessionError::DatagramUnsupported,
        }
    }
}

impl From<WebTransportError> for SessionError {
    fn from(e: WebTransportError) -> (r: Self) {
        SessionError::WebTransportError(e)
    }
}

impl vstd::std_specs::convert::FromSpecImpl<WebTransportError> for SessionError {
    open spec fn obeys_from_spec() -> bool {
        true
    }

    open spec fn from_spec(e: WebTransportError) -> Self {
        SessionError::WebTransportError(e)
    }
}

impl From<SendDatagramError> for SessionError {
    fn from(e: SendDatagramError) -> (r: Self) {
        SessionError::SendDatagram(e)
    }
}

impl vstd::std_specs::convert::FromSpecImpl<SendDatagramError> for SessionError {
    open spec fn obeys_from_spec() -> bool {
        true
    }

    open spec fn from_spec(e: SendDatagramError) -> Self {
        SessionError::SendDatagram(e)
    }
}

impl From<StreamError> for WebTransportError {
    fn from(e: StreamError) -> (r: Self) {
        WebTransportError::StreamError(e)
    }
}

impl vstd::std_specs::convert::FromSpecImpl<StreamError> for WebTransportError {
    open spec fn obeys_from_spec() -> bool {
        true
    }

    open spec fn from_spec(e: StreamError) -> Self {
        WebTransportError::StreamError(e)
    }
}

impl SessionError {
    /// Says that the session was closed with this code and this reason.
    pub open spec fn is_closed(self, code: u32, reason: Seq<char>) -> bool {
        self matches SessionError::WebTransportError(WebTransportError::Closed(c, r)) && c == code
            && r@ == reason
    }

    /// Says that a session reports `e` this way: an application close whose code lies in the
    /// WebTransport range is a session close without a reason, and all else stays what it was.
    pub open spec fn reports(self, e: ConnectionError) -> bool {
        match e {
            ConnectionError::Application { code } => match wire::webtransport_code(code) {
                Some(c) => self.is_closed(c, Seq::empty()),
                None => self == SessionError::ConnectionError(e),
            },
            ConnectionError::Other { .. } => self == SessionError::ConnectionError(e),
        }
    }

    /// Says that the error tells no more than that the session or its connection is gone, so that
    /// the session's own error, if there is one, takes its place.
    pub open spec fn is_generic(self) -> bool {
        match self {
            SessionError::ConnectionError(_) => true,
            SessionError::WebTransportError(WebTransportError::Closed(_, _)) => true,
            SessionError::LocallyClosed => true,
            _ => false,
        }
    }

    /// The error that a session reports when its connection fails with `e`.
    ///
    /// An application close carries an HTTP/3 error code, but no reason on the wire. The reason, if
    /// any, arrives in the close capsule, which the session records separately.
    pub fn from_connection(e: ConnectionError) -> (r: SessionError)
        ensures
            r.reports(e),
    {
        if let ConnectionError::Application { code } = e {
            if let Some(code) = web_transport_proto::error_from_http3(code) {
                let r = SessionError::WebTransportError(
                    WebTransportError::Closed(code, String::new()),
                );
                assert(r.is_closed(code, Seq::empty()));
                return r;
            }
        }
        SessionError::ConnectionError(e)
    }

    /// The code and reason of a session close, if that is what happened.
    pub fn session_error(&self) -> (r: Option<(u32, String)>)
        ensures
            r == (match *self {
                SessionError::WebTransportError(WebTransportError::Closed(code, reason)) => Some(
                    (code, reason),
                ),
                _ => None,
            }),
    {
        if let SessionError::WebTransportError(WebTransportError::Closed(code, reason)) = self {
            return Some((*code, reason.clone()));
        }
        None
    }

    /// The session's own error in place of `e`, where `e` says no more than that it is gone.
    pub fn replaced_by(self, stored: Option<&SessionError>) -> (r: SessionError)
        ensures
            r == (match stored {
                Some(err) if self.is_generic() => *err,
                _ => self,
            }),
    {
        if let Some(err) = stored {
            let generic = match &self {
                SessionError::ConnectionError(_) => true,
                SessionError::WebTransportError(WebTransportError::Closed(_, _)) => true,
                SessionError::LocallyClosed => true,
                _ => false,
            };
            if generic {
                return err.clone();
            }
        }
        self
    }
}

impl WriteError {
    /// Says that a send stream reports `e` this way.
    pub open spec fn reports(self, e: StreamError) -> bool {
        match e {
            StreamError::Reset { code } => match wire::webtransport_code(code) {
                Some(c) => self == WriteError::Stopped(c),
                None => self == WriteError::InvalidStopped(code),
            },
            StreamError::Connection(c) => self matches WriteError::SessionError(s) && s.reports(c),
            StreamError::Other { .. } => self == WriteError::ClosedStream,
        }
    }

    /// The error that a send stream reports when the QUIC stream fails with `e`.
    pub fn from_stream(e: StreamError) -> (r: WriteError)
        ensures
            r.reports(e),
    {
        match e {
            StreamError::Reset { code } => match web_transport_proto::error_from_http3(code) {
                Some(code) => WriteError::Stopped(code),
                None => WriteError::InvalidStopped(code),
            },
            StreamError::Connection(error) => WriteError::SessionError(
                SessionError::from_connection(error),
            ),
            StreamError::Other { .. } => WriteError::ClosedStream,
        }
    }

    /// The code and reason of a session close, if that is what ended the stream.
    pub fn session_error(&self) -> (r: Option<(u32, String)>)
        ensures
            r == (match *self {
                WriteError::SessionError(
                    SessionError::WebTransportError(WebTransportError::Closed(code, reason)),
                ) => Some((code, reason)),
                _ => None,
            }),
    {
        if let WriteError::SessionError(e) = self {
            return e.session_error();
        }
        None
    }

    /// The WebTransport code with which the peer stopped the stream, if it did.
    pub fn stream_error(&self) -> (r: Option<u32>)
        ensures
            r == (match *self {
                WriteError::Stopped(code) => Some(code),
                _ => None,
            }),
    {
        match self {
            WriteError::Stopped(code) => Some(*code),
            _ => None,
        }
    }

    /// The session's own error in place of one that the connection caused.
    pub fn replaced_by(self, stored: Option<&SessionError>) -> (r: WriteError)
        ensures
            r == (match stored {
                Some(err) if self is SessionError => WriteError::SessionError(*err),
                _ => self,
            }),
    {
        if let Some(err) = stored {
            let session = match &self {
                WriteError::SessionError(_) => true,
                _ => false,
            };
            if session {
                return WriteError::SessionError(err.clone());
            }
        }
        self
    }
}

impl ReadError {
    /// Says that a receive stream reports `e` this way.
    pub open spec fn reports(self, e: StreamError) -> bool {
        match e {
            StreamError::Reset { code } => match wire::webtransport_code(code) {
                Some(c) => self == ReadError::Reset(c),
                None => self == ReadError::InvalidReset(code),
            },
            StreamError::Connection(c) => self matches ReadError::SessionError(s) && s.reports(c),
            StreamError::Other { .. } => self == ReadError::ClosedStream,
        }
    }

    /// The error that a receive stream reports when the QUIC stream fails with `e`.
    pub fn from_stream(e: StreamError) -> (r: ReadError)
        ensures
            r.reports(e),
    {
        match e {
            StreamError::Reset { code } => match web_transport_proto::error_from_http3(code) {
                Some(code) => ReadError::Reset(code),
                None => ReadError::InvalidReset(code),
            },
            StreamError::Connection(error) => ReadError::SessionError(
                SessionError::from_connection(error),
            ),
            StreamError::Other { .. } => ReadError::ClosedStream,
        }
    }

    /// The code and reason of a session close, if that is what ended the stream.
    pub fn session_error(&self) -> (r: Option<(u32, String)>)
        ensures
            r == (match *self {
                ReadError::SessionError(
                    SessionError::WebTransportError(WebTransportError::Closed(code, reason)),
                ) => Some((code, reason)),
                _ => None,
            }),
    {
        if let ReadError::SessionError(e) = self {
            return e.session_error();
        }
        None
    }

    /// The WebTransport code with which the peer reset the stream, if it did.
    pub fn stream_error(&self) -> (r: Option<u32>)
        ensures
            r == (match *self {
                ReadError::Reset(code) => Some(code),
                _ => None,
            }),
    {
        match self {
            ReadError::Reset(code) => Some(*code),
            _ => None,
        }
    }

    /// The session's own error in place of one that the connection caused.
    pub fn replaced_by(self, stored: Option<&SessionError>) -> (r: ReadError)
        ensures
            r == (match stored {
                Some(err) if self is SessionError => ReadError::SessionError(*err),
                _ => self,
            }),
    {
        if let Some(err) = stored {
            let session = match &self {
                ReadError::SessionError(_) => true,
                _ => false,
            };
            if session {
                return ReadError::SessionError(err.clone());
            }
        }
        self
    }
}

/// A peer that resets a stream with a WebTransport error code sees that very code reported on the
/// other side, by the reader of the stream and by its writer.
pub proof fn law_reset_code_reaches_the_peer(code: u32, read: ReadError, write: WriteError)
    requires
        read.reports(StreamError::Reset { code: wire::http3_code(code) as u64 }),
        write.reports(StreamError::Reset { code: wire::http3_code(code) as u64 }),
    ensures
        read == ReadError::Reset(code),
        write == WriteError::Stopped(code),
{
    wire::law_error_code_round_trip(code);
}

/// A connection that is closed with a WebTransport error code is a session close with that code.
pub proof fn law_close_code_reaches_the_peer(code: u32, e: SessionError)
    requires
        e.reports(ConnectionError::Application { code: wire::http3_code(code) as u64 }),
    ensures
        e.is_closed(code, Seq::empty()),
{
    wire::law_error_code_round_trip(code);
}

/// What a session reports of its connection: a close by a code of the WebTransport range is a close of the
/// session with that code, of which the wire has no reason, and anything else is reported as it came.
pub proof fn law_connection_failures_are_told_apart(e: ConnectionError, r: SessionError)
    requires
        call_ensures(SessionError::from_connection, (e,), r),
    ensures
        forall|code: u32|
            e == (ConnectionError::Application { code: #[trigger] wire::http3_code(code) as u64 })
                ==> (r matches SessionError::WebTransportError(WebTransportError::Closed(c, reason))
                && c == code && reason@.len() == 0),
        e matches ConnectionError::Application { code } && !(wire::HTTP3_ERROR_FIRST <= code
            <= wire::HTTP3_ERROR_LAST) ==> r == SessionError::ConnectionError(e),
        e is Other ==> r == SessionError::ConnectionError(e),
{
    assert forall|code: u32|
        e == (ConnectionError::Application { code: #[trigger] wire::http3_code(code) as u64 }) implies (
    r matches SessionError::WebTransportError(WebTransportError::Closed(c, reason)) && c == code
        && reason@.len() == 0) by {
        wire::law_error_code_round_trip(code);
    }
}

/// Where a stream fails because its connection did, its reader and its writer report what the session
/// reports.
pub proof fn law_streams_report_what_the_session_reports(
    e: ConnectionError,
    session: SessionError,
    read: ReadError,
    write: WriteError,
)
    requires
        call_ensures(SessionError::from_connection, (e,), session),
        call_ensures(ReadError::from_stream, (StreamError::Connection(e),), read),
        call_ensures(WriteError::from_stream, (StreamError::Connection(e),), write),
    ensures
        session is ConnectionError ==> read == ReadError::SessionError(session) && write
            == WriteError::SessionError(session),
        session matches SessionError::WebTransportError(WebTransportError::Closed(code, _)) ==> {
            &&& read matches ReadError::SessionError(r) && r.is_closed(code, Seq::empty())
            &&& write matches WriteError::SessionError(w) && w.is_closed(code, Seq::empty())
        },
{
}

/// The code and reason of a session's close are found in the error, wherever it was reported, and in no
/// other error.
pub proof fn law_close_is_found_in_its_error(
    code: u32,
    reason: String,
    e: SessionError,
    session: Option<(u32, String)>,
    read: Option<(u32, String)>,
    write: Option<(u32, String)>,
)
    requires
        call_ensures(SessionError::session_error, (&e,), session),
        call_ensures(ReadError::session_error, (&ReadError::SessionError(e),), read),
        call_ensures(WriteError::session_error, (&WriteError::SessionError(e),), write),
    ensures
        e == SessionError::WebTransportError(WebTransportError::Closed(code, reason)) <==> session
            == Some((code, reason)),
        read == session,
        write == session,
{
}

/// The code of a reset or stop is found in the error of the stream, and in no other error.
pub proof fn law_stream_code_is_found_in_its_error(
    code: u32,
    read: ReadError,
    write: WriteError,
    r: Option<u32>,
    w: Option<u32>,
    closed: Option<(u32, String)>,
)
    requires
        call_ensures(ReadError::stream_error, (&read,), r),
        call_ensures(WriteError::stream_error, (&write,), w),
        call_ensures(ReadError::session_error, (&read,), closed),
    ensures
        read == ReadError::Reset(code) <==> r == Some(code),
        write == WriteError::Stopped(code) <==> w == Some(code),
        r is Some ==> closed is None,
{
}

/// The session's own error takes the place of one that says no more than that the session or its connection
/// is gone, never that of another, and where there is none nothing changes.
pub proof fn law_own_error_stands_in(
    e: SessionError,
    own: SessionError,
    replaced: SessionError,
    kept: SessionError,
)
    requires
        call_ensures(SessionError::replaced_by, (e, Some(&own)), replaced),
        call_ensures(SessionError::replaced_by, (e, None), kept),
    ensures
        kept == e,
        e is ConnectionError || e is LocallyClosed ==> replaced == own,
        e matches SessionError::WebTransportError(WebTransportError::Closed(_, _)) ==> replaced == own,
        e is SendDatagram || e is DatagramUnsupported ==> replaced == e,
        e == SessionError::WebTransportError(WebTransportError::UnknownSession) ==> replaced == e,
        e matches SessionError::WebTransportError(WebTransportError::StreamError(_)) ==> replaced == e,
{
}

/// For a stream, the session's own error takes the place of whatever the connection caused, and of nothing
/// else.
pub proof fn law_own_error_stands_in_on_streams(
    own: SessionError,
    read: ReadError,
    write: WriteError,
    r: ReadError,
    w: WriteError,
    r_kept: ReadError,
    w_kept: WriteError,
)
    requires
        call_ensures(ReadError::replaced_by, (read, Some(&own)), r),
        call_ensures(WriteError::replaced_by, (write, Some(&own)), w),
        call_ensures(ReadError::replaced_by, (read, None), r_kept),
        call_ensures(WriteError::replaced_by, (write, None), w_kept),
    ensures
        r_kept == read,
        w_kept == write,
        read is SessionError ==> r == ReadError::SessionError(own),
        !(read is SessionError) ==> r == read,
        write is SessionError ==> w == WriteError::SessionError(own),
        !(write is SessionError) ==> w == write,
{
}

/// An error that is part of another is handed on as what it is, and a copy is the error itself.
pub proof fn law_errors_are_handed_on(
    w: WebTransportError,
    d: SendDatagramError,
    s: StreamError,
    e: SessionError,
    from_web_transport: SessionError,
    from_datagram: SessionError,
    from_stream: WebTransportError,
    copied: SessionError,
    c: ConnectionError,
    copied_connection: ConnectionError,
    copied_stream: StreamError,
    copied_datagram: SendDatagramError,
    copied_web_transport: WebTransportError,
)
    requires
        call_ensures(<SessionError as From<WebTransportError>>::from, (w,), from_web_transport),
        call_ensures(<SessionError as From<SendDatagramError>>::from, (d,), from_datagram),
        call_ensures(<WebTransportError as From<StreamError>>::from, (s,), from_stream),
        call_ensures(SessionError::clone, (&e,), copied),
        call_ensures(ConnectionError::clone, (&c,), copied_connection),
        call_ensures(StreamError::clone, (&s,), copied_stream),
        call_ensures(SendDatagramError::clone, (&d,), copied_datagram),
        call_ensures(WebTransportError::clone, (&w,), copied_web_transport),
    ensures
        from_web_transport == SessionError::WebTransportError(w),
        from_datagram == SessionError::SendDatagram(d),
        from_stream == WebTransportError::StreamError(s),
        copied == e,
        copied_connection == c,
        copied_stream == s,
        copied_datagram == d,
        copied_web_transport == w,
{
}

} // verus!
