//! An established session: what it writes in front of its streams and datagrams, and how it ends.

use vstd::prelude::*;

use crate::buffer;
use crate::capsule;
use crate::capsule::{close_frame, read_capsules, Capsules};
use crate::connect;
use crate::connect::{Connected, ConnectRequest, ConnectResponse};
use crate::error::{
    ConnectionError, DatagramError, SendDatagramError, SessionError, StreamError, WebTransportError,
};
use crate::header;
use crate::header::{encode_header, FRAME_WEBTRANSPORT, STREAM_WEBTRANSPORT};
use crate::wire;
use crate::wire::{app_error, decode_varint, encode_varint, VARINT_LIMIT};

verus! {

/// A conservative datagram payload limit, using the QUIC minimum guaranteed datagram size rather than
/// the peer's actual negotiated limit.
pub const DEFAULT_MAX_DATAGRAM_SIZE: usize = 1200;

/// How long a closing session waits for the peer to acknowledge the close capsule.
pub const CLOSE_TIMEOUT_MILLIS: u64 = 1000;

/// The text that `String::from_utf8_lossy` reads `bytes` as.
pub uninterp spec fn lossy_text(bytes: Seq<u8>) -> Seq<char>;

/// `String::from_utf8_lossy` reads the bytes as text. What is UTF-8 is read as the text that it
/// encodes; what is not is replaced in a way that depends on the bytes alone.
#[verifier::external_body]
fn from_utf8_lossy(bytes: &[u8]) -> (r: String)
    ensures
        r@ == lossy_text(bytes@),
        forall|text: Seq<char>| bytes@ == #[trigger] vstd::utf8::encode_utf8(text) ==> r@ == text,
{
    String::from_utf8_lossy(bytes).into_owned()
}

/// What closing a session takes.
#[derive(Debug, PartialEq, Eq)]
pub enum Close {
    /// Nothing: it is already closing or closed.
    AlreadyClosed,
    /// Send `frame` on the CONNECT stream, finish the stream, and wait up to `timeout_millis` for the
    /// peer to acknowledge it. Then close the connection with `code`.
    SendCapsule { frame: Vec<u8>, timeout_millis: u64, code: u64 },
    /// Close the connection with `code`.
    CloseNow { code: u64 },
}

/// What to do after reading the CONNECT stream.
#[derive(Debug, PartialEq, Eq)]
pub enum Received {
    /// Read on; what has been received can be dropped.
    Idle,
    /// Read on; what has been received is needed again.
    Partial,
    /// The session is over: close the connection with `code`.
    CloseNow { code: u64 },
}

/// An established WebTransport session, acting like a QUIC connection.
///
/// WebTransport is layered on top of QUIC:
///   1. Each stream starts with a few bytes identifying the stream type and session ID.
///   2. Error codes are encoded within a reserved HTTP/3 error space.
///   3. Stream IDs may have gaps, used by HTTP/3 transparently to the application.
pub struct Session {
    // The session ID, as determined by the stream ID of the CONNECT request.
    session_id: u64,
    // Cached headers written in front of each stream/datagram we create.
    header_uni: Vec<u8>,
    header_bi: Vec<u8>,
    header_datagram: Vec<u8>,
    // Whether the send side of the CONNECT stream is still there for a close capsule.
    connect_send: bool,
    // Session error, set once by either a local close or the end of the CONNECT stream.
    error: Option<SessionError>,
    // Whether the session has closed.
    closed: bool,
    request: ConnectRequest,
    response: ConnectResponse,
}

impl Session {
    #[verifier::type_invariant]
    spec fn well_formed(self) -> bool {
        &&& self.session_id < VARINT_LIMIT
        &&& self.header_uni@ == header::header_bytes(STREAM_WEBTRANSPORT, self.session_id)
        &&& self.header_bi@ == header::header_bytes(FRAME_WEBTRANSPORT, self.session_id)
        &&& self.header_datagram@ == wire::varint_bytes(self.session_id)
        &&& !self.connect_send ==> self.error is Some
        &&& self.closed ==> self.error is Some
    }

    /// The session ID.
    pub closed spec fn id(self) -> u64 {
        self.session_id
    }

    /// Whether the close capsule can still be sent.
    pub closed spec fn can_send_capsule(self) -> bool {
        self.connect_send
    }

    /// Why the session ended, once it has begun to.
    pub closed spec fn error(self) -> Option<SessionError> {
        self.error
    }

    /// Whether the session has closed.
    pub closed spec fn is_closed(self) -> bool {
        self.closed
    }

    /// The CONNECT request.
    pub closed spec fn connect_request(self) -> ConnectRequest {
        self.request
    }

    /// The CONNECT response.
    pub closed spec fn connect_response(self) -> ConnectResponse {
        self.response
    }

    /// Says that the session can have come from `before`: it is the same session, and once it has an
    /// error or is closed that stays.
    pub open spec fn follows(self, before: Session) -> bool {
        &&& self.id() == before.id()
        &&& self.connect_request() == before.connect_request()
        &&& self.connect_response() == before.connect_response()
        &&& before.error() is Some ==> self.error() == before.error()
        &&& before.is_closed() ==> self.is_closed()
        &&& self.can_send_capsule() ==> before.can_send_capsule()
    }

    /// The session that a CONNECT exchange established.
    pub fn new(connect: Connected) -> (r: Session)
        requires
            connect.session_id < VARINT_LIMIT,
        ensures
            r.id() == connect.session_id,
            r.can_send_capsule(),
            r.error() is None,
            !r.is_closed(),
            r.connect_request() == connect.request,
            r.connect_response() == connect.response,
    {
        let session_id: u64 = connect.session_id();
        let header_uni = encode_header(STREAM_WEBTRANSPORT, session_id);
        let header_bi = encode_header(FRAME_WEBTRANSPORT, session_id);
        let mut header_datagram: Vec<u8> = Vec::new();
        encode_varint(session_id, &mut header_datagram);
        assert(header_datagram@ =~= wire::varint_bytes(session_id));
        Session {
            session_id,
            header_uni,
            header_bi,
            header_datagram,
            connect_send: true,
            error: None,
            closed: false,
            request: connect.request,
            response: connect.response,
        }
    }

    /// Open a new unidirectional stream: if the QUIC layer could open one, the result is the header to
    /// send on it first.
    pub fn open_uni(&self, opened: Result<(), ConnectionError>) -> (r: Result<
        bytes::Bytes,
        SessionError,
    >)
        ensures
            (match opened {
                Ok(()) => r matches Ok(header) && buffer::contents(header) == header::header_bytes(
                    STREAM_WEBTRANSPORT,
                    self.id(),
                ),
                Err(e) => r matches Err(error) && error.reports(e),
            }),
    {
        proof {
            use_type_invariant(self);
        }
        match opened {
            Ok(()) => Ok(bytes::Bytes::copy_from_slice(self.header_uni.as_slice())),
            Err(e) => Err(SessionError::from_connection(e)),
        }
    }

    /// Open a new bidirectional stream: if the QUIC layer could open one, the result is the header to
    /// send on it first.
    pub fn open_bi(&self, opened: Result<(), ConnectionError>) -> (r: Result<
        bytes::Bytes,
        SessionError,
    >)
        ensures
            (match opened {
                Ok(()) => r matches Ok(header) && buffer::contents(header) == header::header_bytes(
                    FRAME_WEBTRANSPORT,
                    self.id(),
                ),
                Err(e) => r matches Err(error) && error.reports(e),
            }),
    {
        proof {
            use_type_invariant(self);
        }
        match opened {
            Ok(()) => Ok(bytes::Bytes::copy_from_slice(self.header_bi.as_slice())),
            Err(e) => Err(SessionError::from_connection(e)),
        }
    }

    /// The outcome of opening a stream, given that of sending its header.
    pub fn header_sent(&self, sent: Result<(), StreamError>) -> (r: Result<(), SessionError>)
        ensures
            (match sent {
                Ok(()) => r == Ok::<(), SessionError>(()),
                Err(e) => r matches Err(error) && self.maps_stream_error(e, error),
            }),
    {
        match sent {
            Ok(()) => Ok(()),
            Err(e) => Err(self.map_stream_error(e)),
        }
    }

    /// Accept a new unidirectional stream: hands on what the accept loop came to.
    pub fn accept_uni<S>(&self, accepted: Result<S, SessionError>) -> (r: Result<S, SessionError>)
        ensures
            (match accepted {
                Ok(stream) => r == Ok::<S, SessionError>(stream),
                Err(e) => r == Err::<S, SessionError>(self.mapped(e)),
            }),
    {
        match accepted {
            Ok(stream) => Ok(stream),
            Err(e) => Err(self.map_error(e)),
        }
    }

    /// Accept a new bidirectional stream: hands on what the accept loop came to.
    pub fn accept_bi<B>(&self, accepted: Result<B, SessionError>) -> (r: Result<B, SessionError>)
        ensures
            (match accepted {
                Ok(stream) => r == Ok::<B, SessionError>(stream),
                Err(e) => r == Err::<B, SessionError>(self.mapped(e)),
            }),
    {
        match accepted {
            Ok(stream) => Ok(stream),
            Err(e) => Err(self.map_error(e)),
        }
    }

    /// Says what a datagram from the peer is to this session: it starts with the session's ID, or it
    /// belongs to no session here.
    pub open spec fn datagram_for(session_id: u64, datagram: Seq<u8>) -> Option<Seq<u8>> {
        match wire::varint_decode(datagram) {
            Some((id, n)) if id == session_id => Some(datagram.skip(n as int)),
            _ => None,
        }
    }

    /// Strips and validates the session ID in front of a datagram.
    pub fn strip_datagram(&self, datagram: bytes::Bytes) -> (r: Result<bytes::Bytes, SessionError>)
        ensures
            (match Self::datagram_for(self.id(), buffer::contents(datagram)) {
                Some(data) => r matches Ok(stripped) && buffer::contents(stripped) == data,
                None => r == Err::<bytes::Bytes, SessionError>(
                    SessionError::WebTransportError(WebTransportError::UnknownSession),
                ),
            }),
    {
        let (id, n): (u64, usize) = match decode_varint(buffer::as_slice(&datagram)) {
            Some(found) => found,
            None => return Err(SessionError::from(WebTransportError::UnknownSession)),
        };
        if id != self.session_id {
            return Err(SessionError::from(WebTransportError::UnknownSession));
        }
        let mut datagram = datagram;
        Ok(datagram.split_off(n))
    }

    /// Receive an application datagram from the peer, given what the QUIC layer came to: `None` if the
    /// connection is gone.
    pub fn read_datagram(&self, received: Option<Result<bytes::Bytes, DatagramError>>) -> (r: Result<
        bytes::Bytes,
        SessionError,
    >)
        ensures
            (match received {
                Some(Ok(datagram)) => match Self::datagram_for(
                    self.id(),
                    buffer::contents(datagram),
                ) {
                    Some(data) => r matches Ok(stripped) && buffer::contents(stripped) == data,
                    None => r == Err::<bytes::Bytes, SessionError>(
                        SessionError::WebTransportError(WebTransportError::UnknownSession),
                    ),
                },
                Some(Err(e)) => r matches Err(error) && Self::maps_datagram_error(e, error),
                None => r == Err::<bytes::Bytes, SessionError>(self.close_reason()),
            }),
    {
        match received {
            Some(Ok(datagram)) => self.strip_datagram(datagram),
            Some(Err(e)) => Err(Self::map_datagram_error(e)),
            None => Err(self.closed_error()),
        }
    }

    /// What the QUIC layer is to send for an application datagram: the session ID, and then the data.
    ///
    /// Datagrams are unreliable and may be dropped or delivered out of order. The data must be
    /// smaller than [`max_datagram_size`](Self::max_datagram_size).
    pub fn send_datagram(&self, data: &bytes::Bytes) -> (r: bytes::Bytes)
        requires
            buffer::contents(*data).len() + 8 <= isize::MAX,
        ensures
            buffer::contents(r) == wire::varint_bytes(self.id()) + buffer::contents(*data),
    {
        proof {
            use_type_invariant(self);
            wire::law_varint_round_trip(self.session_id, Seq::empty());
        }
        let mut buf = bytes::BytesMut::with_capacity(self.header_datagram.len() + data.len());
        buf.extend_from_slice(self.header_datagram.as_slice());
        buf.extend_from_slice(buffer::as_slice(data));
        assert(buffer::filled(buf) =~= wire::varint_bytes(self.session_id) + buffer::contents(
            *data,
        ));
        buf.freeze()
    }

    /// The outcome of sending a datagram, given what the QUIC layer came to: `None` if the connection
    /// is gone.
    pub fn datagram_sent(&self, sent: Option<Result<(), DatagramError>>) -> (r: Result<
        (),
        SessionError,
    >)
        ensures
            (match sent {
                Some(Ok(())) => r == Ok::<(), SessionError>(()),
                Some(Err(e)) => r matches Err(error) && Self::maps_datagram_error(e, error),
                None => r == Err::<(), SessionError>(self.close_reason()),
            }),
    {
        match sent {
            Some(Ok(())) => Ok(()),
            Some(Err(e)) => Err(Self::map_datagram_error(e)),
            None => Err(self.closed_error()),
        }
    }

    /// The maximum size of a datagram that can be sent.
    ///
    /// NOTE: this is a conservative estimate based on the QUIC minimum, not the peer's actual
    /// negotiated limit. Larger datagrams may still succeed.
    pub fn max_datagram_size(&self) -> (r: usize)
        ensures
            r == DEFAULT_MAX_DATAGRAM_SIZE - wire::varint_bytes(self.id()).len(),
    {
        proof {
            use_type_invariant(self);
            wire::law_varint_round_trip(self.session_id, Seq::empty());
        }
        DEFAULT_MAX_DATAGRAM_SIZE - self.header_datagram.len()
    }

    /// The length of the prefix that the session puts in front of a datagram.
    pub fn datagram_prefix_len(&self) -> (r: usize)
        ensures
            r == wire::varint_bytes(self.id()).len(),
            r <= 8,
    {
        proof {
            use_type_invariant(self);
            wire::law_varint_round_trip(self.session_id, Seq::empty());
        }
        self.header_datagram.len()
    }

    /// Close the session with an error code and reason.
    ///
    /// A close capsule is written on the CONNECT stream before the QUIC connection is closed, so
    /// browser clients can observe the code and reason.
    pub fn close(&mut self, code: u32, reason: &[u8]) -> (r: Close)
        ensures
            final(self).follows(*old(self)),
            final(self).is_closed() == old(self).is_closed(),
            old(self).error() is Some ==> r == Close::AlreadyClosed && *final(self) == *old(self),
            old(self).error() is None ==> {
                &&& final(self).error() matches Some(error) && error.is_closed(
                    code,
                    lossy_text(reason@),
                )
                &&& !final(self).can_send_capsule()
                &&& Self::closing(code, lossy_text(reason@), r)
            },
            forall|text: Seq<char>|
                reason@ == #[trigger] vstd::utf8::encode_utf8(text) && old(self).error() is None
                    ==> lossy_text(reason@) == text,
    {
        proof {
            use_type_invariant(&*self);
        }
        if self.error.is_some() {
            return Close::AlreadyClosed;
        }
        let reason = from_utf8_lossy(reason);
        let error = SessionError::WebTransportError(
            WebTransportError::Closed(code, reason.clone()),
        );
        self.error = Some(error);
        let send = self.connect_send;
        self.connect_send = false;
        if send {
            Self::close_with_capsule(code, reason.as_str(), CLOSE_TIMEOUT_MILLIS)
        } else {
            Close::CloseNow { code: app_error(code) }
        }
    }

    /// Says that this is how a session closes that has the CONNECT stream to say so.
    pub open spec fn closing(code: u32, reason: Seq<char>, r: Close) -> bool {
        if capsule::close_capsule(code, reason).len() < VARINT_LIMIT {
            &&& r matches Close::SendCapsule { frame, timeout_millis, code: c }
            &&& frame@ == capsule::data_frame(capsule::close_capsule(code, reason))
            &&& timeout_millis == CLOSE_TIMEOUT_MILLIS
            &&& c == wire::http3_code(code)
        } else {
            r matches Close::CloseNow { code: c } && c == wire::http3_code(code)
        }
    }

    /// How to close the connection after telling the peer why, unless that is too long to be told.
    pub fn close_with_capsule(code: u32, reason: &str, timeout_millis: u64) -> (r: Close)
        ensures
            if capsule::close_capsule(code, reason@).len() < VARINT_LIMIT {
                &&& r matches Close::SendCapsule { frame, timeout_millis: t, code: c }
                &&& frame@ == capsule::data_frame(capsule::close_capsule(code, reason@))
                &&& t == timeout_millis
                &&& c == wire::http3_code(code)
            } else {
                r matches Close::CloseNow { code: c } && c == wire::http3_code(code)
            },
    {
        match close_frame(code, reason) {
            Some(frame) => Close::SendCapsule { frame, timeout_millis, code: app_error(code) },
            None => Close::CloseNow { code: app_error(code) },
        }
    }

    /// Reads the CONNECT stream, of which `received` has arrived, until it closes, and then records
    /// why. `finished` says that nothing follows.
    pub fn run_recv(&mut self, received: &[u8], finished: bool) -> (r: Received)
        ensures
            final(self).follows(*old(self)),
            final(self).can_send_capsule() == old(self).can_send_capsule(),
            (match capsule::outcome(capsule::capsule_steps(received@), finished) {
                capsule::CapsuleOutcome::Idle => r == Received::Idle && *final(self) == *old(self)
                    && capsule::can_forget(received@),
                capsule::CapsuleOutcome::Partial => r == Received::Partial && *final(self) == *old(self),
                capsule::CapsuleOutcome::Done(info) => Self::ended(
                    *old(self),
                    *final(self),
                    info,
                    r,
                ),
            }),
            Self::learns_of_close(*old(self), *final(self), received@, finished, r),
            r is CloseNow && !finished ==> capsule::is_settled(
                received@,
                capsule::outcome(capsule::capsule_steps(received@), finished),
            ),
    {
        match read_capsules(received, finished) {
            Capsules::Idle => Received::Idle,
            Capsules::Partial => Received::Partial,
            Capsules::Done(info) => Received::CloseNow { code: self.record_close(info) },
        }
    }

    /// Says that the session is closed after the CONNECT stream ended with `info`, the code and reason
    /// of a close capsule: an error that it already had stands, and the connection is closed with the
    /// code.
    pub open spec fn ended(
        before: Session,
        after: Session,
        info: Option<(u32, Seq<char>)>,
        r: Received,
    ) -> bool {
        &&& after.is_closed()
        &&& after.error() matches Some(error)
        &&& before.error() is None ==> match info {
            Some((code, reason)) => error.is_closed(code, reason),
            None => error == SessionError::LocallyClosed,
        }
        &&& r matches Received::CloseNow { code: c } && c == wire::http3_code(
            match info {
                Some((code, _)) => code,
                None => 0,
            },
        )
    }

    /// Says that a close capsule on the CONNECT stream, also behind other capsules, ends the session as
    /// soon as it has arrived in full, with what it says, and that until then nothing happens.
    pub open spec fn learns_of_close(
        before: Session,
        after: Session,
        received: Seq<u8>,
        finished: bool,
        r: Received,
    ) -> bool {
        &&& forall|others: Seq<(u64, Seq<u8>)>, code: u32, reason: Seq<char>, rest: Seq<u8>|
            received == #[trigger] (capsule::close_behind(others, code, reason) + rest)
                && capsule::is_taken(others, code, reason) ==> Self::ended(
                before,
                after,
                Some((code, reason)),
                r,
            )
        &&& forall|others: Seq<(u64, Seq<u8>)>, code: u32, reason: Seq<char>, k: int|
            !finished && 0 <= k < capsule::close_behind(others, code, reason).len()
                && capsule::is_taken(others, code, reason) && received
                == #[trigger] capsule::close_behind(others, code, reason).take(k) ==> after == before
                && !(r is CloseNow)
    }

    /// Records the end of the CONNECT stream, with the code and reason of a close capsule if there was
    /// one. The result is the code to close the connection with.
    pub fn record_close(&mut self, info: Option<(u32, String)>) -> (r: u64)
        ensures
            final(self).follows(*old(self)),
            final(self).can_send_capsule() == old(self).can_send_capsule(),
            final(self).is_closed(),
            final(self).error() == (match old(self).error() {
                Some(error) => Some(error),
                None => Some(
                    match info {
                        Some((code, reason)) => SessionError::WebTransportError(
                            WebTransportError::Closed(code, reason),
                        ),
                        None => SessionError::LocallyClosed,
                    },
                ),
            }),
            r == wire::http3_code(
                match info {
                    Some((code, _)) => code,
                    None => 0,
                },
            ),
    {
        proof {
            use_type_invariant(&*self);
        }
        let (code, error): (u32, SessionError) = match info {
            Some((code, reason)) => (
                code,
                SessionError::from(WebTransportError::Closed(code, reason)),
            ),
            None => (0, SessionError::LocallyClosed),
        };
        if self.error.is_none() {
            self.error = Some(error);
        }
        self.closed = true;
        app_error(code)
    }

    /// The error with which the session closed; `None` while it is open.
    ///
    /// If the peer sent a close capsule, the error holds its code and reason.
    pub fn closed(&self) -> (r: Option<SessionError>)
        ensures
            r == if self.is_closed() {
                Some(self.close_reason())
            } else {
                None
            },
    {
        if self.closed {
            Some(self.closed_error())
        } else {
            None
        }
    }

    /// The session's own error, if there is one.
    pub fn stored_error(&self) -> (r: Option<&SessionError>)
        ensures
            r == (match self.error() {
                Some(error) => Some(&error),
                None => None,
            }),
    {
        self.error.as_ref()
    }

    /// The error that takes the place of `e`: the session's own, where `e` says no more than that the
    /// session or its connection is gone.
    pub open spec fn mapped(self, e: SessionError) -> SessionError {
        match self.error() {
            Some(error) if e.is_generic() => error,
            _ => e,
        }
    }

    /// Replace connection-level errors with the stored session error if available.
    pub fn map_error(&self, e: SessionError) -> (r: SessionError)
        ensures
            r == self.mapped(e),
    {
        e.replaced_by(self.stored_error())
    }

    /// Says that a stream that fails with `e` is reported as `r`.
    pub open spec fn maps_stream_error(self, e: StreamError, r: SessionError) -> bool {
        match e {
            StreamError::Connection(error) => match self.error() {
                Some(stored) => r == stored,
                None => r.reports(error),
            },
            other => r == SessionError::WebTransportError(WebTransportError::StreamError(other)),
        }
    }

    /// The error that the session reports when one of its streams fails with `e`.
    pub fn map_stream_error(&self, e: StreamError) -> (r: SessionError)
        ensures
            self.maps_stream_error(e, r),
    {
        let e = match e {
            StreamError::Connection(error) => SessionError::from_connection(error),
            other => SessionError::from(WebTransportError::from(other)),
        };
        self.map_error(e)
    }

    /// Why the session is gone, as far as it knows.
    pub open spec fn close_reason(self) -> SessionError {
        match self.error() {
            Some(error) => error,
            None => SessionError::LocallyClosed,
        }
    }

    /// The error to report once the connection is gone.
    pub fn closed_error(&self) -> (r: SessionError)
        ensures
            r == self.close_reason(),
    {
        match &self.error {
            Some(error) => error.clone(),
            None => SessionError::LocallyClosed,
        }
    }

    /// Says that a datagram that fails with `e` is reported as `r`.
    pub open spec fn maps_datagram_error(e: DatagramError, r: SessionError) -> bool {
        match e {
            DatagramError::QueueAtCapacity => r == SessionError::SendDatagram(
                SendDatagramError::QueueAtCapacity,
            ),
            DatagramError::ExceedsPeerTransportLimits => r == SessionError::SendDatagram(
                SendDatagramError::TooLarge,
            ),
            DatagramError::Connection(error) => r.reports(error),
            DatagramError::Other => r == SessionError::LocallyClosed,
        }
    }

    /// The error that the session reports when the QUIC layer fails with `e` on a datagram.
    pub fn map_datagram_error(e: DatagramError) -> (r: SessionError)
        ensures
            Self::maps_datagram_error(e, r),
    {
        match e {
            DatagramError::QueueAtCapacity => SessionError::from(
                SendDatagramError::QueueAtCapacity,
            ),
            DatagramError::ExceedsPeerTransportLimits => SessionError::from(
                SendDatagramError::TooLarge,
            ),
            DatagramError::Connection(error) => SessionError::from_connection(error),
            DatagramError::Other => SessionError::LocallyClosed,
        }
    }

    /// The session ID.
    pub fn session_id(&self) -> (r: u64)
        ensures
            r == self.id(),
            r < VARINT_LIMIT,
    {
        proof {
            use_type_invariant(self);
        }
        self.session_id
    }

    /// Returns the CONNECT request.
    pub fn request(&self) -> (r: &ConnectRequest)
        ensures
            *r == self.connect_request(),
    {
        &self.request
    }

    /// Returns the CONNECT response.
    pub fn response(&self) -> (r: &ConnectResponse)
        ensures
            *r == self.connect_response(),
    {
        &self.response
    }

    /// Returns the negotiated subprotocol, if any.
    pub fn protocol(&self) -> (r: Option<&String>)
        ensures
            r == (match self.connect_response().protocol {
                Some(protocol) => Some(&protocol),
                None => None,
            }),
    {
        self.response.protocol.as_ref()
    }
}

/// A datagram that a session sends is what the session of the same number on the other side gets, and
/// to any other session it is unknown.
pub proof fn law_datagram_reaches_its_session(sender: u64, receiver: u64, data: Seq<u8>)
    requires
        sender < VARINT_LIMIT,
    ensures
        Session::datagram_for(receiver, wire::varint_bytes(sender) + data) == if receiver == sender {
            Some(data)
        } else {
            None
        },
{
    wire::law_varint_round_trip(sender, data);
    assert((wire::varint_bytes(sender) + data).skip(wire::varint_bytes(sender).len() as int)
        =~= data);
}

/// A datagram of at most the maximum size fits the limit, together with what the session puts in front
/// of it.
pub proof fn law_maximum_datagram_fits(session_id: u64, data: Seq<u8>)
    requires
        session_id < VARINT_LIMIT,
        data.len() <= DEFAULT_MAX_DATAGRAM_SIZE - wire::varint_bytes(session_id).len(),
    ensures
        (wire::varint_bytes(session_id) + data).len() <= DEFAULT_MAX_DATAGRAM_SIZE,
{
}

/// However long a session lives, it keeps its identity, and its first error is its last.
pub proof fn law_first_error_stays(first: Session, second: Session, third: Session)
    requires
        second.follows(first),
        third.follows(second),
    ensures
        third.follows(first),
        first.error() is Some ==> third.error() == first.error(),
{
}

/// What one side gives for closing, a code and a reason, is sent, and is what the other side learns as soon as all of
/// it has arrived, however it is cut, whatever other capsules come before and whatever follows, unless it
/// already had an error of its own. No capsule must be longer than 65536 bytes, which a reader refuses.
pub proof fn law_close_reaches_the_peer(
    others: Seq<(u64, Seq<u8>)>,
    code: u32,
    reason: Seq<char>,
    closed: Close,
    rest: Seq<u8>,
    k: int,
    before: Session,
    after: Session,
    received: Received,
)
    requires
        capsule::is_taken(others, code, reason),
        Session::closing(code, reason, closed),
        before.error() is None,
        closed matches Close::SendCapsule { frame, .. } ==> {
            &&& 0 <= k <= (capsule::frames_of(others) + frame@ + rest).len()
            &&& Session::learns_of_close(
                before,
                after,
                (capsule::frames_of(others) + frame@ + rest).take(k),
                false,
                received,
            )
        },
    ensures
        closed matches Close::SendCapsule { frame, .. } && if k < (capsule::frames_of(others)
            + frame@).len() {
            after == before && !(received is CloseNow)
        } else {
            &&& after.is_closed()
            &&& after.error() matches Some(error) && error.is_closed(code, reason)
            &&& received matches Received::CloseNow { code: c } && c == wire::http3_code(code)
        },
{
    if let Close::SendCapsule { frame, .. } = closed {
        let sent = capsule::close_behind(others, code, reason);
        let stream = capsule::frames_of(others) + frame@ + rest;
        assert(sent == capsule::frames_of(others) + frame@);
        if k < sent.len() {
            assert(stream.take(k) =~= sent.take(k));
        } else {
            assert(stream.take(k) =~= sent + rest.take(k - sent.len()));
        }
    }
}

/// An open session that is closed tells the peer first: whatever the code, and unless the reason is too long
/// for any frame, it sends a capsule with the code and the reason, and then closes the connection with the code. A reason that is
/// text is sent as it is. The session keeps code and reason as its error.
pub proof fn law_close_sends_a_capsule(session: &mut Session, code: u32, reason: &[u8], r: Close)
    requires
        call_ensures(Session::close, (session, code, reason), r),
        old(session).error() is None,
    ensures
        capsule::close_capsule(code, lossy_text(reason@)).len() < 0x4000_0000_0000_0000 ==> {
            &&& r matches Close::SendCapsule { frame, timeout_millis, code: c }
            &&& frame@ == capsule::data_frame(capsule::close_capsule(code, lossy_text(reason@)))
            &&& timeout_millis == 1000
            &&& c == 0x52e4a40fa8db + code + code / 30
        },
        !(r is AlreadyClosed),
        r matches Close::CloseNow { code: c } ==> c == 0x52e4a40fa8db + code + code / 30,
        final(session).error() matches Some(
            SessionError::WebTransportError(WebTransportError::Closed(c, text)),
        ) && c == code && text@ == lossy_text(reason@),
        forall|text: Seq<char>|
            reason@ == #[trigger] vstd::utf8::encode_utf8(text) ==> lossy_text(reason@) == text,
        final(session).id() == old(session).id(),
{
}

/// A close capsule is at most twenty bytes longer than its reason.
proof fn lemma_close_capsule_len(code: u32, reason: Seq<char>)
    ensures
        capsule::close_capsule(code, reason).len() <= vstd::utf8::encode_utf8(reason).len() + 20,
{
    let len = ((4 + vstd::utf8::encode_utf8(reason).len()) % 0x1_0000_0000) as u64;
    wire::law_varint_round_trip(capsule::CLOSE_WEBTRANSPORT_SESSION, Seq::empty());
    wire::law_varint_round_trip(len, Seq::empty());
    wire::lemma_be_len(code as nat, 4);
}

/// Whatever code and reason an open session is closed with, if the capsule is one that a reader takes, then
/// the peer learns of it: an open session that has read so far on its CONNECT stream, and gets what the close
/// sent behind whatever other capsules, ends with that very code and reason, as soon as all of it is there.
pub proof fn law_peer_learns_of_the_close(
    closing: &mut Session,
    code: u32,
    text: Seq<char>,
    reason: &[u8],
    closed: Close,
    others: Seq<(u64, Seq<u8>)>,
    rest: Seq<u8>,
    peer: &mut Session,
    received: &[u8],
    finished: bool,
    r: Received,
)
    requires
        call_ensures(Session::close, (closing, code, reason), closed),
        call_ensures(Session::run_recv, (peer, received, finished), r),
        old(closing).error() is None,
        old(peer).error() is None,
        reason@ == vstd::utf8::encode_utf8(text),
        reason@.len() <= 65500,
        capsule::are_others(others),
        closed matches Close::SendCapsule { frame, .. } ==> received@ == capsule::frames_of(others)
            + frame@ + rest,
    ensures
        closed is SendCapsule,
        r matches Received::CloseNow { code: c } && c == 0x52e4a40fa8db + code + code / 30,
        final(peer).error() matches Some(
            SessionError::WebTransportError(WebTransportError::Closed(c, told)),
        ) && c == code && told@ == text,
        final(peer).is_closed(),
{
    lemma_close_capsule_len(code, text);
    assert(lossy_text(reason@) == text);
    let sent = capsule::close_behind(others, code, text);
    if let Close::SendCapsule { frame, .. } = closed {
        assert(capsule::frames_of(others) + frame@ + rest =~= sent + rest);
        assert(capsule::is_taken(others, code, text));
    }
}

/// Until all of a close has arrived the peer's session stays as it is.
pub proof fn law_peer_waits_for_all_of_the_close(
    closing: &mut Session,
    code: u32,
    text: Seq<char>,
    reason: &[u8],
    closed: Close,
    others: Seq<(u64, Seq<u8>)>,
    peer: &mut Session,
    received: &[u8],
    r: Received,
)
    requires
        call_ensures(Session::close, (closing, code, reason), closed),
        call_ensures(Session::run_recv, (peer, received, false), r),
        old(closing).error() is None,
        reason@ == vstd::utf8::encode_utf8(text),
        reason@.len() <= 65500,
        capsule::are_others(others),
        closed matches Close::SendCapsule { frame, .. } ==> received@.len() < (capsule::frames_of(
            others,
        ) + frame@).len() && received@ == (capsule::frames_of(others) + frame@).take(
            received@.len() as int,
        ),
    ensures
        r == Received::Idle || r == Received::Partial,
        *final(peer) == *old(peer),
{
    lemma_close_capsule_len(code, text);
    assert(lossy_text(reason@) == text);
    assert(capsule::is_taken(others, code, text));
    assert(capsule::close_behind(others, code, text).take(received@.len() as int) == received@);
}

/// Only the first close counts: a session that has an error, by whichever side, sends nothing when it is
/// closed and keeps its error.
pub proof fn law_only_the_first_close_counts(session: &mut Session, code: u32, reason: &[u8], r: Close)
    requires
        call_ensures(Session::close, (session, code, reason), r),
        old(session).error() is Some,
    ensures
        r == Close::AlreadyClosed,
        *final(session) == *old(session),
{
}

/// The end of the CONNECT stream closes the session. With a close capsule its code and reason become the
/// session's error, and without one it is closed locally; but an error that it had stays. The connection is
/// closed with the code of the capsule, or with zero.
pub proof fn law_end_of_connect_stream_is_recorded(
    session: &mut Session,
    info: Option<(u32, String)>,
    r: u64,
)
    requires
        call_ensures(Session::record_close, (session, info), r),
    ensures
        final(session).is_closed(),
        old(session).error() is Some ==> final(session).error() == old(session).error(),
        old(session).error() is None && info is None ==> final(session).error() == Some(
            SessionError::LocallyClosed,
        ),
        old(session).error() is None && info is Some ==> final(session).error() == Some(
            SessionError::WebTransportError(WebTransportError::Closed((info->0).0, (info->0).1)),
        ),
        info is None ==> r == 0x52e4a40fa8db,
        info matches Some((code, _)) ==> r == 0x52e4a40fa8db + code + code / 30,
        final(session).id() == old(session).id(),
        final(session).connect_request() == old(session).connect_request(),
        final(session).connect_response() == old(session).connect_response(),
{
}

/// What reading the CONNECT stream does to a session is what its first read that gives no other capsule
/// says: a close ends the session with its code and reason, what is no capsule ends it without, and the end
/// of the bytes ends it only if nothing follows.
pub proof fn law_first_close_on_the_stream_decides(
    session: &mut Session,
    received: &[u8],
    finished: bool,
    r: Received,
    n: int,
)
    requires
        call_ensures(Session::run_recv, (session, received, finished), r),
        0 <= n < capsule::capsule_steps(received@).len(),
        forall|i: int| 0 <= i < n ==> #[trigger] capsule::capsule_steps(received@)[i] is Other,
    ensures
        (match capsule::capsule_steps(received@)[n] {
            capsule::CapsuleStep::Other => true,
            capsule::CapsuleStep::Close(code, reason) => {
                &&& r matches Received::CloseNow { code: c } && c == 0x52e4a40fa8db + code + code / 30
                &&& old(session).error() is None ==> (final(session).error() matches Some(
                    SessionError::WebTransportError(WebTransportError::Closed(c, told)),
                ) && c == code && told@ == reason)
                &&& final(session).is_closed()
            },
            capsule::CapsuleStep::Invalid => {
                &&& r == (Received::CloseNow { code: 0x52e4a40fa8db })
                &&& old(session).error() is None ==> final(session).error() == Some(
                    SessionError::LocallyClosed,
                )
                &&& final(session).is_closed()
            },
            _ => if finished {
                &&& r == (Received::CloseNow { code: 0x52e4a40fa8db })
                &&& old(session).error() is None ==> final(session).error() == Some(
                    SessionError::LocallyClosed,
                )
                &&& final(session).is_closed()
            } else {
                &&& r == if capsule::capsule_steps(received@)[n] is End {
                    Received::Idle
                } else {
                    Received::Partial
                }
                &&& *final(session) == *old(session)
            },
        }),
        old(session).error() is Some ==> final(session).error() == old(session).error(),
        final(session).id() == old(session).id(),
        final(session).connect_request() == old(session).connect_request(),
        final(session).connect_response() == old(session).connect_response(),
{
    capsule::lemma_outcome_at(capsule::capsule_steps(received@), n, finished);
}

/// A session that is closed tells why, and one that is open tells nothing: its error, if it has one, is that
/// of the first close.
pub proof fn law_closed_session_tells_why(
    session: Session,
    closed: Option<SessionError>,
    stored: Option<&SessionError>,
    gone: SessionError,
)
    requires
        call_ensures(Session::closed, (&session,), closed),
        call_ensures(Session::stored_error, (&session,), stored),
        call_ensures(Session::closed_error, (&session,), gone),
    ensures
        closed is Some <==> session.is_closed(),
        closed is Some ==> closed == Some(gone),
        session.error() matches Some(error) ==> gone == error && stored == Some(&error),
        session.error() is None ==> gone == SessionError::LocallyClosed && stored is None,
{
}

/// A new session is open, has the number, the request and the response of the CONNECT exchange, and says so.
pub proof fn law_new_session_is_that_of_its_exchange(
    connected: Connected,
    session: Session,
    id: u64,
    request: &ConnectRequest,
    response: &ConnectResponse,
    protocol: Option<&String>,
    closed: Option<SessionError>,
    stored: Option<&SessionError>,
)
    requires
        call_ensures(Session::new, (connected,), session),
        call_ensures(Session::session_id, (&session,), id),
        call_ensures(Session::request, (&session,), request),
        call_ensures(Session::response, (&session,), response),
        call_ensures(Session::protocol, (&session,), protocol),
        call_ensures(Session::closed, (&session,), closed),
        call_ensures(Session::stored_error, (&session,), stored),
    ensures
        id == connected.session_id,
        session.id() == connected.session_id,
        *request == connected.request,
        *response == connected.response,
        protocol is Some <==> connected.response.protocol is Some,
        protocol is Some ==> *protocol->0 == connected.response.protocol->0,
        closed is None,
        stored is None,
{
}

/// Each stream that a session opens starts with its type and the number of the session, and the session of
/// the same number on the other side takes it for its own, at its first byte of data, while to a session of
/// another number it is unknown.
pub proof fn law_opened_streams_name_their_session(
    connected: Connected,
    session: Session,
    uni: Result<bytes::Bytes, SessionError>,
    bi: Result<bytes::Bytes, SessionError>,
    reader: u64,
    uni_data: &[u8],
    bi_data: &[u8],
    rest: Seq<u8>,
    uni_read: Option<Result<(u64, usize), SessionError>>,
    bi_read: Option<Result<Option<usize>, SessionError>>,
)
    requires
        connected.session_id < VARINT_LIMIT,
        call_ensures(Session::new, (connected,), session),
        call_ensures(Session::open_uni, (&session, Ok(())), uni),
        call_ensures(Session::open_bi, (&session, Ok(())), bi),
        call_ensures(header::decode_uni, (uni_data, false, reader), uni_read),
        call_ensures(header::decode_bi, (bi_data, false, reader), bi_read),
        uni matches Ok(head) ==> uni_data@ == buffer::contents(head) + rest,
        bi matches Ok(head) ==> bi_data@ == buffer::contents(head) + rest,
    ensures
        uni matches Ok(head) && buffer::contents(head) == wire::varint_bytes(0x54)
            + wire::varint_bytes(connected.session_id),
        bi matches Ok(head) && buffer::contents(head) == wire::varint_bytes(0x41)
            + wire::varint_bytes(connected.session_id),
        reader == connected.session_id ==> {
            &&& uni_read == Some(
                Ok::<_, SessionError>((0x54u64, buffer::contents(uni->Ok_0).len() as usize)),
            )
            &&& bi_read == Some(
                Ok::<_, SessionError>(Some(buffer::contents(bi->Ok_0).len() as usize)),
            )
        },
        reader != connected.session_id ==> {
            &&& uni_read == Some(
                Err::<(u64, usize), SessionError>(
                    SessionError::WebTransportError(WebTransportError::UnknownSession),
                ),
            )
            &&& bi_read == Some(
                Err::<Option<usize>, SessionError>(
                    SessionError::WebTransportError(WebTransportError::UnknownSession),
                ),
            )
        },
{
    header::law_header_names_its_session(0x54, connected.session_id, reader, rest);
    header::law_header_names_its_session(0x41, connected.session_id, reader, rest);
}

/// A stream that cannot be opened, or whose header cannot be sent, is an error: what the session reports of
/// its connection, its own error in place of that once there is one, or the failure of the stream itself.
pub proof fn law_streams_that_cannot_be_opened_are_errors(
    session: Session,
    e: ConnectionError,
    uni: Result<bytes::Bytes, SessionError>,
    bi: Result<bytes::Bytes, SessionError>,
    own: SessionError,
    ok: Result<(), SessionError>,
    lost: Result<(), SessionError>,
    failure: StreamError,
    failed: Result<(), SessionError>,
)
    requires
        call_ensures(Session::open_uni, (&session, Err(e)), uni),
        call_ensures(Session::open_bi, (&session, Err(e)), bi),
        call_ensures(SessionError::from_connection, (e,), own),
        call_ensures(Session::header_sent, (&session, Ok(())), ok),
        call_ensures(Session::header_sent, (&session, Err(StreamError::Connection(e))), lost),
        call_ensures(Session::header_sent, (&session, Err(failure)), failed),
        !(failure is Connection),
    ensures
        own is ConnectionError ==> uni == Err::<bytes::Bytes, SessionError>(own) && bi == Err::<
            bytes::Bytes,
            SessionError,
        >(own),
        own matches SessionError::WebTransportError(WebTransportError::Closed(code, _)) ==> (uni
            matches Err(a) && a.is_closed(code, Seq::empty())) && (bi matches Err(b) && b.is_closed(
            code,
            Seq::empty(),
        )),
        uni is Err,
        bi is Err,
        ok is Ok,
        session.error() is Some ==> lost == Err::<(), SessionError>(session.error()->0),
        session.error() is None && own is ConnectionError ==> lost == Err::<(), SessionError>(own),
        session.error() is None ==> (own matches SessionError::WebTransportError(
            WebTransportError::Closed(code, _),
        ) ==> (lost matches Err(error) && error.is_closed(code, Seq::empty()))),
        lost is Err,
        failed == Err::<(), SessionError>(
            SessionError::WebTransportError(WebTransportError::StreamError(failure)),
        ),
{
}

/// A stream that was accepted is handed on, and an error in accepting one is the session's own, once there is
/// one, if it says no more than that the session is gone.
pub proof fn law_accepted_streams_are_handed_on<S>(
    session: Session,
    stream: S,
    e: SessionError,
    uni: Result<S, SessionError>,
    bi: Result<S, SessionError>,
    no_uni: Result<S, SessionError>,
    no_bi: Result<S, SessionError>,
    mapped: SessionError,
)
    requires
        call_ensures(Session::accept_uni::<S>, (&session, Ok(stream)), uni),
        call_ensures(Session::accept_bi::<S>, (&session, Ok(stream)), bi),
        call_ensures(Session::accept_uni::<S>, (&session, Err(e)), no_uni),
        call_ensures(Session::accept_bi::<S>, (&session, Err(e)), no_bi),
        call_ensures(Session::map_error, (&session, e), mapped),
    ensures
        uni == Ok::<S, SessionError>(stream),
        bi == Ok::<S, SessionError>(stream),
        no_uni == Err::<S, SessionError>(mapped),
        no_bi == Err::<S, SessionError>(mapped),
        session.error() is None ==> mapped == e,
        session.error() is Some && (e is ConnectionError || e is LocallyClosed || (e
            matches SessionError::WebTransportError(WebTransportError::Closed(_, _)))) ==> mapped
            == session.error()->0,
        e == SessionError::WebTransportError(WebTransportError::UnknownSession) ==> mapped == e,
        e is SendDatagram || e is DatagramUnsupported ==> mapped == e,
        (e matches SessionError::WebTransportError(WebTransportError::StreamError(_))) ==> mapped
            == e,
{
}

/// A datagram that one session sends is what the session of the same number on the other side gets, byte for
/// byte, and to a session of any other number it is unknown. In front of it stands the number of the session
/// and nothing else.
pub proof fn law_sent_datagram_is_received(
    ours: Session,
    theirs: Session,
    data: bytes::Bytes,
    sent: bytes::Bytes,
    received: bytes::Bytes,
    stripped: Result<bytes::Bytes, SessionError>,
    read: Result<bytes::Bytes, SessionError>,
)
    requires
        ours.id() < VARINT_LIMIT,
        call_ensures(Session::send_datagram, (&ours, &data), sent),
        call_ensures(Session::strip_datagram, (&theirs, received), stripped),
        call_ensures(Session::read_datagram, (&theirs, Some(Ok(received))), read),
        buffer::contents(received) == buffer::contents(sent),
    ensures
        buffer::contents(sent) == wire::varint_bytes(ours.id()) + buffer::contents(data),
        theirs.id() == ours.id() ==> (stripped matches Ok(got) && buffer::contents(got)
            == buffer::contents(data)) && (read matches Ok(got) && buffer::contents(got)
            == buffer::contents(data)),
        theirs.id() != ours.id() ==> stripped == Err::<bytes::Bytes, SessionError>(
            SessionError::WebTransportError(WebTransportError::UnknownSession),
        ) && read == Err::<bytes::Bytes, SessionError>(
            SessionError::WebTransportError(WebTransportError::UnknownSession),
        ),
{
    law_datagram_reaches_its_session(ours.id(), theirs.id(), buffer::contents(data));
}

/// Of any datagram, however its number is written, what follows the number is received if this is that of
/// the session, and a datagram that is too short for a number belongs to no session.
pub proof fn law_datagrams_are_told_by_their_number(
    session: Session,
    datagram: bytes::Bytes,
    stripped: Result<bytes::Bytes, SessionError>,
)
    requires
        call_ensures(Session::strip_datagram, (&session, datagram), stripped),
    ensures
        (match wire::varint_decode(buffer::contents(datagram)) {
            None => stripped is Err,
            Some((id, n)) => if id == session.id() {
                stripped matches Ok(got) && buffer::contents(got) == buffer::contents(datagram).skip(
                    n as int,
                )
            } else {
                stripped is Err
            },
        }),
        stripped is Err ==> stripped == Err::<bytes::Bytes, SessionError>(
            SessionError::WebTransportError(WebTransportError::UnknownSession),
        ),
{
}

/// The largest datagram fits the limit exactly, together with what the session puts in front of it.
pub proof fn law_largest_datagram_fills_the_limit(
    session: Session,
    data: bytes::Bytes,
    sent: bytes::Bytes,
    max: usize,
    prefix: usize,
)
    requires
        session.id() < VARINT_LIMIT,
        call_ensures(Session::max_datagram_size, (&session,), max),
        call_ensures(Session::datagram_prefix_len, (&session,), prefix),
        call_ensures(Session::send_datagram, (&session, &data), sent),
    ensures
        max + prefix == 1200,
        buffer::contents(sent).len() == buffer::contents(data).len() + prefix,
        buffer::contents(data).len() <= max <==> buffer::contents(sent).len() <= 1200,
{
}

/// A datagram that the QUIC layer took was sent. What it failed with is told apart, and where there is no
/// connection any more the session tells why.
pub proof fn law_datagram_failures_are_told_apart(
    session: Session,
    e: ConnectionError,
    own: SessionError,
    ok: Result<(), SessionError>,
    full: Result<(), SessionError>,
    large: Result<(), SessionError>,
    lost: Result<(), SessionError>,
    gone: Result<(), SessionError>,
    read_lost: Result<bytes::Bytes, SessionError>,
    read_gone: Result<bytes::Bytes, SessionError>,
    why: SessionError,
)
    requires
        call_ensures(SessionError::from_connection, (e,), own),
        call_ensures(Session::datagram_sent, (&session, Some(Ok(()))), ok),
        call_ensures(Session::datagram_sent, (&session, Some(Err(DatagramError::QueueAtCapacity))), full),
        call_ensures(
            Session::datagram_sent,
            (&session, Some(Err(DatagramError::ExceedsPeerTransportLimits))),
            large,
        ),
        call_ensures(Session::datagram_sent, (&session, Some(Err(DatagramError::Connection(e)))), lost),
        call_ensures(Session::datagram_sent, (&session, None), gone),
        call_ensures(
            Session::read_datagram,
            (&session, Some(Err(DatagramError::Connection(e)))),
            read_lost,
        ),
        call_ensures(Session::read_datagram, (&session, None), read_gone),
        call_ensures(Session::closed_error, (&session,), why),
    ensures
        ok == Ok::<(), SessionError>(()),
        full == Err::<(), SessionError>(
            SessionError::SendDatagram(SendDatagramError::QueueAtCapacity),
        ),
        large == Err::<(), SessionError>(SessionError::SendDatagram(SendDatagramError::TooLarge)),
        lost is Err,
        read_lost is Err,
        own is ConnectionError ==> lost == Err::<(), SessionError>(own) && read_lost == Err::<
            bytes::Bytes,
            SessionError,
        >(own),
        gone == Err::<(), SessionError>(why),
        read_gone == Err::<bytes::Bytes, SessionError>(why),
{
}

/// A stream that fails is reported by the session: by its own error, once there is one, where the connection
/// ended, and else as a failure of the stream.
pub proof fn law_stream_failures_are_reported(
    session: Session,
    e: ConnectionError,
    own: SessionError,
    lost: SessionError,
    failure: StreamError,
    failed: SessionError,
)
    requires
        call_ensures(SessionError::from_connection, (e,), own),
        call_ensures(Session::map_stream_error, (&session, StreamError::Connection(e)), lost),
        call_ensures(Session::map_stream_error, (&session, failure), failed),
        !(failure is Connection),
    ensures
        session.error() is Some ==> lost == session.error()->0,
        session.error() is None && own is ConnectionError ==> lost == own,
        session.error() is None ==> (own matches SessionError::WebTransportError(
            WebTransportError::Closed(code, _),
        ) ==> lost.is_closed(code, Seq::empty())),
        failed == SessionError::WebTransportError(WebTransportError::StreamError(failure)),
{
}

/// How a session closes with a capsule: the capsule holds the code and the reason, and the wait is as long as
/// was given. Only a reason that is too long for any frame is left out.
pub proof fn law_capsule_holds_code_and_reason(
    code: u32,
    reason: &str,
    timeout_millis: u64,
    r: Close,
)
    requires
        call_ensures(Session::close_with_capsule, (code, reason, timeout_millis), r),
    ensures
        capsule::close_capsule(code, reason@).len() < 0x4000_0000_0000_0000 ==> (r
            matches Close::SendCapsule { frame, timeout_millis: t, code: c } && frame@
            == capsule::data_frame(capsule::close_capsule(code, reason@)) && t == timeout_millis && c
            == 0x52e4a40fa8db + code + code / 30),
        r matches Close::CloseNow { code: c } ==> c == 0x52e4a40fa8db + code + code / 30,
        !(r is AlreadyClosed),
{
}

/// What the QUIC layer says of a datagram is reported by what it is, whether it was to be sent or received.
pub proof fn law_datagram_errors_are_told_apart(
    session: Session,
    e: ConnectionError,
    own: SessionError,
    full: SessionError,
    large: SessionError,
    lost: SessionError,
    other: SessionError,
    read_full: Result<bytes::Bytes, SessionError>,
    read_large: Result<bytes::Bytes, SessionError>,
    read_other: Result<bytes::Bytes, SessionError>,
    sent_other: Result<(), SessionError>,
)
    requires
        call_ensures(SessionError::from_connection, (e,), own),
        call_ensures(Session::map_datagram_error, (DatagramError::QueueAtCapacity,), full),
        call_ensures(Session::map_datagram_error, (DatagramError::ExceedsPeerTransportLimits,), large),
        call_ensures(Session::map_datagram_error, (DatagramError::Connection(e),), lost),
        call_ensures(Session::map_datagram_error, (DatagramError::Other,), other),
        call_ensures(
            Session::read_datagram,
            (&session, Some(Err(DatagramError::QueueAtCapacity))),
            read_full,
        ),
        call_ensures(
            Session::read_datagram,
            (&session, Some(Err(DatagramError::ExceedsPeerTransportLimits))),
            read_large,
        ),
        call_ensures(Session::read_datagram, (&session, Some(Err(DatagramError::Other))), read_other),
        call_ensures(Session::datagram_sent, (&session, Some(Err(DatagramError::Other))), sent_other),
    ensures
        full == SessionError::SendDatagram(SendDatagramError::QueueAtCapacity),
        large == SessionError::SendDatagram(SendDatagramError::TooLarge),
        other == SessionError::LocallyClosed,
        own is ConnectionError ==> lost == own,
        own matches SessionError::WebTransportError(WebTransportError::Closed(code, _))
            ==> lost.is_closed(code, Seq::empty()),
        read_full == Err::<bytes::Bytes, SessionError>(full),
        read_large == Err::<bytes::Bytes, SessionError>(large),
        read_other == Err::<bytes::Bytes, SessionError>(other),
        sent_other == Err::<(), SessionError>(other),
{
}

} // verus!
