//! What is different on a QUIC layer whose streams are byte streams and whose datagrams may not have
//! been negotiated: a session on `dquic`.

use vstd::prelude::*;
use vstd::string::*;

use crate::buffer;
use crate::error::{
    ConnectionError, ReadError, SendDatagramError, ServerError, SessionError, StreamError,
    WebTransportError,
};
use crate::header;
use crate::header::{FRAME_WEBTRANSPORT, STREAM_WEBTRANSPORT};
use crate::server;
use crate::server::ServerBuilder;
use crate::session;
use crate::wire;
use crate::wire::decode_varint;

verus! {

/// The size we advertise for `max_datagram_frame_size` (RFC 9221). This enables QUIC datagrams, which
/// are disabled by default.
pub const MAX_DATAGRAM_FRAME_SIZE: u64 = 65535;

/// The maximum number of pending connections queued by the listener.
pub const BACKLOG: usize = 1024;

/// What the first bytes of a stream lead to.
#[derive(Debug, PartialEq, Eq)]
pub enum Accept {
    /// Read on.
    More,
    /// Drop the stream, and wait for the next.
    Skip,
    /// Hand the stream to the caller, after the header of so many bytes, or the error.
    Return(Result<usize, SessionError>),
}

/// Says what the first bytes of a stream lead to in the session `session_id`, whose own streams have
/// the type `own`: a stream of another type, or one that ends before its type, is dropped, and one
/// of the session's type that does not name the session is an error.
pub open spec fn accepts(data: Seq<u8>, ended: bool, own: u64, session_id: u64, r: Accept) -> bool {
    match wire::varint_decode(data) {
        None => r == if ended {
            Accept::Skip
        } else {
            Accept::More
        },
        Some((typ, n)) => if typ != own {
            r == Accept::Skip
        } else {
            match wire::varint_decode(data.skip(n as int)) {
                None => r == if ended {
                    Accept::Return(
                        Err(SessionError::WebTransportError(WebTransportError::UnknownSession)),
                    )
                } else {
                    Accept::More
                },
                Some((id, m)) => if id != session_id {
                    r == Accept::Return(
                        Err(SessionError::WebTransportError(WebTransportError::UnknownSession)),
                    )
                } else {
                    r matches Accept::Return(Ok(len)) && len == n + m && len <= data.len()
                },
            }
        },
    }
}

/// What the first bytes of a stream lead to in the session `session_id`.
fn accept(data: &[u8], ended: bool, own: u64, session_id: u64) -> (r: Accept)
    ensures
        accepts(data@, ended, own, session_id, r),
{
    let (typ, n): (u64, usize) = match decode_varint(data) {
        Some(found) => found,
        None => return if ended {
            Accept::Skip
        } else {
            Accept::More
        },
    };
    if typ != own {
        return Accept::Skip;
    }
    let rest = vstd::slice::slice_subrange(data, n, data.len());
    assert(rest@ == data@.skip(n as int));
    match decode_varint(rest) {
        Some((id, m)) => if id != session_id {
            Accept::Return(Err(SessionError::from(WebTransportError::UnknownSession)))
        } else {
            Accept::Return(Ok(n + m))
        },
        None => if ended {
            Accept::Return(Err(SessionError::from(WebTransportError::UnknownSession)))
        } else {
            Accept::More
        },
    }
}

/// The sending side of the datagrams of a connection.
pub struct DatagramWriter {
    /// The largest DATAGRAM frame that the peer takes, while the connection is there to tell.
    pub max_frame_size: Option<usize>,
}

/// A session, together with what its connection negotiated for datagrams.
pub struct Session {
    pub session: session::Session,
    /// Whether datagrams can be received.
    pub datagram_reader: bool,
    /// The sending side of the datagrams, if they were negotiated.
    pub datagram_writer: Option<DatagramWriter>,
}

impl Session {
    /// The error to report where the connection failed with `e` instead of yielding or opening a
    /// stream.
    pub fn stream_failed(&self, e: ConnectionError) -> (r: SessionError)
        ensures
            (match self.session.error() {
                Some(stored) => r == stored,
                None => r.reports(e),
            }),
    {
        self.session.map_error(SessionError::from_connection(e))
    }

    /// Accept a new unidirectional stream, of which `data` has arrived. `ended` says that nothing
    /// follows.
    pub fn accept_uni(&self, data: &[u8], ended: bool) -> (r: Accept)
        ensures
            accepts(data@, ended, STREAM_WEBTRANSPORT, self.session.id(), r),
    {
        accept(data, ended, STREAM_WEBTRANSPORT, self.session.session_id())
    }

    /// Accept a new bidirectional stream, of which `data` has arrived. `ended` says that nothing
    /// follows.
    pub fn accept_bi(&self, data: &[u8], ended: bool) -> (r: Accept)
        ensures
            accepts(data@, ended, FRAME_WEBTRANSPORT, self.session.id(), r),
    {
        accept(data, ended, FRAME_WEBTRANSPORT, self.session.session_id())
    }

    /// Says that `r` is what opening a stream of type `typ` comes to, given what the QUIC layer came
    /// to: the header to send first, or the error.
    pub open spec fn opens(
        self,
        opened: Result<Option<()>, ConnectionError>,
        typ: u64,
        r: Result<bytes::Bytes, SessionError>,
    ) -> bool {
        match opened {
            Ok(Some(())) => r matches Ok(bytes) && buffer::contents(bytes) == header::header_bytes(
                typ,
                self.session.id(),
            ),
            Ok(None) => r == Err::<bytes::Bytes, SessionError>(self.session.close_reason()),
            Err(e) => r matches Err(error) && match self.session.error() {
                Some(stored) => error == stored,
                None => error.reports(e),
            },
        }
    }

    /// Open a new unidirectional stream, given what the QUIC layer came to: `None` if the connection
    /// takes no more streams.
    pub fn open_uni(&self, opened: Result<Option<()>, ConnectionError>) -> (r: Result<
        bytes::Bytes,
        SessionError,
    >)
        ensures
            self.opens(opened, STREAM_WEBTRANSPORT, r),
    {
        match opened {
            Ok(Some(())) => self.session.open_uni(Ok(())),
            Ok(None) => Err(self.session.closed_error()),
            Err(e) => Err(self.stream_failed(e)),
        }
    }

    /// Open a new bidirectional stream, given what the QUIC layer came to: `None` if the connection
    /// takes no more streams.
    pub fn open_bi(&self, opened: Result<Option<()>, ConnectionError>) -> (r: Result<
        bytes::Bytes,
        SessionError,
    >)
        ensures
            self.opens(opened, FRAME_WEBTRANSPORT, r),
    {
        match opened {
            Ok(Some(())) => self.session.open_bi(Ok(())),
            Ok(None) => Err(self.session.closed_error()),
            Err(e) => Err(self.stream_failed(e)),
        }
    }

    /// The outcome of opening a stream, given whether its header could be sent.
    pub fn header_sent(&self, sent: bool) -> (r: Result<(), SessionError>)
        ensures
            r == if sent {
                Ok::<(), SessionError>(())
            } else {
                Err(self.session.close_reason())
            },
    {
        if sent {
            Ok(())
        } else {
            Err(self.session.closed_error())
        }
    }

    /// Receive an application datagram from the peer, given what the QUIC layer came to: `None` if the
    /// connection is gone.
    pub fn read_datagram(&self, received: Option<bytes::Bytes>) -> (r: Result<
        bytes::Bytes,
        SessionError,
    >)
        ensures
            if !self.datagram_reader {
                r == Err::<bytes::Bytes, SessionError>(SessionError::DatagramUnsupported)
            } else {
                match received {
                    Some(datagram) => match session::Session::datagram_for(
                        self.session.id(),
                        buffer::contents(datagram),
                    ) {
                        Some(data) => r matches Ok(stripped) && buffer::contents(stripped) == data,
                        None => r == Err::<bytes::Bytes, SessionError>(
                            SessionError::WebTransportError(WebTransportError::UnknownSession),
                        ),
                    },
                    None => r == Err::<bytes::Bytes, SessionError>(self.session.close_reason()),
                }
            },
    {
        if !self.datagram_reader {
            return Err(SessionError::DatagramUnsupported);
        }
        match received {
            Some(datagram) => self.session.strip_datagram(datagram),
            None => Err(self.session.closed_error()),
        }
    }

    /// What the QUIC layer is to send for an application datagram, if datagrams were negotiated.
    pub fn send_datagram(&self, data: &bytes::Bytes) -> (r: Result<bytes::Bytes, SessionError>)
        requires
            buffer::contents(*data).len() + 8 <= isize::MAX,
        ensures
            (match self.datagram_writer {
                Some(_) => r matches Ok(payload) && buffer::contents(payload) == wire::varint_bytes(
                    self.session.id(),
                ) + buffer::contents(*data),
                None => r == Err::<bytes::Bytes, SessionError>(SessionError::DatagramUnsupported),
            }),
    {
        match &self.datagram_writer {
            Some(_) => Ok(self.session.send_datagram(data)),
            None => Err(SessionError::DatagramUnsupported),
        }
    }

    /// The outcome of sending a datagram, given whether the QUIC layer took it.
    pub fn datagram_sent(&self, sent: bool) -> (r: Result<(), SessionError>)
        ensures
            r == if sent {
                Ok::<(), SessionError>(())
            } else {
                Err(SessionError::SendDatagram(SendDatagramError::TooLarge))
            },
    {
        if sent {
            Ok(())
        } else {
            Err(SessionError::from(SendDatagramError::TooLarge))
        }
    }

    /// The maximum size of a datagram that can be sent: what is left of the peer's largest frame after
    /// the frame type and the session ID.
    pub fn max_datagram_size(&self) -> (r: usize)
        ensures
            r == ({
                let max = match self.datagram_writer {
                    Some(DatagramWriter { max_frame_size: Some(max) }) => max as int,
                    _ => 0,
                };
                let overhead = 1 + wire::varint_bytes(self.session.id()).len();
                if max >= overhead {
                    max - overhead
                } else {
                    0
                }
            }),
    {
        let max: usize = match &self.datagram_writer {
            Some(writer) => match writer.max_frame_size {
                Some(max) => max,
                None => 0,
            },
            None => 0,
        };
        max.saturating_sub(1).saturating_sub(self.session.datagram_prefix_len())
    }
}

/// A stream that can be used to receive bytes, over a QUIC stream of type `S` that reads into a buffer.
pub struct RecvStream<S> {
    pub stream: S,
}

impl<S> RecvStream<S> {
    /// Says that a failure `e` of the QUIC stream reaches the reader as `err`.
    pub open spec fn reported(e: StreamError, stored: Option<&SessionError>, err: ReadError) -> bool {
        match (e, stored) {
            (StreamError::Connection(_), Some(s)) => err == ReadError::SessionError(*s),
            _ => err.reports(e),
        }
    }

    /// Replace connection-level errors with the stored session error if available.
    pub fn map_error(&self, stored: Option<&SessionError>, e: ReadError) -> (r: ReadError)
        ensures
            r == (match stored {
                Some(err) if e is SessionError => ReadError::SessionError(*err),
                _ => e,
            }),
    {
        e.replaced_by(stored)
    }

    /// The number of bytes read into a buffer with room for `room`, or `None` on FIN, given how many the
    /// QUIC stream read.
    pub fn read(&self, room: usize, got: Result<usize, StreamError>, stored: Option<&SessionError>) -> (r:
        Result<Option<usize>, ReadError>)
        ensures
            if room == 0 {
                r == Ok::<Option<usize>, ReadError>(Some(0))
            } else {
                match got {
                    Ok(n) => r == Ok::<Option<usize>, ReadError>(
                        if n == 0 {
                            None
                        } else {
                            Some(n)
                        },
                    ),
                    Err(e) => r matches Err(err) && Self::reported(e, stored, err),
                }
            },
    {
        if room == 0 {
            return Ok(Some(0));
        }
        match got {
            Ok(n) => if n == 0 {
                Ok(None)
            } else {
                Ok(Some(n))
            },
            Err(e) => Err(self.map_error(stored, ReadError::from_stream(e))),
        }
    }

    /// The next chunk of data, or `None` on FIN, given the buffer and how many bytes the QUIC stream read
    /// into it. A buffer without room says nothing of the end of the stream.
    pub fn read_chunk(
        &self,
        buf: Vec<u8>,
        got: Result<usize, StreamError>,
        stored: Option<&SessionError>,
    ) -> (r: Result<Option<bytes::Bytes>, ReadError>)
        requires
            got matches Ok(n) ==> n <= buf@.len(),
        ensures
            (match got {
                Ok(n) => if n == 0 && buf@.len() > 0 {
                    r == Ok::<Option<bytes::Bytes>, ReadError>(None)
                } else {
                    r matches Ok(Some(chunk)) && buffer::contents(chunk) == buf@.take(n as int)
                },
                Err(e) => r matches Err(err) && Self::reported(e, stored, err),
            }),
    {
        match got {
            Ok(n) => {
                if n == 0 && buf.len() > 0 {
                    return Ok(None);
                }
                let mut buf = buf;
                buf.truncate(n);
                Ok(Some(buffer::from_vec(buf)))
            },
            Err(e) => Err(self.map_error(stored, ReadError::from_stream(e))),
        }
    }

    /// Whether the stream has ended, given how many bytes it answered to a reader that waits for its
    /// end and drops all data.
    pub fn closed(&self, got: Result<usize, StreamError>, stored: Option<&SessionError>) -> (r: Result<
        bool,
        ReadError,
    >)
        ensures
            (match got {
                Ok(n) => r == Ok::<bool, ReadError>(n == 0),
                Err(e) => r matches Err(err) && Self::reported(e, stored, err),
            }),
    {
        match got {
            Ok(n) => Ok(n == 0),
            Err(e) => Err(self.map_error(stored, ReadError::from_stream(e))),
        }
    }
}

/// Says that `uri` is the URI to bind a listener to `addr` by, and whether the system is to pick its port.
pub open spec fn binds(addr: Seq<char>, port: u16, uri: (String, bool)) -> bool {
    &&& uri.0@ == "inet://"@ + addr
    &&& uri.1 == (port == 0)
}

/// The URI to bind a listener by, and whether the system is to pick its port.
pub fn bind_uri(addr: &str, port: u16) -> (r: (String, bool))
    ensures
        binds(addr@, port, r),
{
    ("inet://".to_string().concat(addr), port == 0)
}

/// What is known of the address that a listener is bound to.
pub enum Bound<A> {
    /// The listener does not know the server.
    NotRegistered,
    /// The server has no interface.
    NoInterface,
    /// The interface could not tell its address.
    Failed(String),
    /// The address is not one of the internet.
    NotInternet,
    Internet(A),
}

/// Says that `e` tells that there is no address that a server is bound to, and why.
pub open spec fn unbound<A>(bound: Bound<A>, e: ServerError) -> bool {
    match bound {
        Bound::NotRegistered => e matches ServerError::Build(text) && text@
            == "server not registered"@,
        Bound::NoInterface => e matches ServerError::Build(text) && text@ == "no bound interface"@,
        Bound::Failed(reason) => e == ServerError::Build(reason),
        Bound::NotInternet => e matches ServerError::Build(text) && text@
            == "non-internet bound address"@,
        Bound::Internet(_) => false,
    }
}

/// The address that a server is bound to.
pub fn discover_addr<A>(bound: Bound<A>) -> (r: Result<A, ServerError>)
    ensures
        (match bound {
            Bound::Internet(addr) => r == Ok::<A, ServerError>(addr),
            _ => r matches Err(e) && unbound(bound, e),
        }),
{
    match bound {
        Bound::NotRegistered => Err(ServerError::Build("server not registered".to_string())),
        Bound::NoInterface => Err(ServerError::Build("no bound interface".to_string())),
        Bound::Failed(e) => Err(ServerError::Build(e)),
        Bound::NotInternet => Err(ServerError::Build("non-internet bound address".to_string())),
        Bound::Internet(addr) => Ok(addr),
    }
}

/// A WebTransport server that is bound to an address of type `A`.
pub struct Server<A> {
    /// The accept loop.
    pub server: server::Server,
    pub server_name: String,
    pub local_addr: A,
}

impl<A> Server<A> {
    /// Says that `r` is the server that was built, or why there is none.
    pub open spec fn built(
        builder: ServerBuilder,
        bound: Bound<A>,
        r: Result<Self, ServerError>,
    ) -> bool {
        match bound {
            Bound::Internet(addr) => {
                &&& r matches Ok(server)
                &&& server.server.is_fresh(builder.limits)
                &&& server.server_name == builder.server_name
                &&& server.local_addr == addr
            },
            _ => r matches Err(e) && unbound(bound, e),
        }
    }

    /// The server that was built, given what is known of the address that it is bound to.
    pub fn with_certificate(builder: ServerBuilder, bound: Bound<A>) -> (r: Result<Self, ServerError>)
        ensures
            Self::built(builder, bound, r),
    {
        let server = match builder.with_certificate(Ok(())) {
            Ok(server) => server,
            Err(e) => return Err(e),
        };
        match discover_addr(bound) {
            Ok(local_addr) => Ok(Server { server, server_name: builder.server_name, local_addr }),
            Err(e) => Err(e),
        }
    }

    /// Returns the local address the server is bound to.
    pub fn local_addr(&self) -> (r: &A)
        ensures
            *r == self.local_addr,
    {
        &self.local_addr
    }

    /// Returns the server name (SNI) this server answers for.
    pub fn server_name(&self) -> (r: &str)
        ensures
            r@ == self.server_name@,
    {
        self.server_name.as_str()
    }
}

/// A server asks for the address that it was built with, leaves the port to the system exactly if that is
/// zero, and then is bound to the address that was found; it answers for the name that it was built with.
pub proof fn law_server_is_bound_as_it_was_built<A>(
    defaults: ServerBuilder,
    builder: ServerBuilder,
    addr: String,
    port: u16,
    uri: (String, bool),
    found: A,
    r: Result<Server<A>, ServerError>,
)
    requires
        defaults.has_defaults(),
        builder == (ServerBuilder { addr, ..defaults }),
        binds(builder.addr@, port, uri),
        Server::built(builder, Bound::Internet(found), r),
    ensures
        uri.0@ == "inet://"@ + addr@,
        uri.1 == (port == 0),
        r matches Ok(server) && server.server_name@ == "localhost"@ && server.local_addr == found
            && server.server.handshake_limits().are_default(),
{
}

/// A stream that the peer's session of the same number opened is handed out as soon as its header has
/// arrived, however it is cut and whatever follows, and to another session it is an error. Until then
/// more of it is read.
pub proof fn law_header_is_accepted_by_its_session(
    own: u64,
    session_id: u64,
    reader_id: u64,
    rest: Seq<u8>,
    k: int,
    r: Accept,
)
    requires
        own < wire::VARINT_LIMIT,
        session_id < wire::VARINT_LIMIT,
        0 <= k <= header::header_bytes(own, session_id).len() + rest.len(),
        accepts((header::header_bytes(own, session_id) + rest).take(k), false, own, reader_id, r),
    ensures
        ({
            let len = header::header_bytes(own, session_id).len();
            if k < len {
                r == Accept::More
            } else if reader_id == session_id {
                r matches Accept::Return(Ok(n)) && n == len
            } else {
                r == Accept::Return(
                    Err(SessionError::WebTransportError(WebTransportError::UnknownSession)),
                )
            }
        }),
{
    let head = header::header_bytes(own, session_id);
    if k < head.len() {
        assert((head + rest).take(k) =~= head.take(k));
        header::law_partial_header_is_incomplete(own, session_id, reader_id, k as nat);
    } else {
        assert((head + rest).take(k) =~= head + rest.take(k - head.len()));
        header::law_header_names_its_session(
            own,
            session_id,
            reader_id,
            rest.take(k - head.len()),
        );
    }
}

/// What becomes of a stream of which `data` has arrived. With the type of the session's own streams, 0x54 or
/// 0x41, and its number it goes to the caller behind the header, and with another number, or without one
/// before its end, it is an error. With another type, or none before its end, it is passed over. Until that
/// can be told, more of it is read.
pub proof fn law_streams_go_where_they_belong(
    session: Session,
    data: &[u8],
    ended: bool,
    uni: Accept,
    bi: Accept,
)
    requires
        call_ensures(Session::accept_uni, (&session, data, ended), uni),
        call_ensures(Session::accept_bi, (&session, data, ended), bi),
    ensures
        ({
            let unknown = Accept::Return(
                Err(SessionError::WebTransportError(WebTransportError::UnknownSession)),
            );
            match wire::varint_decode(data@) {
                None => {
                    &&& ended ==> uni == Accept::Skip && bi == Accept::Skip
                    &&& !ended ==> uni == Accept::More && bi == Accept::More
                },
                Some((typ, n)) => {
                    &&& typ != 0x54 ==> uni == Accept::Skip
                    &&& typ != 0x41 ==> bi == Accept::Skip
                    &&& match wire::varint_decode(data@.skip(n as int)) {
                        None => {
                            &&& typ == 0x54 ==> uni == if ended {
                                unknown
                            } else {
                                Accept::More
                            }
                            &&& typ == 0x41 ==> bi == if ended {
                                unknown
                            } else {
                                Accept::More
                            }
                        },
                        Some((id, m)) => if id == session.session.id() {
                            &&& typ == 0x54 ==> (uni matches Accept::Return(Ok(len)) && len == n + m)
                            &&& typ == 0x41 ==> (bi matches Accept::Return(Ok(len)) && len == n + m)
                        } else {
                            &&& typ == 0x54 ==> uni == unknown
                            &&& typ == 0x41 ==> bi == unknown
                        },
                    }
                },
            }
        }),
{
}

/// Each stream that a session opens starts with its type and the number of the session. Where the connection
/// takes no more streams, or fails, it is an error: the session's own, once there is one, and the header
/// counts as sent exactly if it was.
pub proof fn law_opened_streams_start_with_their_header(
    session: Session,
    uni: Result<bytes::Bytes, SessionError>,
    bi: Result<bytes::Bytes, SessionError>,
    e: ConnectionError,
    own: SessionError,
    no_uni: Result<bytes::Bytes, SessionError>,
    no_bi: Result<bytes::Bytes, SessionError>,
    full_uni: Result<bytes::Bytes, SessionError>,
    full_bi: Result<bytes::Bytes, SessionError>,
    why: SessionError,
    sent: Result<(), SessionError>,
    unsent: Result<(), SessionError>,
    failed: SessionError,
)
    requires
        call_ensures(Session::open_uni, (&session, Ok(Some(()))), uni),
        call_ensures(Session::open_bi, (&session, Ok(Some(()))), bi),
        call_ensures(SessionError::from_connection, (e,), own),
        call_ensures(Session::open_uni, (&session, Err(e)), no_uni),
        call_ensures(Session::open_bi, (&session, Err(e)), no_bi),
        call_ensures(Session::open_uni, (&session, Ok(None)), full_uni),
        call_ensures(Session::open_bi, (&session, Ok(None)), full_bi),
        call_ensures(session::Session::closed_error, (&session.session,), why),
        call_ensures(Session::header_sent, (&session, true), sent),
        call_ensures(Session::header_sent, (&session, false), unsent),
        call_ensures(Session::stream_failed, (&session, e), failed),
    ensures
        uni matches Ok(head) && buffer::contents(head) == wire::varint_bytes(0x54)
            + wire::varint_bytes(session.session.id()),
        bi matches Ok(head) && buffer::contents(head) == wire::varint_bytes(0x41)
            + wire::varint_bytes(session.session.id()),
        no_uni is Err,
        no_bi is Err,
        session.session.error() is Some ==> no_uni == Err::<bytes::Bytes, SessionError>(
            session.session.error()->0,
        ) && no_bi == no_uni && failed == session.session.error()->0,
        session.session.error() is None && own is ConnectionError ==> no_uni == Err::<
            bytes::Bytes,
            SessionError,
        >(own) && no_bi == no_uni && failed == own,
        session.session.error() is None ==> (own matches SessionError::WebTransportError(
            WebTransportError::Closed(code, _),
        ) ==> failed.is_closed(code, Seq::empty())),
        full_uni == Err::<bytes::Bytes, SessionError>(why),
        full_bi == Err::<bytes::Bytes, SessionError>(why),
        sent == Ok::<(), SessionError>(()),
        unsent == Err::<(), SessionError>(why),
{
}

/// Where datagrams were negotiated, what one session sends is what the session of the same number on the other
/// side gets, and to any other it is unknown. Where they were not, neither side does anything but say so.
pub proof fn law_datagrams_reach_their_session(
    ours: Session,
    theirs: Session,
    data: bytes::Bytes,
    sent: Result<bytes::Bytes, SessionError>,
    received: bytes::Bytes,
    read: Result<bytes::Bytes, SessionError>,
    gone: Result<bytes::Bytes, SessionError>,
    why: SessionError,
    taken: Result<(), SessionError>,
    refused: Result<(), SessionError>,
)
    requires
        ours.session.id() < wire::VARINT_LIMIT,
        call_ensures(Session::send_datagram, (&ours, &data), sent),
        call_ensures(Session::read_datagram, (&theirs, Some(received)), read),
        call_ensures(Session::read_datagram, (&theirs, None), gone),
        call_ensures(session::Session::closed_error, (&theirs.session,), why),
        call_ensures(Session::datagram_sent, (&ours, true), taken),
        call_ensures(Session::datagram_sent, (&ours, false), refused),
        sent matches Ok(bytes) ==> buffer::contents(received) == buffer::contents(bytes),
    ensures
        sent is Ok <==> ours.datagram_writer is Some,
        sent is Err ==> sent == Err::<bytes::Bytes, SessionError>(SessionError::DatagramUnsupported),
        !theirs.datagram_reader ==> read == Err::<bytes::Bytes, SessionError>(
            SessionError::DatagramUnsupported,
        ) && gone == read,
        theirs.datagram_reader ==> gone == Err::<bytes::Bytes, SessionError>(why),
        theirs.datagram_reader && sent is Ok && theirs.session.id() == ours.session.id() ==> (read
            matches Ok(got) && buffer::contents(got) == buffer::contents(data)),
        theirs.datagram_reader && sent is Ok && theirs.session.id() != ours.session.id() ==> read
            == Err::<bytes::Bytes, SessionError>(
            SessionError::WebTransportError(WebTransportError::UnknownSession),
        ),
        taken == Ok::<(), SessionError>(()),
        refused == Err::<(), SessionError>(SessionError::SendDatagram(SendDatagramError::TooLarge)),
{
    session::law_datagram_reaches_its_session(
        ours.session.id(),
        theirs.session.id(),
        buffer::contents(data),
    );
}

/// The largest datagram fills the peer's largest frame exactly, together with the type of the frame and the
/// number of the session, and where these leave no room, or nothing is known of the peer, there is none.
pub proof fn law_largest_datagram_fills_the_frame(
    session: Session,
    max: usize,
    data: bytes::Bytes,
    sent: Result<bytes::Bytes, SessionError>,
)
    requires
        session.session.id() < wire::VARINT_LIMIT,
        call_ensures(Session::max_datagram_size, (&session,), max),
        call_ensures(Session::send_datagram, (&session, &data), sent),
    ensures
        session.datagram_writer is None ==> max == 0,
        session.datagram_writer matches Some(writer) ==> (writer.max_frame_size is None ==> max == 0),
        session.datagram_writer matches Some(DatagramWriter { max_frame_size: Some(frame) }) ==> (sent
            matches Ok(bytes) && (buffer::contents(data).len() > 0 ==> (buffer::contents(data).len()
            <= max <==> 1 + buffer::contents(bytes).len() <= frame))),
{
}

/// A read gives the number of bytes that the QUIC stream read, and nothing at its end; without room there is
/// nothing to read and no end to be told of.
pub proof fn law_reads_give_what_the_stream_read<S>(
    recv: RecvStream<S>,
    room: usize,
    n: usize,
    stored: Option<&SessionError>,
    r: Result<Option<usize>, ReadError>,
    buf: Vec<u8>,
    chunk: Result<Option<bytes::Bytes>, ReadError>,
    closed: Result<bool, ReadError>,
)
    requires
        call_ensures(RecvStream::<S>::read, (&recv, room, Ok(n), stored), r),
        call_ensures(RecvStream::<S>::read_chunk, (&recv, buf, Ok(n), stored), chunk),
        call_ensures(RecvStream::<S>::closed, (&recv, Ok(n), stored), closed),
        n <= buf@.len(),
    ensures
        room > 0 && n > 0 ==> r == Ok::<Option<usize>, ReadError>(Some(n)),
        room > 0 && n == 0 ==> r == Ok::<Option<usize>, ReadError>(None),
        room == 0 ==> r == Ok::<Option<usize>, ReadError>(Some(0)),
        n > 0 ==> (chunk matches Ok(Some(bytes)) && buffer::contents(bytes).len() == n && forall|i: int|
            0 <= i < n ==> #[trigger] buffer::contents(bytes)[i] == buf@[i]),
        n == 0 && buf@.len() > 0 ==> chunk == Ok::<Option<bytes::Bytes>, ReadError>(None),
        buf@.len() == 0 ==> (chunk matches Ok(Some(bytes)) && buffer::contents(bytes).len() == 0),
        closed == Ok::<bool, ReadError>(n == 0),
{
}

/// Whichever way a reader learns of a failure, it is told the same: a code of the peer's reset by that code if
/// it lies in the WebTransport range, another as it is, a stream that was over as that, and a connection
/// that ended by the session's own error, if there is one.
pub proof fn law_read_failures_are_told_apart<S>(
    recv: RecvStream<S>,
    room: usize,
    e: StreamError,
    stored: Option<&SessionError>,
    r: Result<Option<usize>, ReadError>,
    buf: Vec<u8>,
    chunk: Result<Option<bytes::Bytes>, ReadError>,
    closed: Result<bool, ReadError>,
)
    requires
        room > 0,
        call_ensures(RecvStream::<S>::read, (&recv, room, Err(e), stored), r),
        call_ensures(RecvStream::<S>::read_chunk, (&recv, buf, Err(e), stored), chunk),
        call_ensures(RecvStream::<S>::closed, (&recv, Err(e), stored), closed),
    ensures
        ({
            &&& r matches Err(a)
            &&& chunk matches Err(b)
            &&& closed matches Err(c)
            &&& !(e is Connection) ==> a == b && b == c
            &&& forall|code: u32|
                e == (StreamError::Reset { code: #[trigger] wire::http3_code(code) as u64 }) ==> a
                    == ReadError::Reset(code)
            &&& e is Reset && !(wire::HTTP3_ERROR_FIRST <= e->code <= wire::HTTP3_ERROR_LAST) ==> a
                == ReadError::InvalidReset(e->code)
            &&& e is Other ==> a == ReadError::ClosedStream
            &&& e is Connection && stored is Some ==> a == ReadError::SessionError(*stored->0) && b
                == a && c == a
            &&& e is Connection ==> a is SessionError && b is SessionError && c is SessionError
        }),
{
    assert forall|code: u32|
        e == (StreamError::Reset { code: #[trigger] wire::http3_code(code) as u64 }) implies r
        == Err::<Option<usize>, ReadError>(ReadError::Reset(code)) by {
        wire::law_error_code_round_trip(code);
    }
}

/// The session's own error takes the place of whatever the connection caused, and of nothing else.
pub proof fn law_own_error_stands_in_for_readers<S>(
    recv: RecvStream<S>,
    own: SessionError,
    e: ReadError,
    replaced: ReadError,
    kept: ReadError,
)
    requires
        call_ensures(RecvStream::<S>::map_error, (&recv, Some(&own), e), replaced),
        call_ensures(RecvStream::<S>::map_error, (&recv, None, e), kept),
    ensures
        kept == e,
        e is SessionError ==> replaced == ReadError::SessionError(own),
        !(e is SessionError) ==> replaced == e,
{
}

/// A server is bound by the address that it was given, with a port that the system picks exactly if that is
/// zero; it is bound to the address that was found, answers for its name, and drives handshakes within its
/// limits. Where no address was found, it is told why.
pub proof fn law_server_is_bound_where_it_was_found<A>(
    addr: &str,
    port: u16,
    uri: (String, bool),
    builder: ServerBuilder,
    bound: Bound<A>,
    discovered: Result<A, ServerError>,
    r: Result<Server<A>, ServerError>,
    server: Server<A>,
    local: &A,
    name: &str,
)
    requires
        call_ensures(bind_uri, (addr, port), uri),
        call_ensures(discover_addr::<A>, (bound,), discovered),
        call_ensures(Server::<A>::with_certificate, (builder, bound), r),
        call_ensures(Server::<A>::local_addr, (&server,), local),
        call_ensures(Server::<A>::server_name, (&server,), name),
    ensures
        uri.0@ == "inet://"@ + addr@,
        uri.1 <==> port == 0,
        discovered is Ok <==> bound is Internet,
        bound matches Bound::Internet(found) ==> discovered == Ok::<A, ServerError>(found) && (r
            matches Ok(s) && s.local_addr == found && s.server_name == builder.server_name
            && s.server.handshake_limits() == builder.limits && s.server.counts().inflight == 0
            && s.server.counts().admitted == 0 && s.server.counts().rejected == 0),
        !(bound is Internet) ==> r is Err,
        bound matches Bound::Failed(reason) ==> discovered == Err::<A, ServerError>(
            ServerError::Build(reason),
        ) && r == Err::<Server<A>, ServerError>(ServerError::Build(reason)),
        bound is NotRegistered ==> (discovered matches Err(ServerError::Build(text)) && text@
            == "server not registered"@) && (r matches Err(ServerError::Build(text)) && text@
            == "server not registered"@),
        bound is NoInterface ==> (discovered matches Err(ServerError::Build(text)) && text@
            == "no bound interface"@) && (r matches Err(ServerError::Build(text)) && text@
            == "no bound interface"@),
        bound is NotInternet ==> (discovered matches Err(ServerError::Build(text)) && text@
            == "non-internet bound address"@) && (r matches Err(ServerError::Build(text)) && text@
            == "non-internet bound address"@),
        *local == server.local_addr,
        name@ == server.server_name@,
{
}

} // verus!
