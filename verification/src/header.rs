//! The first bytes of every stream, which say what it is for and which session it belongs to.

use vstd::prelude::*;

use crate::error::{SessionError, WebTransportError};
use crate::wire;
use crate::wire::{decode_varint, encode_varint, VARINT_LIMIT};

verus! {

/// The stream type of the HTTP/3 control stream.
pub const STREAM_CONTROL: u64 = 0x00;

/// The stream type of the QPACK encoder stream.
pub const STREAM_QPACK_ENCODER: u64 = 0x02;

/// The stream type of the QPACK decoder stream.
pub const STREAM_QPACK_DECODER: u64 = 0x03;

/// The stream type of a unidirectional WebTransport stream.
pub const STREAM_WEBTRANSPORT: u64 = 0x54;

/// The frame type of an HTTP/3 DATA frame.
pub const FRAME_DATA: u64 = 0x00;

/// The frame type that starts a bidirectional WebTransport stream.
pub const FRAME_WEBTRANSPORT: u64 = 0x41;

/// What the first bytes of a stream say.
pub enum Header {
    /// They end before the header does.
    Incomplete,
    /// A WebTransport stream of another session.
    Foreign,
    /// A stream of type `typ`, whose own data starts after `len` bytes. If it is a WebTransport
    /// stream, it belongs to the session.
    Found { typ: u64, len: nat },
}

/// The header that a session writes in front of its streams of type `typ`.
pub open spec fn header_bytes(typ: u64, session_id: u64) -> Seq<u8> {
    wire::varint_bytes(typ) + wire::varint_bytes(session_id)
}

/// What `data` says to the session `session_id`, whose own streams have the type `own`.
pub open spec fn header_of(data: Seq<u8>, own: u64, session_id: u64) -> Header {
    match wire::varint_decode(data) {
        None => Header::Incomplete,
        Some((typ, n)) => if typ != own {
            Header::Found { typ, len: n }
        } else {
            match wire::varint_decode(data.skip(n as int)) {
                None => Header::Incomplete,
                Some((id, m)) => if id != session_id {
                    Header::Foreign
                } else {
                    Header::Found { typ, len: n + m }
                },
            }
        },
    }
}

/// Writes the header of a stream of type `typ`.
pub fn encode_header(typ: u64, session_id: u64) -> (r: Vec<u8>)
    requires
        typ < VARINT_LIMIT,
        session_id < VARINT_LIMIT,
    ensures
        r@ == header_bytes(typ, session_id),
{
    let mut header: Vec<u8> = Vec::new();
    encode_varint(typ, &mut header);
    encode_varint(session_id, &mut header);
    assert(header@ == header_bytes(typ, session_id));
    header
}

/// Reads the header of a stream whose first bytes are `data`, for the session `session_id` with
/// streams of type `own`. `ended` says that no bytes follow. `None` asks for more bytes; else the
/// result is the stream's type and the length of its header. The stream is an error if it ends early
/// or belongs to another session.
pub fn decode_header(data: &[u8], ended: bool, own: u64, session_id: u64) -> (r: Option<
    Result<(u64, usize), WebTransportError>,
>)
    ensures
        (match header_of(data@, own, session_id) {
            Header::Incomplete => if ended {
                r == Some(Err::<(u64, usize), WebTransportError>(WebTransportError::UnknownSession))
            } else {
                r is None
            },
            Header::Foreign => r == Some(
                Err::<(u64, usize), WebTransportError>(WebTransportError::UnknownSession),
            ),
            Header::Found { typ, len } => r matches Some(Ok((t, n))) && t == typ && n == len && n
                <= data@.len(),
        }),
{
    let (typ, n): (u64, usize) = match decode_varint(data) {
        Some(found) => found,
        None => return if ended {
            Some(Err(WebTransportError::UnknownSession))
        } else {
            None
        },
    };
    if typ != own {
        return Some(Ok((typ, n)));
    }
    let rest = vstd::slice::slice_subrange(data, n, data.len());
    assert(rest@ == data@.skip(n as int));
    match decode_varint(rest) {
        Some((id, m)) => if id != session_id {
            Some(Err(WebTransportError::UnknownSession))
        } else {
            Some(Ok((typ, n + m)))
        },
        None => if ended {
            Some(Err(WebTransportError::UnknownSession))
        } else {
            None
        },
    }
}

/// Reads the header of a unidirectional stream: its type, and the length of the header.
pub fn decode_uni(data: &[u8], ended: bool, expected_session: u64) -> (r: Option<
    Result<(u64, usize), SessionError>,
>)
    ensures
        (match header_of(data@, STREAM_WEBTRANSPORT, expected_session) {
            Header::Incomplete => if ended {
                r matches Some(Err(e)) && e == SessionError::WebTransportError(
                    WebTransportError::UnknownSession,
                )
            } else {
                r is None
            },
            Header::Foreign => r matches Some(Err(e)) && e == SessionError::WebTransportError(
                WebTransportError::UnknownSession,
            ),
            Header::Found { typ, len } => r matches Some(Ok((t, n))) && t == typ && n == len && n
                <= data@.len(),
        }),
{
    match decode_header(data, ended, STREAM_WEBTRANSPORT, expected_session) {
        None => None,
        Some(Err(e)) => Some(Err(SessionError::from(e))),
        Some(Ok(found)) => Some(Ok(found)),
    }
}

/// Reads the header of a bidirectional stream: the length of the header, or `None` inside if it is no
/// WebTransport stream.
pub fn decode_bi(data: &[u8], ended: bool, expected_session: u64) -> (r: Option<
    Result<Option<usize>, SessionError>,
>)
    ensures
        (match header_of(data@, FRAME_WEBTRANSPORT, expected_session) {
            Header::Incomplete => if ended {
                r matches Some(Err(e)) && e == SessionError::WebTransportError(
                    WebTransportError::UnknownSession,
                )
            } else {
                r is None
            },
            Header::Foreign => r matches Some(Err(e)) && e == SessionError::WebTransportError(
                WebTransportError::UnknownSession,
            ),
            Header::Found { typ, len } => if typ != FRAME_WEBTRANSPORT {
                r matches Some(Ok(None))
            } else {
                r matches Some(Ok(Some(n))) && n == len && n <= data@.len()
            },
        }),
{
    match decode_header(data, ended, FRAME_WEBTRANSPORT, expected_session) {
        None => None,
        Some(Err(e)) => Some(Err(SessionError::from(e))),
        Some(Ok((typ, len))) => if typ != FRAME_WEBTRANSPORT {
            Some(Ok(None))
        } else {
            Some(Ok(Some(len)))
        },
    }
}

/// A stream that a session opens is recognised by the session of the same number on the other side,
/// whatever follows the header, and by no other session.
pub proof fn law_header_names_its_session(
    own: u64,
    session_id: u64,
    reader_id: u64,
    rest: Seq<u8>,
)
    requires
        own < VARINT_LIMIT,
        session_id < VARINT_LIMIT,
    ensures
        header_of(header_bytes(own, session_id) + rest, own, reader_id) == if reader_id
            == session_id {
            Header::Found { typ: own, len: header_bytes(own, session_id).len() }
        } else {
            Header::Foreign
        },
        (header_bytes(own, session_id) + rest).skip(header_bytes(own, session_id).len() as int)
            == rest,
{
    let tail = wire::varint_bytes(session_id) + rest;
    let data = header_bytes(own, session_id) + rest;
    assert(data =~= wire::varint_bytes(own) + tail);
    wire::law_varint_round_trip(own, tail);
    wire::law_varint_round_trip(session_id, rest);
    assert(data.skip(wire::varint_bytes(own).len() as int) =~= tail);
    assert(data.skip(header_bytes(own, session_id).len() as int) =~= rest);
}

/// A header that has not arrived in full is never taken for a complete one.
pub proof fn law_partial_header_is_incomplete(
    own: u64,
    session_id: u64,
    reader_id: u64,
    k: nat,
)
    requires
        own < VARINT_LIMIT,
        session_id < VARINT_LIMIT,
        k < header_bytes(own, session_id).len(),
    ensures
        header_of(header_bytes(own, session_id).take(k as int), own, reader_id)
            is Incomplete,
{
    let first = wire::varint_bytes(own);
    let second = wire::varint_bytes(session_id);
    let data = header_bytes(own, session_id).take(k as int);
    wire::law_varint_round_trip(own, Seq::empty());
    wire::law_varint_round_trip(session_id, Seq::empty());
    if k < first.len() {
        assert(data =~= first.take(k as int));
        wire::law_varint_prefix_is_incomplete(own, k);
    } else {
        let tail = second.take(k - first.len());
        assert(data =~= first + tail);
        wire::law_varint_round_trip(own, tail);
        assert(data.skip(first.len() as int) =~= tail);
        wire::law_varint_prefix_is_incomplete(session_id, (k - first.len()) as nat);
    }
}

/// The header of a stream is its type and the number of its session, each as a variable-length integer.
pub proof fn law_header_is_type_and_session(typ: u64, session_id: u64, r: Vec<u8>)
    requires
        call_ensures(encode_header, (typ, session_id), r),
    ensures
        r@ == wire::varint_bytes(typ) + wire::varint_bytes(session_id),
{
}

/// What the first bytes of a stream say, however its integers are written. Behind the type of the session's
/// own streams stands the number of a session: with that of the reader the stream is its own, and with any
/// other it belongs to no session here. A stream of another type is told by its type. Where an integer is
/// missing the reader asks for more, and if nothing follows the stream belongs to no session.
pub proof fn law_streams_are_told_by_type_and_number(
    data: &[u8],
    ended: bool,
    own: u64,
    session_id: u64,
    r: Option<Result<(u64, usize), WebTransportError>>,
)
    requires
        call_ensures(decode_header, (data, ended, own, session_id), r),
    ensures
        ({
            let unknown = Some(Err::<(u64, usize), WebTransportError>(WebTransportError::UnknownSession));
            match wire::varint_decode(data@) {
                None => if ended {
                    r == unknown
                } else {
                    r is None
                },
                Some((typ, n)) => if typ != own {
                    r matches Some(Ok((t, len))) && t == typ && len == n
                } else {
                    match wire::varint_decode(data@.skip(n as int)) {
                        None => if ended {
                            r == unknown
                        } else {
                            r is None
                        },
                        Some((id, m)) => if id == session_id {
                            r matches Some(Ok((t, len))) && t == typ && len == n + m
                        } else {
                            r == unknown
                        },
                    }
                },
            }
        }),
{
}

/// A session tells its own unidirectional streams by the type 0x54 and its own bidirectional ones by 0x41,
/// and reads both headers alike: what is unknown, incomplete or of another type is so for both.
pub proof fn law_both_kinds_of_streams_are_told_alike(
    data: &[u8],
    ended: bool,
    session_id: u64,
    as_uni: Option<Result<(u64, usize), WebTransportError>>,
    as_bi: Option<Result<(u64, usize), WebTransportError>>,
    uni: Option<Result<(u64, usize), SessionError>>,
    bi: Option<Result<Option<usize>, SessionError>>,
)
    requires
        call_ensures(decode_header, (data, ended, 0x54, session_id), as_uni),
        call_ensures(decode_header, (data, ended, 0x41, session_id), as_bi),
        call_ensures(decode_uni, (data, ended, session_id), uni),
        call_ensures(decode_bi, (data, ended, session_id), bi),
    ensures
        uni is None <==> as_uni is None,
        bi is None <==> as_bi is None,
        (uni matches Some(Err(_))) <==> (as_uni matches Some(Err(_))),
        (bi matches Some(Err(_))) <==> (as_bi matches Some(Err(_))),
        uni matches Some(Err(e)) ==> e == SessionError::WebTransportError(
            WebTransportError::UnknownSession,
        ),
        bi matches Some(Err(e)) ==> e == SessionError::WebTransportError(
            WebTransportError::UnknownSession,
        ),
        as_uni matches Some(Ok(found)) ==> uni == Some(Ok::<(u64, usize), SessionError>(found)),
        as_bi matches Some(Ok((typ, len))) ==> bi == Some(
            Ok::<Option<usize>, SessionError>(
                if typ == 0x41 {
                    Some(len)
                } else {
                    None
                },
            ),
        ),
{
}

} // verus!
