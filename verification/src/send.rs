//! The sending end of a stream.

use vstd::prelude::*;

use crate::buffer;
use crate::error::{SessionError, StreamError, WriteError};
use crate::wire;
use crate::wire::app_error;

verus! {

/// A stream that can be used to send bytes, over a QUIC stream of type `S`.
///
/// This wrapper exists mainly to map WebTransport `u32` error codes into the reserved HTTP/3 error
/// space.
pub struct SendStream<S> {
    pub stream: S,
}

impl<S> SendStream<S> {
    /// A send stream whose header has been sent.
    pub fn new(stream: S) -> (r: Self)
        ensures
            r.stream == stream,
    {
        SendStream { stream }
    }

    /// Says that a failure `e` of the QUIC stream reaches the writer as `err`: the session's own
    /// error, once there is one, stands in for whatever the connection reports.
    pub open spec fn reported(e: StreamError, stored: Option<&SessionError>, err: WriteError) -> bool {
        match (e, stored) {
            (StreamError::Connection(_), Some(s)) => err == WriteError::SessionError(*s),
            _ => err.reports(e),
        }
    }

    /// Replace connection-level errors with the stored session error if available.
    pub fn map_error(&self, stored: Option<&SessionError>, e: WriteError) -> (r: WriteError)
        ensures
            r == (match stored {
                Some(err) if e is SessionError => WriteError::SessionError(*err),
                _ => e,
            }),
    {
        e.replaced_by(stored)
    }

    /// The code with which to reset the QUIC stream, given the application's error code.
    ///
    /// This is a `u32` because WebTransport shares the error space with HTTP/3.
    pub fn reset(&self, code: u32) -> (r: u64)
        ensures
            r == wire::http3_code(code),
    {
        app_error(code)
    }

    /// What the QUIC stream is to write for `buf`.
    pub fn write(&self, buf: &[u8]) -> (r: bytes::Bytes)
        ensures
            buffer::contents(r) == buf@,
    {
        bytes::Bytes::copy_from_slice(buf)
    }

    /// The outcome of writing `len` bytes, given that of the QUIC stream, which takes all or none: the
    /// number of bytes written.
    pub fn written(&self, len: usize, done: Result<(), StreamError>, stored: Option<&SessionError>) -> (r:
        Result<usize, WriteError>)
        ensures
            (match done {
                Ok(()) => r == Ok::<usize, WriteError>(len),
                Err(e) => r matches Err(err) && Self::reported(e, stored, err),
            }),
    {
        match done {
            Ok(()) => Ok(len),
            Err(e) => Err(self.map_error(stored, WriteError::from_stream(e))),
        }
    }

    /// The outcome of marking the stream as finished, given that of the QUIC stream, `None` if its
    /// shutdown is still on the way. To wait for the peer is not part of finishing.
    pub fn finish(&self, shutdown: Option<Result<(), StreamError>>, stored: Option<&SessionError>) -> (r:
        Result<(), WriteError>)
        ensures
            (match shutdown {
                Some(Err(e)) => r matches Err(err) && Self::reported(e, stored, err),
                _ => r == Ok::<(), WriteError>(()),
            }),
    {
        match shutdown {
            Some(Err(e)) => Err(self.map_error(stored, WriteError::from_stream(e))),
            _ => Ok(()),
        }
    }

    /// The outcome of waiting until all data has been sent and acknowledged, or the stream is reset,
    /// given that of the QUIC stream.
    pub fn closed(&self, shutdown: Result<(), StreamError>, stored: Option<&SessionError>) -> (r: Result<
        (),
        WriteError,
    >)
        ensures
            (match shutdown {
                Ok(()) => r == Ok::<(), WriteError>(()),
                Err(e) => r matches Err(err) && Self::reported(e, stored, err),
            }),
    {
        self.finish(Some(shutdown), stored)
    }
}

/// What is written is what was given, and all of it counts as written once the QUIC stream took it.
pub proof fn law_writes_are_complete<S>(
    send: SendStream<S>,
    buf: &[u8],
    data: bytes::Bytes,
    len: usize,
    stored: Option<&SessionError>,
    r: Result<usize, WriteError>,
)
    requires
        call_ensures(SendStream::<S>::write, (&send, buf), data),
        call_ensures(SendStream::<S>::written, (&send, len, Ok(()), stored), r),
    ensures
        buffer::contents(data) == buf@,
        r == Ok::<usize, WriteError>(len),
{
}

/// Finishing fails only where the QUIC stream does, and does not wait for it; waiting for the end gives what
/// the QUIC stream gives.
pub proof fn law_finishing_does_not_wait<S>(
    send: SendStream<S>,
    stored: Option<&SessionError>,
    pending: Result<(), WriteError>,
    finished: Result<(), WriteError>,
    shutdown: Result<(), StreamError>,
    closed: Result<(), WriteError>,
)
    requires
        call_ensures(SendStream::<S>::finish, (&send, None, stored), pending),
        call_ensures(SendStream::<S>::finish, (&send, Some(shutdown), stored), finished),
        call_ensures(SendStream::<S>::closed, (&send, shutdown, stored), closed),
    ensures
        pending == Ok::<(), WriteError>(()),
        finished is Ok <==> shutdown is Ok,
        closed is Ok <==> shutdown is Ok,
{
}

/// Whichever way a writer learns of a failure, it is told the same: a code by which the peer stopped the
/// stream by that code if it lies in the WebTransport range, another as it is, a stream that was over as
/// that, and a connection that ended by the session's own error, if there is one.
pub proof fn law_write_failures_are_told_apart<S>(
    send: SendStream<S>,
    len: usize,
    e: StreamError,
    stored: Option<&SessionError>,
    written: Result<usize, WriteError>,
    finished: Result<(), WriteError>,
    closed: Result<(), WriteError>,
)
    requires
        call_ensures(SendStream::<S>::written, (&send, len, Err(e), stored), written),
        call_ensures(SendStream::<S>::finish, (&send, Some(Err(e)), stored), finished),
        call_ensures(SendStream::<S>::closed, (&send, Err(e), stored), closed),
    ensures
        ({
            &&& written matches Err(a)
            &&& finished matches Err(b)
            &&& closed matches Err(c)
            &&& !(e is Connection) ==> a == b && b == c
            &&& forall|code: u32|
                e == (StreamError::Reset { code: #[trigger] wire::http3_code(code) as u64 }) ==> a
                    == WriteError::Stopped(code)
            &&& e is Reset && !(wire::HTTP3_ERROR_FIRST <= e->code <= wire::HTTP3_ERROR_LAST)
                ==> a == WriteError::InvalidStopped(e->code)
            &&& e is Other ==> a == WriteError::ClosedStream
            &&& e is Connection && stored is Some ==> a == WriteError::SessionError(*stored->0) && b
                == a && c == a
            &&& e is Connection ==> a is SessionError && b is SessionError && c is SessionError
        }),
{
    assert forall|code: u32|
        e == (StreamError::Reset { code: #[trigger] wire::http3_code(code) as u64 }) implies written
        == Err::<usize, WriteError>(WriteError::Stopped(code)) by {
        wire::law_error_code_round_trip(code);
    }
}

/// A reset carries the application's code to the peer, whose reader is told the very code.
pub proof fn law_reset_tells_the_reader_its_code<S>(
    send: SendStream<S>,
    code: u32,
    sent: u64,
    told: crate::error::ReadError,
)
    requires
        call_ensures(SendStream::<S>::reset, (&send, code), sent),
        call_ensures(crate::error::ReadError::from_stream, (StreamError::Reset { code: sent },), told),
    ensures
        told == crate::error::ReadError::Reset(code),
        sent == 0x52e4a40fa8db + code + code / 30,
{
    wire::law_error_code_round_trip(code);
}

/// A send stream over a QUIC stream is over that stream.
pub proof fn law_send_stream_keeps_its_stream<S>(stream: S, send: SendStream<S>)
    requires
        call_ensures(SendStream::<S>::new, (stream,), send),
    ensures
        send.stream == stream,
{
}

/// The session's own error takes the place of whatever the connection caused, and of nothing else.
pub proof fn law_own_error_stands_in_for_writers<S>(
    send: SendStream<S>,
    own: SessionError,
    e: WriteError,
    replaced: WriteError,
    kept: WriteError,
)
    requires
        call_ensures(SendStream::<S>::map_error, (&send, Some(&own), e), replaced),
        call_ensures(SendStream::<S>::map_error, (&send, None, e), kept),
    ensures
        kept == e,
        e is SessionError ==> replaced == WriteError::SessionError(own),
        !(e is SessionError) ==> replaced == e,
{
}

} // verus!
