//! The receiving end of a stream.

use vstd::prelude::*;

use crate::buffer;
use crate::error::{ReadError, SessionError, StreamError};
use crate::wire;
use crate::wire::app_error;

verus! {

/// What came of asking the QUIC stream for more data.
#[derive(Debug, PartialEq, Eq)]
pub enum Fill {
    /// There is data to read.
    Ready,
    /// The chunk was empty: ask again.
    Again,
    /// The peer finished the stream.
    Finished,
}

/// A stream that can be used to receive bytes, over a QUIC stream of type `S`.
///
/// The QUIC layer yields whole chunks, so the leftover of the current chunk is kept here to support
/// byte-oriented reads into a caller-provided buffer.
pub struct RecvStream<S> {
    pub stream: S,
    pub buffer: bytes::Bytes,
}

impl<S> RecvStream<S> {
    /// The bytes that have been received and not been read.
    pub open spec fn unread(self) -> Seq<u8> {
        buffer::contents(self.buffer)
    }

    /// A receive stream of which `leftover` has already arrived.
    pub fn new(stream: S, leftover: &[u8]) -> (r: Self)
        ensures
            r.stream == stream,
            r.unread() == leftover@,
    {
        RecvStream { stream, buffer: bytes::Bytes::copy_from_slice(leftover) }
    }

    /// Replace connection-level errors with the stored session error if available.
    pub fn map_error(&self, stored: Option<&SessionError>, e: ReadError) -> (r: ReadError)
        ensures
            r == (match stored {
                Some(err) if e is SessionError => ReadError::SessionError(*err),
                _ => e,
            }),
    {
        e.replaced_by(stored)
    }

    /// Whether the QUIC stream has to be asked for data before the next read.
    pub fn needs_data(&self) -> (r: bool)
        ensures
            r == (self.unread().len() == 0),
    {
        self.buffer.len() == 0
    }

    /// Takes in what the QUIC stream answered when it was asked for data: a chunk, the end of the
    /// stream, or a failure.
    pub fn fill(
        &mut self,
        received: Result<Option<bytes::Bytes>, StreamError>,
        stored: Option<&SessionError>,
    ) -> (r: Result<Fill, ReadError>)
        requires
            old(self).unread().len() == 0,
        ensures
            final(self).stream == old(self).stream,
            final(self).unread() == (match received {
                Ok(Some(chunk)) => buffer::contents(chunk),
                _ => Seq::empty(),
            }),
            (match received {
                Ok(Some(chunk)) => r == Ok::<Fill, ReadError>(
                    if buffer::contents(chunk).len() == 0 {
                        Fill::Again
                    } else {
                        Fill::Ready
                    },
                ),
                Ok(None) => r == Ok::<Fill, ReadError>(Fill::Finished),
                Err(e) => r matches Err(err) && Self::reported(e, stored, err),
            }),
    {
        match received {
            Ok(Some(chunk)) => {
                self.buffer = chunk;
                if self.buffer.len() == 0 {
                    Ok(Fill::Again)
                } else {
                    Ok(Fill::Ready)
                }
            },
            Ok(None) => Ok(Fill::Finished),
            Err(e) => Err(self.map_error(stored, ReadError::from_stream(e))),
        }
    }

    /// Says that a failure `e` of the QUIC stream reaches the reader as `err`: the session's own
    /// error, once there is one, stands in for whatever the connection reports.
    pub open spec fn reported(e: StreamError, stored: Option<&SessionError>, err: ReadError) -> bool {
        match (e, stored) {
            (StreamError::Connection(_), Some(s)) => err == ReadError::SessionError(*s),
            _ => err.reports(e),
        }
    }

    /// Tell the other end to stop sending data with the given error code, mapped into the HTTP/3
    /// error space.
    pub fn stop(&self, code: u32) -> (r: u64)
        ensures
            r == wire::http3_code(code),
    {
        app_error(code)
    }

    /// Read some of the data that has arrived into `buf`, returning the number of bytes read.
    pub fn read(&mut self, buf: &mut [u8]) -> (n: usize)
        ensures
            final(self).stream == old(self).stream,
            n == taken(old(self).unread(), old(buf)@.len()),
            final(buf)@ == old(self).unread().take(n as int) + old(buf)@.skip(n as int),
            final(self).unread() == old(self).unread().skip(n as int),
    {
        let available: usize = self.buffer.len();
        let room: usize = buf.len();
        let n: usize = if room <= available {
            room
        } else {
            available
        };
        let data = buffer::as_slice(&self.buffer);
        let mut i: usize = 0;
        while i < n
            invariant
                i <= n,
                n <= data@.len(),
                n <= buf@.len(),
                buf@.len() == old(buf)@.len(),
                buf@ == data@.take(i as int) + old(buf)@.skip(i as int),
            decreases n - i,
        {
            buf[i] = data[i];
            i = i + 1;
            assert(buf@ =~= data@.take(i as int) + old(buf)@.skip(i as int));
        }
        buffer::advance(&mut self.buffer, n);
        n
    }

    /// Take the next chunk of the data that has arrived, up to `max` bytes.
    pub fn read_chunk(&mut self, max: usize) -> (chunk: bytes::Bytes)
        ensures
            final(self).stream == old(self).stream,
            buffer::contents(chunk) == old(self).unread().take(
                taken(old(self).unread(), max as nat),
            ),
            final(self).unread() == old(self).unread().skip(
                taken(old(self).unread(), max as nat),
            ),
    {
        let available: usize = self.buffer.len();
        let n: usize = if max <= available {
            max
        } else {
            available
        };
        self.buffer.split_to(n)
    }

    /// Drops the data that has arrived, for a reader that only waits for the end of the stream.
    pub fn discard(&mut self)
        ensures
            final(self).stream == old(self).stream,
            final(self).unread() == Seq::<u8>::empty(),
    {
        self.buffer = bytes::Bytes::new();
    }

    /// Whether the stream has ended, given what it answered to a reader that waits for its end:
    /// `true` at the end, `false` where data came in between, which is dropped.
    pub fn closed(
        &self,
        received: Result<Option<bytes::Bytes>, StreamError>,
        stored: Option<&SessionError>,
    ) -> (r: Result<bool, ReadError>)
        ensures
            (match received {
                Ok(chunk) => r == Ok::<bool, ReadError>(chunk is None),
                Err(e) => r matches Err(err) && Self::reported(e, stored, err),
            }),
    {
        match received {
            Ok(Some(_)) => Ok(false),
            Ok(None) => Ok(true),
            Err(e) => Err(self.map_error(stored, ReadError::from_stream(e))),
        }
    }
}

/// One thing that happens to a receive stream.
pub enum ReadStep {
    /// A chunk arrived.
    Filled(Seq<u8>),
    /// The reader asked for up to so many bytes.
    Read(nat),
}

/// How many bytes a read of at most `max` takes off `unread`.
pub open spec fn taken(unread: Seq<u8>, max: nat) -> int {
    if max <= unread.len() {
        max as int
    } else {
        unread.len() as int
    }
}

/// What is unread after `steps`, one after the other.
pub open spec fn left_after(unread: Seq<u8>, steps: Seq<ReadStep>) -> Seq<u8>
    decreases steps.len(),
{
    if steps.len() == 0 {
        unread
    } else {
        let before = left_after(unread, steps.drop_last());
        match steps.last() {
            ReadStep::Filled(chunk) => chunk,
            ReadStep::Read(max) => before.skip(taken(before, max)),
        }
    }
}

/// What the reader has got after `steps`.
pub open spec fn delivered(unread: Seq<u8>, steps: Seq<ReadStep>) -> Seq<u8>
    decreases steps.len(),
{
    if steps.len() == 0 {
        Seq::empty()
    } else {
        let before = left_after(unread, steps.drop_last());
        match steps.last() {
            ReadStep::Filled(_) => delivered(unread, steps.drop_last()),
            ReadStep::Read(max) => delivered(unread, steps.drop_last()) + before.take(
                taken(before, max),
            ),
        }
    }
}

/// What arrived in `steps`.
pub open spec fn arrived(steps: Seq<ReadStep>) -> Seq<u8>
    decreases steps.len(),
{
    if steps.len() == 0 {
        Seq::empty()
    } else {
        match steps.last() {
            ReadStep::Filled(chunk) => arrived(steps.drop_last()) + chunk,
            ReadStep::Read(_) => arrived(steps.drop_last()),
        }
    }
}

/// Says that chunks are only taken in when there is nothing left to read.
pub open spec fn in_turn(unread: Seq<u8>, steps: Seq<ReadStep>) -> bool
    decreases steps.len(),
{
    steps.len() > 0 ==> {
        &&& in_turn(unread, steps.drop_last())
        &&& steps.last() is Filled ==> left_after(unread, steps.drop_last()).len() == 0
    }
}

/// However the data is cut into chunks and however the reader cuts up its reads, it gets the bytes in
/// order, none lost and none twice: what it has got, and what it has yet to read, is all that arrived.
pub proof fn law_reads_deliver_in_order(unread: Seq<u8>, steps: Seq<ReadStep>)
    requires
        in_turn(unread, steps),
    ensures
        delivered(unread, steps) + left_after(unread, steps) == unread + arrived(steps),
    decreases steps.len(),
{
    if steps.len() == 0 {
        assert(delivered(unread, steps) + left_after(unread, steps) =~= unread + arrived(steps));
    } else {
        let before = left_after(unread, steps.drop_last());
        let got = delivered(unread, steps.drop_last());
        law_reads_deliver_in_order(unread, steps.drop_last());
        match steps.last() {
            ReadStep::Filled(chunk) => {
                assert(got + before =~= got);
                assert(got + chunk =~= unread + (arrived(steps.drop_last()) + chunk));
            },
            ReadStep::Read(max) => {
                let n = taken(before, max);
                assert((got + before.take(n)) + before.skip(n) =~= got + before);
            },
        }
    }
}

/// A read takes all that has arrived and fits: as many bytes as there is room for, or else as many as there
/// are. They stand at the front of the buffer, the rest of which stays as it was, and the next read goes on
/// behind them.
pub proof fn law_read_takes_all_that_fits<S>(recv: &mut RecvStream<S>, buf: &mut [u8], n: usize)
    requires
        call_ensures(RecvStream::<S>::read, (recv, buf), n),
    ensures
        n <= old(buf)@.len(),
        n <= buffer::contents(old(recv).buffer).len(),
        n == old(buf)@.len() || n == buffer::contents(old(recv).buffer).len(),
        old(buf)@.len() > 0 && buffer::contents(old(recv).buffer).len() > 0 ==> n > 0,
        final(buf)@.len() == old(buf)@.len(),
        forall|i: int|
            0 <= i < n ==> #[trigger] final(buf)@[i] == buffer::contents(old(recv).buffer)[i],
        forall|i: int| n <= i < old(buf)@.len() ==> #[trigger] final(buf)@[i] == old(buf)@[i],
        buffer::contents(final(recv).buffer) == buffer::contents(old(recv).buffer).skip(n as int),
        final(recv).stream == old(recv).stream,
{
}

/// A chunk is all that has arrived and is asked for: as many bytes as the reader takes, or else as many as
/// there are. Together with what stays unread it is what was unread before.
pub proof fn law_chunk_takes_all_that_fits<S>(
    recv: &mut RecvStream<S>,
    max: usize,
    chunk: bytes::Bytes,
)
    requires
        call_ensures(RecvStream::<S>::read_chunk, (recv, max), chunk),
    ensures
        buffer::contents(chunk).len() <= max,
        buffer::contents(chunk).len() == max || buffer::contents(final(recv).buffer).len() == 0,
        max > 0 && buffer::contents(old(recv).buffer).len() > 0 ==> buffer::contents(chunk).len() > 0,
        buffer::contents(chunk) + buffer::contents(final(recv).buffer) == buffer::contents(
            old(recv).buffer,
        ),
        final(recv).stream == old(recv).stream,
{
    assert(buffer::contents(chunk) + buffer::contents(final(recv).buffer) =~= buffer::contents(
        old(recv).buffer,
    ));
}

/// It makes no difference where a reader cuts: two chunks, one after the other, are what one chunk of both
/// sizes is.
pub proof fn law_two_chunks_are_one<S>(
    first: &mut RecvStream<S>,
    second: &mut RecvStream<S>,
    once: &mut RecvStream<S>,
    a: usize,
    b: usize,
    c: usize,
    x: bytes::Bytes,
    y: bytes::Bytes,
    z: bytes::Bytes,
)
    requires
        call_ensures(RecvStream::<S>::read_chunk, (first, a), x),
        call_ensures(RecvStream::<S>::read_chunk, (second, b), y),
        call_ensures(RecvStream::<S>::read_chunk, (once, c), z),
        *old(second) == *final(first),
        *old(once) == *old(first),
        c == a + b,
    ensures
        buffer::contents(x) + buffer::contents(y) == buffer::contents(z),
        buffer::contents(final(second).buffer) == buffer::contents(final(once).buffer),
{
    assert(buffer::contents(x) + buffer::contents(y) =~= buffer::contents(z));
    assert(buffer::contents(final(second).buffer) =~= buffer::contents(final(once).buffer));
}

/// A reader that starts with what came behind the header reads that first, and asks the QUIC stream for
/// data exactly when nothing is left.
pub proof fn law_leftover_is_read_first<S>(
    stream: S,
    leftover: &[u8],
    recv: RecvStream<S>,
    other: RecvStream<S>,
    needs: bool,
)
    requires
        call_ensures(RecvStream::<S>::new, (stream, leftover), recv),
        call_ensures(RecvStream::<S>::needs_data, (&other,), needs),
    ensures
        recv.stream == stream,
        buffer::contents(recv.buffer) == leftover@,
        needs == (buffer::contents(other.buffer).len() == 0),
{
}

/// What the QUIC stream yields is what is read next: a chunk that holds something is there to be read, an
/// empty one says nothing, and only the end of the stream ends it. A failure leaves nothing to read.
pub proof fn law_chunks_are_taken_in_as_they_come<S>(
    recv: &mut RecvStream<S>,
    received: Result<Option<bytes::Bytes>, StreamError>,
    stored: Option<&SessionError>,
    r: Result<Fill, ReadError>,
)
    requires
        call_ensures(RecvStream::<S>::fill, (recv, received, stored), r),
    ensures
        received matches Ok(Some(chunk)) ==> buffer::contents(final(recv).buffer)
            == buffer::contents(chunk),
        !(received matches Ok(Some(_))) ==> buffer::contents(final(recv).buffer).len() == 0,
        r is Err <==> received is Err,
        r == Ok::<Fill, ReadError>(Fill::Finished) <==> received == Ok::<_, StreamError>(
            None::<bytes::Bytes>,
        ),
        r == Ok::<Fill, ReadError>(Fill::Ready) <==> (received matches Ok(Some(chunk))
            && buffer::contents(chunk).len() > 0),
        r == Ok::<Fill, ReadError>(Fill::Again) <==> (received matches Ok(Some(chunk))
            && buffer::contents(chunk).len() == 0),
        final(recv).stream == old(recv).stream,
{
}

/// A reader that waits for the end drops what came, and is told of the end when the QUIC stream tells it,
/// and of nothing else.
pub proof fn law_end_is_the_end_of_the_quic_stream<S>(
    dropped: &mut RecvStream<S>,
    recv: RecvStream<S>,
    received: Result<Option<bytes::Bytes>, StreamError>,
    stored: Option<&SessionError>,
    r: Result<bool, ReadError>,
)
    requires
        call_ensures(RecvStream::<S>::discard, (dropped,), ()),
        call_ensures(RecvStream::<S>::closed, (&recv, received, stored), r),
    ensures
        buffer::contents(final(dropped).buffer).len() == 0,
        final(dropped).stream == old(dropped).stream,
        r == Ok::<bool, ReadError>(true) <==> received == Ok::<_, StreamError>(None::<bytes::Bytes>),
        r == Ok::<bool, ReadError>(false) <==> (received matches Ok(Some(_))),
        r is Err <==> received is Err,
{
}

/// Whichever way a reader learns of a failure, it is told the same: a code of the peer's reset that lies in
/// the WebTransport range by that code, another as it is, a stream that was over as that, and a connection
/// that ended by the session's own error, if there is one.
pub proof fn law_read_failures_are_told_apart<S>(
    recv: RecvStream<S>,
    filling: &mut RecvStream<S>,
    e: StreamError,
    stored: Option<&SessionError>,
    filled: Result<Fill, ReadError>,
    closed: Result<bool, ReadError>,
)
    requires
        call_ensures(RecvStream::<S>::fill, (filling, Err(e), stored), filled),
        call_ensures(RecvStream::<S>::closed, (&recv, Err(e), stored), closed),
    ensures
        ({
            &&& filled matches Err(a)
            &&& closed matches Err(b)
            &&& forall|code: u32|
                e == (StreamError::Reset { code: #[trigger] wire::http3_code(code) as u64 }) ==> a
                    == ReadError::Reset(code) && b == ReadError::Reset(code)
            &&& e is Reset && !(wire::HTTP3_ERROR_FIRST <= e->code <= wire::HTTP3_ERROR_LAST)
                ==> a == ReadError::InvalidReset(e->code) && b
                == ReadError::InvalidReset(e->code)
            &&& e is Other ==> a == ReadError::ClosedStream && b == ReadError::ClosedStream
            &&& e is Connection && stored is Some ==> a == ReadError::SessionError(*stored->0) && b
                == ReadError::SessionError(*stored->0)
            &&& e is Connection ==> a is SessionError && b is SessionError
        }),
{
    assert forall|code: u32|
        e == (StreamError::Reset { code: #[trigger] wire::http3_code(code) as u64 }) implies filled
        == Err::<Fill, ReadError>(ReadError::Reset(code)) && closed == Err::<bool, ReadError>(
        ReadError::Reset(code),
    ) by {
        wire::law_error_code_round_trip(code);
    }
}

/// A stop carries the application's code to the peer: larger codes get larger ones, and the writer on the
/// other side is told the very code.
pub proof fn law_stop_tells_the_writer_its_code<S>(
    recv: RecvStream<S>,
    code: u32,
    sent: u64,
    told: crate::error::WriteError,
)
    requires
        call_ensures(RecvStream::<S>::stop, (&recv, code), sent),
        call_ensures(crate::error::WriteError::from_stream, (StreamError::Reset { code: sent },), told),
    ensures
        told == crate::error::WriteError::Stopped(code),
        sent == 0x52e4a40fa8db + code + code / 30,
{
    wire::law_error_code_round_trip(code);
}

/// The session's own error takes the place of whatever the connection caused, and of nothing else.
pub proof fn law_own_error_stands_in_for_readers<S>(
    recv: RecvStream<S>,
    own: SessionError,
    e: ReadError,
    replaced: ReadError,
    kept: ReadError,
)
    requires
        call_ensures(RecvStream::<S>::map_error, (&recv, Some(&own), e), replaced),
        call_ensures(RecvStream::<S>::map_error, (&recv, None, e), kept),
    ensures
        kept == e,
        e is SessionError ==> replaced == ReadError::SessionError(own),
        !(e is SessionError) ==> replaced == e,
{
}

} // verus!
