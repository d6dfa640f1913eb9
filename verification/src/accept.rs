//! The accept loops of a session, which pick its own streams out of all that the peer opens.
//!
//! The headers of several streams can be on their way at the same time, and whichever is complete
//! first is handed out first. The loops themselves run where the streams are polled: there, each
//! thing that happens is reported here as an event, and the answer says what to do about it.

use vstd::prelude::*;

use crate::error::{ConnectionError, SessionError};
use crate::header;
use crate::header::{
    decode_bi, decode_uni, FRAME_WEBTRANSPORT, STREAM_QPACK_DECODER, STREAM_QPACK_ENCODER,
    STREAM_WEBTRANSPORT,
};

verus! {

/// The handle by which a waiting task is woken.
#[verifier::external_type_specification]
#[verifier::external_body]
pub struct ExWaker(std::task::Waker);

/// Asks `std::task::Waker::will_wake` whether both wake the same task. A yes is sure to be true; a no is
/// no more than a best effort. What a task is cannot be said of a handle, so no clause is about it.
#[verifier::external_body]
fn will_wake(a: &std::task::Waker, b: &std::task::Waker) -> (r: bool) {
    a.will_wake(b)
}

/// Copies the handle by the `Clone` of `std::task::Waker`, to one that wakes the same task. A handle has
/// no contents to compare, so no clause is about them.
#[verifier::external_body]
fn clone_waker(waker: &std::task::Waker) -> (r: std::task::Waker) {
    waker.clone()
}

/// What happened while waiting for a stream of type `S`.
pub enum Event<S> {
    /// The peer opened a stream.
    Opened(S),
    /// The connection failed: there will be no more streams.
    Failed(ConnectionError),
    /// Bytes arrived at the front of a stream: `data` is all that came so far, and `ended` says that
    /// nothing follows.
    Received { stream: S, data: Vec<u8>, ended: bool },
    /// Nothing is ready.
    Idle,
}

/// What to do next.
pub enum Action<S> {
    /// Read on at the front of this stream, of which `data` is already here.
    Read { stream: S, data: Vec<u8> },
    /// Look for the next event.
    Continue,
    /// Give up until something wakes the caller, who has been noted down.
    Wait,
    /// Hand the stream, of whose own data `leftover` is already here, to the caller, and wake the
    /// others who wait.
    Accepted { stream: S, leftover: Vec<u8>, wake: Vec<std::task::Waker> },
    /// Hand the error to the caller, and wake the others who wait.
    Error { error: SessionError, wake: Vec<std::task::Waker> },
}

impl<S> Action<S> {
    /// The tasks to be woken.
    pub open spec fn woken(self) -> Seq<std::task::Waker> {
        match self {
            Action::Accepted { wake, .. } => wake@,
            Action::Error { wake, .. } => wake@,
            _ => Seq::empty(),
        }
    }
}

/// Accept logic, which is stateful because of the per-stream header decode.
pub struct SessionAccept<S> {
    session_id: u64,
    // Keep the qpack streams if a (non-conforming) peer creates them, so they aren't closed until the
    // session is dropped.
    qpack_encoder: Option<S>,
    qpack_decoder: Option<S>,
    // Wake concurrent callers when one of them makes progress.
    bi_wakers: Vec<std::task::Waker>,
    uni_wakers: Vec<std::task::Waker>,
}

/// Says that `same` is what `noted` can answer when asked whether it wakes the task of `waker`.
pub closed spec fn answers(noted: std::task::Waker, waker: std::task::Waker, same: bool) -> bool {
    call_ensures(will_wake, (&noted, &waker), same)
}

/// Says that `copy` is a copy of `waker`.
pub closed spec fn is_copy(copy: std::task::Waker, waker: std::task::Waker) -> bool {
    call_ensures(clone_waker, (&waker,), copy)
}

/// Says that `noted` wakes the task of `waker`: it is a copy, or it answered that it does.
pub open spec fn wakes(noted: std::task::Waker, waker: std::task::Waker) -> bool {
    answers(noted, waker, true) || is_copy(noted, waker)
}

/// Says that `after` is `before` with the task of `waker` noted down: if one of them answered that it
/// wakes the task, nothing changes, and if none did, a copy of `waker` joins them.
pub open spec fn notes_down(
    before: Seq<std::task::Waker>,
    after: Seq<std::task::Waker>,
    waker: std::task::Waker,
) -> bool {
    ||| {
        &&& after == before
        &&& exists|i: int| 0 <= i < before.len() && answers(#[trigger] before[i], waker, true)
    }
    ||| {
        &&& after.len() == before.len() + 1
        &&& after.drop_last() == before
        &&& is_copy(after.last(), waker)
        &&& forall|i: int|
            0 <= i < before.len() ==> answers(#[trigger] before[i], waker, false)
    }
}

/// Notes down the task of `waker`, by a copy, unless it is `known`.
pub fn note_waker(noted: &mut Vec<std::task::Waker>, known: bool, waker: &std::task::Waker)
    ensures
        known ==> final(noted)@ == old(noted)@,
        !known ==> final(noted)@.len() == old(noted)@.len() + 1 && final(noted)@.drop_last() == old(
            noted,
        )@ && is_copy(final(noted)@.last(), *waker),
{
    if !known {
        let copy = clone_waker(waker);
        assert(is_copy(copy, *waker));
        noted.push(copy);
        assert(noted@.drop_last() =~= old(noted)@);
    }
}

/// Notes down the task of `waker` unless one of `noted` already wakes it.
fn register(noted: &mut Vec<std::task::Waker>, waker: &std::task::Waker)
    ensures
        notes_down(old(noted)@, final(noted)@, *waker),
{
    let mut known = false;
    let mut i: usize = 0;
    while i < noted.len() && !known
        invariant
            i <= noted@.len(),
            noted@ == old(noted)@,
            known ==> exists|j: int| 0 <= j < i && answers(#[trigger] noted@[j], *waker, true),
            !known ==> forall|j: int| 0 <= j < i ==> answers(#[trigger] noted@[j], *waker, false),
        decreases noted@.len() - i,
    {
        known = will_wake(&noted[i], waker);
        assert(answers(noted@[i as int], *waker, known));
        i = i + 1;
    }
    note_waker(noted, known, waker);
}

/// Takes all of `noted` out, to be woken.
fn drain(noted: &mut Vec<std::task::Waker>) -> (r: Vec<std::task::Waker>)
    ensures
        r@ == old(noted)@,
        final(noted)@ == Seq::<std::task::Waker>::empty(),
{
    let mut wake: Vec<std::task::Waker> = Vec::new();
    std::mem::swap(&mut wake, noted);
    wake
}

impl<S> SessionAccept<S> {
    /// The session whose streams are picked out.
    pub closed spec fn session_id(self) -> u64 {
        self.session_id
    }

    /// The QPACK encoder stream that the peer created, if it did.
    pub closed spec fn qpack_encoder(self) -> Option<S> {
        self.qpack_encoder
    }

    /// The QPACK decoder stream that the peer created, if it did.
    pub closed spec fn qpack_decoder(self) -> Option<S> {
        self.qpack_decoder
    }

    /// The tasks that wait for a unidirectional stream.
    pub closed spec fn uni_wakers(self) -> Seq<std::task::Waker> {
        self.uni_wakers@
    }

    /// The tasks that wait for a bidirectional stream.
    pub closed spec fn bi_wakers(self) -> Seq<std::task::Waker> {
        self.bi_wakers@
    }

    /// Says that nothing changed but perhaps the tasks that wait for unidirectional streams.
    pub open spec fn same_but_uni_wakers(self, other: Self) -> bool {
        &&& self.session_id() == other.session_id()
        &&& self.qpack_encoder() == other.qpack_encoder()
        &&& self.qpack_decoder() == other.qpack_decoder()
        &&& self.bi_wakers() == other.bi_wakers()
    }

    /// Says that nothing changed but perhaps the tasks that wait for bidirectional streams.
    pub open spec fn same_but_bi_wakers(self, other: Self) -> bool {
        &&& self.session_id() == other.session_id()
        &&& self.qpack_encoder() == other.qpack_encoder()
        &&& self.qpack_decoder() == other.qpack_decoder()
        &&& self.uni_wakers() == other.uni_wakers()
    }

    /// Says that nothing changed.
    pub open spec fn same(self, other: Self) -> bool {
        self.same_but_uni_wakers(other) && self.uni_wakers() == other.uni_wakers()
    }

    /// Picks the streams of session `session_id`.
    pub fn new(session_id: u64) -> (r: Self)
        ensures
            r.session_id() == session_id,
            r.qpack_encoder() is None,
            r.qpack_decoder() is None,
            r.uni_wakers() == Seq::<std::task::Waker>::empty(),
            r.bi_wakers() == Seq::<std::task::Waker>::empty(),
    {
        SessionAccept {
            session_id,
            qpack_encoder: None,
            qpack_decoder: None,
            bi_wakers: Vec::new(),
            uni_wakers: Vec::new(),
        }
    }

    /// What the complete header of a unidirectional stream leads to: a WebTransport stream goes to
    /// the caller, a QPACK stream is kept, and any other is dropped.
    pub open spec fn uni_found(
        before: Self,
        after: Self,
        action: Action<S>,
        stream: S,
        data: Seq<u8>,
        typ: u64,
        len: nat,
    ) -> bool {
        &&& after.session_id() == before.session_id()
        &&& after.bi_wakers() == before.bi_wakers()
        &&& after.qpack_decoder() == if typ == STREAM_QPACK_DECODER {
            Some(stream)
        } else {
            before.qpack_decoder()
        }
        &&& after.qpack_encoder() == if typ == STREAM_QPACK_ENCODER {
            Some(stream)
        } else {
            before.qpack_encoder()
        }
        &&& if typ == STREAM_WEBTRANSPORT {
            &&& action matches Action::Accepted { stream: accepted, leftover, wake }
            &&& accepted == stream
            &&& leftover@ == data.skip(len as int)
            &&& wake@ == before.uni_wakers()
            &&& after.uni_wakers() == Seq::<std::task::Waker>::empty()
        } else {
            &&& action is Continue
            &&& after.uni_wakers() == before.uni_wakers()
        }
    }

    /// Says what an event leads to in the loop that accepts unidirectional streams, for the caller to whom
    /// `waker` belongs.
    pub open spec fn uni_transition(
        before: Self,
        after: Self,
        event: Event<S>,
        waker: std::task::Waker,
        action: Action<S>,
    ) -> bool {
        match event {
            Event::Opened(opened) => {
                &&& after.same(before)
                &&& action matches Action::Read { stream, data }
                &&& stream == opened
                &&& data@ == Seq::<u8>::empty()
            },
            Event::Failed(e) => {
                &&& after.same_but_uni_wakers(before)
                &&& action matches Action::Error { error, wake }
                &&& error.reports(e)
                &&& wake@ == before.uni_wakers()
                &&& after.uni_wakers() == Seq::<std::task::Waker>::empty()
            },
            Event::Received { stream, data, ended } => match header::header_of(
                data@,
                STREAM_WEBTRANSPORT,
                before.session_id(),
            ) {
                header::Header::Incomplete => after.same(before) && if ended {
                    action is Continue
                } else {
                    action == (Action::Read { stream, data })
                },
                header::Header::Foreign => after.same(before) && action is Continue,
                header::Header::Found { typ, len } => Self::uni_found(
                    before,
                    after,
                    action,
                    stream,
                    data@,
                    typ,
                    len,
                ),
            },
            Event::Idle => {
                &&& after.same_but_uni_wakers(before)
                &&& action is Wait
                &&& notes_down(before.uni_wakers(), after.uni_wakers(), waker)
            },
        }
    }

    /// One turn of the loop that accepts unidirectional streams. `waker` belongs to the caller, who
    /// is noted down where there is nothing to do but wait.
    pub fn poll_accept_uni(&mut self, event: Event<S>, waker: &std::task::Waker) -> (action: Action<
        S,
    >)
        ensures
            Self::uni_transition(*old(self), *final(self), event, *waker, action),
    {
        match event {
            Event::Opened(stream) => Action::Read { stream, data: Vec::new() },
            Event::Failed(e) => Action::Error {
                error: SessionError::from_connection(e),
                wake: drain(&mut self.uni_wakers),
            },
            Event::Received { stream, data, ended } => {
                match decode_uni(data.as_slice(), ended, self.session_id) {
                    None => Action::Read { stream, data },
                    Some(Err(_)) => Action::Continue,
                    Some(Ok((typ, len))) => {
                        if typ == STREAM_WEBTRANSPORT {
                            let mut data = data;
                            let leftover = data.split_off(len);
                            Action::Accepted {
                                stream,
                                leftover,
                                wake: drain(&mut self.uni_wakers),
                            }
                        } else {
                            if typ == STREAM_QPACK_DECODER {
                                self.qpack_decoder = Some(stream);
                            } else if typ == STREAM_QPACK_ENCODER {
                                self.qpack_encoder = Some(stream);
                            }
                            Action::Continue
                        }
                    },
                }
            },
            Event::Idle => {
                register(&mut self.uni_wakers, waker);
                Action::Wait
            },
        }
    }

    /// Says what an event leads to in the loop that accepts bidirectional streams, of type `B`, for the
    /// caller to whom `waker` belongs: a WebTransport stream of the session goes to the caller, and any
    /// other is dropped.
    pub open spec fn bi_transition<B>(
        before: Self,
        after: Self,
        event: Event<B>,
        waker: std::task::Waker,
        action: Action<B>,
    ) -> bool {
        match event {
            Event::Opened(opened) => {
                &&& after.same(before)
                &&& action matches Action::Read { stream, data }
                &&& stream == opened
                &&& data@ == Seq::<u8>::empty()
            },
            Event::Failed(e) => {
                &&& after.same_but_bi_wakers(before)
                &&& action matches Action::Error { error, wake }
                &&& error.reports(e)
                &&& wake@ == before.bi_wakers()
                &&& after.bi_wakers() == Seq::<std::task::Waker>::empty()
            },
            Event::Received { stream: received, data, ended } => match header::header_of(
                data@,
                FRAME_WEBTRANSPORT,
                before.session_id(),
            ) {
                header::Header::Incomplete => after.same(before) && if ended {
                    action is Continue
                } else {
                    action == (Action::Read { stream: received, data })
                },
                header::Header::Foreign => after.same(before) && action is Continue,
                header::Header::Found { typ, len } => if typ == FRAME_WEBTRANSPORT {
                    &&& after.same_but_bi_wakers(before)
                    &&& action matches Action::Accepted { stream, leftover, wake }
                    &&& stream == received
                    &&& leftover@ == data@.skip(len as int)
                    &&& wake@ == before.bi_wakers()
                    &&& after.bi_wakers() == Seq::<std::task::Waker>::empty()
                } else {
                    after.same(before) && action is Continue
                },
            },
            Event::Idle => {
                &&& after.same_but_bi_wakers(before)
                &&& action is Wait
                &&& notes_down(before.bi_wakers(), after.bi_wakers(), waker)
            },
        }
    }

    /// One turn of the loop that accepts bidirectional streams. `waker` belongs to the caller, who is
    /// noted down where there is nothing to do but wait.
    pub fn poll_accept_bi<B>(&mut self, event: Event<B>, waker: &std::task::Waker) -> (action:
        Action<B>)
        ensures
            Self::bi_transition(*old(self), *final(self), event, *waker, action),
    {
        match event {
            Event::Opened(stream) => Action::Read { stream, data: Vec::new() },
            Event::Failed(e) => Action::Error {
                error: SessionError::from_connection(e),
                wake: drain(&mut self.bi_wakers),
            },
            Event::Received { stream, data, ended } => {
                match decode_bi(data.as_slice(), ended, self.session_id) {
                    None => Action::Read { stream, data },
                    Some(Err(_)) => Action::Continue,
                    Some(Ok(None)) => Action::Continue,
                    Some(Ok(Some(len))) => {
                        let mut data = data;
                        let leftover = data.split_off(len);
                        Action::Accepted { stream, leftover, wake: drain(&mut self.bi_wakers) }
                    },
                }
            },
            Event::Idle => {
                register(&mut self.bi_wakers, waker);
                Action::Wait
            },
        }
    }
}

/// A unidirectional stream that the peer's session of the same number opened is handed out as soon as
/// its header has arrived, however it is cut, with all of its data that is there, and every waiting
/// task is woken. Until then more of it is read.
pub proof fn law_own_uni_stream_is_accepted<S>(
    before: SessionAccept<S>,
    after: SessionAccept<S>,
    waker: std::task::Waker,
    action: Action<S>,
    stream: S,
    data: Vec<u8>,
    payload: Seq<u8>,
    k: int,
)
    requires
        before.session_id() < crate::wire::VARINT_LIMIT,
        0 <= k <= header::header_bytes(STREAM_WEBTRANSPORT, before.session_id()).len() + payload.len(),
        data@ == (header::header_bytes(STREAM_WEBTRANSPORT, before.session_id()) + payload).take(k),
        SessionAccept::uni_transition(
            before,
            after,
            (Event::Received { stream, data, ended: false }),
            waker,
            action,
        ),
    ensures
        ({
            let len = header::header_bytes(STREAM_WEBTRANSPORT, before.session_id()).len();
            if k < len {
                action == (Action::Read { stream, data }) && after.same(before)
            } else {
                action matches Action::Accepted { stream: accepted, leftover, wake } && accepted
                    == stream && leftover@ == payload.take(k - len) && wake@ == before.uni_wakers()
            }
        }),
{
    let head = header::header_bytes(STREAM_WEBTRANSPORT, before.session_id());
    if k < head.len() {
        assert((head + payload).take(k) =~= head.take(k));
        header::law_partial_header_is_incomplete(
            STREAM_WEBTRANSPORT,
            before.session_id(),
            before.session_id(),
            k as nat,
        );
    } else {
        assert((head + payload).take(k) =~= head + payload.take(k - head.len()));
        header::law_header_names_its_session(
            STREAM_WEBTRANSPORT,
            before.session_id(),
            before.session_id(),
            payload.take(k - head.len()),
        );
    }
}

/// A unidirectional stream that another session opened never reaches the caller and leaves no trace.
pub proof fn law_foreign_uni_stream_is_dropped<S>(
    before: SessionAccept<S>,
    after: SessionAccept<S>,
    waker: std::task::Waker,
    action: Action<S>,
    stream: S,
    data: Vec<u8>,
    ended: bool,
    other: u64,
    payload: Seq<u8>,
)
    requires
        other < crate::wire::VARINT_LIMIT,
        other != before.session_id(),
        data@ == header::header_bytes(STREAM_WEBTRANSPORT, other) + payload,
        SessionAccept::uni_transition(
            before,
            after,
            (Event::Received { stream, data, ended }),
            waker,
            action,
        ),
    ensures
        action is Continue,
        after.same(before),
{
    header::law_header_names_its_session(STREAM_WEBTRANSPORT, other, before.session_id(), payload);
}

/// A bidirectional stream that the peer's session of the same number opened is handed out as soon as
/// its header has arrived, however it is cut, with all of its data that is there, and every waiting
/// task is woken. Until then more of it is read.
pub proof fn law_own_bi_stream_is_accepted<S, B>(
    before: SessionAccept<S>,
    after: SessionAccept<S>,
    waker: std::task::Waker,
    action: Action<B>,
    stream: B,
    data: Vec<u8>,
    payload: Seq<u8>,
    k: int,
)
    requires
        before.session_id() < crate::wire::VARINT_LIMIT,
        0 <= k <= header::header_bytes(FRAME_WEBTRANSPORT, before.session_id()).len() + payload.len(),
        data@ == (header::header_bytes(FRAME_WEBTRANSPORT, before.session_id()) + payload).take(k),
        SessionAccept::bi_transition(
            before,
            after,
            (Event::Received { stream, data, ended: false }),
            waker,
            action,
        ),
    ensures
        ({
            let len = header::header_bytes(FRAME_WEBTRANSPORT, before.session_id()).len();
            if k < len {
                action == (Action::Read { stream, data }) && after.same(before)
            } else {
                action matches Action::Accepted { stream: accepted, leftover, wake } && accepted
                    == stream && leftover@ == payload.take(k - len) && wake@ == before.bi_wakers()
            }
        }),
{
    let head = header::header_bytes(FRAME_WEBTRANSPORT, before.session_id());
    if k < head.len() {
        assert((head + payload).take(k) =~= head.take(k));
        header::law_partial_header_is_incomplete(
            FRAME_WEBTRANSPORT,
            before.session_id(),
            before.session_id(),
            k as nat,
        );
    } else {
        assert((head + payload).take(k) =~= head + payload.take(k - head.len()));
        header::law_header_names_its_session(
            FRAME_WEBTRANSPORT,
            before.session_id(),
            before.session_id(),
            payload.take(k - head.len()),
        );
    }
}

/// A bidirectional stream that another session opened never reaches the caller and leaves no trace.
pub proof fn law_foreign_bi_stream_is_dropped<S, B>(
    before: SessionAccept<S>,
    after: SessionAccept<S>,
    waker: std::task::Waker,
    action: Action<B>,
    stream: B,
    data: Vec<u8>,
    ended: bool,
    other: u64,
    payload: Seq<u8>,
)
    requires
        other < crate::wire::VARINT_LIMIT,
        other != before.session_id(),
        data@ == header::header_bytes(FRAME_WEBTRANSPORT, other) + payload,
        SessionAccept::bi_transition(
            before,
            after,
            (Event::Received { stream, data, ended }),
            waker,
            action,
        ),
    ensures
        action is Continue,
        after.same(before),
{
    header::law_header_names_its_session(FRAME_WEBTRANSPORT, other, before.session_id(), payload);
}

/// No unidirectional stream reaches the caller but one that starts with the type of such streams and
/// the number of the session, and all that follows these reaches the caller too.
pub proof fn law_only_own_uni_streams_are_accepted<S>(
    before: SessionAccept<S>,
    after: SessionAccept<S>,
    waker: std::task::Waker,
    event: Event<S>,
    action: Action<S>,
)
    requires
        SessionAccept::uni_transition(before, after, event, waker, action),
        action is Accepted,
    ensures
        ({
            &&& event matches Event::Received { stream, data, .. }
            &&& action matches Action::Accepted { stream: accepted, leftover, .. }
            &&& accepted == stream
            &&& crate::wire::varint_decode(data@) matches Some((typ, n))
            &&& crate::wire::varint_decode(data@.skip(n as int)) matches Some((id, m))
            &&& typ == STREAM_WEBTRANSPORT
            &&& id == before.session_id()
            &&& leftover@ == data@.skip((n + m) as int)
        }),
{
}

/// No bidirectional stream reaches the caller but one that starts with the type of such streams and
/// the number of the session, and all that follows these reaches the caller too.
pub proof fn law_only_own_bi_streams_are_accepted<S, B>(
    before: SessionAccept<S>,
    after: SessionAccept<S>,
    waker: std::task::Waker,
    event: Event<B>,
    action: Action<B>,
)
    requires
        SessionAccept::bi_transition(before, after, event, waker, action),
        action is Accepted,
    ensures
        ({
            &&& event matches Event::Received { stream, data, .. }
            &&& action matches Action::Accepted { stream: accepted, leftover, .. }
            &&& accepted == stream
            &&& crate::wire::varint_decode(data@) matches Some((typ, n))
            &&& crate::wire::varint_decode(data@.skip(n as int)) matches Some((id, m))
            &&& typ == FRAME_WEBTRANSPORT
            &&& id == before.session_id()
            &&& leftover@ == data@.skip((n + m) as int)
        }),
{
}

/// A QPACK stream that the peer created stays until the peer creates another of its kind.
pub proof fn law_qpack_streams_are_kept<S>(
    before: SessionAccept<S>,
    after: SessionAccept<S>,
    waker: std::task::Waker,
    event: Event<S>,
    action: Action<S>,
)
    requires
        SessionAccept::uni_transition(before, after, event, waker, action),
    ensures
        before.qpack_encoder() is Some ==> after.qpack_encoder() is Some,
        before.qpack_decoder() is Some ==> after.qpack_decoder() is Some,
        after.qpack_encoder() == before.qpack_encoder() || (event matches Event::Received {
            stream,
            ..
        } && after.qpack_encoder() == Some(stream)),
        after.qpack_decoder() == before.qpack_decoder() || (event matches Event::Received {
            stream,
            ..
        } && after.qpack_decoder() == Some(stream)),
{
}

/// A caller who is told to wait is noted down: among the tasks to be woken is the caller's own.
pub proof fn law_waiting_caller_is_noted_down<S, B>(
    before: SessionAccept<S>,
    after: SessionAccept<S>,
    waker: std::task::Waker,
    uni: Action<S>,
    bi: Action<B>,
)
    ensures
        SessionAccept::uni_transition(before, after, Event::Idle, waker, uni) ==> exists|i: int|
            0 <= i < after.uni_wakers().len() && wakes(#[trigger] after.uni_wakers()[i], waker),
        SessionAccept::bi_transition(before, after, Event::Idle, waker, bi) ==> exists|i: int|
            0 <= i < after.bi_wakers().len() && wakes(#[trigger] after.bi_wakers()[i], waker),
{
    if SessionAccept::uni_transition(before, after, Event::Idle, waker, uni) {
        lemma_noted_down(before.uni_wakers(), after.uni_wakers(), waker);
    }
    if SessionAccept::bi_transition(before, after, Event::Idle, waker, bi) {
        lemma_noted_down(before.bi_wakers(), after.bi_wakers(), waker);
    }
}

/// Whoever is noted down is there.
proof fn lemma_noted_down(
    before: Seq<std::task::Waker>,
    after: Seq<std::task::Waker>,
    waker: std::task::Waker,
)
    requires
        notes_down(before, after, waker),
    ensures
        exists|i: int| 0 <= i < after.len() && wakes(#[trigger] after[i], waker),
{
    if after == before {
        let i = choose|i: int| 0 <= i < before.len() && answers(#[trigger] before[i], waker, true);
        assert(wakes(after[i], waker));
    } else {
        assert(wakes(after[after.len() - 1], waker));
    }
}

/// Says that `states` are what the accept loop for unidirectional streams goes through over `events`, of
/// which none hands anything to a caller.
pub open spec fn uni_unfruitful<S>(
    states: Seq<SessionAccept<S>>,
    events: Seq<Event<S>>,
    wakers: Seq<std::task::Waker>,
    actions: Seq<Action<S>>,
) -> bool {
    &&& states.len() == events.len() + 1
    &&& wakers.len() == events.len()
    &&& actions.len() == events.len()
    &&& forall|i: int|
        0 <= i < events.len() ==> SessionAccept::uni_transition(
            #[trigger] states[i],
            states[i + 1],
            events[i],
            wakers[i],
            actions[i],
        ) && !(actions[i] is Accepted) && !(actions[i] is Error)
}

/// Says that `states` are what the accept loop for bidirectional streams goes through over `events`, of
/// which none hands anything to a caller.
pub open spec fn bi_unfruitful<S, B>(
    states: Seq<SessionAccept<S>>,
    events: Seq<Event<B>>,
    wakers: Seq<std::task::Waker>,
    actions: Seq<Action<B>>,
) -> bool {
    &&& states.len() == events.len() + 1
    &&& wakers.len() == events.len()
    &&& actions.len() == events.len()
    &&& forall|i: int|
        0 <= i < events.len() ==> SessionAccept::bi_transition(
            #[trigger] states[i],
            states[i + 1],
            events[i],
            wakers[i],
            actions[i],
        ) && !(actions[i] is Accepted) && !(actions[i] is Error)
}

/// While nothing is handed to a caller, no task that waits for a unidirectional stream is forgotten.
proof fn lemma_uni_wakers_stay<S>(
    states: Seq<SessionAccept<S>>,
    events: Seq<Event<S>>,
    wakers: Seq<std::task::Waker>,
    actions: Seq<Action<S>>,
    i: int,
    j: int,
)
    requires
        uni_unfruitful(states, events, wakers, actions),
        0 <= i <= j < states.len(),
    ensures
        states[i].uni_wakers().is_prefix_of(states[j].uni_wakers()),
    decreases j - i,
{
    if i < j {
        lemma_uni_wakers_stay(states, events, wakers, actions, i, j - 1);
        let before = states[j - 1];
        let after = states[j - 1 + 1];
        assert(SessionAccept::uni_transition(
            before,
            after,
            events[j - 1],
            wakers[j - 1],
            actions[j - 1],
        ));
        assert(before.uni_wakers().is_prefix_of(after.uni_wakers()));
    }
}

/// While nothing is handed to a caller, no task that waits for a bidirectional stream is forgotten.
proof fn lemma_bi_wakers_stay<S, B>(
    states: Seq<SessionAccept<S>>,
    events: Seq<Event<B>>,
    wakers: Seq<std::task::Waker>,
    actions: Seq<Action<B>>,
    i: int,
    j: int,
)
    requires
        bi_unfruitful(states, events, wakers, actions),
        0 <= i <= j < states.len(),
    ensures
        states[i].bi_wakers().is_prefix_of(states[j].bi_wakers()),
    decreases j - i,
{
    if i < j {
        lemma_bi_wakers_stay(states, events, wakers, actions, i, j - 1);
        let before = states[j - 1];
        let after = states[j - 1 + 1];
        assert(SessionAccept::bi_transition(
            before,
            after,
            events[j - 1],
            wakers[j - 1],
            actions[j - 1],
        ));
        assert(before.bi_wakers().is_prefix_of(after.bi_wakers()));
    }
}

/// A caller who waits for a unidirectional stream is woken as soon as one of the callers gets a stream or
/// an error, whoever else waits and whatever happens in between. After that nobody is noted down, so
/// that the next stream wakes nobody who has not waited again.
pub proof fn law_progress_wakes_whoever_waits_for_uni<S>(
    states: Seq<SessionAccept<S>>,
    events: Seq<Event<S>>,
    wakers: Seq<std::task::Waker>,
    actions: Seq<Action<S>>,
    i: int,
    after: SessionAccept<S>,
    event: Event<S>,
    waker: std::task::Waker,
    action: Action<S>,
)
    requires
        uni_unfruitful(states, events, wakers, actions),
        0 <= i < events.len(),
        events[i] is Idle,
        SessionAccept::uni_transition(states.last(), after, event, waker, action),
        action is Accepted || action is Error,
    ensures
        exists|j: int|
            0 <= j < action.woken().len() && wakes(#[trigger] action.woken()[j], wakers[i]),
        action.woken() == states.last().uni_wakers(),
        after.uni_wakers() == Seq::<std::task::Waker>::empty(),
{
    assert(SessionAccept::uni_transition(
        states[i],
        states[i + 1],
        events[i],
        wakers[i],
        actions[i],
    ));
    let noted = states[i + 1].uni_wakers();
    lemma_noted_down(states[i].uni_wakers(), noted, wakers[i]);
    let j = choose|j: int| 0 <= j < noted.len() && wakes(#[trigger] noted[j], wakers[i]);
    lemma_uni_wakers_stay(states, events, wakers, actions, i + 1, states.len() - 1);
    assert(action.woken() == states.last().uni_wakers());
    assert(action.woken()[j] == noted[j]);
}

/// A caller who waits for a bidirectional stream is woken as soon as one of the callers gets a stream or
/// an error, whoever else waits and whatever happens in between. After that nobody is noted down, so
/// that the next stream wakes nobody who has not waited again.
pub proof fn law_progress_wakes_whoever_waits_for_bi<S, B>(
    states: Seq<SessionAccept<S>>,
    events: Seq<Event<B>>,
    wakers: Seq<std::task::Waker>,
    actions: Seq<Action<B>>,
    i: int,
    after: SessionAccept<S>,
    event: Event<B>,
    waker: std::task::Waker,
    action: Action<B>,
)
    requires
        bi_unfruitful(states, events, wakers, actions),
        0 <= i < events.len(),
        events[i] is Idle,
        SessionAccept::bi_transition(states.last(), after, event, waker, action),
        action is Accepted || action is Error,
    ensures
        exists|j: int|
            0 <= j < action.woken().len() && wakes(#[trigger] action.woken()[j], wakers[i]),
        action.woken() == states.last().bi_wakers(),
        after.bi_wakers() == Seq::<std::task::Waker>::empty(),
{
    assert(SessionAccept::bi_transition(
        states[i],
        states[i + 1],
        events[i],
        wakers[i],
        actions[i],
    ));
    let noted = states[i + 1].bi_wakers();
    lemma_noted_down(states[i].bi_wakers(), noted, wakers[i]);
    let j = choose|j: int| 0 <= j < noted.len() && wakes(#[trigger] noted[j], wakers[i]);
    lemma_bi_wakers_stay(states, events, wakers, actions, i + 1, states.len() - 1);
    assert(action.woken() == states.last().bi_wakers());
    assert(action.woken()[j] == noted[j]);
}

/// A task that waits again and again is noted down once: where one of those noted down answers that it
/// wakes the task, nobody joins them, and a task that waits alone is the only one.
pub proof fn law_nobody_is_noted_down_twice(
    before: Seq<std::task::Waker>,
    after: Seq<std::task::Waker>,
    waker: std::task::Waker,
)
    requires
        notes_down(before, after, waker),
    ensures
        before.len() == 0 ==> after.len() == 1 && is_copy(after[0], waker),
        after != before ==> forall|i: int|
            0 <= i < before.len() ==> answers(#[trigger] before[i], waker, false),
        after.len() <= before.len() + 1,
{
}

/// Says that no handle that wakes the task of `waker` denies that it does.
pub open spec fn knows_its_own(waker: std::task::Waker) -> bool {
    forall|noted: std::task::Waker| #[trigger]
        answers(noted, waker, false) ==> !wakes(noted, waker)
}

/// While only the task of `waker` waits for a unidirectional stream, it is noted down once.
proof fn lemma_uni_noted_once<S>(
    states: Seq<SessionAccept<S>>,
    events: Seq<Event<S>>,
    wakers: Seq<std::task::Waker>,
    actions: Seq<Action<S>>,
    waker: std::task::Waker,
    j: int,
)
    requires
        uni_unfruitful(states, events, wakers, actions),
        states[0].uni_wakers().len() == 0,
        forall|i: int| 0 <= i < wakers.len() ==> #[trigger] wakers[i] == waker,
        knows_its_own(waker),
        0 <= j < states.len(),
    ensures
        states[j].uni_wakers().len() <= 1,
        states[j].uni_wakers().len() == 1 ==> wakes(states[j].uni_wakers()[0], waker),
        (exists|i: int| 0 <= i < j && (#[trigger] events[i]) is Idle) ==> states[j].uni_wakers().len()
            == 1,
    decreases j,
{
    if j > 0 {
        lemma_uni_noted_once(states, events, wakers, actions, waker, j - 1);
        let before = states[j - 1];
        let after = states[j - 1 + 1];
        assert(SessionAccept::uni_transition(
            before,
            after,
            events[j - 1],
            wakers[j - 1],
            actions[j - 1],
        ));
        assert(wakers[j - 1] == waker);
        if events[j - 1] is Idle {
            if before.uni_wakers().len() == 1 {
                assert(!answers(before.uni_wakers()[0], waker, false));
            }
        }
    }
}

/// However often one task waits for a unidirectional stream, it is woken exactly once when there is one, if
/// the handles know the task that they wake.
pub proof fn law_lone_caller_for_uni_is_woken_once<S>(
    states: Seq<SessionAccept<S>>,
    events: Seq<Event<S>>,
    wakers: Seq<std::task::Waker>,
    actions: Seq<Action<S>>,
    waker: std::task::Waker,
    i: int,
    after: SessionAccept<S>,
    event: Event<S>,
    other: std::task::Waker,
    action: Action<S>,
)
    requires
        uni_unfruitful(states, events, wakers, actions),
        states[0].uni_wakers().len() == 0,
        forall|j: int| 0 <= j < wakers.len() ==> #[trigger] wakers[j] == waker,
        knows_its_own(waker),
        0 <= i < events.len(),
        events[i] is Idle,
        SessionAccept::uni_transition(states.last(), after, event, other, action),
        action is Accepted || action is Error,
    ensures
        action.woken().len() == 1,
        wakes(action.woken()[0], waker),
        after.uni_wakers() == Seq::<std::task::Waker>::empty(),
{
    lemma_uni_noted_once(states, events, wakers, actions, waker, states.len() - 1);
    assert(action.woken() == states.last().uni_wakers());
}

/// While only the task of `waker` waits for a bidirectional stream, it is noted down once.
proof fn lemma_bi_noted_once<S, B>(
    states: Seq<SessionAccept<S>>,
    events: Seq<Event<B>>,
    wakers: Seq<std::task::Waker>,
    actions: Seq<Action<B>>,
    waker: std::task::Waker,
    j: int,
)
    requires
        bi_unfruitful(states, events, wakers, actions),
        states[0].bi_wakers().len() == 0,
        forall|i: int| 0 <= i < wakers.len() ==> #[trigger] wakers[i] == waker,
        knows_its_own(waker),
        0 <= j < states.len(),
    ensures
        states[j].bi_wakers().len() <= 1,
        states[j].bi_wakers().len() == 1 ==> wakes(states[j].bi_wakers()[0], waker),
        (exists|i: int| 0 <= i < j && (#[trigger] events[i]) is Idle) ==> states[j].bi_wakers().len()
            == 1,
    decreases j,
{
    if j > 0 {
        lemma_bi_noted_once(states, events, wakers, actions, waker, j - 1);
        let before = states[j - 1];
        let after = states[j - 1 + 1];
        assert(SessionAccept::bi_transition(
            before,
            after,
            events[j - 1],
            wakers[j - 1],
            actions[j - 1],
        ));
        assert(wakers[j - 1] == waker);
        if events[j - 1] is Idle {
            if before.bi_wakers().len() == 1 {
                assert(!answers(before.bi_wakers()[0], waker, false));
            }
        }
    }
}

/// However often one task waits for a bidirectional stream, it is woken exactly once when there is one, if
/// the handles know the task that they wake.
pub proof fn law_lone_caller_for_bi_is_woken_once<S, B>(
    states: Seq<SessionAccept<S>>,
    events: Seq<Event<B>>,
    wakers: Seq<std::task::Waker>,
    actions: Seq<Action<B>>,
    waker: std::task::Waker,
    i: int,
    after: SessionAccept<S>,
    event: Event<B>,
    other: std::task::Waker,
    action: Action<B>,
)
    requires
        bi_unfruitful(states, events, wakers, actions),
        states[0].bi_wakers().len() == 0,
        forall|j: int| 0 <= j < wakers.len() ==> #[trigger] wakers[j] == waker,
        knows_its_own(waker),
        0 <= i < events.len(),
        events[i] is Idle,
        SessionAccept::bi_transition(states.last(), after, event, other, action),
        action is Accepted || action is Error,
    ensures
        action.woken().len() == 1,
        wakes(action.woken()[0], waker),
        after.bi_wakers() == Seq::<std::task::Waker>::empty(),
{
    lemma_bi_noted_once(states, events, wakers, actions, waker, states.len() - 1);
    assert(action.woken() == states.last().bi_wakers());
}

/// What becomes of a unidirectional stream of which `data` has arrived. With the type 0x54 and the number of the
/// session it goes to the caller, with all of its own data that is there, and whoever waits is woken. With
/// another number, or if it ends too early, it is dropped without a trace. A QPACK stream is kept, and a stream of any other type dropped. Until that can be told, more
/// of it is read.
pub proof fn law_uni_streams_go_where_they_belong<S>(
    accept: &mut SessionAccept<S>,
    stream: S,
    data: Vec<u8>,
    ended: bool,
    waker: &std::task::Waker,
    action: Action<S>,
)
    requires
        call_ensures(
            SessionAccept::<S>::poll_accept_uni,
            (accept, Event::Received { stream, data, ended }, waker),
            action,
        ),
    ensures
        (match crate::wire::varint_decode(data@) {
            None => if ended {
                action is Continue
            } else {
                action == (Action::Read { stream, data })
            },
            Some((typ, n)) => if typ != 0x54 {
                action is Continue
            } else {
                match crate::wire::varint_decode(data@.skip(n as int)) {
                    None => if ended {
                        action is Continue
                    } else {
                        action == (Action::Read { stream, data })
                    },
                    Some((id, m)) => if id != old(accept).session_id() {
                        action is Continue
                    } else {
                        action matches Action::Accepted { stream: accepted, leftover, wake }
                            && accepted == stream && leftover@ == data@.skip((n + m) as int) && wake@
                            == old(accept).uni_wakers()
                    },
                }
            },
        }),
        final(accept).uni_wakers() == if action is Accepted {
            Seq::<std::task::Waker>::empty()
        } else {
            old(accept).uni_wakers()
        },
        final(accept).bi_wakers() == old(accept).bi_wakers(),
        final(accept).qpack_encoder() == (match crate::wire::varint_decode(data@) {
            Some((0x02, _)) => Some(stream),
            _ => old(accept).qpack_encoder(),
        }),
        final(accept).qpack_decoder() == (match crate::wire::varint_decode(data@) {
            Some((0x03, _)) => Some(stream),
            _ => old(accept).qpack_decoder(),
        }),
        final(accept).session_id() == old(accept).session_id(),
{
}

/// A unidirectional stream that the peer opened is read from its first byte on, and a connection that failed is an
/// error for the caller, as the session reports it, for which whoever waits is woken.
pub proof fn law_uni_streams_are_read_from_the_start<S>(
    opening: &mut SessionAccept<S>,
    failing: &mut SessionAccept<S>,
    stream: S,
    e: ConnectionError,
    own: SessionError,
    waker: &std::task::Waker,
    read: Action<S>,
    failed: Action<S>,
)
    requires
        call_ensures(
            SessionAccept::<S>::poll_accept_uni,
            (opening, Event::Opened(stream), waker),
            read,
        ),
        call_ensures(
            SessionAccept::<S>::poll_accept_uni,
            (failing, Event::Failed(e), waker),
            failed,
        ),
        call_ensures(SessionError::from_connection, (e,), own),
    ensures
        read matches Action::Read { stream: s, data } && s == stream && data@.len() == 0,
        final(opening).uni_wakers() == old(opening).uni_wakers(),
        final(opening).qpack_encoder() == old(opening).qpack_encoder(),
        final(opening).qpack_decoder() == old(opening).qpack_decoder(),
        failed matches Action::Error { error, wake } && wake@ == old(failing).uni_wakers() && (own
            is ConnectionError ==> error == own) && (own matches SessionError::WebTransportError(
            crate::error::WebTransportError::Closed(code, _),
        ) ==> error.is_closed(code, Seq::empty())),
        final(failing).uni_wakers().len() == 0,
        final(failing).bi_wakers() == old(failing).bi_wakers(),
        final(failing).qpack_encoder() == old(failing).qpack_encoder(),
        final(failing).qpack_decoder() == old(failing).qpack_decoder(),
        final(failing).session_id() == old(failing).session_id(),
        final(opening).bi_wakers() == old(opening).bi_wakers(),
        final(opening).session_id() == old(opening).session_id(),
{
}

/// A caller for whom there is no unidirectional stream waits, and is then noted down: by a handle that already wakes
/// it, or by a copy of its own behind all the others, if none of them does.
pub proof fn law_uni_callers_wait_to_be_woken<S>(
    accept: &mut SessionAccept<S>,
    waker: &std::task::Waker,
    action: Action<S>,
)
    requires
        call_ensures(SessionAccept::<S>::poll_accept_uni, (accept, Event::Idle, waker), action),
    ensures
        action is Wait,
        exists|i: int|
            0 <= i < final(accept).uni_wakers().len() && (answers(
                #[trigger] final(accept).uni_wakers()[i],
                *waker,
                true,
            ) || is_copy(final(accept).uni_wakers()[i], *waker)),
        old(accept).uni_wakers().is_prefix_of(final(accept).uni_wakers()),
        final(accept).uni_wakers().len() <= old(accept).uni_wakers().len() + 1,
        final(accept).uni_wakers().len() > old(accept).uni_wakers().len() ==> forall|i: int|
            0 <= i < old(accept).uni_wakers().len() ==> answers(
                #[trigger] old(accept).uni_wakers()[i],
                *waker,
                false,
            ),
        final(accept).bi_wakers() == old(accept).bi_wakers(),
        final(accept).qpack_encoder() == old(accept).qpack_encoder(),
        final(accept).qpack_decoder() == old(accept).qpack_decoder(),
        final(accept).session_id() == old(accept).session_id(),
{
    let before = old(accept).uni_wakers();
    let after = final(accept).uni_wakers();
    lemma_noted_down(before, after, *waker);
    let i = choose|i: int| 0 <= i < after.len() && wakes(#[trigger] after[i], *waker);
    assert(answers(after[i], *waker, true) || is_copy(after[i], *waker));
    if after != before {
        assert(before =~= after.drop_last());
    }
}

/// What becomes of a bidirectional stream of which `data` has arrived. With the type 0x41 and the number of the
/// session it goes to the caller, with all of its own data that is there, and whoever waits is woken. With
/// another number, or if it ends too early, it is dropped without a trace. A stream of any other type is dropped. Until that can be told, more
/// of it is read.
pub proof fn law_bi_streams_go_where_they_belong<S, B>(
    accept: &mut SessionAccept<S>,
    stream: B,
    data: Vec<u8>,
    ended: bool,
    waker: &std::task::Waker,
    action: Action<B>,
)
    requires
        call_ensures(
            SessionAccept::<S>::poll_accept_bi::<B>,
            (accept, Event::Received { stream, data, ended }, waker),
            action,
        ),
    ensures
        (match crate::wire::varint_decode(data@) {
            None => if ended {
                action is Continue
            } else {
                action == (Action::Read { stream, data })
            },
            Some((typ, n)) => if typ != 0x41 {
                action is Continue
            } else {
                match crate::wire::varint_decode(data@.skip(n as int)) {
                    None => if ended {
                        action is Continue
                    } else {
                        action == (Action::Read { stream, data })
                    },
                    Some((id, m)) => if id != old(accept).session_id() {
                        action is Continue
                    } else {
                        action matches Action::Accepted { stream: accepted, leftover, wake }
                            && accepted == stream && leftover@ == data@.skip((n + m) as int) && wake@
                            == old(accept).bi_wakers()
                    },
                }
            },
        }),
        final(accept).bi_wakers() == if action is Accepted {
            Seq::<std::task::Waker>::empty()
        } else {
            old(accept).bi_wakers()
        },
        final(accept).uni_wakers() == old(accept).uni_wakers(),
        final(accept).qpack_encoder() == old(accept).qpack_encoder(),
        final(accept).qpack_decoder() == old(accept).qpack_decoder(),
        final(accept).session_id() == old(accept).session_id(),
{
}

/// A bidirectional stream that the peer opened is read from its first byte on, and a connection that failed is an
/// error for the caller, as the session reports it, for which whoever waits is woken.
pub proof fn law_bi_streams_are_read_from_the_start<S, B>(
    opening: &mut SessionAccept<S>,
    failing: &mut SessionAccept<S>,
    stream: B,
    e: ConnectionError,
    own: SessionError,
    waker: &std::task::Waker,
    read: Action<B>,
    failed: Action<B>,
)
    requires
        call_ensures(
            SessionAccept::<S>::poll_accept_bi::<B>,
            (opening, Event::Opened(stream), waker),
            read,
        ),
        call_ensures(
            SessionAccept::<S>::poll_accept_bi::<B>,
            (failing, Event::Failed(e), waker),
            failed,
        ),
        call_ensures(SessionError::from_connection, (e,), own),
    ensures
        read matches Action::Read { stream: s, data } && s == stream && data@.len() == 0,
        final(opening).bi_wakers() == old(opening).bi_wakers(),
        final(opening).qpack_encoder() == old(opening).qpack_encoder(),
        final(opening).qpack_decoder() == old(opening).qpack_decoder(),
        failed matches Action::Error { error, wake } && wake@ == old(failing).bi_wakers() && (own
            is ConnectionError ==> error == own) && (own matches SessionError::WebTransportError(
            crate::error::WebTransportError::Closed(code, _),
        ) ==> error.is_closed(code, Seq::empty())),
        final(failing).bi_wakers().len() == 0,
        final(failing).uni_wakers() == old(failing).uni_wakers(),
        final(failing).qpack_encoder() == old(failing).qpack_encoder(),
        final(failing).qpack_decoder() == old(failing).qpack_decoder(),
        final(failing).session_id() == old(failing).session_id(),
        final(opening).uni_wakers() == old(opening).uni_wakers(),
        final(opening).session_id() == old(opening).session_id(),
{
}

/// A caller for whom there is no bidirectional stream waits, and is then noted down: by a handle that already wakes
/// it, or by a copy of its own behind all the others, if none of them does.
pub proof fn law_bi_callers_wait_to_be_woken<S, B>(
    accept: &mut SessionAccept<S>,
    waker: &std::task::Waker,
    action: Action<B>,
)
    requires
        call_ensures(SessionAccept::<S>::poll_accept_bi::<B>, (accept, Event::Idle, waker), action),
    ensures
        action is Wait,
        exists|i: int|
            0 <= i < final(accept).bi_wakers().len() && (answers(
                #[trigger] final(accept).bi_wakers()[i],
                *waker,
                true,
            ) || is_copy(final(accept).bi_wakers()[i], *waker)),
        old(accept).bi_wakers().is_prefix_of(final(accept).bi_wakers()),
        final(accept).bi_wakers().len() <= old(accept).bi_wakers().len() + 1,
        final(accept).bi_wakers().len() > old(accept).bi_wakers().len() ==> forall|i: int|
            0 <= i < old(accept).bi_wakers().len() ==> answers(
                #[trigger] old(accept).bi_wakers()[i],
                *waker,
                false,
            ),
        final(accept).uni_wakers() == old(accept).uni_wakers(),
        final(accept).qpack_encoder() == old(accept).qpack_encoder(),
        final(accept).qpack_decoder() == old(accept).qpack_decoder(),
        final(accept).session_id() == old(accept).session_id(),
{
    let before = old(accept).bi_wakers();
    let after = final(accept).bi_wakers();
    lemma_noted_down(before, after, *waker);
    let i = choose|i: int| 0 <= i < after.len() && wakes(#[trigger] after[i], *waker);
    assert(answers(after[i], *waker, true) || is_copy(after[i], *waker));
    if after != before {
        assert(before =~= after.drop_last());
    }
}

/// A new accept loop is for the streams of its session, and nobody waits.
pub proof fn law_new_accept_loop_is_empty<S>(session_id: u64, r: SessionAccept<S>)
    requires
        call_ensures(SessionAccept::<S>::new, (session_id,), r),
    ensures
        r.session_id() == session_id,
        r.qpack_encoder() is None,
        r.qpack_decoder() is None,
        r.uni_wakers().len() == 0,
        r.bi_wakers().len() == 0,
{
}

/// What a handle answers is what `will_wake` gives for it, and a copy is what `clone_waker` gives.
proof fn lemma_answers_and_copies(
    noted: std::task::Waker,
    waker: std::task::Waker,
    same: bool,
)
    ensures
        answers(noted, waker, same) == call_ensures(will_wake, (&noted, &waker), same),
        is_copy(noted, waker) == call_ensures(clone_waker, (&waker,), noted),
{
}

/// A task that is not known is noted down behind the others by a copy, and one that is known is not.
pub proof fn law_unknown_tasks_are_noted_down(
    fresh: &mut Vec<std::task::Waker>,
    full: &mut Vec<std::task::Waker>,
    waker: &std::task::Waker,
)
    requires
        call_ensures(note_waker, (fresh, false, waker), ()),
        call_ensures(note_waker, (full, true, waker), ()),
    ensures
        final(fresh)@.len() == old(fresh)@.len() + 1,
        old(fresh)@.is_prefix_of(final(fresh)@),
        is_copy(final(fresh)@.last(), *waker),
        final(full)@ == old(full)@,
{
    assert(old(fresh)@ =~= final(fresh)@.drop_last());
}

} // verus!
