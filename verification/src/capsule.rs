//! The capsules on the CONNECT stream, by which a session learns that the peer closed it.

use vstd::prelude::*;
use web_transport_proto::Capsule as ProtoCapsule;
use web_transport_proto::CapsuleError as ProtoCapsuleError;

use crate::header;
use crate::header::FRAME_DATA;
use crate::wire;
use crate::wire::{encode_varint, varint_from_u64};

verus! {

/// The type of the capsule that closes a session.
pub const CLOSE_WEBTRANSPORT_SESSION: u64 = 0x2843;

/// The largest capsule, and the largest DATA frame, that a reader takes.
pub const MAX_CAPSULE_SIZE: u64 = 65536;

/// Reads capsules from an HTTP/3 CONNECT stream of type `S`.
#[verifier::external_type_specification]
#[verifier::external_body]
#[verifier::reject_recursive_types(S)]
pub struct ExHttp3CapsuleReader<S>(web_transport_proto::Http3CapsuleReader<S>);

/// What one read of a CONNECT stream gives.
pub enum CapsuleRead {
    /// The capsule that closes the session, with its code and reason.
    Close(u32, String),
    /// Any other capsule.
    Other,
    /// Nothing is left, and the last capsule was complete.
    End,
    /// The bytes end in the middle of something.
    Incomplete,
    /// What comes is no capsule.
    Invalid,
}

/// What one read of a CONNECT stream gives, in contracts.
pub enum CapsuleStep {
    Close(u32, Seq<char>),
    Other,
    End,
    Incomplete,
    Invalid,
}

impl View for CapsuleRead {
    type V = CapsuleStep;

    open spec fn view(&self) -> CapsuleStep {
        match *self {
            CapsuleRead::Close(code, reason) => CapsuleStep::Close(code, reason@),
            CapsuleRead::Other => CapsuleStep::Other,
            CapsuleRead::End => CapsuleStep::End,
            CapsuleRead::Incomplete => CapsuleStep::Incomplete,
            CapsuleRead::Invalid => CapsuleStep::Invalid,
        }
    }
}

impl CapsuleStep {
    /// Says that nothing can be read after this.
    pub open spec fn is_last(self) -> bool {
        self is End || self is Incomplete || self is Invalid
    }
}

/// The capsule that closes a session, on the wire: its type, the length of what follows, the code
/// and the reason. The length is cut to 32 bits.
pub open spec fn close_capsule(code: u32, reason: Seq<char>) -> Seq<u8> {
    wire::varint_bytes(CLOSE_WEBTRANSPORT_SESSION) + wire::varint_bytes(
        ((4 + vstd::utf8::encode_utf8(reason).len()) % 0x1_0000_0000) as u64,
    ) + wire::be_bytes(code as nat, 4) + vstd::utf8::encode_utf8(reason)
}

/// An HTTP/3 DATA frame around `payload`.
pub open spec fn data_frame(payload: Seq<u8>) -> Seq<u8> {
    wire::varint_bytes(FRAME_DATA) + wire::varint_bytes(payload.len() as u64) + payload
}

/// What reading `stream` to its end gives, read by read: capsules, and then what stops the reader.
pub uninterp spec fn capsule_steps(stream: Seq<u8>) -> Seq<CapsuleStep>;

/// What `reader` has yet to give, read by read.
pub uninterp spec fn steps_ahead(
    reader: web_transport_proto::Http3CapsuleReader<&[u8]>,
) -> Seq<CapsuleStep>;

/// Says that only the last of `steps` stops a reader.
pub open spec fn one_last_step(steps: Seq<CapsuleStep>) -> bool {
    &&& steps.len() > 0
    &&& forall|i: int| 0 <= i < steps.len() ==> (#[trigger] steps[i]).is_last() == (i == steps.len()
        - 1)
}

/// Says that where `stream` ends between two capsules, the reads of a longer one are `steps`, the reads
/// of `stream`, and then those of the rest.
pub open spec fn reads_on(stream: Seq<u8>, steps: Seq<CapsuleStep>) -> bool {
    steps.last() is End ==> forall|rest: Seq<u8>| #[trigger]
        capsule_steps(stream + rest) == steps.drop_last() + capsule_steps(rest)
}

/// Says that more bytes do not change what has been read: the capsules among `steps`, the reads of
/// `stream`, are the first reads of any longer stream, and where `stream` holds what is no capsule, so does
/// the longer one.
pub open spec fn reads_stay(stream: Seq<u8>, steps: Seq<CapsuleStep>) -> bool {
    forall|rest: Seq<u8>|
        {
            &&& steps.drop_last().is_prefix_of(#[trigger] capsule_steps(stream + rest))
            &&& steps.last() is Invalid ==> capsule_steps(stream + rest) == steps
        }
}

/// A capsule of type `typ` on the wire: its type, the length of what follows, and the payload.
pub open spec fn any_capsule(typ: u64, payload: Seq<u8>) -> Seq<u8> {
    wire::varint_bytes(typ) + wire::varint_bytes(payload.len() as u64) + payload
}

/// Says that each of `others`, by type and payload, is a capsule that a reader takes and that closes no
/// session.
pub open spec fn are_others(others: Seq<(u64, Seq<u8>)>) -> bool {
    forall|i: int|
        0 <= i < others.len() ==> {
            &&& (#[trigger] others[i]).0 != CLOSE_WEBTRANSPORT_SESSION
            &&& others[i].0 < wire::VARINT_LIMIT
            &&& any_capsule(others[i].0, others[i].1).len() <= MAX_CAPSULE_SIZE
        }
}

/// These capsules one after the other, each in a DATA frame.
pub open spec fn frames_of(capsules: Seq<(u64, Seq<u8>)>) -> Seq<u8>
    decreases capsules.len(),
{
    if capsules.len() == 0 {
        Seq::empty()
    } else {
        frames_of(capsules.drop_last()) + data_frame(
            any_capsule(capsules.last().0, capsules.last().1),
        )
    }
}

/// A close capsule in a DATA frame, behind `others`.
pub open spec fn close_behind(others: Seq<(u64, Seq<u8>)>, code: u32, reason: Seq<char>) -> Seq<u8> {
    frames_of(others) + data_frame(close_capsule(code, reason))
}

/// Says that a reader takes the close capsule and those before it.
pub open spec fn is_taken(others: Seq<(u64, Seq<u8>)>, code: u32, reason: Seq<char>) -> bool {
    are_others(others) && close_capsule(code, reason).len() <= MAX_CAPSULE_SIZE
}

/// Says that of a stream with a close capsule behind others, each in a DATA frame, `steps`, the reads of
/// `stream`, give one other after the other and then the close.
pub open spec fn reads_back(stream: Seq<u8>, steps: Seq<CapsuleStep>) -> bool {
    forall|others: Seq<(u64, Seq<u8>)>, code: u32, reason: Seq<char>, rest: Seq<u8>|
        stream == #[trigger] (close_behind(others, code, reason) + rest) && is_taken(
            others,
            code,
            reason,
        ) ==> {
            &&& others.len() < steps.len()
            &&& forall|i: int| 0 <= i < others.len() ==> #[trigger] steps[i] is Other
            &&& steps[others.len() as int] == CapsuleStep::Close(code, reason)
        }
}

/// Says that of a stream with a close capsule behind others that has not arrived in full, nothing but
/// others is read before the bytes end.
pub open spec fn waits(stream: Seq<u8>, steps: Seq<CapsuleStep>) -> bool {
    forall|others: Seq<(u64, Seq<u8>)>, code: u32, reason: Seq<char>, k: int|
        0 <= k < close_behind(others, code, reason).len() && is_taken(others, code, reason) && stream
            == #[trigger] close_behind(others, code, reason).take(k) ==> {
            &&& forall|i: int| 0 <= i < steps.len() - 1 ==> #[trigger] steps[i] is Other
            &&& steps.last() is End || steps.last() is Incomplete
            &&& k == 0 ==> steps.last() is End
            &&& k > 0 && others.len() == 0 ==> steps.last() is Incomplete
        }
}

/// `web_transport_proto::Http3CapsuleReader::new` starts to read `stream`. What its reads give depends
/// on the bytes alone. It ends with the one read that gives no capsule. A stream that ends between
/// two capsules leaves nothing behind in the reader, so that reading on is the same as reading what
/// follows by itself. More bytes never change what has been read. And where capsules of at most 65536 bytes
/// come each in a DATA frame, those of other types are told from the one that closes the session, and this
/// is read back once all of it is there.
#[verifier::external_body]
fn capsule_reader(stream: &[u8]) -> (r: web_transport_proto::Http3CapsuleReader<&[u8]>)
    ensures
        steps_ahead(r) == capsule_steps(stream@),
        one_last_step(steps_ahead(r)),
        reads_on(stream@, steps_ahead(r)),
        reads_stay(stream@, steps_ahead(r)),
        reads_back(stream@, steps_ahead(r)),
        waits(stream@, steps_ahead(r)),
{
    web_transport_proto::Http3CapsuleReader::new(stream)
}

/// `web_transport_proto::Http3CapsuleReader::read` gives the next of what is ahead. On bytes in memory
/// it never has to wait.
#[verifier::external_body]
fn read_capsule(reader: &mut web_transport_proto::Http3CapsuleReader<&[u8]>) -> (r: CapsuleRead)
    requires
        steps_ahead(*old(reader)).len() > 0,
    ensures
        r@ == steps_ahead(*old(reader))[0],
        steps_ahead(*final(reader)) == steps_ahead(*old(reader)).skip(1),
{
    match futures::FutureExt::now_or_never(tokio::task::unconstrained(reader.read())) {
        Some(Ok(Some(ProtoCapsule::CloseWebTransportSession { code, reason }))) => {
            CapsuleRead::Close(code, reason)
        },
        Some(Ok(Some(_))) => CapsuleRead::Other,
        Some(Ok(None)) => CapsuleRead::End,
        Some(Err(ProtoCapsuleError::UnexpectedEnd)) => CapsuleRead::Incomplete,
        Some(Err(ProtoCapsuleError::Io(_))) => CapsuleRead::Incomplete,
        _ => CapsuleRead::Invalid,
    }
}

/// `web_transport_proto::Capsule::encode` writes the capsule that closes a session.
#[verifier::external_body]
fn encode_close_capsule(code: u32, reason: &str) -> (r: Vec<u8>)
    ensures
        r@ == close_capsule(code, reason@),
{
    let mut buf = Vec::new();
    ProtoCapsule::CloseWebTransportSession { code, reason: reason.to_string() }.encode(&mut buf);
    buf
}

/// The bytes that tell the peer that the session is closed: the close capsule, wrapped in an HTTP/3
/// DATA frame. `None` if the capsule is too large to be framed.
pub fn close_frame(code: u32, reason: &str) -> (r: Option<Vec<u8>>)
    ensures
        (match r {
            Some(frame) => close_capsule(code, reason@).len() < wire::VARINT_LIMIT && frame@
                == data_frame(close_capsule(code, reason@)),
            None => close_capsule(code, reason@).len() >= wire::VARINT_LIMIT,
        }),
{
    let capsule = encode_close_capsule(code, reason);
    let mut frame: Vec<u8> = Vec::new();
    encode_varint(FRAME_DATA, &mut frame);
    let len = match varint_from_u64(capsule.len() as u64) {
        Some(len) => len,
        None => return None,
    };
    encode_varint(len, &mut frame);
    frame.extend_from_slice(capsule.as_slice());
    assert(frame@ =~= data_frame(capsule@));
    Some(frame)
}

/// How far the capsules of a CONNECT stream have been read.
#[derive(Debug, PartialEq, Eq)]
pub enum Capsules {
    /// The stream goes on; so far it ended between two capsules, so that what has been read can be
    /// dropped.
    Idle,
    /// The stream goes on in the middle of a capsule.
    Partial,
    /// The session is over: the peer closed it with a code and a reason, or the stream broke off.
    Done(Option<(u32, String)>),
}

/// What the reads of a stream come to: the first close capsule, or else how they ended.
pub open spec fn outcome(steps: Seq<CapsuleStep>, finished: bool) -> CapsuleOutcome
    decreases steps.len(),
{
    if steps.len() == 0 {
        CapsuleOutcome::Done(None)
    } else {
        match steps[0] {
            CapsuleStep::Close(code, reason) => CapsuleOutcome::Done(Some((code, reason))),
            CapsuleStep::Other => outcome(steps.skip(1), finished),
            CapsuleStep::End => if finished {
                CapsuleOutcome::Done(None)
            } else {
                CapsuleOutcome::Idle
            },
            CapsuleStep::Incomplete => if finished {
                CapsuleOutcome::Done(None)
            } else {
                CapsuleOutcome::Partial
            },
            CapsuleStep::Invalid => CapsuleOutcome::Done(None),
        }
    }
}

/// How far the capsules of a CONNECT stream have been read, in contracts.
pub enum CapsuleOutcome {
    Idle,
    Partial,
    Done(Option<(u32, Seq<char>)>),
}

impl View for Capsules {
    type V = CapsuleOutcome;

    open spec fn view(&self) -> CapsuleOutcome {
        match *self {
            Capsules::Idle => CapsuleOutcome::Idle,
            Capsules::Partial => CapsuleOutcome::Partial,
            Capsules::Done(Some((code, reason))) => CapsuleOutcome::Done(Some((code, reason@))),
            Capsules::Done(None) => CapsuleOutcome::Done(None),
        }
    }
}

/// Reads that give other capsules first come to what the reads after them come to.
proof fn lemma_outcome_skips_others(others: Seq<CapsuleStep>, rest: Seq<CapsuleStep>, finished: bool)
    requires
        forall|i: int| 0 <= i < others.len() ==> #[trigger] others[i] is Other,
    ensures
        outcome(others + rest, finished) == outcome(rest, finished),
    decreases others.len(),
{
    if others.len() == 0 {
        assert(others + rest =~= rest);
    } else {
        assert((others + rest)[0] == others[0]);
        assert((others + rest).skip(1) =~= others.skip(1) + rest);
        lemma_outcome_skips_others(others.skip(1), rest, finished);
    }
}

/// Says that what `received` comes to is settled: it is `settled`, whatever follows.
pub open spec fn is_settled(received: Seq<u8>, settled: CapsuleOutcome) -> bool {
    forall|rest: Seq<u8>, finished: bool| #[trigger]
        outcome(capsule_steps(received + rest), finished) == settled
}

/// Says that a stream of which `received` has arrived can be read on as if it had only begun.
pub open spec fn can_forget(received: Seq<u8>) -> bool {
    forall|rest: Seq<u8>, finished: bool| #[trigger]
        outcome(capsule_steps(received + rest), finished) == outcome(capsule_steps(rest), finished)
}

/// Says that a stream goes on of which `k` bytes have arrived, and a close behind so many other capsules not
/// in full.
pub open spec fn is_waiting(others: nat, k: int, outcome: CapsuleOutcome) -> bool {
    &&& outcome is Idle || outcome is Partial
    &&& k == 0 ==> outcome is Idle
    &&& k > 0 && others == 0 ==> outcome is Partial
}

/// Where the first read that gives no other capsule comes to `done`, so does a close behind others, and one
/// that is not there in full comes to nothing yet.
proof fn lemma_reads_of_close(
    stream: Seq<u8>,
    steps: Seq<CapsuleStep>,
    taken: int,
    finished: bool,
    done: CapsuleOutcome,
)
    requires
        0 <= taken < steps.len(),
        one_last_step(steps),
        reads_back(stream, steps),
        waits(stream, steps),
        forall|i: int| 0 <= i < taken ==> #[trigger] steps[i] is Other,
        !(steps[taken] is Other),
        done == outcome(seq![steps[taken]], finished),
    ensures
        forall|others: Seq<(u64, Seq<u8>)>, code: u32, reason: Seq<char>, rest: Seq<u8>|
            stream == #[trigger] (close_behind(others, code, reason) + rest) && is_taken(
                others,
                code,
                reason,
            ) ==> done == CapsuleOutcome::Done(Some((code, reason))),
        !finished ==> forall|others: Seq<(u64, Seq<u8>)>, code: u32, reason: Seq<char>, k: int|
            0 <= k < close_behind(others, code, reason).len() && is_taken(others, code, reason)
                && stream == #[trigger] close_behind(others, code, reason).take(k) ==> is_waiting(
                others.len(),
                k,
                done,
            ),
{
    assert(seq![steps[taken]][0] == steps[taken]);
    assert forall|others: Seq<(u64, Seq<u8>)>, code: u32, reason: Seq<char>, rest: Seq<u8>|
        stream == #[trigger] (close_behind(others, code, reason) + rest) && is_taken(
            others,
            code,
            reason,
        ) implies done == CapsuleOutcome::Done(Some((code, reason))) by {
        assert(steps[others.len() as int] == CapsuleStep::Close(code, reason));
        assert(taken == others.len());
    }
    if !finished {
        assert forall|others: Seq<(u64, Seq<u8>)>, code: u32, reason: Seq<char>, k: int|
            0 <= k < close_behind(others, code, reason).len() && is_taken(others, code, reason)
                && stream == #[trigger] close_behind(others, code, reason).take(k) implies is_waiting(
            others.len(),
            k,
            done,
        ) by {
            assert(taken == steps.len() - 1);
        }
    }
}

/// A close, or what is no capsule, is still there when the stream has gone on.
proof fn lemma_done_is_settled(
    stream: Seq<u8>,
    steps: Seq<CapsuleStep>,
    taken: int,
    done: CapsuleOutcome,
)
    requires
        0 <= taken < steps.len(),
        one_last_step(steps),
        reads_stay(stream, steps),
        forall|i: int| 0 <= i < taken ==> #[trigger] steps[i] is Other,
        !(steps[taken] is Other),
        done == outcome(seq![steps[taken]], false),
        done is Done,
    ensures
        is_settled(stream, done),
{
    assert(seq![steps[taken]][0] == steps[taken]);
    assert forall|rest: Seq<u8>, finished: bool| #[trigger]
        outcome(capsule_steps(stream + rest), finished) == done by {
        let longer = capsule_steps(stream + rest);
        assert(steps.drop_last().is_prefix_of(longer));
        if steps[taken] is Close {
            assert(taken < steps.len() - 1);
            assert(longer[taken] == steps.drop_last()[taken]);
        }
        assert forall|i: int| 0 <= i < taken implies #[trigger] longer[i] is Other by {
            assert(longer[i] == steps.drop_last()[i]);
        }
        let others = longer.take(taken);
        assert(longer =~= others + longer.skip(taken));
        lemma_outcome_skips_others(others, longer.skip(taken), finished);
        assert(longer.skip(taken)[0] == steps[taken]);
    }
}

/// Reads capsules off the CONNECT stream, of which `received` has arrived, until one closes the
/// session or there are no more. `finished` says that nothing follows.
pub fn read_capsules(received: &[u8], finished: bool) -> (r: Capsules)
    ensures
        r@ == outcome(capsule_steps(received@), finished),
        // What a peer's close wrote is what is read, also behind other capsules.
        forall|others: Seq<(u64, Seq<u8>)>, code: u32, reason: Seq<char>, rest: Seq<u8>|
            received@ == #[trigger] (close_behind(others, code, reason) + rest) && is_taken(
                others,
                code,
                reason,
            ) ==> r@ == CapsuleOutcome::Done(Some((code, reason))),
        // Until it is complete the stream goes on.
        !finished ==> forall|others: Seq<(u64, Seq<u8>)>, code: u32, reason: Seq<char>, k: int|
            0 <= k < close_behind(others, code, reason).len() && is_taken(others, code, reason)
                && received@ == #[trigger] close_behind(others, code, reason).take(k) ==> is_waiting(
                others.len(),
                k,
                r@,
            ),
        // What the stream has come to, more bytes do not change.
        r is Done && !finished ==> is_settled(received@, r@),
        // Dropping what has been read does not change what is read next.
        r is Idle ==> can_forget(received@),
{
    let mut reader = capsule_reader(received);
    let ghost all = steps_ahead(reader);
    let ghost mut taken: int = 0;
    loop
        invariant
            0 <= taken < all.len(),
            one_last_step(all),
            all == capsule_steps(received@),
            steps_ahead(reader) == all.skip(taken),
            forall|i: int| 0 <= i < taken ==> #[trigger] all[i] is Other,
            reads_on(received@, all),
            reads_stay(received@, all),
            reads_back(received@, all),
            waits(received@, all),
        decreases all.len() - taken,
    {
        let read = read_capsule(&mut reader);
        assert(read@ == all[taken]);
        if let Some(done) = capsules_after(read, finished) {
            proof {
                let others = all.take(taken);
                assert(all =~= others + all.skip(taken));
                lemma_outcome_skips_others(others, all.skip(taken), finished);
                assert(all.skip(taken)[0] == read@);
                assert(seq![read@][0] == read@);
                lemma_reads_of_close(received@, all, taken, finished, done@);
                if done is Done && !finished {
                    lemma_done_is_settled(received@, all, taken, done@);
                }
                if done is Idle {
                    assert(taken == all.len() - 1);
                    assert(all.drop_last() =~= others);
                    assert forall|rest: Seq<u8>, finished: bool| #[trigger]
                        outcome(capsule_steps(received@ + rest), finished) == outcome(
                        capsule_steps(rest),
                        finished,
                    ) by {
                        lemma_outcome_skips_others(others, capsule_steps(rest), finished);
                    }
                }
            }
            return done;
        }
        proof {
            taken = taken + 1;
            assert(all.skip(taken - 1).skip(1) =~= all.skip(taken));
        }
    }
}

/// What one read of a CONNECT stream leads to; `None` asks for the next read.
pub fn capsules_after(read: CapsuleRead, finished: bool) -> (r: Option<Capsules>)
    ensures
        (match r {
            Some(done) => !(read is Other) && done@ == outcome(seq![read@], finished),
            None => read is Other,
        }),
{
    match read {
        CapsuleRead::Close(code, reason) => Some(Capsules::Done(Some((code, reason)))),
        CapsuleRead::Other => None,
        CapsuleRead::End => Some(
            if finished {
                Capsules::Done(None)
            } else {
                Capsules::Idle
            },
        ),
        CapsuleRead::Incomplete => Some(
            if finished {
                Capsules::Done(None)
            } else {
                Capsules::Partial
            },
        ),
        CapsuleRead::Invalid => Some(Capsules::Done(None)),
    }
}

/// What reads come to is what the first of them says that gives no other capsule.
pub proof fn lemma_outcome_at(steps: Seq<CapsuleStep>, n: int, finished: bool)
    requires
        0 <= n < steps.len(),
        forall|i: int| 0 <= i < n ==> #[trigger] steps[i] is Other,
    ensures
        (match steps[n] {
            CapsuleStep::Close(code, reason) => outcome(steps, finished) == CapsuleOutcome::Done(
                Some((code, reason)),
            ),
            CapsuleStep::Other => true,
            CapsuleStep::End => outcome(steps, finished) == if finished {
                CapsuleOutcome::Done(None)
            } else {
                CapsuleOutcome::Idle
            },
            CapsuleStep::Incomplete => outcome(steps, finished) == if finished {
                CapsuleOutcome::Done(None)
            } else {
                CapsuleOutcome::Partial
            },
            CapsuleStep::Invalid => outcome(steps, finished) == CapsuleOutcome::Done(None),
        }),
{
    let others = steps.take(n);
    assert(steps =~= others + steps.skip(n));
    lemma_outcome_skips_others(others, steps.skip(n), finished);
    assert(steps.skip(n)[0] == steps[n]);
}

/// The first read that gives no other capsule decides, whatever comes behind it: a close gives its code and
/// reason, what is no capsule ends the session without, and where the bytes end the session is over only if
/// nothing follows.
pub proof fn law_first_read_decides(received: &[u8], finished: bool, r: Capsules, n: int)
    requires
        call_ensures(read_capsules, (received, finished), r),
        0 <= n < capsule_steps(received@).len(),
        forall|i: int| 0 <= i < n ==> #[trigger] capsule_steps(received@)[i] is Other,
    ensures
        (match capsule_steps(received@)[n] {
            CapsuleStep::Close(code, reason) => r matches Capsules::Done(Some((c, told))) && c == code
                && told@ == reason,
            CapsuleStep::Other => true,
            CapsuleStep::End => r == if finished {
                Capsules::Done(None)
            } else {
                Capsules::Idle
            },
            CapsuleStep::Incomplete => r == if finished {
                Capsules::Done(None)
            } else {
                Capsules::Partial
            },
            CapsuleStep::Invalid => r == Capsules::Done(None),
        }),
{
    lemma_outcome_at(capsule_steps(received@), n, finished);
}

/// What tells the peer of a close is read back as that close, behind whatever other capsules, whatever
/// follows, and whether or not the stream goes on.
pub proof fn law_close_frame_is_read_back(
    code: u32,
    reason: &str,
    frame: Option<Vec<u8>>,
    others: Seq<(u64, Seq<u8>)>,
    rest: Seq<u8>,
    received: &[u8],
    finished: bool,
    r: Capsules,
)
    requires
        call_ensures(close_frame, (code, reason), frame),
        call_ensures(read_capsules, (received, finished), r),
        vstd::utf8::encode_utf8(reason@).len() <= 65500,
        are_others(others),
        frame matches Some(bytes) ==> received@ == frames_of(others) + bytes@ + rest,
    ensures
        frame is Some,
        r matches Capsules::Done(Some((c, told))) && c == code && told@ == reason@,
{
    let len = ((4 + vstd::utf8::encode_utf8(reason@).len()) % 0x1_0000_0000) as u64;
    wire::law_varint_round_trip(CLOSE_WEBTRANSPORT_SESSION, Seq::empty());
    wire::law_varint_round_trip(len, Seq::empty());
    wire::lemma_be_len(code as nat, 4);
    assert(is_taken(others, code, reason@));
    if let Some(bytes) = frame {
        assert(frames_of(others) + bytes@ + rest =~= close_behind(others, code, reason@) + rest);
    }
}

/// What a single read leads to depends on that read alone: only another capsule leads to the next read.
pub proof fn law_only_other_capsules_are_passed_over(
    read: CapsuleRead,
    finished: bool,
    r: Option<Capsules>,
)
    requires
        call_ensures(capsules_after, (read, finished), r),
    ensures
        r is None <==> read is Other,
        read matches CapsuleRead::Close(code, reason) ==> (r matches Some(
            Capsules::Done(Some((c, told))),
        ) && c == code && told@ == reason@),
        read is Invalid ==> r == Some(Capsules::Done(None)),
        finished && (read is End || read is Incomplete) ==> r == Some(Capsules::Done(None)),
        !finished && read is End ==> r == Some(Capsules::Idle),
        !finished && read is Incomplete ==> r == Some(Capsules::Partial),
{
}

} // verus!
