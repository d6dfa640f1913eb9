//! The SETTINGS exchange that opens an HTTP/3 connection and announces WebTransport.

use vstd::prelude::*;
use web_transport_proto::Settings as ProtoSettings;
use web_transport_proto::SettingsError as ProtoSettingsError;

use crate::error::{ConnectionError, SettingsError};

verus! {

/// The setting that bounds the header section of a request.
pub const MAX_FIELD_SECTION_SIZE: u64 = 0x6;

/// The setting that enables extended CONNECT.
pub const ENABLE_CONNECT_PROTOCOL: u64 = 0x8;

/// The setting that enables datagrams.
pub const ENABLE_DATAGRAM: u64 = 0x33;

/// The earlier number of the setting that enables datagrams.
pub const ENABLE_DATAGRAM_DEPRECATED: u64 = 0xFFD277;

/// The earlier setting that enables WebTransport.
pub const WEBTRANSPORT_ENABLE_DEPRECATED: u64 = 0x2b603742;

/// The earlier setting that limits the number of sessions.
pub const WEBTRANSPORT_MAX_SESSIONS_DEPRECATED: u64 = 0x2b603743;

/// The setting that limits the number of sessions and thereby enables WebTransport.
pub const WEBTRANSPORT_MAX_SESSIONS: u64 = 0xc671706a;

/// The number of a setting.
#[verifier::external_type_specification]
#[verifier::external_body]
pub struct ExSetting(web_transport_proto::Setting);

/// A variable-length integer.
#[verifier::external_type_specification]
#[verifier::external_body]
pub struct ExVarInt(web_transport_proto::VarInt);

/// A map from settings to their values.
#[verifier::external_type_specification]
#[verifier::external_body]
pub struct ExProtoSettings(ProtoSettings);

/// The settings that a `web_transport_proto::Settings` holds, by number, and their values.
pub uninterp spec fn entries(settings: ProtoSettings) -> Map<u64, u64>;

/// What reading a SETTINGS frame gives.
pub enum Decoding {
    /// The bytes end before the frame does.
    Incomplete,
    /// The bytes are no SETTINGS frame.
    Invalid,
    /// The settings, and how many bytes they took.
    Done(Map<u64, u64>, nat),
}

/// What `web_transport_proto::Settings::decode` reads off the front of `data`, which starts a control
/// stream.
pub uninterp spec fn settings_at(data: Seq<u8>) -> Decoding;

/// What announcing WebTransport, for up to `max_sessions` sessions, adds to the settings.
pub open spec fn with_webtransport(settings: Map<u64, u64>, max_sessions: u32) -> Map<u64, u64> {
    settings.insert(MAX_FIELD_SECTION_SIZE, 16384).insert(ENABLE_CONNECT_PROTOCOL, 1).insert(
        ENABLE_DATAGRAM,
        1,
    ).insert(ENABLE_DATAGRAM_DEPRECATED, 1).insert(
        WEBTRANSPORT_MAX_SESSIONS,
        max_sessions as u64,
    ).insert(WEBTRANSPORT_MAX_SESSIONS_DEPRECATED, max_sessions as u64).insert(
        WEBTRANSPORT_ENABLE_DEPRECATED,
        1,
    )
}

/// How many sessions a peer with these settings supports: none without datagrams, and else what it
/// says in the current or in the earlier way. In the earlier way the limit may be left out.
pub open spec fn sessions(settings: Map<u64, u64>) -> u64 {
    let datagram = if settings.contains_key(ENABLE_DATAGRAM) {
        settings[ENABLE_DATAGRAM]
    } else if settings.contains_key(ENABLE_DATAGRAM_DEPRECATED) {
        settings[ENABLE_DATAGRAM_DEPRECATED]
    } else {
        0
    };
    if datagram != 1 {
        0
    } else if settings.contains_key(WEBTRANSPORT_MAX_SESSIONS) {
        settings[WEBTRANSPORT_MAX_SESSIONS]
    } else if !settings.contains_key(WEBTRANSPORT_ENABLE_DEPRECATED)
        || settings[WEBTRANSPORT_ENABLE_DEPRECATED] != 1 {
        0
    } else if settings.contains_key(WEBTRANSPORT_MAX_SESSIONS_DEPRECATED) {
        settings[WEBTRANSPORT_MAX_SESSIONS_DEPRECATED]
    } else {
        1
    }
}

/// Says that `id` is one of the reserved settings that a reader ignores.
pub open spec fn is_grease(id: u64) -> bool {
    id >= 0x21 && (id - 0x21) % 0x1f == 0
}

/// Says that the settings fit a frame and that a reader ignores none of them.
pub open spec fn is_readable(settings: Map<u64, u64>) -> bool {
    &&& settings.dom().finite()
    &&& settings.dom().len() <= 4096
    &&& forall|id: u64| #[trigger] settings.contains_key(id) ==> !is_grease(id)
}

/// Says that a reader gets `settings` once `frame` has arrived in full, whatever follows, and waits for
/// more until then.
pub open spec fn reads_as(frame: Seq<u8>, settings: Map<u64, u64>) -> bool {
    &&& forall|rest: Seq<u8>| #[trigger]
        settings_at(frame + rest) == Decoding::Done(settings, frame.len())
    &&& forall|k: int|
        0 <= k < frame.len() ==> #[trigger] settings_at(frame.take(k)) is Incomplete
}

/// `web_transport_proto::Settings::default` holds no settings.
#[verifier::external_body]
fn no_settings() -> (r: ProtoSettings)
    ensures
        (entries(r) == Map::<u64, u64>::empty()),
{
    ProtoSettings::default()
}

/// `web_transport_proto::Settings::enable_webtransport` sets, for every draft in use, that up to
/// `max_sessions` sessions are supported.
pub assume_specification[ ProtoSettings::enable_webtransport ](
    this: &mut ProtoSettings,
    max_sessions: u32,
)
    ensures
        entries(*final(this)) == with_webtransport(entries(*old(this)), max_sessions),
;

/// `web_transport_proto::Settings::supports_webtransport` says how many sessions are supported.
pub assume_specification[ ProtoSettings::supports_webtransport ](this: &ProtoSettings) -> (r: u64)
    ensures
        r == sessions(entries(*this)),
;

/// `web_transport_proto::Settings::encode` writes the settings, in no particular order. Up to 4096
/// of them fit the frame that a reader takes, and the reader gets them back, but for the reserved
/// ones, once the whole frame is there.
#[verifier::external_body]
fn encode_settings(settings: &ProtoSettings) -> (r: Vec<u8>)
    ensures
        is_readable(entries(*settings)) ==> reads_as(r@, entries(*settings)),
{
    let mut buf = Vec::new();
    settings.encode(&mut buf);
    buf
}

/// `web_transport_proto::Settings::decode` reads a SETTINGS frame off the front of `data` and says how
/// many bytes it took. With the error comes whether it is that `data` ends too early.
#[verifier::external_body]
fn decode_settings(data: &[u8]) -> (r: Result<(ProtoSettings, usize), (bool, ProtoSettingsError)>)
    ensures
        (match r {
            Ok((settings, n)) => n <= data@.len() && settings_at(data@) == Decoding::Done(
                entries(settings),
                n as nat,
            ),
            Err((true, _)) => settings_at(data@) is Incomplete,
            Err((false, _)) => settings_at(data@) is Invalid,
        }),
{
    let mut cursor = std::io::Cursor::new(data);
    match ProtoSettings::decode(&mut cursor) {
        Ok(settings) => Ok((settings, cursor.position() as usize)),
        Err(ProtoSettingsError::UnexpectedEnd) => Err((true, ProtoSettingsError::UnexpectedEnd)),
        Err(e) => Err((false, e)),
    }
}

/// Holds the HTTP/3 control streams open for the lifetime of the session.
pub struct Settings<T, R> {
    pub send: T,
    pub recv: R,
}

/// How far the exchange of SETTINGS has come: both directions run at the same time.
pub struct Exchange<T, R> {
    send: Option<T>,
    recv: Option<R>,
}

/// What happened in the exchange of SETTINGS.
pub enum Event<T, R> {
    /// The own frame is on its way, or could not be sent.
    Sent(Result<T, SettingsError>),
    /// The peer's frame was accepted, or could not be.
    Accepted(Result<R, SettingsError>),
}

impl<T, R> Exchange<T, R> {
    /// The own control stream, once the own frame is on its way.
    pub closed spec fn sent(self) -> Option<T> {
        self.send
    }

    /// The peer's control stream, once its frame was accepted.
    pub closed spec fn accepted(self) -> Option<R> {
        self.recv
    }

    /// An exchange in which nothing has happened.
    pub fn new() -> (r: Self)
        ensures
            r.sent() is None,
            r.accepted() is None,
    {
        Exchange { send: None, recv: None }
    }

    /// Runs both directions until one of them fails or both are complete: the result is the exchange to
    /// go on with, or its outcome.
    pub fn connect(self, event: Event<T, R>) -> (r: Result<
        Result<Settings<T, R>, SettingsError>,
        Exchange<T, R>,
    >)
        ensures
            (match event {
                Event::Sent(Err(e)) => r == Ok::<_, Exchange<T, R>>(
                    Err::<Settings<T, R>, SettingsError>(e),
                ),
                Event::Accepted(Err(e)) => r == Ok::<_, Exchange<T, R>>(
                    Err::<Settings<T, R>, SettingsError>(e),
                ),
                Event::Sent(Ok(send)) => match self.accepted() {
                    Some(recv) => r == Ok::<_, Exchange<T, R>>(
                        Ok::<_, SettingsError>((Settings { send, recv })),
                    ),
                    None => r matches Err(next) && next.sent() == Some(send) && next.accepted()
                        is None,
                },
                Event::Accepted(Ok(recv)) => match self.sent() {
                    Some(send) => r == Ok::<_, Exchange<T, R>>(
                        Ok::<_, SettingsError>((Settings { send, recv })),
                    ),
                    None => r matches Err(next) && next.accepted() == Some(recv) && next.sent()
                        is None,
                },
            }),
    {
        match event {
            Event::Sent(Err(e)) => Ok(Err(e)),
            Event::Accepted(Err(e)) => Ok(Err(e)),
            Event::Sent(Ok(send)) => match self.recv {
                Some(recv) => Ok(Ok(Settings { send, recv })),
                None => Err(Exchange { send: Some(send), recv: None }),
            },
            Event::Accepted(Ok(recv)) => match self.send {
                Some(send) => Ok(Ok(Settings { send, recv })),
                None => Err(Exchange { send: None, recv: Some(recv) }),
            },
        }
    }
}

/// The control stream that the QUIC layer opened or accepted, if it did.
pub fn control_stream<S>(stream: Result<Option<S>, ConnectionError>) -> (r: Result<
    S,
    SettingsError,
>)
    ensures
        (match stream {
            Ok(Some(s)) => r == Ok::<S, SettingsError>(s),
            Ok(None) => r == Err::<S, SettingsError>(SettingsError::UnexpectedEnd),
            Err(e) => r == Err::<S, SettingsError>(SettingsError::ConnectionError(e)),
        }),
{
    match stream {
        Ok(Some(s)) => Ok(s),
        Ok(None) => Err(SettingsError::UnexpectedEnd),
        Err(e) => Err(SettingsError::ConnectionError(e)),
    }
}

/// The SETTINGS frame with which a control stream is opened: it announces WebTransport, for one
/// session.
pub fn open() -> (r: Vec<u8>)
    ensures
        reads_as(r@, with_webtransport(Map::empty(), 1)),
{
    let mut settings = no_settings();
    settings.enable_webtransport(1);
    assert(is_readable(entries(settings))) by {
        let set = entries(settings).dom();
        assert(set =~= set![
            MAX_FIELD_SECTION_SIZE,
            ENABLE_CONNECT_PROTOCOL,
            ENABLE_DATAGRAM,
            ENABLE_DATAGRAM_DEPRECATED,
            WEBTRANSPORT_MAX_SESSIONS,
            WEBTRANSPORT_MAX_SESSIONS_DEPRECATED,
            WEBTRANSPORT_ENABLE_DEPRECATED,
        ]);
    }
    encode_settings(&settings)
}

/// Whether a peer with these settings supports WebTransport.
pub fn check(settings: &ProtoSettings) -> (r: Result<(), SettingsError>)
    ensures
        r == if sessions(entries(*settings)) == 0 {
            Err::<(), SettingsError>(SettingsError::WebTransportUnsupported)
        } else {
            Ok(())
        },
{
    if settings.supports_webtransport() == 0 {
        return Err(SettingsError::WebTransportUnsupported);
    }
    Ok(())
}

/// Says that `e` is why `data` is taken for no SETTINGS frame: `early` if it is that `data` ends too early.
pub closed spec fn refuses_settings(data: &[u8], early: bool, e: ProtoSettingsError) -> bool {
    call_ensures(
        decode_settings,
        (data,),
        Err::<(ProtoSettings, usize), (bool, ProtoSettingsError)>((early, e)),
    )
}

/// Reads the peer's SETTINGS frame, of which `data` has arrived on its control stream. `ended` says
/// that nothing follows. `None` asks for more bytes; else the result is how many the frame took.
pub fn accept(data: &[u8], ended: bool) -> (r: Option<Result<usize, SettingsError>>)
    ensures
        (match settings_at(data@) {
            Decoding::Incomplete => if ended {
                r matches Some(Err(SettingsError::ProtoError(e))) && refuses_settings(data, true, e)
            } else {
                r is None
            },
            Decoding::Invalid => r matches Some(Err(SettingsError::ProtoError(e)))
                && refuses_settings(data, false, e),
            Decoding::Done(settings, n) => if sessions(settings) == 0 {
                r matches Some(Err(SettingsError::WebTransportUnsupported))
            } else {
                r matches Some(Ok(len)) && len == n && len <= data@.len()
            },
        }),
{
    match decode_settings(data) {
        Ok((settings, n)) => match check(&settings) {
            Ok(()) => Some(Ok(n)),
            Err(e) => Some(Err(e)),
        },
        Err((incomplete, e)) => if incomplete && !ended {
            None
        } else {
            assert(refuses_settings(data, incomplete, e));
            Some(Err(SettingsError::ProtoError(e)))
        },
    }
}

/// What one side opens its control stream with announces WebTransport to the other side, whatever
/// follows on the stream, and however it is cut on its way.
pub proof fn law_opened_settings_are_accepted(frame: Seq<u8>, rest: Seq<u8>, k: int)
    requires
        reads_as(frame, with_webtransport(Map::empty(), 1)),
        0 <= k <= frame.len() + rest.len(),
    ensures
        if k < frame.len() {
            settings_at((frame + rest).take(k)) is Incomplete
        } else {
            settings_at((frame + rest).take(k)) matches Decoding::Done(settings, n) && n == frame.len()
                && sessions(settings) == 1
        },
{
    if k < frame.len() {
        assert((frame + rest).take(k) =~= frame.take(k));
    } else {
        assert((frame + rest).take(k) =~= frame + rest.take(k - frame.len()));
    }
}

/// What one side opens its control stream with is accepted by the other, as soon as all of it is there,
/// whatever follows, and is never refused. Until then more is asked for, and if nothing more comes it is an
/// error.
pub proof fn law_own_settings_are_accepted(
    frame: Vec<u8>,
    rest: Seq<u8>,
    data: &[u8],
    ended: bool,
    r: Option<Result<usize, SettingsError>>,
)
    requires
        call_ensures(open, (), frame),
        call_ensures(accept, (data, ended), r),
        data@.len() <= frame@.len() + rest.len(),
        data@ == (frame@ + rest).take(data@.len() as int),
    ensures
        data@.len() >= frame@.len() ==> (r matches Some(Ok(n)) && n == frame@.len()),
        data@.len() < frame@.len() && !ended ==> r is None,
        data@.len() < frame@.len() && ended ==> (r matches Some(Err(SettingsError::ProtoError(e)))
            && refuses_settings(data, true, e)),
{
    law_opened_settings_are_accepted(frame@, rest, data@.len() as int);
}

/// Settings are accepted exactly if they announce at least one session; the number of bytes that they took is
/// told. What is no SETTINGS frame is an error, and what ends too early one only if nothing follows.
pub proof fn law_settings_have_to_announce_sessions(
    data: &[u8],
    ended: bool,
    r: Option<Result<usize, SettingsError>>,
    settings: ProtoSettings,
    checked: Result<(), SettingsError>,
)
    requires
        call_ensures(accept, (data, ended), r),
        call_ensures(check, (&settings,), checked),
    ensures
        (match settings_at(data@) {
            Decoding::Done(found, n) => if sessions(found) > 0 {
                r matches Some(Ok(len)) && len == n
            } else {
                r matches Some(Err(SettingsError::WebTransportUnsupported))
            },
            Decoding::Invalid => r matches Some(Err(SettingsError::ProtoError(e)))
                && refuses_settings(data, false, e),
            Decoding::Incomplete => if ended {
                r matches Some(Err(SettingsError::ProtoError(e))) && refuses_settings(data, true, e)
            } else {
                r is None
            },
        }),
        checked is Ok <==> sessions(entries(settings)) > 0,
        checked matches Err(e) ==> e == SettingsError::WebTransportUnsupported,
{
}

/// An exchange is complete when both directions are, whichever comes first, and then holds both control
/// streams; a direction that fails ends it with that error, whatever became of the other.
pub proof fn law_exchange_takes_both_directions<T, R>(
    send: T,
    recv: R,
    e: SettingsError,
    fresh: Exchange<T, R>,
    sent: Result<Result<Settings<T, R>, SettingsError>, Exchange<T, R>>,
    accepted: Result<Result<Settings<T, R>, SettingsError>, Exchange<T, R>>,
    sent_first: Result<Result<Settings<T, R>, SettingsError>, Exchange<T, R>>,
    accepted_first: Result<Result<Settings<T, R>, SettingsError>, Exchange<T, R>>,
    any: Exchange<T, R>,
    not_sent: Result<Result<Settings<T, R>, SettingsError>, Exchange<T, R>>,
    not_accepted: Result<Result<Settings<T, R>, SettingsError>, Exchange<T, R>>,
)
    requires
        call_ensures(Exchange::<T, R>::new, (), fresh),
        call_ensures(Exchange::<T, R>::connect, (fresh, Event::Sent(Ok(send))), sent),
        call_ensures(Exchange::<T, R>::connect, (fresh, Event::Accepted(Ok(recv))), accepted),
        sent matches Err(next) ==> call_ensures(
            Exchange::<T, R>::connect,
            (next, Event::Accepted(Ok(recv))),
            sent_first,
        ),
        accepted matches Err(next) ==> call_ensures(
            Exchange::<T, R>::connect,
            (next, Event::Sent(Ok(send))),
            accepted_first,
        ),
        call_ensures(Exchange::<T, R>::connect, (any, Event::Sent(Err(e))), not_sent),
        call_ensures(Exchange::<T, R>::connect, (any, Event::Accepted(Err(e))), not_accepted),
    ensures
        sent is Err,
        accepted is Err,
        sent_first matches Ok(Ok(settings)) && settings.send == send && settings.recv == recv,
        accepted_first matches Ok(Ok(settings)) && settings.send == send && settings.recv == recv,
        not_sent == Ok::<_, Exchange<T, R>>(Err::<Settings<T, R>, SettingsError>(e)),
        not_accepted == Ok::<_, Exchange<T, R>>(Err::<Settings<T, R>, SettingsError>(e)),
{
}

/// The control stream is the one that the QUIC layer has, its failure is told, and where there is none the
/// exchange ended too early.
pub proof fn law_control_stream_is_that_of_the_connection<S>(
    stream: S,
    e: ConnectionError,
    found: Result<S, SettingsError>,
    none: Result<S, SettingsError>,
    failed: Result<S, SettingsError>,
)
    requires
        call_ensures(control_stream::<S>, (Ok(Some(stream)),), found),
        call_ensures(control_stream::<S>, (Ok(None),), none),
        call_ensures(control_stream::<S>, (Err(e),), failed),
    ensures
        found == Ok::<S, SettingsError>(stream),
        none == Err::<S, SettingsError>(SettingsError::UnexpectedEnd),
        failed == Err::<S, SettingsError>(SettingsError::ConnectionError(e)),
{
}

/// Why something is taken for no SETTINGS frame is what decoding it gives.
proof fn lemma_refused_settings(data: &[u8], early: bool, e: ProtoSettingsError)
    ensures
        refuses_settings(data, early, e) == call_ensures(
            decode_settings,
            (data,),
            Err::<(ProtoSettings, usize), (bool, ProtoSettingsError)>((early, e)),
        ),
{
}

} // verus!
