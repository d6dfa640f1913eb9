//! The CONNECT exchange that establishes a session on an HTTP/3 connection.

use vstd::multiset::Multiset;
use vstd::prelude::*;
use web_transport_proto::ConnectError as ProtoConnectError;
use web_transport_proto::ConnectRequest as ProtoConnectRequest;
use web_transport_proto::ConnectResponse as ProtoConnectResponse;

use crate::error::{ConnectError, ConnectionError};

verus! {

/// The HTTP status of a successful response.
pub const STATUS_OK: u16 = 200;

/// The value of an HTTP header.
#[verifier::external_type_specification]
#[verifier::external_body]
pub struct ExHeaderValue(http::HeaderValue);

/// A multimap from HTTP header names to values.
#[verifier::external_type_specification]
#[verifier::external_body]
#[verifier::reject_recursive_types(T)]
pub struct ExHeaderMap<T>(http::HeaderMap<T>);

/// The fields that an `http::HeaderMap` holds: for each name its values, in the order in which they
/// were added.
pub uninterp spec fn fields(headers: http::HeaderMap<http::HeaderValue>) -> Map<
    Seq<char>,
    Seq<Seq<u8>>,
>;

/// `http::HeaderMap::new` holds no fields.
#[verifier::external_body]
fn no_headers() -> (r: http::HeaderMap<http::HeaderValue>)
    ensures
        (fields(r) == Map::<Seq<char>, Seq<Seq<u8>>>::empty()),
{
    http::HeaderMap::new()
}

/// A CONNECT request to initiate a WebTransport session.
pub struct ConnectRequest {
    /// The URL to connect to.
    pub url: String,
    /// The subprotocols requested (if any).
    pub protocols: Vec<String>,
    /// The raw HTTP/3 headers from the request.
    pub headers: http::HeaderMap<http::HeaderValue>,
}

/// A CONNECT request, in contracts.
pub struct RequestView {
    pub url: Seq<char>,
    pub protocols: Seq<Seq<char>>,
    pub headers: Map<Seq<char>, Seq<Seq<u8>>>,
}

/// What a reader sees of a CONNECT request. Of the values of a header it sees how often each occurs, but
/// no order among them.
pub struct SeenRequest {
    pub url: Seq<char>,
    pub protocols: Seq<Seq<char>>,
    pub headers: Map<Seq<char>, Multiset<Seq<u8>>>,
}

impl RequestView {
    /// The request without an order among the values of a header.
    pub open spec fn seen(self) -> SeenRequest {
        SeenRequest {
            url: self.url,
            protocols: self.protocols,
            headers: self.headers.map_values(|values: Seq<Seq<u8>>| values.to_multiset()),
        }
    }

    /// What a reader sees of the request if it is sent: the URL in its usual form and without a fragment,
    /// the subprotocols, and the last value of each header, but for those about subprotocols.
    pub open spec fn sent(self) -> SeenRequest {
        SeenRequest {
            url: match url_text(self.url) {
                Some(url) => before_fragment(url),
                None => Seq::empty(),
            },
            protocols: self.protocols,
            headers: Map::new(
                |name: Seq<char>|
                    self.headers.contains_key(name) && name != "wt-available-protocols"@,
                |name: Seq<char>| Multiset::singleton(self.headers[name].last()),
            ),
        }
    }
}

/// The part of `url` before its fragment.
pub open spec fn before_fragment(url: Seq<char>) -> Seq<char>
    decreases url.len(),
{
    if url.len() == 0 || url[0] == '#' {
        Seq::empty()
    } else {
        seq![url[0]] + before_fragment(url.skip(1))
    }
}

/// The texts of a list of strings.
pub open spec fn texts(list: Seq<String>) -> Seq<Seq<char>> {
    list.map_values(|s: String| s@)
}

impl View for ConnectRequest {
    type V = RequestView;

    open spec fn view(&self) -> RequestView {
        RequestView {
            url: self.url@,
            protocols: texts(self.protocols@),
            headers: fields(self.headers),
        }
    }
}

impl ConnectRequest {
    /// A request for `url`, without subprotocols or headers.
    pub fn new(url: String) -> (r: Self)
        ensures
            r.url == url,
            r.protocols@.len() == 0,
            fields(r.headers) == Map::<Seq<char>, Seq<Seq<u8>>>::empty(),
    {
        ConnectRequest { url, protocols: Vec::new(), headers: no_headers() }
    }

    /// A request for the URL that `text` spells, if it is one.
    pub fn parse(text: &str) -> (r: Option<Self>)
        ensures
            (match r {
                Some(request) => url_text(text@) == Some(request.url@) && request.protocols@.len() == 0
                    && fields(request.headers) == Map::<Seq<char>, Seq<Seq<u8>>>::empty(),
                None => url_text(text@) is None,
            }),
    {
        match parse_url(text) {
            Some(url) => Some(ConnectRequest::new(url)),
            None => None,
        }
    }

    /// Offers one more subprotocol.
    pub fn with_protocol(self, protocol: String) -> (r: Self)
        ensures
            r.url == self.url,
            r.protocols@ == self.protocols@.push(protocol),
            r.headers == self.headers,
    {
        let mut protocols = self.protocols;
        protocols.push(protocol);
        ConnectRequest { url: self.url, protocols, headers: self.headers }
    }

    /// Says that `protocol` is one that the request offers.
    pub open spec fn offers(self, protocol: Seq<char>) -> bool {
        texts(self.protocols@).contains(protocol)
    }

    /// Whether `protocol` is one that the request offers.
    pub fn has_protocol(&self, protocol: &String) -> (r: bool)
        ensures
            r == self.offers(protocol@),
    {
        let mut i: usize = 0;
        while i < self.protocols.len()
            invariant
                i <= self.protocols@.len(),
                forall|j: int| 0 <= j < i ==> #[trigger] self.protocols@[j]@ != protocol@,
            decreases self.protocols@.len() - i,
        {
            if self.protocols[i] == *protocol {
                assert(texts(self.protocols@)[i as int] == protocol@);
                return true;
            }
            i = i + 1;
        }
        assert(!self.offers(protocol@)) by {
            if self.offers(protocol@) {
                let j = choose|j: int|
                    0 <= j < texts(self.protocols@).len() && texts(self.protocols@)[j] == protocol@;
                assert(self.protocols@[j]@ == protocol@);
            }
        }
        false
    }
}

/// A CONNECT response to accept or reject a WebTransport session.
pub struct ConnectResponse {
    /// The status code of the response.
    pub status: u16,
    /// The subprotocol selected by the server, if any.
    pub protocol: Option<String>,
}

/// A CONNECT response, in contracts.
pub struct ResponseView {
    pub status: u16,
    pub protocol: Option<Seq<char>>,
}

impl View for ConnectResponse {
    type V = ResponseView;

    open spec fn view(&self) -> ResponseView {
        ResponseView {
            status: self.status,
            protocol: match self.protocol {
                Some(protocol) => Some(protocol@),
                None => None,
            },
        }
    }
}

impl ConnectResponse {
    /// A response with this status, without a subprotocol.
    pub fn new(status: u16) -> (r: Self)
        ensures
            r.status == status,
            r.protocol is None,
    {
        ConnectResponse { status, protocol: None }
    }

    /// A response that accepts the session.
    pub fn ok() -> (r: Self)
        ensures
            r.status == STATUS_OK,
            r.protocol is None,
    {
        ConnectResponse::new(STATUS_OK)
    }

    /// Selects a subprotocol.
    pub fn with_protocol(self, protocol: String) -> (r: Self)
        ensures
            r.status == self.status,
            r.protocol == Some(protocol),
    {
        ConnectResponse { status: self.status, protocol: Some(protocol) }
    }

    /// Says that the subprotocol that is selected, if any, is one that `request` offers.
    pub open spec fn suits(self, request: ConnectRequest) -> bool {
        self.protocol matches Some(protocol) ==> request.offers(protocol@)
    }
}

/// What reading a CONNECT request gives.
pub enum RequestDecoding {
    /// The bytes end before the request does.
    Incomplete,
    /// The bytes are no CONNECT request.
    Invalid,
    /// What is seen of the request, and how many bytes it took.
    Done(SeenRequest, nat),
}

/// What reading a CONNECT response gives.
pub enum ResponseDecoding {
    /// The bytes end before the response does.
    Incomplete,
    /// The bytes are no response.
    Invalid,
    /// A response whose status is not one of success.
    Refused(u16),
    /// The response, and how many bytes it took.
    Done(ResponseView, nat),
}

/// What `web_transport_proto::ConnectRequest::decode` reads off the front of `data`.
pub uninterp spec fn request_at(data: Seq<u8>) -> RequestDecoding;

/// What `web_transport_proto::ConnectResponse::decode` reads off the front of `data`.
pub uninterp spec fn response_at(data: Seq<u8>) -> ResponseDecoding;

/// The status that a `web_transport_proto::ConnectError` reports as not being one of success, if it does.
pub uninterp spec fn refused_with(e: ProtoConnectError) -> Option<u16>;

/// Whether `web_transport_proto::ConnectRequest::encode` can write the request.
pub uninterp spec fn request_fits(request: RequestView) -> bool;

/// Whether `web_transport_proto::ConnectResponse::encode` can write the response.
pub uninterp spec fn response_fits(response: ResponseView) -> bool;

/// Says that `status` is an HTTP status.
pub open spec fn is_status(status: u16) -> bool {
    100 <= status < 1000
}

/// The text that `url::Url::parse` makes of a URL, if it is one.
pub uninterp spec fn url_text(text: Seq<char>) -> Option<Seq<char>>;

/// Says that `url` is the text of a URL of HTTPS.
pub open spec fn is_https(url: Seq<char>) -> bool {
    url.len() >= 8 && url.take(8) == "https://"@
}

/// Says that `url` is the text of a URL in its usual form, with or without its fragment.
pub open spec fn is_usual(url: Seq<char>) -> bool {
    url_text(url) == Some(url) && url_text(before_fragment(url)) == Some(before_fragment(url))
}

/// Says that each header has one value and that none of them is about subprotocols.
pub open spec fn is_plain(headers: Map<Seq<char>, Seq<Seq<u8>>>) -> bool {
    forall|name: Seq<char>| #[trigger]
        headers.contains_key(name) ==> headers[name].len() == 1 && name
            != "wt-available-protocols"@
}

/// Says that a reader sees the request once `bytes` have arrived in full, whatever follows, if its URL is
/// one of HTTPS, and takes the bytes for no request if it is not. Until then it waits for more.
pub open spec fn carries_request(bytes: Seq<u8>, request: RequestView) -> bool {
    &&& url_text(request.url) matches Some(url) && forall|rest: Seq<u8>|
        match #[trigger] request_at(bytes + rest) {
            RequestDecoding::Incomplete => false,
            RequestDecoding::Invalid => !(is_https(url) && is_usual(url)),
            RequestDecoding::Done(seen, n) => {
                &&& n == bytes.len()
                &&& is_https(url)
                &&& seen.protocols == request.sent().protocols
                &&& seen.headers == request.sent().headers
                &&& is_usual(url) ==> seen.url == request.sent().url
            },
        }
    &&& forall|k: int| 0 <= k < bytes.len() ==> #[trigger] request_at(bytes.take(k)) is Incomplete
}

/// Says that a reader sees `response` once `bytes` have arrived in full, whatever follows, if it is one
/// of success, and only its status otherwise. Until then it waits for more.
pub open spec fn carries_response(bytes: Seq<u8>, response: ResponseView) -> bool {
    &&& forall|rest: Seq<u8>| #[trigger]
        response_at(bytes + rest) == if 200 <= response.status < 300 {
            ResponseDecoding::Done(response, bytes.len())
        } else {
            ResponseDecoding::Refused(response.status)
        }
    &&& forall|k: int| 0 <= k < bytes.len() ==> #[trigger] response_at(bytes.take(k)) is Incomplete
}

/// `web_transport_proto::ConnectRequest::decode` reads a CONNECT request off the front of `data` and
/// says how many bytes it took. Names of headers that differ in case are one name, and the order of their
/// values is left to chance. With the error comes whether it is that `data` ends too early.
#[verifier::external_body]
fn decode_request(data: &[u8]) -> (r: Result<(ConnectRequest, usize), (bool, ProtoConnectError)>)
    ensures
        (match r {
            Ok((request, n)) => n <= data@.len() && request_at(data@) == RequestDecoding::Done(
                request@.seen(),
                n as nat,
            ),
            Err((true, _)) => request_at(data@) is Incomplete,
            Err((false, _)) => request_at(data@) is Invalid,
        }),
{
    let mut cursor = std::io::Cursor::new(data);
    match ProtoConnectRequest::decode(&mut cursor) {
        Ok(request) => Ok((
            ConnectRequest {
                url: request.url.to_string(),
                protocols: request.protocols,
                headers: request.headers,
            },
            cursor.position() as usize,
        )),
        Err(ProtoConnectError::UnexpectedEnd) => Err((true, ProtoConnectError::UnexpectedEnd)),
        Err(e) => Err((false, e)),
    }
}

/// `url::Url::parse` checks that a text is a URL and gives its text in the usual form.
#[verifier::external_body]
fn parse_url(text: &str) -> (r: Option<String>)
    ensures
        (match r {
            Some(url) => url_text(text@) == Some(url@),
            None => url_text(text@) is None,
        }),
{
    Some(url::Url::parse(text).ok()?.to_string())
}

/// `web_transport_proto::ConnectRequest::encode` writes the request, its fields in no particular
/// order. Whether it can depends on the request alone: it cannot if the URL, a subprotocol or a header
/// is malformed, or if they are too long for a reader. Of the values of a header the last is written. The
/// scheme, authority, path and query of the URL are written apart, and a reader that knows HTTPS puts them
/// together again, once all is there.
#[verifier::external_body]
fn encode_request(request: &ConnectRequest) -> (r: Result<Vec<u8>, ProtoConnectError>)
    ensures
        r is Ok <==> request_fits(request@),
        r matches Ok(bytes) ==> carries_request(bytes@, request@),
{
    let mut proto = ProtoConnectRequest::new(url::Url::parse(&request.url)?);
    proto.protocols = request.protocols.clone();
    proto.headers = request.headers.clone();
    let mut buf = Vec::new();
    proto.encode(&mut buf)?;
    Ok(buf)
}

/// `web_transport_proto::ConnectResponse::decode` reads a CONNECT response off the front of `data` and
/// says how many bytes it took. With the error comes whether it is that `data` ends too early, and else the
/// status if it is that this is not one of success.
#[verifier::external_body]
fn decode_response(data: &[u8]) -> (r: Result<
    (ConnectResponse, usize),
    (bool, Option<u16>, ProtoConnectError),
>)
    ensures
        (match r {
            Ok((response, n)) => n <= data@.len() && response_at(data@) == ResponseDecoding::Done(
                response@,
                n as nat,
            ),
            Err((true, status, _)) => response_at(data@) is Incomplete && status is None,
            Err((false, Some(status), e)) => response_at(data@) == ResponseDecoding::Refused(status)
                && refused_with(e) == Some(status),
            Err((false, None, _)) => response_at(data@) is Invalid,
        }),
{
    let mut cursor = std::io::Cursor::new(data);
    match ProtoConnectResponse::decode(&mut cursor) {
        Ok(response) => Ok((
            ConnectResponse { status: response.status.as_u16(), protocol: response.protocol },
            cursor.position() as usize,
        )),
        Err(ProtoConnectError::UnexpectedEnd) => Err((true, None, ProtoConnectError::UnexpectedEnd)),
        Err(ProtoConnectError::WrongStatus(Some(status))) => Err(
            (false, Some(status.as_u16()), ProtoConnectError::WrongStatus(Some(status))),
        ),
        Err(e) => Err((false, None, e)),
    }
}

/// `web_transport_proto::ConnectResponse::encode` writes the response, its fields in no particular
/// order. Whether it can depends on the response alone: it cannot if the subprotocol is malformed or
/// too long for a reader, and always can without one. Once all is there, a reader gets the response back
/// if its status is one of success, and else is told the status.
#[verifier::external_body]
fn encode_response(response: &ConnectResponse) -> (r: Result<Vec<u8>, ProtoConnectError>)
    requires
        is_status(response.status),
    ensures
        r is Ok <==> response_fits(response@),
        response.protocol is None ==> r is Ok,
        r matches Ok(bytes) ==> carries_response(bytes@, response@),
{
    let status = http::StatusCode::from_u16(response.status).unwrap();
    let mut proto = ProtoConnectResponse::new(status);
    proto.protocol = response.protocol.clone();
    let mut buf = Vec::new();
    proto.encode(&mut buf)?;
    Ok(buf)
}

/// Says that `e` is why `data` is taken for no request: `early` if it is that `data` ends too early.
pub closed spec fn refuses_request(data: &[u8], early: bool, e: ProtoConnectError) -> bool {
    call_ensures(
        decode_request,
        (data,),
        Err::<(ConnectRequest, usize), (bool, ProtoConnectError)>((early, e)),
    )
}

/// Says that `e` is why `data` is taken for no response that accepts a session: `early` if it is that
/// `data` ends too early, and with the status if it is that this is not one of success.
pub closed spec fn refuses_response(
    data: &[u8],
    early: bool,
    status: Option<u16>,
    e: ProtoConnectError,
) -> bool {
    call_ensures(
        decode_response,
        (data,),
        Err::<(ConnectResponse, usize), (bool, Option<u16>, ProtoConnectError)>((early, status, e)),
    )
}

/// Says that `bytes` are what is written for `request`.
pub closed spec fn writes_request(request: ConnectRequest, bytes: Vec<u8>) -> bool {
    call_ensures(encode_request, (&request,), Ok::<Vec<u8>, ProtoConnectError>(bytes))
}

/// Says that `e` is why `request` cannot be written.
pub closed spec fn no_request(request: ConnectRequest, e: ProtoConnectError) -> bool {
    call_ensures(encode_request, (&request,), Err::<Vec<u8>, ProtoConnectError>(e))
}

/// Says that `bytes` are what is written for `response`.
pub closed spec fn writes_response(response: ConnectResponse, bytes: Vec<u8>) -> bool {
    call_ensures(encode_response, (&response,), Ok::<Vec<u8>, ProtoConnectError>(bytes))
}

/// Says that `bytes` are what is written for a response with this status and no subprotocol.
pub open spec fn writes_refusal(status: u16, bytes: Vec<u8>) -> bool {
    exists|response: ConnectResponse|
        response.status == status && response.protocol is None && #[trigger] writes_response(
            response,
            bytes,
        )
}

/// Says that `e` is why `response` cannot be written.
pub closed spec fn no_response(response: ConnectResponse, e: ProtoConnectError) -> bool {
    call_ensures(encode_response, (&response,), Err::<Vec<u8>, ProtoConnectError>(e))
}

/// The stream of the CONNECT exchange that the QUIC layer opened or accepted, if it did.
pub fn connect_stream<S>(stream: Result<Option<S>, ConnectionError>) -> (r: Result<S, ConnectError>)
    ensures
        (match stream {
            Ok(Some(s)) => r == Ok::<S, ConnectError>(s),
            Ok(None) => r == Err::<S, ConnectError>(ConnectError::UnexpectedEnd),
            Err(e) => r == Err::<S, ConnectError>(ConnectError::ConnectionError(e)),
        }),
{
    match stream {
        Ok(Some(s)) => Ok(s),
        Ok(None) => Err(ConnectError::UnexpectedEnd),
        Err(e) => Err(ConnectError::ConnectionError(e)),
    }
}

/// An HTTP/3 CONNECT request that has been received but not yet responded to.
pub struct Connecting {
    pub request: ConnectRequest,
    /// The stream ID of the CONNECT request.
    pub session_id: u64,
}

impl Connecting {
    /// Reads the client's CONNECT request, of which `data` has arrived on the stream `session_id`.
    /// `ended` says that nothing follows. `None` asks for more bytes; else the result comes with how
    /// many the request took.
    pub fn accept(data: &[u8], ended: bool, session_id: u64) -> (r: Option<
        Result<(Connecting, usize), ConnectError>,
    >)
        ensures
            (match request_at(data@) {
                RequestDecoding::Incomplete => if ended {
                    r matches Some(Err(ConnectError::ProtoError(e))) && refuses_request(
                        data,
                        true,
                        e,
                    )
                } else {
                    r is None
                },
                RequestDecoding::Invalid => r matches Some(Err(ConnectError::ProtoError(e)))
                    && refuses_request(data, false, e),
                RequestDecoding::Done(request, n) => r matches Some(Ok((connecting, len)))
                    && connecting.request@.seen() == request && connecting.session_id == session_id && len
                    == n && len <= data@.len(),
            }),
    {
        match decode_request(data) {
            Ok((request, n)) => Some(Ok((Connecting { request, session_id }, n))),
            Err((incomplete, e)) => if incomplete && !ended {
                None
            } else {
                assert(refuses_request(data, incomplete, e));
                Some(Err(ConnectError::ProtoError(e)))
            },
        }
    }

    /// Checks that the response selects no subprotocol but one of the request's, which establishes the
    /// session.
    pub fn select(self, response: ConnectResponse) -> (r: Result<Connected, ConnectError>)
        ensures
            (match r {
                Ok(connected) => response.suits(self.request) && connected.request == self.request
                    && connected.response == response && connected.session_id == self.session_id,
                Err(e) => !response.suits(self.request) && (response.protocol matches Some(protocol)
                    && e == ConnectError::ProtocolMismatch(protocol)),
            }),
    {
        if let Some(protocol) = &response.protocol {
            if !self.request.has_protocol(protocol) {
                return Err(ConnectError::ProtocolMismatch(protocol.clone()));
            }
        }
        Ok(Connected { request: self.request, response, session_id: self.session_id })
    }

    /// Responds to the client, which establishes the session: the result comes with the bytes to
    /// send.
    pub fn respond(self, response: ConnectResponse) -> (r: Result<
        (Connected, Vec<u8>),
        ConnectError,
    >)
        requires
            is_status(response.status),
        ensures
            (match r {
                Ok((connected, bytes)) => response.suits(self.request) && response_fits(response@)
                    && connected.request == self.request && connected.response == response
                    && connected.session_id == self.session_id && carries_response(
                    bytes@,
                    response@,
                ) && writes_response(response, bytes),
                Err(ConnectError::ProtocolMismatch(p)) => !response.suits(self.request)
                    && response.protocol == Some(p),
                Err(ConnectError::ProtoError(e)) => response.suits(self.request) && !response_fits(
                    response@,
                ) && no_response(response, e),
                Err(_) => false,
            }),
            response.protocol is None ==> r is Ok,
    {
        let connected = match self.select(response) {
            Ok(connected) => connected,
            Err(e) => return Err(e),
        };
        match encode_response(&connected.response) {
            Ok(bytes) => {
                assert(writes_response(response, bytes));
                Ok((connected, bytes))
            },
            Err(e) => {
                assert(no_response(response, e));
                Err(ConnectError::ProtoError(e))
            },
        }
    }

    /// Refuses the session: the result is what to send before the stream is finished.
    pub fn reject(self, status: u16) -> (r: Result<Vec<u8>, ConnectError>)
        requires
            is_status(status),
        ensures
            r matches Ok(bytes) && carries_response(
                bytes@,
                (ResponseView { status, protocol: None }),
            ) && writes_refusal(status, bytes),
    {
        let response = ConnectResponse::new(status);
        let ghost refusal = response;
        match self.respond(response) {
            Ok((_, bytes)) => {
                assert(refusal.status == status && refusal.protocol is None && writes_response(
                    refusal,
                    bytes,
                ));
                Ok(bytes)
            },
            Err(e) => Err(e),
        }
    }
}

/// A CONNECT exchange that established a session.
pub struct Connected {
    pub request: ConnectRequest,
    pub response: ConnectResponse,
    /// The stream ID of the CONNECT request.
    pub session_id: u64,
}

impl Connected {
    /// What a client sends to open a session.
    pub fn open(request: &ConnectRequest) -> (r: Result<Vec<u8>, ConnectError>)
        ensures
            (match r {
                Ok(bytes) => request_fits(request@) && carries_request(bytes@, request@)
                    && writes_request(*request, bytes),
                Err(ConnectError::ProtoError(e)) => !request_fits(request@) && no_request(
                    *request,
                    e,
                ),
                Err(_) => false,
            }),
    {
        match encode_request(request) {
            Ok(bytes) => {
                assert(writes_request(*request, bytes));
                Ok(bytes)
            },
            Err(e) => {
                assert(no_request(*request, e));
                Err(ConnectError::ProtoError(e))
            },
        }
    }

    /// Takes a response to `request` for an established session if its status is 200 and it selects no
    /// subprotocol but one of the request's.
    pub fn check(request: ConnectRequest, response: ConnectResponse, session_id: u64) -> (r: Result<
        Connected,
        ConnectError,
    >)
        ensures
            (match r {
                Ok(connected) => response.status == STATUS_OK && response.suits(request)
                    && connected.request == request && connected.response == response
                    && connected.session_id == session_id,
                Err(ConnectError::ErrorStatus(status)) => status == response.status && status
                    != STATUS_OK,
                Err(ConnectError::ProtocolMismatch(p)) => response.status == STATUS_OK
                    && !response.suits(request) && response.protocol == Some(p),
                Err(_) => false,
            }),
    {
        if response.status != STATUS_OK {
            return Err(ConnectError::ErrorStatus(response.status));
        }
        if let Some(protocol) = &response.protocol {
            if !request.has_protocol(protocol) {
                return Err(ConnectError::ProtocolMismatch(protocol.clone()));
            }
        }
        Ok(Connected { request, response, session_id })
    }

    /// Says that `r` is what `data`, all that has arrived of the response to `request`, leads to.
    pub open spec fn establishes(
        request: ConnectRequest,
        session_id: u64,
        data: &[u8],
        ended: bool,
        r: Result<Result<(Connected, usize), ConnectError>, ConnectRequest>,
    ) -> bool {
        match response_at(data@) {
            ResponseDecoding::Incomplete => if ended {
                r matches Ok(Err(ConnectError::ProtoError(e))) && refuses_response(
                    data,
                    true,
                    None,
                    e,
                )
            } else {
                r == Err::<Result<(Connected, usize), ConnectError>, ConnectRequest>(request)
            },
            ResponseDecoding::Invalid => r matches Ok(Err(ConnectError::ProtoError(e)))
                && refuses_response(data, false, None, e),
            ResponseDecoding::Refused(status) => r matches Ok(Err(ConnectError::ProtoError(e)))
                && refused_with(e) == Some(status) && refuses_response(data, false, Some(status), e),
            ResponseDecoding::Done(response, n) => if response.status != STATUS_OK {
                r matches Ok(Err(ConnectError::ErrorStatus(status))) && status == response.status
            } else if response.protocol matches Some(p) && !request.offers(p) {
                r matches Ok(Err(ConnectError::ProtocolMismatch(q))) && response.protocol == Some(q@)
            } else {
                r matches Ok(Ok((connected, len))) && connected.request == request
                    && connected.response@ == response && connected.session_id == session_id && len
                    == n && len <= data@.len()
            },
        }
    }

    /// Reads the server's response to `request`, of which `data` has arrived on the stream
    /// `session_id`. `ended` says that nothing follows. The request comes back where more bytes are
    /// needed; else the result comes with how many the response took.
    pub fn establish(request: ConnectRequest, session_id: u64, data: &[u8], ended: bool) -> (r:
        Result<Result<(Connected, usize), ConnectError>, ConnectRequest>)
        ensures
            Self::establishes(request, session_id, data, ended, r),
    {
        match decode_response(data) {
            Ok((response, n)) => match Connected::check(request, response, session_id) {
                Ok(connected) => Ok(Ok((connected, n))),
                Err(e) => Ok(Err(e)),
            },
            Err((incomplete, status, e)) => if incomplete && !ended {
                Err(request)
            } else {
                assert(refuses_response(data, incomplete, status, e));
                Ok(Err(ConnectError::ProtoError(e)))
            },
        }
    }

    /// The session ID is the stream ID of the CONNECT request.
    pub fn session_id(&self) -> (r: u64)
        ensures
            r == self.session_id,
    {
        self.session_id
    }
}

/// What a client asks for, if it is a URL of HTTPS, is what the server reads: the URL, the subprotocols
/// and the headers. However the request is cut on its way, and whatever follows it, the server reads it
/// as soon as it is complete.
pub proof fn law_request_reaches_the_server(
    client: RequestView,
    url: Seq<char>,
    bytes: Seq<u8>,
    rest: Seq<u8>,
    k: int,
)
    requires
        carries_request(bytes, client),
        url_text(client.url) == Some(url),
        is_https(url),
        is_usual(url),
        0 <= k <= bytes.len() + rest.len(),
    ensures
        request_at((bytes + rest).take(k)) == if k < bytes.len() {
            RequestDecoding::Incomplete
        } else {
            RequestDecoding::Done(client.sent(), bytes.len())
        },
{
    if k < bytes.len() {
        assert((bytes + rest).take(k) =~= bytes.take(k));
    } else {
        assert((bytes + rest).take(k) =~= bytes + rest.take(k - bytes.len()));
        assert(request_at(bytes + rest.take(k - bytes.len())) is Done);
    }
}

/// A request for a URL in its usual form and without a fragment, with one value for each header, is read
/// as it was written.
pub proof fn law_plain_request_arrives_unchanged(client: RequestView, server: RequestView)
    requires
        url_text(client.url) == Some(client.url),
        !client.url.contains('#'),
        is_plain(client.headers),
        server.seen() == client.sent(),
    ensures
        server == client,
{
    lemma_no_fragment(client.url);
    let read = server.seen().headers;
    let sent = client.sent().headers;
    assert forall|name: Seq<char>| server.headers.contains_key(name) == client.headers.contains_key(
        name,
    ) by {
        assert(read.contains_key(name) == sent.contains_key(name));
    }
    assert forall|name: Seq<char>| #[trigger] client.headers.contains_key(name) implies server.headers[name]
        == client.headers[name] by {
        let values = server.headers[name];
        assert(read.contains_key(name) && read[name] == values.to_multiset());
        assert(values.to_multiset() == Multiset::singleton(client.headers[name].last()));
        values.to_multiset_ensures();
        assert(values.len() == 1);
        assert(values.to_multiset().contains(values[0]));
        assert(values =~= client.headers[name]);
    }
    assert(server.headers =~= client.headers);
}

/// A URL without a fragment is all there is before it.
proof fn lemma_no_fragment(url: Seq<char>)
    requires
        !url.contains('#'),
    ensures
        before_fragment(url) == url,
    decreases url.len(),
{
    if url.len() > 0 {
        assert(url.contains(url[0]));
        assert forall|c: char| url.skip(1).contains(c) implies url.contains(c) by {
            let i = choose|i: int| 0 <= i < url.skip(1).len() && url.skip(1)[i] == c;
            assert(url[i + 1] == c);
        }
        lemma_no_fragment(url.skip(1));
        assert(seq![url[0]] + url.skip(1) =~= url);
    }
}

/// A client that offered subprotocols never refuses the one that the server selected: what suits the
/// request as the server read it suits the request as the client wrote it.
pub proof fn law_client_and_server_agree_on_the_protocol(
    client: ConnectRequest,
    bytes: Seq<u8>,
    rest: Seq<u8>,
    server: ConnectRequest,
    n: nat,
    response: ConnectResponse,
)
    requires
        carries_request(bytes, client@),
        request_at(bytes + rest) == RequestDecoding::Done(server@.seen(), n),
        response.suits(server),
    ensures
        response.suits(client),
        n == bytes.len(),
{
    assert(server@.seen().protocols == client@.sent().protocols);
}

/// A response reaches the client as soon as it is complete, however it is cut and whatever follows it: as
/// it was given if its status is one of success, and else by its status.
pub proof fn law_response_reaches_the_client(
    bytes: Seq<u8>,
    response: ResponseView,
    rest: Seq<u8>,
    k: int,
)
    requires
        carries_response(bytes, response),
        0 <= k <= bytes.len() + rest.len(),
    ensures
        response_at((bytes + rest).take(k)) == if k < bytes.len() {
            ResponseDecoding::Incomplete
        } else if 200 <= response.status < 300 {
            ResponseDecoding::Done(response, bytes.len())
        } else {
            ResponseDecoding::Refused(response.status)
        },
{
    if k < bytes.len() {
        assert((bytes + rest).take(k) =~= bytes.take(k));
    } else {
        assert((bytes + rest).take(k) =~= bytes + rest.take(k - bytes.len()));
    }
}

/// The status that a server refuses a session with is the status that the client is told, and no such
/// session is established.
pub proof fn law_refusal_tells_the_client_its_status(
    bytes: Seq<u8>,
    response: ResponseView,
    rest: Seq<u8>,
    request: ConnectRequest,
    session_id: u64,
    data: &[u8],
    ended: bool,
    r: Result<Result<(Connected, usize), ConnectError>, ConnectRequest>,
)
    requires
        carries_response(bytes, response),
        response.status != STATUS_OK,
        data@ == bytes + rest,
        Connected::establishes(request, session_id, data, ended, r),
    ensures
        (match r {
            Ok(Err(ConnectError::ErrorStatus(status))) => status == response.status,
            Ok(Err(ConnectError::ProtoError(e))) => refused_with(e) == Some(response.status),
            _ => false,
        }),
{
    assert((bytes + rest).take((bytes + rest).len() as int) =~= bytes + rest);
    law_response_reaches_the_client(bytes, response, rest, (bytes + rest).len() as int);
}

/// A request offers each of its subprotocols, wherever in the list it stands, and none that differs from all
/// of them.
pub proof fn law_each_protocol_is_offered(request: ConnectRequest, protocol: String, r: bool)
    requires
        call_ensures(ConnectRequest::has_protocol, (&request, &protocol), r),
    ensures
        forall|i: int|
            0 <= i < request.protocols@.len() && #[trigger] request.protocols@[i]@ == protocol@ ==> r,
        (forall|i: int|
            0 <= i < request.protocols@.len() ==> #[trigger] request.protocols@[i]@ != protocol@)
            ==> !r,
{
    assert forall|i: int|
        0 <= i < request.protocols@.len() && #[trigger] request.protocols@[i]@ == protocol@ implies r by {
        assert(texts(request.protocols@)[i] == protocol@);
    }
    if r {
        let j = choose|j: int|
            0 <= j < texts(request.protocols@).len() && texts(request.protocols@)[j] == protocol@;
        assert(request.protocols@[j]@ == protocol@);
    }
}

/// Offering one more subprotocol takes none away: the request offers what it offered before and the new one,
/// and nothing else. It stays a request for the same URL with the same headers.
pub proof fn law_one_more_protocol_is_offered(
    request: ConnectRequest,
    protocol: String,
    more: ConnectRequest,
    asked: String,
    before: bool,
    after: bool,
)
    requires
        call_ensures(ConnectRequest::with_protocol, (request, protocol), more),
        call_ensures(ConnectRequest::has_protocol, (&request, &asked), before),
        call_ensures(ConnectRequest::has_protocol, (&more, &asked), after),
    ensures
        after == (before || asked@ == protocol@),
        more.protocols@.len() == request.protocols@.len() + 1,
        more.protocols@.last() == protocol,
        more.url == request.url,
        more.headers == request.headers,
{
    law_each_protocol_is_offered(request, asked, before);
    law_each_protocol_is_offered(more, asked, after);
    assert forall|i: int| 0 <= i < request.protocols@.len() implies more.protocols@[i]
        == #[trigger] request.protocols@[i] by {}
    assert(more.protocols@[request.protocols@.len() as int] == protocol);
    if before {
        let i = choose|i: int|
            0 <= i < request.protocols@.len() && #[trigger] request.protocols@[i]@ == asked@;
        assert(more.protocols@[i]@ == asked@);
    }
    if asked@ == protocol@ {
        assert(more.protocols@[request.protocols@.len() as int]@ == asked@);
    }
    if after {
        let i = choose|i: int|
            0 <= i < more.protocols@.len() && #[trigger] more.protocols@[i]@ == asked@;
        if i < request.protocols@.len() {
            assert(request.protocols@[i]@ == asked@);
        }
    }
}

/// A new request asks for its URL and for nothing else, and a new response has its status and selects
/// nothing, until it is told to.
pub proof fn law_requests_and_responses_start_bare(
    url: String,
    request: ConnectRequest,
    text: &str,
    parsed: Option<ConnectRequest>,
    status: u16,
    response: ConnectResponse,
    ok: ConnectResponse,
    protocol: String,
    selecting: ConnectResponse,
)
    requires
        call_ensures(ConnectRequest::new, (url,), request),
        call_ensures(ConnectRequest::parse, (text,), parsed),
        call_ensures(ConnectResponse::new, (status,), response),
        call_ensures(ConnectResponse::ok, (), ok),
        call_ensures(ConnectResponse::with_protocol, (response, protocol), selecting),
    ensures
        request.url == url,
        request.protocols@.len() == 0,
        fields(request.headers) == Map::<Seq<char>, Seq<Seq<u8>>>::empty(),
        parsed is Some <==> url_text(text@) is Some,
        parsed matches Some(p) ==> Some(p.url@) == url_text(text@) && p.protocols@.len() == 0
            && fields(p.headers) == Map::<Seq<char>, Seq<Seq<u8>>>::empty(),
        response.status == status,
        response.protocol is None,
        ok.status == 200,
        ok.protocol is None,
        selecting.status == status,
        selecting.protocol == Some(protocol),
{
}

/// A server can select each of the subprotocols that the request offers, or none, and no other: the session
/// then has that request, that response and that number, and else the error names the subprotocol.
pub proof fn law_server_selects_what_is_offered(
    connecting: Connecting,
    response: ConnectResponse,
    offered: bool,
    r: Result<Connected, ConnectError>,
)
    requires
        response.protocol matches Some(protocol) ==> call_ensures(
            ConnectRequest::has_protocol,
            (&connecting.request, &protocol),
            offered,
        ),
        call_ensures(Connecting::select, (connecting, response), r),
    ensures
        r is Ok <==> response.protocol is None || offered,
        forall|i: int|
            0 <= i < connecting.request.protocols@.len() && response.protocol == Some(
                #[trigger] connecting.request.protocols@[i],
            ) ==> r is Ok,
        r matches Ok(connected) ==> connected.request == connecting.request && connected.response
            == response && connected.session_id == connecting.session_id,
        r matches Err(e) ==> response.protocol is Some && e == ConnectError::ProtocolMismatch(
            response.protocol->0,
        ),
{
    if let Some(protocol) = response.protocol {
        law_each_protocol_is_offered(connecting.request, protocol, offered);
        assert(offered == connecting.request.offers(protocol@));
    }
}

/// A client takes the response that accepts the session with each of the subprotocols that it offered, or
/// with none, and no other: 200 is the only status that does, and any other is told as it is.
pub proof fn law_client_takes_what_it_offered(
    request: ConnectRequest,
    response: ConnectResponse,
    session_id: u64,
    offered: bool,
    r: Result<Connected, ConnectError>,
)
    requires
        response.protocol matches Some(protocol) ==> call_ensures(
            ConnectRequest::has_protocol,
            (&request, &protocol),
            offered,
        ),
        call_ensures(Connected::check, (request, response, session_id), r),
    ensures
        r is Ok <==> response.status == 200 && (response.protocol is None || offered),
        forall|i: int|
            0 <= i < request.protocols@.len() && response.status == 200 && response.protocol == Some(
                #[trigger] request.protocols@[i],
            ) ==> r is Ok,
        r matches Ok(connected) ==> connected.request == request && connected.response == response
            && connected.session_id == session_id,
        response.status != 200 ==> r == Err::<Connected, ConnectError>(
            ConnectError::ErrorStatus(response.status),
        ),
        r is Err && response.status == 200 ==> response.protocol is Some && r == Err::<
            Connected,
            ConnectError,
        >(ConnectError::ProtocolMismatch(response.protocol->0)),
{
    if let Some(protocol) = response.protocol {
        law_each_protocol_is_offered(request, protocol, offered);
        assert(offered == request.offers(protocol@));
    }
}

/// What a client opens a session with is what the server reads, as soon as it is complete, whatever follows:
/// each subprotocol in its place, the URL in its usual form without its fragment, and the last value of each
/// header. Until then the server asks for more, and if nothing more comes it says so.
pub proof fn law_server_reads_what_the_client_opened(
    request: ConnectRequest,
    sent: Result<Vec<u8>, ConnectError>,
    rest: Seq<u8>,
    data: &[u8],
    ended: bool,
    session_id: u64,
    r: Option<Result<(Connecting, usize), ConnectError>>,
    url: Seq<char>,
)
    requires
        call_ensures(Connected::open, (&request,), sent),
        call_ensures(Connecting::accept, (data, ended, session_id), r),
        url_text(request.url@) == Some(url),
        is_https(url),
        is_usual(url),
        sent matches Ok(bytes) && data@.len() <= bytes@.len() + rest.len() && data@ == (bytes@
            + rest).take(data@.len() as int),
    ensures
        ({
            &&& sent matches Ok(bytes)
            &&& if data@.len() >= bytes@.len() {
                &&& r matches Some(Ok((connecting, n)))
                &&& n == bytes@.len()
                &&& connecting.session_id == session_id
                &&& connecting.request.url@ == before_fragment(url)
                &&& connecting.request.protocols@.len() == request.protocols@.len()
                &&& forall|i: int|
                    0 <= i < request.protocols@.len() ==> #[trigger] connecting.request.protocols@[i]@
                        == request.protocols@[i]@
                &&& forall|name: Seq<char>| #[trigger]
                    fields(connecting.request.headers).contains_key(name) <==> fields(
                        request.headers,
                    ).contains_key(name) && name != "wt-available-protocols"@
                &&& forall|name: Seq<char>| #[trigger]
                    fields(connecting.request.headers).contains_key(name) ==> fields(
                        connecting.request.headers,
                    )[name] == seq![fields(request.headers)[name].last()]
            } else if ended {
                r matches Some(Err(ConnectError::ProtoError(e))) && refuses_request(data, true, e)
            } else {
                r is None
            }
        }),
{
    if let Ok(bytes) = sent {
        let k = data@.len() as int;
        law_request_reaches_the_server(request@, url, bytes@, rest, k);
        if k >= bytes@.len() {
            if let Some(Ok((connecting, _))) = r {
                let seen = connecting.request@.seen();
                assert(seen.protocols == request@.protocols);
                assert forall|i: int| 0 <= i < request.protocols@.len() implies #[trigger] connecting.request.protocols@[i]@
                    == request.protocols@[i]@ by {
                    assert(seen.protocols[i] == request@.protocols[i]);
                }
                assert forall|name: Seq<char>| #[trigger]
                    fields(connecting.request.headers).contains_key(name) <==> fields(
                        request.headers,
                    ).contains_key(name) && name != "wt-available-protocols"@ by {
                    assert(seen.headers.contains_key(name) == request@.sent().headers.contains_key(
                        name,
                    ));
                }
                assert forall|name: Seq<char>| #[trigger]
                    fields(connecting.request.headers).contains_key(name) implies fields(
                    connecting.request.headers,
                )[name] == seq![fields(request.headers)[name].last()] by {
                    let values = fields(connecting.request.headers)[name];
                    assert(seen.headers.contains_key(name) && seen.headers[name]
                        == values.to_multiset());
                    assert(values.to_multiset() == Multiset::singleton(
                        fields(request.headers)[name].last(),
                    ));
                    values.to_multiset_ensures();
                    assert(values.len() == 1);
                    assert(values.to_multiset().contains(values[0]));
                    assert(values =~= seq![fields(request.headers)[name].last()]);
                }
            }
        }
    }
}

/// Whatever response a server gives to a request, the client that sent the request comes to the same end: a
/// session with that response, and the status or the subprotocol that stood against it. The server itself
/// refuses only a subprotocol that the request does not offer, or what cannot be written.
pub proof fn law_client_learns_what_the_server_responded(
    connecting: Connecting,
    response: ConnectResponse,
    sent: Result<(Connected, Vec<u8>), ConnectError>,
    request: ConnectRequest,
    session_id: u64,
    data: &[u8],
    rest: Seq<u8>,
    r: Result<Result<(Connected, usize), ConnectError>, ConnectRequest>,
)
    requires
        call_ensures(Connecting::respond, (connecting, response), sent),
        call_ensures(Connected::establish, (request, session_id, data, false), r),
        request.protocols@ == connecting.request.protocols@,
        sent matches Ok((_, bytes)) && data@ == bytes@ + rest,
    ensures
        ({
            &&& sent matches Ok((connected, bytes))
            &&& connected.request == connecting.request
            &&& connected.response == response
            &&& connected.session_id == connecting.session_id
            &&& response.status == 200 ==> (r matches Ok(Ok((own, n))) && n == bytes@.len()
                && own.request == request && own.session_id == session_id && own.response.status
                == 200 && (own.response.protocol is Some <==> response.protocol is Some) && (
            response.protocol is Some ==> own.response.protocol->0@ == response.protocol->0@))
            &&& 200 < response.status < 300 ==> r == Ok::<_, ConnectRequest>(
                Err::<(Connected, usize), ConnectError>(ConnectError::ErrorStatus(response.status)),
            )
            &&& !(200 <= response.status < 300) ==> (r matches Ok(Err(ConnectError::ProtoError(e)))
                && refused_with(e) == Some(response.status))
        }),
{
    if let Ok((_, bytes)) = sent {
        assert((bytes@ + rest).take((bytes@ + rest).len() as int) =~= bytes@ + rest);
        law_response_reaches_the_client(
            bytes@,
            response@,
            rest,
            (bytes@ + rest).len() as int,
        );
    }
}

/// A response without a subprotocol is always sent, and one with a subprotocol that the request does not
/// offer never: the error names it.
pub proof fn law_server_can_always_answer(
    connecting: Connecting,
    response: ConnectResponse,
    r: Result<(Connected, Vec<u8>), ConnectError>,
)
    requires
        call_ensures(Connecting::respond, (connecting, response), r),
    ensures
        response.protocol is None ==> r is Ok,
        response.protocol is Some && (forall|i: int|
            0 <= i < connecting.request.protocols@.len() ==> #[trigger] connecting.request.protocols@[i]@
                != response.protocol->0@) ==> r == Err::<(Connected, Vec<u8>), ConnectError>(
            ConnectError::ProtocolMismatch(response.protocol->0),
        ),
        forall|i: int|
            0 <= i < connecting.request.protocols@.len() && response.protocol == Some(
                #[trigger] connecting.request.protocols@[i],
            ) ==> (r is Ok <==> response_fits(response@)) && !(r matches Err(
                ConnectError::ProtocolMismatch(_),
            )),
{
    assert forall|i: int|
        0 <= i < connecting.request.protocols@.len() && response.protocol == Some(
            #[trigger] connecting.request.protocols@[i],
        ) implies response.suits(connecting.request) by {
        assert(texts(connecting.request.protocols@)[i] == response.protocol->0@);
    }
    if response.protocol is Some && response.suits(connecting.request) {
        let list = texts(connecting.request.protocols@);
        let i = choose|i: int| 0 <= i < list.len() && list[i] == response.protocol->0@;
        assert(connecting.request.protocols@[i]@ == response.protocol->0@);
    }
}

/// The client is told the very status by which a server rejects a session.
pub proof fn law_client_is_told_the_rejection(
    connecting: Connecting,
    status: u16,
    sent: Result<Vec<u8>, ConnectError>,
    request: ConnectRequest,
    session_id: u64,
    data: &[u8],
    rest: Seq<u8>,
    r: Result<Result<(Connected, usize), ConnectError>, ConnectRequest>,
)
    requires
        call_ensures(Connecting::reject, (connecting, status), sent),
        call_ensures(Connected::establish, (request, session_id, data, false), r),
        sent matches Ok(bytes) ==> data@ == bytes@ + rest,
    ensures
        sent is Ok,
        status == 200 ==> (r matches Ok(Ok((own, _))) && own.response.status == 200
            && own.response.protocol is None),
        200 < status < 300 ==> r == Ok::<_, ConnectRequest>(
            Err::<(Connected, usize), ConnectError>(ConnectError::ErrorStatus(status)),
        ),
        !(200 <= status < 300) ==> (r matches Ok(Err(ConnectError::ProtoError(e))) && refused_with(e)
            == Some(status)),
{
    if let Ok(bytes) = sent {
        assert((bytes@ + rest).take((bytes@ + rest).len() as int) =~= bytes@ + rest);
        law_response_reaches_the_client(
            bytes@,
            ResponseView { status, protocol: None },
            rest,
            (bytes@ + rest).len() as int,
        );
    }
}

/// A client that has not got all of the response goes on with its request, and if nothing more comes it is
/// an error.
pub proof fn law_client_waits_for_the_response(
    connecting: Connecting,
    response: ConnectResponse,
    sent: Result<(Connected, Vec<u8>), ConnectError>,
    request: ConnectRequest,
    session_id: u64,
    data: &[u8],
    ended: bool,
    r: Result<Result<(Connected, usize), ConnectError>, ConnectRequest>,
)
    requires
        call_ensures(Connecting::respond, (connecting, response), sent),
        call_ensures(Connected::establish, (request, session_id, data, ended), r),
        sent matches Ok((_, bytes)) && data@.len() < bytes@.len() && data@ == bytes@.take(
            data@.len() as int,
        ),
    ensures
        !ended ==> r == Err::<Result<(Connected, usize), ConnectError>, ConnectRequest>(request),
        ended ==> (r matches Ok(Err(ConnectError::ProtoError(e))) && refuses_response(
            data,
            true,
            None,
            e,
        )),
{
}

/// The stream of the CONNECT exchange is the one that the QUIC layer has, its failure is told, and where
/// there is none the exchange ended too early. The number of the session is that of the stream.
pub proof fn law_connect_stream_is_that_of_the_connection<S>(
    stream: S,
    e: ConnectionError,
    found: Result<S, ConnectError>,
    none: Result<S, ConnectError>,
    failed: Result<S, ConnectError>,
    connected: Connected,
    id: u64,
)
    requires
        call_ensures(connect_stream::<S>, (Ok(Some(stream)),), found),
        call_ensures(connect_stream::<S>, (Ok(None),), none),
        call_ensures(connect_stream::<S>, (Err(e),), failed),
        call_ensures(Connected::session_id, (&connected,), id),
    ensures
        found == Ok::<S, ConnectError>(stream),
        none == Err::<S, ConnectError>(ConnectError::UnexpectedEnd),
        failed == Err::<S, ConnectError>(ConnectError::ConnectionError(e)),
        id == connected.session_id,
{
}

/// What arrives on a CONNECT stream is handed on as what it is: a request with its URL, its subprotocols and
/// its headers, and how many bytes it took, and what is none with the reason why.
pub proof fn law_requests_are_read_as_they_are(
    data: &[u8],
    ended: bool,
    session_id: u64,
    r: Option<Result<(Connecting, usize), ConnectError>>,
)
    requires
        call_ensures(Connecting::accept, (data, ended, session_id), r),
    ensures
        (match request_at(data@) {
            RequestDecoding::Done(seen, n) => {
                &&& r matches Some(Ok((connecting, len)))
                &&& len == n
                &&& connecting.session_id == session_id
                &&& connecting.request.url@ == seen.url
                &&& connecting.request.protocols@.len() == seen.protocols.len()
                &&& forall|i: int|
                    0 <= i < seen.protocols.len() ==> #[trigger] connecting.request.protocols@[i]@
                        == seen.protocols[i]
                &&& forall|name: Seq<char>| #[trigger]
                    fields(connecting.request.headers).contains_key(name)
                        <==> seen.headers.contains_key(name)
                &&& forall|name: Seq<char>| #[trigger]
                    fields(connecting.request.headers).contains_key(name) ==> fields(
                        connecting.request.headers,
                    )[name].to_multiset() == seen.headers[name]
            },
            RequestDecoding::Invalid => r matches Some(Err(ConnectError::ProtoError(e)))
                && refuses_request(data, false, e),
            RequestDecoding::Incomplete => if ended {
                r matches Some(Err(ConnectError::ProtoError(e))) && refuses_request(data, true, e)
            } else {
                r is None
            },
        }),
{
    if let RequestDecoding::Done(seen, _) = request_at(data@) {
        if let Some(Ok((connecting, _))) = r {
            assert(connecting.request@.seen() == seen);
            assert forall|i: int| 0 <= i < seen.protocols.len() implies #[trigger] connecting.request.protocols@[i]@
                == seen.protocols[i] by {
                assert(texts(connecting.request.protocols@)[i] == seen.protocols[i]);
            }
            assert forall|name: Seq<char>| #[trigger]
                fields(connecting.request.headers).contains_key(name) <==> seen.headers.contains_key(
                    name,
                ) by {
                assert(connecting.request@.seen().headers.contains_key(name)
                    == fields(connecting.request.headers).contains_key(name));
            }
        }
    }
}

/// A response is taken as what it is: with status 200 and a subprotocol of the request, or none, it
/// establishes the session, another status is told, another subprotocol named, and what is no response comes
/// with the reason why.
pub proof fn law_responses_are_read_as_they_are(
    request: ConnectRequest,
    session_id: u64,
    data: &[u8],
    ended: bool,
    r: Result<Result<(Connected, usize), ConnectError>, ConnectRequest>,
)
    requires
        call_ensures(Connected::establish, (request, session_id, data, ended), r),
    ensures
        (match response_at(data@) {
            ResponseDecoding::Done(seen, n) => {
                &&& seen.status != 200 ==> r == Ok::<_, ConnectRequest>(
                    Err::<(Connected, usize), ConnectError>(ConnectError::ErrorStatus(seen.status)),
                )
                &&& seen.status == 200 && (seen.protocol is None || exists|i: int|
                    0 <= i < request.protocols@.len() && (#[trigger] request.protocols@[i])@
                        == seen.protocol->0) ==> (r matches Ok(Ok((connected, len))) && len == n
                    && connected.request == request && connected.session_id == session_id
                    && connected.response.status == 200 && (connected.response.protocol is Some
                    <==> seen.protocol is Some) && (seen.protocol is Some
                    ==> connected.response.protocol->0@ == seen.protocol->0))
                &&& seen.status == 200 && seen.protocol is Some && (forall|i: int|
                    0 <= i < request.protocols@.len() ==> (#[trigger] request.protocols@[i])@
                        != seen.protocol->0) ==> (r matches Ok(
                    Err(ConnectError::ProtocolMismatch(named)),
                ) && named@ == seen.protocol->0)
            },
            ResponseDecoding::Refused(status) => r matches Ok(Err(ConnectError::ProtoError(e)))
                && refused_with(e) == Some(status) && refuses_response(data, false, Some(status), e),
            ResponseDecoding::Invalid => r matches Ok(Err(ConnectError::ProtoError(e)))
                && refuses_response(data, false, None, e),
            ResponseDecoding::Incomplete => if ended {
                r matches Ok(Err(ConnectError::ProtoError(e))) && refuses_response(data, true, None, e)
            } else {
                r == Err::<Result<(Connected, usize), ConnectError>, ConnectRequest>(request)
            },
        }),
{
    if let ResponseDecoding::Done(seen, _) = response_at(data@) {
        if let Some(p) = seen.protocol {
            let list = texts(request.protocols@);
            if exists|i: int|
                0 <= i < request.protocols@.len() && (#[trigger] request.protocols@[i])@ == p {
                let i = choose|i: int|
                    0 <= i < request.protocols@.len() && (#[trigger] request.protocols@[i])@ == p;
                assert(list[i] == p);
            }
            if list.contains(p) {
                let i = choose|i: int| 0 <= i < list.len() && list[i] == p;
                assert(request.protocols@[i]@ == p);
            }
        }
    }
}

/// What is sent for a request or a response is what its encoder writes for it, and where it cannot be written
/// the reason is told.
pub proof fn law_what_is_sent_is_what_was_given(
    request: ConnectRequest,
    opened: Result<Vec<u8>, ConnectError>,
    connecting: Connecting,
    response: ConnectResponse,
    responded: Result<(Connected, Vec<u8>), ConnectError>,
    status: u16,
    rejected: Result<Vec<u8>, ConnectError>,
)
    requires
        call_ensures(Connected::open, (&request,), opened),
        call_ensures(Connecting::respond, (connecting, response), responded),
        call_ensures(Connecting::reject, (connecting, status), rejected),
    ensures
        opened is Ok <==> request_fits(request@),
        opened matches Ok(bytes) ==> writes_request(request, bytes),
        opened matches Err(e) ==> (e matches ConnectError::ProtoError(error) && no_request(
            request,
            error,
        )),
        responded matches Ok((_, bytes)) ==> writes_response(response, bytes),
        responded matches Err(ConnectError::ProtoError(error)) ==> no_response(response, error)
            && !response_fits(response@),
        rejected matches Ok(bytes) && exists|r: ConnectResponse|
            r.status == status && r.protocol is None && #[trigger] writes_response(r, bytes),
{
}

/// What is written, and why something is refused, is what the encoders and decoders give.
proof fn lemma_written_and_refused(
    data: &[u8],
    early: bool,
    status: Option<u16>,
    request: ConnectRequest,
    response: ConnectResponse,
    bytes: Vec<u8>,
    e: ProtoConnectError,
)
    ensures
        refuses_request(data, early, e) == call_ensures(
            decode_request,
            (data,),
            Err::<(ConnectRequest, usize), (bool, ProtoConnectError)>((early, e)),
        ),
        refuses_response(data, early, status, e) == call_ensures(
            decode_response,
            (data,),
            Err::<(ConnectResponse, usize), (bool, Option<u16>, ProtoConnectError)>(
                (early, status, e),
            ),
        ),
        writes_request(request, bytes) == call_ensures(
            encode_request,
            (&request,),
            Ok::<Vec<u8>, ProtoConnectError>(bytes),
        ),
        no_request(request, e) == call_ensures(
            encode_request,
            (&request,),
            Err::<Vec<u8>, ProtoConnectError>(e),
        ),
        writes_response(response, bytes) == call_ensures(
            encode_response,
            (&response,),
            Ok::<Vec<u8>, ProtoConnectError>(bytes),
        ),
        no_response(response, e) == call_ensures(
            encode_response,
            (&response,),
            Err::<Vec<u8>, ProtoConnectError>(e),
        ),
{
}

} // verus!
