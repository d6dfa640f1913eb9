use web_transport_quic::connect::{connect_stream, STATUS_OK};
use web_transport_quic::error::{
    ClientError, ConnectError, ConnectionError, ServerError, SettingsError,
};
use web_transport_quic::settings;
use web_transport_quic::{
    ConnectRequest, ConnectResponse, Connected, Connecting, Request, Session, Settings,
};

fn request() -> ConnectRequest {
    ConnectRequest::new("https://localhost:4433/moq?x=1".to_string())
}

fn offer() -> ConnectRequest {
    request().with_protocol("moq-00".to_string()).with_protocol("chat".to_string())
}

fn received(bytes: &[u8]) -> Connecting {
    match Connecting::accept(bytes, false, 4) {
        Some(Ok((connecting, n))) => {
            assert_eq!(n, bytes.len());
            connecting
        }
        _ => panic!("the request is complete"),
    }
}

#[test]
fn a_request_reaches_the_server() {
    let bytes = Connected::open(&offer()).unwrap();
    let connecting = received(&bytes);
    assert_eq!(connecting.session_id, 4);
    assert_eq!(connecting.request.url, "https://localhost:4433/moq?x=1");
    assert_eq!(connecting.request.protocols, vec!["moq-00".to_string(), "chat".to_string()]);
}

#[test]
fn a_request_is_for_a_url() {
    let parsed = ConnectRequest::parse("HTTPS://LocalHost:443/a b").unwrap();
    assert_eq!(parsed.url, "https://localhost/a%20b");
    assert!(parsed.protocols.is_empty());
    let connecting = received(&Connected::open(&parsed).unwrap());
    assert_eq!(connecting.request.url, "https://localhost/a%20b");
    assert!(ConnectRequest::parse("not a url").is_none());
}

#[test]
fn a_fragment_stays_with_the_client() {
    let parsed = ConnectRequest::parse("https://localhost/a#b").unwrap();
    let connecting = received(&Connected::open(&parsed).unwrap());
    assert_eq!(connecting.request.url, "https://localhost/a");
}

#[test]
fn a_request_that_is_not_for_https_is_refused() {
    let parsed = ConnectRequest::parse("http://localhost/").unwrap();
    let bytes = Connected::open(&parsed).unwrap();
    assert!(matches!(
        Connecting::accept(&bytes, false, 0),
        Some(Err(ConnectError::ProtoError(web_transport_proto::ConnectError::WrongScheme(_))))
    ));
}

#[test]
fn request_headers_reach_the_server() {
    let mut sent = request();
    let name = http::HeaderName::from_bytes(b"x-token").unwrap();
    sent.headers.append(name, http::HeaderValue::from_str("abc").unwrap());
    let bytes = Connected::open(&sent).unwrap();
    let connecting = received(&bytes);
    assert_eq!(connecting.request.headers.get("x-token").unwrap().as_bytes(), b"abc");
}

#[test]
fn the_last_value_of_a_header_reaches_the_server() {
    let mut sent = request();
    for value in ["first", "second", "last"] {
        let name = http::HeaderName::from_bytes(b"x-token").unwrap();
        sent.headers.append(name, http::HeaderValue::from_str(value).unwrap());
    }
    let name = http::HeaderName::from_bytes(b"wt-available-protocols").unwrap();
    sent.headers.append(name, http::HeaderValue::from_str("\"other\"").unwrap());
    let connecting = received(&Connected::open(&sent).unwrap());
    assert_eq!(connecting.request.headers.len(), 1);
    assert_eq!(connecting.request.headers.get("x-token").unwrap().as_bytes(), b"last");
    assert!(connecting.request.protocols.is_empty());
}

/// The fields of a request, and then these.
fn with_fields(bytes: &[u8], fields: &[u8]) -> Vec<u8> {
    assert_eq!(bytes[0], 0x01);
    assert_eq!(bytes[1] >> 6, 1);
    let mut payload = bytes[3..].to_vec();
    payload.extend_from_slice(fields);
    let len = payload.len() as u16 | 0x4000;
    let mut frame = vec![0x01];
    frame.extend_from_slice(&len.to_be_bytes());
    frame.extend_from_slice(&payload);
    frame
}

#[test]
fn names_of_headers_that_differ_in_case_are_one() {
    let bytes = Connected::open(&offer()).unwrap();
    let bytes = with_fields(&bytes, b"\x23X-A\x011\x23x-a\x012");
    let connecting = received(&bytes);
    let values = connecting.request.headers.get_all("x-a").iter();
    let mut values: Vec<&[u8]> = values.map(|value| value.as_bytes()).collect();
    values.sort();
    assert_eq!(values, [b"1", b"2"]);
}

#[test]
fn a_request_may_arrive_byte_by_byte() {
    let bytes = Connected::open(&request()).unwrap();
    for k in 0..bytes.len() {
        assert!(Connecting::accept(&bytes[..k], false, 0).is_none());
        assert!(matches!(
            Connecting::accept(&bytes[..k], true, 0),
            Some(Err(ConnectError::ProtoError(web_transport_proto::ConnectError::UnexpectedEnd)))
        ));
    }
    let mut more = bytes.clone();
    more.extend_from_slice(b"capsules");
    match Connecting::accept(&more, false, 0) {
        Some(Ok((_, n))) => assert_eq!(n, bytes.len()),
        _ => panic!("the request is complete"),
    }
}

#[test]
fn what_is_no_request_is_refused() {
    // A SETTINGS frame instead of HEADERS.
    assert!(matches!(
        Connecting::accept(&[0x04, 0x00], false, 0),
        Some(Err(ConnectError::ProtoError(web_transport_proto::ConnectError::UnexpectedFrame(_))))
    ));
}

#[test]
fn a_request_without_a_valid_url_is_not_sent() {
    let bad = ConnectRequest::new("not a url".to_string());
    assert!(matches!(
        Connected::open(&bad),
        Err(ConnectError::ProtoError(web_transport_proto::ConnectError::InvalidUrl(_)))
    ));
}

#[test]
fn a_session_is_established_on_both_sides() {
    let client_request = offer();
    let bytes = Connected::open(&client_request).unwrap();
    let (request, n) = Request::accept(&bytes, false, 8).unwrap().unwrap();
    assert_eq!(n, bytes.len());
    assert_eq!(request.connect().url, client_request.url);

    let response = ConnectResponse::ok().with_protocol("chat".to_string());
    let (server, reply) = request.respond(response).unwrap();
    assert_eq!(server.session_id(), 8);
    assert_eq!(server.protocol(), Some(&"chat".to_string()));

    let connected = match Connected::establish(client_request, 8, &reply, false) {
        Ok(Ok((connected, n))) => {
            assert_eq!(n, reply.len());
            connected
        }
        _ => panic!("the response is complete"),
    };
    assert_eq!(connected.session_id(), 8);
    assert_eq!(connected.response.status, STATUS_OK);
    let client = Session::new(connected);
    assert_eq!(client.protocol(), Some(&"chat".to_string()));
    assert_eq!(client.request().protocols.len(), 2);
    assert_eq!(client.response().status, 200);
}

#[test]
fn accepting_selects_no_protocol() {
    let bytes = Connected::open(&offer()).unwrap();
    let (request, _) = Request::accept(&bytes, true, 0).unwrap().unwrap();
    let (session, reply) = request.ok().unwrap();
    assert!(session.protocol().is_none());
    match Connected::establish(offer(), 0, &reply, false) {
        Ok(Ok((connected, _))) => assert!(connected.response.protocol.is_none()),
        _ => panic!("the session is accepted"),
    }
}

#[test]
fn a_protocol_that_was_not_offered_is_refused_by_the_server() {
    let bytes = Connected::open(&offer()).unwrap();
    let response = ConnectResponse::ok().with_protocol("other".to_string());
    match received(&bytes).respond(response) {
        Err(ConnectError::ProtocolMismatch(protocol)) => assert_eq!(protocol, "other"),
        _ => panic!("the protocol was not offered"),
    }
    let (request, _) = Request::accept(&bytes, false, 0).unwrap().unwrap();
    let response = ConnectResponse::ok().with_protocol("other".to_string());
    assert!(matches!(
        request.respond(response),
        Err(ServerError::ConnectError(ConnectError::ProtocolMismatch(_)))
    ));
}

#[test]
fn a_protocol_that_was_not_offered_is_refused_by_the_client() {
    let bytes = Connected::open(&offer()).unwrap();
    let response = ConnectResponse::ok().with_protocol("chat".to_string());
    let (_, reply) = received(&bytes).respond(response).unwrap();
    match Connected::establish(request(), 0, &reply, false) {
        Ok(Err(ConnectError::ProtocolMismatch(protocol))) => assert_eq!(protocol, "chat"),
        _ => panic!("the protocol was not offered"),
    }
}

#[test]
fn a_protocol_that_cannot_be_written_is_refused() {
    let mut connecting = received(&Connected::open(&request()).unwrap());
    connecting.request.protocols.push("\u{1}".to_string());
    let response = ConnectResponse::ok().with_protocol("\u{1}".to_string());
    assert!(matches!(connecting.respond(response), Err(ConnectError::ProtoError(_))));
}

#[test]
fn a_success_other_than_200_is_an_error_status() {
    let (_, reply) = received(&Connected::open(&request()).unwrap())
        .respond(ConnectResponse::new(204))
        .unwrap();
    match Connected::establish(request(), 0, &reply, false) {
        Ok(Err(ConnectError::ErrorStatus(status))) => assert_eq!(status, 204),
        _ => panic!("the status is not 200"),
    }
}

#[test]
fn the_client_is_told_every_status_but_success() {
    for status in [100, 302, 401, 404, 429, 500, 999] {
        let connecting = received(&Connected::open(&offer()).unwrap());
        let mut response = ConnectResponse::new(status);
        response.protocol = Some("chat".to_string());
        let (_, reply) = connecting.respond(response).unwrap();
        let mut more = reply.clone();
        more.push(0);
        for reply in [reply, more] {
            match Connected::establish(offer(), 0, &reply, false) {
                Ok(Err(ConnectError::ProtoError(
                    web_transport_proto::ConnectError::WrongStatus(Some(told)),
                ))) => assert_eq!(told.as_u16(), status),
                _ => panic!("the session is refused"),
            }
        }
    }
}

#[test]
fn a_rejection_reaches_the_client_as_an_error() {
    let reply = received(&Connected::open(&request()).unwrap()).reject(404).unwrap();
    assert!(matches!(
        Connected::establish(request(), 0, &reply, false),
        Ok(Err(ConnectError::ProtoError(web_transport_proto::ConnectError::WrongStatus(Some(
            http::StatusCode::NOT_FOUND
        )))))
    ));
    let bytes = Connected::open(&request()).unwrap();
    let (pending, _) = Request::accept(&bytes, false, 0).unwrap().unwrap();
    assert!(pending.reject(500).is_ok());
}

#[test]
fn a_response_may_arrive_in_pieces() {
    let (_, reply) =
        received(&Connected::open(&request()).unwrap()).respond(ConnectResponse::ok()).unwrap();
    for k in 0..reply.len() {
        match Connected::establish(request(), 0, &reply[..k], false) {
            Err(same) => assert_eq!(same.url, request().url),
            _ => panic!("the response is incomplete"),
        }
        assert!(matches!(
            Connected::establish(request(), 0, &reply[..k], true),
            Ok(Err(ConnectError::ProtoError(_)))
        ));
    }
}

#[test]
fn the_settings_of_one_side_are_accepted_by_the_other() {
    let frame = settings::open();
    assert!(matches!(settings::accept(&frame, false), Some(Ok(n)) if n == frame.len()));
    let decoded = web_transport_proto::Settings::decode(&mut frame.as_slice()).unwrap();
    assert_eq!(decoded.supports_webtransport(), 1);
    for k in 0..frame.len() {
        assert!(settings::accept(&frame[..k], false).is_none());
        assert!(matches!(
            settings::accept(&frame[..k], true),
            Some(Err(SettingsError::ProtoError(web_transport_proto::SettingsError::UnexpectedEnd)))
        ));
    }
    let mut more = frame.clone();
    more.push(0x21);
    assert!(matches!(settings::accept(&more, false), Some(Ok(n)) if n == frame.len()));
}

#[test]
fn settings_without_webtransport_are_refused() {
    // A control stream with an empty SETTINGS frame.
    assert!(matches!(
        settings::accept(&[0x00, 0x04, 0x00], false),
        Some(Err(SettingsError::WebTransportUnsupported))
    ));
    // Datagrams, but no sessions.
    let mut wanted = web_transport_proto::Settings::default();
    wanted.enable_webtransport(0);
    let mut frame = Vec::new();
    wanted.encode(&mut frame);
    assert!(matches!(
        settings::accept(&frame, false),
        Some(Err(SettingsError::WebTransportUnsupported))
    ));
}

#[test]
fn the_deprecated_settings_still_announce_webtransport() {
    // Datagrams by their earlier number, and WebTransport by its own, without a limit.
    let mut payload = Vec::new();
    for (id, value) in [(0xFFD277u32, 1u32), (0x2b603742, 1)] {
        web_transport_proto::VarInt::from_u32(id).encode(&mut payload);
        web_transport_proto::VarInt::from_u32(value).encode(&mut payload);
    }
    let mut frame = vec![0x00, 0x04, payload.len() as u8];
    frame.extend_from_slice(&payload);
    assert!(matches!(settings::accept(&frame, false), Some(Ok(n)) if n == frame.len()));
}

#[test]
fn another_stream_is_no_control_stream() {
    assert!(matches!(
        settings::accept(&[0x54, 0x00], false),
        Some(Err(SettingsError::ProtoError(
            web_transport_proto::SettingsError::UnexpectedStreamType(_)
        )))
    ));
}

#[test]
fn streams_that_cannot_be_had_are_errors() {
    let gone = || ConnectionError::Application { code: 0x0107 };
    assert!(matches!(settings::control_stream(Ok(Some(7))), Ok(7)));
    assert!(matches!(
        settings::control_stream::<u8>(Ok(None)),
        Err(SettingsError::UnexpectedEnd)
    ));
    assert!(matches!(
        settings::control_stream::<u8>(Err(gone())),
        Err(SettingsError::ConnectionError(ConnectionError::Application { code: 0x0107 }))
    ));
    assert!(matches!(connect_stream(Ok(Some(7))), Ok(7)));
    assert!(matches!(connect_stream::<u8>(Ok(None)), Err(ConnectError::UnexpectedEnd)));
    assert!(matches!(
        connect_stream::<u8>(Err(gone())),
        Err(ConnectError::ConnectionError(ConnectionError::Application { code: 0x0107 }))
    ));
}

#[test]
fn the_settings_exchange_needs_both_directions() {
    let exchange: settings::Exchange<&str, u8> = settings::Exchange::new();
    let exchange = match exchange.connect(settings::Event::Sent(Ok("send"))) {
        Err(exchange) => exchange,
        Ok(_) => panic!("the peer's settings are missing"),
    };
    match exchange.connect(settings::Event::Accepted(Ok(1))) {
        Ok(Ok(Settings { send, recv })) => {
            assert_eq!(send, "send");
            assert_eq!(recv, 1);
        }
        _ => panic!("both directions are complete"),
    }

    let exchange: settings::Exchange<&str, u8> = settings::Exchange::new();
    let exchange = match exchange.connect(settings::Event::Accepted(Ok(2))) {
        Err(exchange) => exchange,
        Ok(_) => panic!("the own settings are missing"),
    };
    match exchange.connect(settings::Event::Sent(Ok("late"))) {
        Ok(Ok(Settings { send, recv })) => {
            assert_eq!(send, "late");
            assert_eq!(recv, 2);
        }
        _ => panic!("both directions are complete"),
    }

    let exchange: settings::Exchange<&str, u8> = settings::Exchange::new();
    let refused = settings::Event::Accepted(Err(SettingsError::WebTransportUnsupported));
    assert!(matches!(
        exchange.connect(refused),
        Ok(Err(SettingsError::WebTransportUnsupported))
    ));
}

#[test]
fn handshake_errors_become_those_of_client_and_server() {
    assert!(matches!(
        ClientError::from(SettingsError::UnexpectedEnd),
        ClientError::SettingsError(SettingsError::UnexpectedEnd)
    ));
    assert!(matches!(
        ClientError::from(ConnectError::UnexpectedEnd),
        ClientError::HttpError(ConnectError::UnexpectedEnd)
    ));
    assert!(matches!(
        ClientError::from(ConnectionError::Application { code: 1 }),
        ClientError::Connection(ConnectionError::Application { code: 1 })
    ));
    assert!(matches!(
        ServerError::from(SettingsError::UnexpectedEnd),
        ServerError::SettingsError(SettingsError::UnexpectedEnd)
    ));
    assert!(matches!(
        ServerError::from(ConnectError::UnexpectedEnd),
        ServerError::ConnectError(ConnectError::UnexpectedEnd)
    ));
}
