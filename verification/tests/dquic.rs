use bytes::Bytes;
use web_transport_quic::dquic::{
    bind_uri, discover_addr, Accept, Bound, DatagramWriter, RecvStream, Server, Session,
};
use web_transport_quic::error::{ConnectionError, SendDatagramError, ServerError, StreamError};
use web_transport_quic::header::{encode_header, FRAME_WEBTRANSPORT, STREAM_WEBTRANSPORT};
use web_transport_quic::session::Session as SharedSession;
use web_transport_quic::{
    ConnectRequest, ConnectResponse, Connected, ReadError, ServerBuilder, SessionError,
    WebTransportError,
};

fn session(id: u64, max_frame_size: Option<Option<usize>>) -> Session {
    let connected = Connected {
        request: ConnectRequest::new("https://localhost/".to_string()),
        response: ConnectResponse::ok(),
        session_id: id,
    };
    Session {
        session: SharedSession::new(connected),
        datagram_reader: max_frame_size.is_some(),
        datagram_writer: max_frame_size.map(|max_frame_size| DatagramWriter { max_frame_size }),
    }
}

fn unknown() -> SessionError {
    SessionError::WebTransportError(WebTransportError::UnknownSession)
}

#[test]
fn the_own_streams_are_returned_and_others_skipped() {
    let session = session(4, None);
    let mut wire = encode_header(STREAM_WEBTRANSPORT, 4);
    let len = wire.len();
    assert_eq!(session.accept_uni(&wire[..1], false), Accept::More);
    assert_eq!(session.accept_uni(&wire[..2], false), Accept::More);
    wire.extend_from_slice(b"data");
    assert_eq!(session.accept_uni(&wire, false), Accept::Return(Ok(len)));
    // A type that never arrives is skipped, and so is another type.
    assert_eq!(session.accept_uni(&[], true), Accept::Skip);
    assert_eq!(session.accept_uni(&wire[..1], true), Accept::Skip);
    assert_eq!(session.accept_uni(&[0x02], false), Accept::Skip);
    // The session ID that never arrives, or is another's, is an error.
    assert_eq!(session.accept_uni(&wire[..2], true), Accept::Return(Err(unknown())));
    let other = encode_header(STREAM_WEBTRANSPORT, 8);
    assert_eq!(session.accept_uni(&other, false), Accept::Return(Err(unknown())));
}

#[test]
fn bidirectional_streams_have_a_type_of_their_own() {
    let session = session(4, None);
    let wire = encode_header(FRAME_WEBTRANSPORT, 4);
    assert_eq!(session.accept_bi(&wire, true), Accept::Return(Ok(wire.len())));
    assert_eq!(session.accept_uni(&wire, true), Accept::Skip);
    assert_eq!(session.accept_bi(&[0x01], true), Accept::Skip);
    assert_eq!(session.accept_bi(&wire[..2], true), Accept::Return(Err(unknown())));
}

#[test]
fn a_stream_starts_with_its_header() {
    let mut session = session(4, None);
    assert_eq!(&session.open_uni(Ok(Some(()))).unwrap()[..], b"\x40\x54\x04");
    assert_eq!(&session.open_bi(Ok(Some(()))).unwrap()[..], b"\x40\x41\x04");
    assert_eq!(session.open_uni(Ok(None)), Err(SessionError::LocallyClosed));
    assert_eq!(session.header_sent(true), Ok(()));
    assert_eq!(session.header_sent(false), Err(SessionError::LocallyClosed));
    let lost = || ConnectionError::Other { reason: "lost".to_string() };
    assert_eq!(session.open_bi(Err(lost())), Err(SessionError::ConnectionError(lost())));
    session.session.close(1, b"bye");
    let bye = SessionError::WebTransportError(WebTransportError::Closed(1, "bye".to_string()));
    assert_eq!(session.open_bi(Err(lost())), Err(bye.clone()));
    assert_eq!(session.open_bi(Ok(None)), Err(bye.clone()));
    assert_eq!(session.stream_failed(lost()), bye);
}

#[test]
fn datagrams_have_to_be_negotiated() {
    let with = session(4, Some(Some(1200)));
    let sent = with.send_datagram(&Bytes::from_static(b"hi")).unwrap();
    assert_eq!(&sent[..], b"\x04hi");
    assert_eq!(&with.read_datagram(Some(sent)).unwrap()[..], b"hi");
    assert_eq!(with.read_datagram(Some(Bytes::from_static(b"\x08hi"))), Err(unknown()));
    assert_eq!(with.read_datagram(None), Err(SessionError::LocallyClosed));
    assert_eq!(with.datagram_sent(true), Ok(()));
    assert_eq!(
        with.datagram_sent(false),
        Err(SessionError::SendDatagram(SendDatagramError::TooLarge))
    );

    let without = session(4, None);
    assert_eq!(
        without.send_datagram(&Bytes::from_static(b"hi")),
        Err(SessionError::DatagramUnsupported)
    );
    assert_eq!(without.read_datagram(None), Err(SessionError::DatagramUnsupported));
}

#[test]
fn a_datagram_leaves_room_for_frame_type_and_session_id() {
    assert_eq!(session(4, Some(Some(1200))).max_datagram_size(), 1198);
    assert_eq!(session(64, Some(Some(1200))).max_datagram_size(), 1197);
    assert_eq!(session(4, Some(Some(2))).max_datagram_size(), 0);
    assert_eq!(session(4, Some(Some(1))).max_datagram_size(), 0);
    assert_eq!(session(4, Some(None)).max_datagram_size(), 0);
    assert_eq!(session(4, None).max_datagram_size(), 0);
}

#[test]
fn a_read_of_nothing_is_the_end() {
    let recv = RecvStream { stream: () };
    assert_eq!(recv.read(10, Ok(4), None), Ok(Some(4)));
    assert_eq!(recv.read(10, Ok(0), None), Ok(None));
    assert_eq!(recv.read(0, Ok(0), None), Ok(Some(0)));
    let reset = StreamError::Reset { code: 1 };
    assert_eq!(recv.read(10, Err(reset), None), Err(ReadError::InvalidReset(1)));
    assert_eq!(recv.closed(Ok(3), None), Ok(false));
    assert_eq!(recv.closed(Ok(0), None), Ok(true));
}

#[test]
fn a_chunk_is_what_was_read() {
    let recv = RecvStream { stream: () };
    assert_eq!(
        recv.read_chunk(b"abcd".to_vec(), Ok(3), None),
        Ok(Some(Bytes::from_static(b"abc")))
    );
    assert_eq!(recv.read_chunk(b"abcd".to_vec(), Ok(0), None), Ok(None));
    // Without room to read into, nothing is known of the end.
    assert_eq!(recv.read_chunk(Vec::new(), Ok(0), None), Ok(Some(Bytes::new())));
    let lost = StreamError::Connection(ConnectionError::Other { reason: "lost".to_string() });
    let stored = SessionError::LocallyClosed;
    assert_eq!(
        recv.read_chunk(b"abcd".to_vec(), Err(lost), Some(&stored)),
        Err(ReadError::SessionError(SessionError::LocallyClosed))
    );
}

#[test]
fn the_system_picks_a_port_where_none_is_given() {
    assert_eq!(bind_uri("127.0.0.1:0", 0), ("inet://127.0.0.1:0".to_string(), true));
    assert_eq!(bind_uri("[::]:443", 443), ("inet://[::]:443".to_string(), false));
}

#[test]
fn a_bound_address_is_one_of_the_internet() {
    fn failure(bound: Bound<u8>) -> String {
        match discover_addr(bound) {
            Err(ServerError::Build(text)) => text,
            _ => panic!("there is no address"),
        }
    }
    assert!(matches!(discover_addr(Bound::Internet(7)), Ok(7)));
    assert_eq!(failure(Bound::NotRegistered), "server not registered");
    assert_eq!(failure(Bound::NoInterface), "no bound interface");
    assert_eq!(failure(Bound::Failed("gone".to_string())), "gone");
    assert_eq!(failure(Bound::NotInternet), "non-internet bound address");
}

#[test]
fn a_server_keeps_its_name_and_address() {
    let builder = || ServerBuilder::new().with_server_name("example.com".to_string());
    let server = Server::with_certificate(builder(), Bound::Internet(7)).unwrap();
    assert_eq!(*server.local_addr(), 7);
    assert_eq!(server.server_name(), "example.com");
    assert_eq!(server.server.handshake_stats().admitted, 0);
    let unbound = Server::<u8>::with_certificate(builder(), Bound::NoInterface);
    assert!(matches!(unbound, Err(ServerError::Build(text)) if text == "no bound interface"));
}
