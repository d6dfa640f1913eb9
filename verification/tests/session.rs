use bytes::Bytes;
use futures::task::noop_waker;
use std::rc::Rc;
use std::sync::{Arc, Mutex};
use std::task::{Wake, Waker};
use std::time::Duration;
use web_transport_quic::accept::{note_waker, Action, Event};
use web_transport_quic::capsule::{read_capsules, Capsules};
use web_transport_quic::error::{
    ConnectionError, DatagramError, SendDatagramError, StreamError,
};
use web_transport_quic::recv::Fill;
use web_transport_quic::session::{Close, Received};
use web_transport_quic::stats::RecoveryContext;
use web_transport_quic::{
    ConnectRequest, ConnectResponse, Connected, Connecting, ReadError, RecvStream, SendStream,
    Session, SessionAccept, SessionError, SessionStats, WebTransportError, WriteError,
};

/// Both ends of a session that was established over in-memory streams.
fn connect_with_id(id: u64) -> (Session, Session) {
    let request = ConnectRequest::new("https://localhost/".to_string());
    let bytes = Connected::open(&request).unwrap();
    let (connecting, _) = Connecting::accept(&bytes, false, id).unwrap().unwrap();
    let (server, reply) = connecting.respond(ConnectResponse::ok()).unwrap();
    let client = match Connected::establish(request, id, &reply, false) {
        Ok(Ok((client, _))) => client,
        _ => panic!("the session is established"),
    };
    (Session::new(client), Session::new(server))
}

fn connect() -> (Session, Session) {
    connect_with_id(0)
}

/// All that `session` puts on the wire for a unidirectional stream with this data.
fn uni(session: &Session, data: &[u8]) -> Vec<u8> {
    let mut wire = session.open_uni(Ok(())).unwrap().to_vec();
    session.header_sent(Ok(())).unwrap();
    wire.extend_from_slice(&SendStream::new(()).write(data));
    wire
}

/// All that `session` puts on the wire for a bidirectional stream with this data.
fn bi(session: &Session, data: &[u8]) -> Vec<u8> {
    let mut wire = session.open_bi(Ok(())).unwrap().to_vec();
    session.header_sent(Ok(())).unwrap();
    wire.extend_from_slice(&SendStream::new(()).write(data));
    wire
}

/// Runs the accept loop for one unidirectional stream, whose bytes come in chunks.
fn accept_uni(
    accept: &mut SessionAccept<u32>,
    id: u32,
    wire: &[u8],
    chunk: usize,
) -> Option<(RecvStream<u32>, usize)> {
    let waker = noop_waker();
    let mut action = accept.poll_accept_uni(Event::Opened(id), &waker);
    let mut seen = 0;
    loop {
        match action {
            Action::Read { stream, mut data } => {
                let next = std::cmp::min(seen + chunk, wire.len());
                data.extend_from_slice(&wire[seen..next]);
                seen = next;
                let ended = seen == wire.len();
                action = accept.poll_accept_uni(Event::Received { stream, data, ended }, &waker);
            }
            Action::Accepted { stream, leftover, .. } => {
                return Some((RecvStream::new(stream, &leftover), seen));
            }
            Action::Continue => return None,
            _ => panic!("nothing else happens"),
        }
    }
}

fn accept_bi(accept: &mut SessionAccept<u32>, id: u32, wire: &[u8]) -> Option<Vec<u8>> {
    let waker = noop_waker();
    let received = Event::Received { stream: id, data: wire.to_vec(), ended: true };
    match accept.poll_accept_bi(received, &waker) {
        Action::Accepted { stream, leftover, .. } => {
            assert_eq!(stream, id);
            Some(leftover)
        }
        Action::Continue => None,
        _ => panic!("nothing else happens"),
    }
}

/// Reads a stream to its end, `rest` being what has yet to arrive.
fn read_all(recv: &mut RecvStream<u32>, rest: &[u8]) -> Vec<u8> {
    let mut out = Vec::new();
    let mut buf = [0u8; 1024];
    let mut chunks = rest.chunks(700);
    loop {
        if recv.needs_data() {
            let chunk = chunks.next().map(Bytes::copy_from_slice);
            match recv.fill(Ok(chunk), None).unwrap() {
                Fill::Ready => {}
                Fill::Again => continue,
                Fill::Finished => return out,
            }
        }
        let n = recv.read(&mut buf);
        out.extend_from_slice(&buf[..n]);
    }
}

#[test]
fn integration_bidirectional_echo() {
    let (client, server) = connect();
    let mut accept = SessionAccept::new(server.session_id());
    let wire = bi(&client, b"hello webtransport");
    let received = accept_bi(&mut accept, 1, &wire).unwrap();
    let echoed = SendStream::new(()).write(&received);
    assert_eq!(&echoed[..], b"hello webtransport");
}

#[test]
fn unidirectional() {
    let (client, server) = connect();
    let mut accept = SessionAccept::new(server.session_id());
    let wire = uni(&client, b"one way");
    let (mut recv, seen) = accept_uni(&mut accept, 3, &wire, 1).unwrap();
    assert_eq!(recv.stream, 3);
    assert_eq!(read_all(&mut recv, &wire[seen..]), b"one way");
}

#[test]
fn uni_server_to_client() {
    let (client, server) = connect();
    let mut accept = SessionAccept::new(client.session_id());
    let wire = uni(&server, b"server to client");
    let (mut recv, seen) = accept_uni(&mut accept, 3, &wire, 100).unwrap();
    assert_eq!(read_all(&mut recv, &wire[seen..]), b"server to client");
}

#[test]
fn many_uni_streams() {
    let (client, server) = connect_with_id(4);
    let mut accept = SessionAccept::new(client.session_id());
    let mut seen_data = Vec::new();
    for i in 0..50u32 {
        let wire = uni(&server, format!("msg-{i}").as_bytes());
        let (mut recv, seen) = accept_uni(&mut accept, i, &wire, 2).unwrap();
        assert_eq!(recv.stream, i);
        seen_data.push(read_all(&mut recv, &wire[seen..]));
    }
    assert_eq!(seen_data.len(), 50);
    assert_eq!(seen_data[49], b"msg-49");
}

#[test]
fn large_uni_stream() {
    let (client, server) = connect();
    let mut accept = SessionAccept::new(client.session_id());
    let wire = uni(&server, &vec![0xAB; 1024 * 1024]);
    let (mut recv, seen) = accept_uni(&mut accept, 0, &wire, 1200).unwrap();
    let got = read_all(&mut recv, &wire[seen..]);
    assert_eq!(got.len(), 1024 * 1024);
    assert!(got.iter().all(|b| *b == 0xAB));
}

#[test]
fn datagrams() {
    let (client, server) = connect();
    let sent = client.send_datagram(&Bytes::from_static(b"datagram"));
    client.datagram_sent(Some(Ok(()))).unwrap();
    let got = server.read_datagram(Some(Ok(sent))).unwrap();
    assert_eq!(&got[..], b"datagram");
}

#[test]
fn graceful_close() {
    let (mut client, mut server) = connect();
    let frame = match client.close(42, b"goodbye") {
        Close::SendCapsule { frame, timeout_millis, code } => {
            assert_eq!(timeout_millis, 1000);
            assert_eq!(code, web_transport_proto::error_to_http3(42));
            frame
        }
        _ => panic!("the capsule is sent first"),
    };
    assert!(server.closed().is_none());
    assert_eq!(
        server.run_recv(&frame, false),
        Received::CloseNow { code: web_transport_proto::error_to_http3(42) }
    );
    match server.closed().unwrap() {
        SessionError::WebTransportError(WebTransportError::Closed(code, reason)) => {
            assert_eq!(code, 42);
            assert_eq!(reason, "goodbye");
        }
        other => panic!("unexpected close error: {other:?}"),
    }
}

#[test]
fn the_close_frame_has_this_form() {
    let (mut client, _) = connect();
    match client.close(420, b"test") {
        Close::SendCapsule { frame, .. } => {
            assert_eq!(frame, b"\x00\x0b\x68\x43\x08\x00\x00\x01\xa4test");
        }
        _ => panic!("the capsule is sent first"),
    }
}

#[test]
fn the_first_close_is_the_only_one() {
    let (mut client, _) = connect();
    assert!(matches!(client.close(1, b"first"), Close::SendCapsule { .. }));
    assert_eq!(client.close(2, b"second"), Close::AlreadyClosed);
    assert_eq!(client.run_recv(b"", true), Received::CloseNow { code: 0x52e4a40fa8db });
    let first =
        SessionError::WebTransportError(WebTransportError::Closed(1, "first".to_string()));
    assert_eq!(client.closed(), Some(first.clone()));
    assert_eq!(client.closed_error(), first);
    assert_eq!(client.stored_error(), Some(&first));
}

#[test]
fn a_reason_that_is_no_text_is_mended() {
    let (mut client, mut server) = connect();
    let frame = match client.close(7, b"a\xffb") {
        Close::SendCapsule { frame, .. } => frame,
        _ => panic!("the capsule is sent first"),
    };
    server.run_recv(&frame, true);
    assert_eq!(
        server.closed().unwrap().session_error(),
        Some((7, "a\u{fffd}b".to_string()))
    );
}

#[test]
fn a_reason_that_is_too_long_does_not_reach_the_peer() {
    let (mut client, mut server) = connect();
    let reason = vec![b'x'; 65536];
    let frame = match client.close(7, &reason) {
        Close::SendCapsule { frame, .. } => frame,
        _ => panic!("the capsule is sent first"),
    };
    assert_eq!(server.run_recv(&frame, true), Received::CloseNow { code: 0x52e4a40fa8db });
    assert_eq!(server.closed(), Some(SessionError::LocallyClosed));
}

#[test]
fn the_longest_reason_reaches_the_peer() {
    let (mut client, mut server) = connect();
    // Two bytes of type, four of length and four of code are left of 65536.
    let reason = vec![b'x'; 65526];
    let frame = match client.close(7, &reason) {
        Close::SendCapsule { frame, .. } => frame,
        _ => panic!("the capsule is sent first"),
    };
    server.run_recv(&frame, true);
    assert_eq!(server.closed().unwrap().session_error().unwrap().1.len(), 65526);
}

#[test]
fn a_connect_stream_that_ends_closes_the_session() {
    let (mut client, _) = connect();
    assert_eq!(client.run_recv(b"", false), Received::Idle);
    assert!(client.closed().is_none());
    assert_eq!(client.run_recv(b"", true), Received::CloseNow { code: 0x52e4a40fa8db });
    assert_eq!(client.closed(), Some(SessionError::LocallyClosed));
}

#[test]
fn a_close_may_arrive_in_pieces() {
    let (mut client, mut server) = connect();
    let frame = match client.close(42, b"goodbye") {
        Close::SendCapsule { frame, .. } => frame,
        _ => panic!("the capsule is sent first"),
    };
    assert_eq!(server.run_recv(&frame[..0], false), Received::Idle);
    for k in 1..frame.len() {
        assert_eq!(server.run_recv(&frame[..k], false), Received::Partial);
    }
    assert!(matches!(server.run_recv(&frame, false), Received::CloseNow { .. }));
}

#[test]
fn other_capsules_are_skipped() {
    // An unknown capsule of three bytes and a grease capsule, in one DATA frame.
    let other = b"\x00\x07\x05\x03abc\x17\x00".to_vec();
    assert_eq!(read_capsules(&other, false), Capsules::Idle);
    assert_eq!(read_capsules(&other, true), Capsules::Done(None));
    let mut stream = other.clone();
    stream.extend_from_slice(b"\x00\x0b\x68\x43\x08\x00\x00\x01\xa4test");
    assert_eq!(read_capsules(&stream, false), Capsules::Done(Some((420, "test".to_string()))));
    // What has been read can be dropped.
    assert_eq!(
        read_capsules(&stream[other.len()..], false),
        Capsules::Done(Some((420, "test".to_string())))
    );
}

#[test]
fn a_close_behind_other_capsules_may_arrive_in_pieces() {
    let mut stream = b"\x00\x05\x05\x03abc\x00\x02\x17\x00".to_vec();
    stream.extend_from_slice(b"\x00\x0b\x68\x43\x08\x00\x00\x01\xa4test");
    for k in 0..stream.len() {
        let expected = match k {
            0 | 7 | 11 => Capsules::Idle,
            _ => Capsules::Partial,
        };
        assert_eq!(read_capsules(&stream[..k], false), expected);
    }
    // What follows does not change what the stream has come to.
    for more in [b"".as_slice(), b"\x00", b"\x00\x80\x01\x00\x01"] {
        let mut longer = stream.clone();
        longer.extend_from_slice(more);
        let closed = Capsules::Done(Some((420, "test".to_string())));
        assert_eq!(read_capsules(&longer, false), closed);
    }
}

#[test]
fn frames_that_are_no_data_are_skipped() {
    let mut stream = b"\x21\x02ab".to_vec();
    stream.extend_from_slice(b"\x00\x0b\x68\x43\x08\x00\x00\x01\xa4test");
    assert_eq!(read_capsules(&stream, false), Capsules::Done(Some((420, "test".to_string()))));
    assert_eq!(read_capsules(&stream[..3], false), Capsules::Partial);
}

#[test]
fn what_is_no_capsule_ends_the_stream() {
    // A close capsule whose reason is no text.
    assert_eq!(
        read_capsules(b"\x00\x08\x68\x43\x05\x00\x00\x00\x00\xff", false),
        Capsules::Done(None)
    );
    // A frame that is too long.
    assert_eq!(read_capsules(b"\x00\x80\x01\x00\x01", false), Capsules::Done(None));
}

#[test]
fn a_datagram_of_another_session_is_unknown() {
    let (client, _) = connect_with_id(4);
    let (_, other) = connect_with_id(8);
    let sent = client.send_datagram(&Bytes::from_static(b"datagram"));
    assert_eq!(&sent[..], b"\x04datagram");
    assert_eq!(
        other.read_datagram(Some(Ok(sent))),
        Err(SessionError::WebTransportError(WebTransportError::UnknownSession))
    );
    // Too short for any session.
    assert_eq!(
        other.read_datagram(Some(Ok(Bytes::from_static(b"\x40")))),
        Err(SessionError::WebTransportError(WebTransportError::UnknownSession))
    );
}

#[test]
fn a_datagram_leaves_room_for_the_session_id() {
    assert_eq!(connect_with_id(0).0.max_datagram_size(), 1199);
    assert_eq!(connect_with_id(64).0.max_datagram_size(), 1198);
    assert_eq!(connect_with_id(16384).0.max_datagram_size(), 1196);
    assert_eq!(connect_with_id(1 << 30).0.max_datagram_size(), 1192);
    assert_eq!(connect_with_id((1 << 62) - 4).0.datagram_prefix_len(), 8);
}

#[test]
fn datagram_errors_are_told_apart() {
    let (mut client, _) = connect();
    assert_eq!(
        client.datagram_sent(Some(Err(DatagramError::QueueAtCapacity))),
        Err(SessionError::SendDatagram(SendDatagramError::QueueAtCapacity))
    );
    assert_eq!(
        client.datagram_sent(Some(Err(DatagramError::ExceedsPeerTransportLimits))),
        Err(SessionError::SendDatagram(SendDatagramError::TooLarge))
    );
    assert_eq!(
        client.datagram_sent(Some(Err(DatagramError::Other))),
        Err(SessionError::LocallyClosed)
    );
    let closed = ConnectionError::Application { code: web_transport_proto::error_to_http3(9) };
    assert_eq!(
        client.read_datagram(Some(Err(DatagramError::Connection(closed)))),
        Err(SessionError::WebTransportError(WebTransportError::Closed(9, String::new())))
    );
    assert_eq!(client.datagram_sent(None), Err(SessionError::LocallyClosed));
    client.close(3, b"done");
    let done = SessionError::WebTransportError(WebTransportError::Closed(3, "done".to_string()));
    assert_eq!(client.read_datagram(None), Err(done));
}

#[test]
fn the_session_error_takes_the_place_of_generic_ones() {
    let (mut client, _) = connect();
    let lost = || ConnectionError::Other { reason: "idle timeout".to_string() };
    assert_eq!(
        client.map_error(SessionError::ConnectionError(lost())),
        SessionError::ConnectionError(lost())
    );
    client.close(5, b"bye");
    let bye = SessionError::WebTransportError(WebTransportError::Closed(5, "bye".to_string()));
    assert_eq!(client.map_error(SessionError::ConnectionError(lost())), bye);
    assert_eq!(client.map_error(SessionError::LocallyClosed), bye);
    let unknown = SessionError::WebTransportError(WebTransportError::UnknownSession);
    assert_eq!(client.map_error(unknown.clone()), unknown);
    assert_eq!(client.accept_uni::<u8>(Err(SessionError::LocallyClosed)), Err(bye.clone()));
    assert_eq!(client.accept_bi(Ok(7)), Ok(7));
    assert_eq!(client.header_sent(Err(StreamError::Connection(lost()))), Err(bye));
    let other = StreamError::Other { reason: "finished".to_string() };
    assert_eq!(
        client.header_sent(Err(other.clone())),
        Err(SessionError::WebTransportError(WebTransportError::StreamError(other)))
    );
}

#[test]
fn a_stream_that_cannot_be_opened_is_an_error() {
    let (client, _) = connect();
    let closed = || ConnectionError::Application { code: web_transport_proto::error_to_http3(9) };
    let expected = SessionError::WebTransportError(WebTransportError::Closed(9, String::new()));
    assert_eq!(client.open_uni(Err(closed())), Err(expected.clone()));
    assert_eq!(client.open_bi(Err(closed())), Err(expected));
    // A code that is not of WebTransport stays an error of the connection.
    let overload = || ConnectionError::Application { code: 0x0107 };
    assert_eq!(client.open_uni(Err(overload())), Err(SessionError::ConnectionError(overload())));
}

#[test]
fn stream_headers_have_this_form() {
    let (client, _) = connect_with_id(64);
    assert_eq!(&client.open_uni(Ok(())).unwrap()[..], b"\x40\x54\x40\x40");
    assert_eq!(&client.open_bi(Ok(())).unwrap()[..], b"\x40\x41\x40\x40");
}

#[test]
fn streams_of_other_sessions_are_dropped() {
    let (client, _) = connect_with_id(4);
    let mut accept = SessionAccept::new(8);
    assert!(accept_uni(&mut accept, 1, &uni(&client, b"lost"), 1).is_none());
    assert!(accept_bi(&mut accept, 1, &bi(&client, b"lost")).is_none());
}

#[test]
fn streams_that_end_before_their_header_are_dropped() {
    let (client, server) = connect();
    let mut accept = SessionAccept::new(server.session_id());
    let wire = uni(&client, b"");
    for k in 0..wire.len() {
        assert!(accept_uni(&mut accept, 1, &wire[..k], 1).is_none());
    }
    let (mut recv, seen) = accept_uni(&mut accept, 1, &wire, 1).unwrap();
    assert_eq!(read_all(&mut recv, &wire[seen..]), b"");
}

#[test]
fn streams_of_other_kinds_are_dropped() {
    let mut accept: SessionAccept<u32> = SessionAccept::new(0);
    // QPACK encoder and decoder, push, grease.
    for typ in [0x02u8, 0x03, 0x01, 0x21] {
        assert!(accept_uni(&mut accept, 1, &[typ, 0x00], 1).is_none());
    }
    // A HEADERS frame.
    assert!(accept_bi(&mut accept, 1, &[0x01, 0x00]).is_none());
}

#[test]
fn qpack_streams_are_kept() {
    let mut accept: SessionAccept<Rc<()>> = SessionAccept::new(0);
    let waker = noop_waker();
    let mut offer = |typ: u8| {
        let kept = Rc::new(());
        let event = Event::Received { stream: kept.clone(), data: vec![typ], ended: false };
        assert!(matches!(accept.poll_accept_uni(event, &waker), Action::Continue));
        kept
    };
    let encoder = offer(0x02);
    let decoder = offer(0x03);
    let push = offer(0x01);
    assert_eq!(Rc::strong_count(&encoder), 2);
    assert_eq!(Rc::strong_count(&decoder), 2);
    assert_eq!(Rc::strong_count(&push), 1);
    let second = offer(0x02);
    assert_eq!(Rc::strong_count(&encoder), 1);
    assert_eq!(Rc::strong_count(&second), 2);
    drop(accept);
    assert_eq!(Rc::strong_count(&decoder), 1);
}

#[test]
fn the_largest_datagram_fits_the_limit() {
    let (client, _) = connect_with_id(64);
    let data = Bytes::from(vec![0u8; client.max_datagram_size()]);
    assert_eq!(client.send_datagram(&data).len(), 1200);
}

#[test]
fn waiting_callers_are_woken_by_a_stream() {
    let (client, server) = connect();
    let mut accept: SessionAccept<u32> = SessionAccept::new(server.session_id());
    let waker = noop_waker();
    assert!(matches!(accept.poll_accept_uni(Event::Idle, &waker), Action::Wait));
    assert!(matches!(accept.poll_accept_uni(Event::Idle, &waker), Action::Wait));
    let data = uni(&client, b"x");
    match accept.poll_accept_uni(Event::Received { stream: 1, data, ended: false }, &waker) {
        // The same task is noted down once.
        Action::Accepted { wake, .. } => assert_eq!(wake.len(), 1),
        _ => panic!("the stream is accepted"),
    }
    let gone = ConnectionError::Other { reason: "gone".to_string() };
    assert!(matches!(accept.poll_accept_bi::<u32>(Event::Idle, &waker), Action::Wait));
    match accept.poll_accept_bi::<u32>(Event::Failed(gone.clone()), &waker) {
        Action::Error { error, wake } => {
            assert_eq!(error, SessionError::ConnectionError(gone.clone()));
            assert_eq!(wake.len(), 1);
        }
        _ => panic!("the connection failed"),
    }
    match accept.poll_accept_uni(Event::Failed(gone), &waker) {
        Action::Error { wake, .. } => assert!(wake.is_empty()),
        _ => panic!("the connection failed"),
    }
}

#[test]
fn tasks_are_noted_down_unless_known() {
    let mut noted: Vec<Waker> = Vec::new();
    note_waker(&mut noted, false, &noop_waker());
    note_waker(&mut noted, true, &noop_waker());
    assert_eq!(noted.len(), 1);
}

/// Counts how often its task is woken.
struct Alarm(Mutex<usize>);

impl Wake for Alarm {
    fn wake(self: Arc<Self>) {
        *self.0.lock().unwrap() += 1;
    }
}

fn rung(alarm: &Arc<Alarm>) -> usize {
    *alarm.0.lock().unwrap()
}

#[test]
fn every_waiting_caller_is_woken_once() {
    let (client, server) = connect();
    let mut accept: SessionAccept<u32> = SessionAccept::new(server.session_id());
    let first = Arc::new(Alarm(Mutex::new(0)));
    let second = Arc::new(Alarm(Mutex::new(0)));
    let third = noop_waker();
    for _ in 0..3 {
        for alarm in [&first, &second] {
            let waker = Waker::from(alarm.clone());
            assert!(matches!(accept.poll_accept_uni(Event::Idle, &waker), Action::Wait));
        }
    }
    let data = uni(&client, b"x");
    match accept.poll_accept_uni(Event::Received { stream: 1, data, ended: false }, &third) {
        Action::Accepted { wake, .. } => {
            assert_eq!(wake.len(), 2);
            wake.into_iter().for_each(Waker::wake);
        }
        _ => panic!("the stream is accepted"),
    }
    assert_eq!((rung(&first), rung(&second)), (1, 1));

    // Whoever does not wait again is not woken again.
    let waker = Waker::from(second.clone());
    assert!(matches!(accept.poll_accept_uni(Event::Idle, &waker), Action::Wait));
    let data = uni(&client, b"y");
    match accept.poll_accept_uni(Event::Received { stream: 2, data, ended: false }, &third) {
        Action::Accepted { wake, .. } => wake.into_iter().for_each(Waker::wake),
        _ => panic!("the stream is accepted"),
    }
    assert_eq!((rung(&first), rung(&second)), (1, 2));
}

#[test]
fn callers_for_bidirectional_streams_are_woken_too() {
    let mut accept: SessionAccept<u32> = SessionAccept::new(0);
    let first = Arc::new(Alarm(Mutex::new(0)));
    let second = Arc::new(Alarm(Mutex::new(0)));
    for alarm in [&first, &second, &first] {
        let waker = Waker::from(alarm.clone());
        assert!(matches!(accept.poll_accept_bi::<u32>(Event::Idle, &waker), Action::Wait));
    }
    let gone = ConnectionError::Other { reason: "gone".to_string() };
    match accept.poll_accept_bi::<u32>(Event::Failed(gone), &noop_waker()) {
        Action::Error { wake, .. } => {
            assert_eq!(wake.len(), 2);
            wake.into_iter().for_each(Waker::wake);
        }
        _ => panic!("the connection failed"),
    }
    assert_eq!((rung(&first), rung(&second)), (1, 1));
}

#[test]
fn a_reader_gets_the_bytes_in_order() {
    let mut recv = RecvStream::new((), b"abc");
    assert!(!recv.needs_data());
    let mut buf = [0u8; 2];
    assert_eq!(recv.read(&mut buf), 2);
    assert_eq!(&buf, b"ab");
    let mut buf = [b'-'; 4];
    assert_eq!(recv.read(&mut buf), 1);
    assert_eq!(&buf, b"c---");
    assert!(recv.needs_data());
    assert_eq!(recv.fill(Ok(Some(Bytes::new())), None), Ok(Fill::Again));
    assert_eq!(recv.fill(Ok(Some(Bytes::from_static(b"defg"))), None), Ok(Fill::Ready));
    assert_eq!(&recv.read_chunk(3)[..], b"def");
    assert_eq!(&recv.read_chunk(0)[..], b"");
    assert_eq!(&recv.read_chunk(9)[..], b"g");
    assert_eq!(recv.fill(Ok(None), None), Ok(Fill::Finished));
}

#[test]
fn a_reader_that_waits_for_the_end_drops_the_data() {
    let mut recv = RecvStream::new((), b"abc");
    recv.discard();
    assert!(recv.needs_data());
    assert_eq!(recv.closed(Ok(Some(Bytes::from_static(b"x"))), None), Ok(false));
    assert_eq!(recv.closed(Ok(None), None), Ok(true));
    let reset = StreamError::Reset { code: web_transport_proto::error_to_http3(7) };
    assert_eq!(recv.closed(Err(reset), None), Err(ReadError::Reset(7)));
}

#[test]
fn read_errors_are_told_apart() {
    let mut recv = RecvStream::new((), b"");
    let code = recv.stop(7);
    assert_eq!(recv.fill(Err(StreamError::Reset { code }), None), Err(ReadError::Reset(7)));
    assert_eq!(
        recv.fill(Err(StreamError::Reset { code: 1 }), None),
        Err(ReadError::InvalidReset(1))
    );
    let other = StreamError::Other { reason: "finished".to_string() };
    assert_eq!(recv.fill(Err(other), None), Err(ReadError::ClosedStream));
    let lost = || StreamError::Connection(ConnectionError::Application { code });
    let error = recv.fill(Err(lost()), None).unwrap_err();
    assert_eq!(error.session_error(), Some((7, String::new())));
    assert_eq!(error.stream_error(), None);
    let stored = SessionError::LocallyClosed;
    assert_eq!(
        recv.fill(Err(lost()), Some(&stored)),
        Err(ReadError::SessionError(SessionError::LocallyClosed))
    );
    assert_eq!(ReadError::Reset(7).stream_error(), Some(7));
    assert_eq!(recv.map_error(Some(&stored), ReadError::ClosedStream), ReadError::ClosedStream);
}

#[test]
fn write_errors_are_told_apart() {
    let send = SendStream::new(());
    assert_eq!(send.written(5, Ok(()), None), Ok(5));
    let code = send.reset(7);
    assert_eq!(code, web_transport_proto::error_to_http3(7));
    let stopped = || StreamError::Reset { code };
    assert_eq!(send.written(5, Err(stopped()), None), Err(WriteError::Stopped(7)));
    assert_eq!(
        send.written(5, Err(StreamError::Reset { code: 1 }), None),
        Err(WriteError::InvalidStopped(1))
    );
    let other = StreamError::Other { reason: "finished".to_string() };
    assert_eq!(send.finish(Some(Err(other)), None), Err(WriteError::ClosedStream));
    assert_eq!(send.finish(None, None), Ok(()));
    assert_eq!(send.closed(Ok(()), None), Ok(()));
    let lost = || StreamError::Connection(ConnectionError::Application { code });
    let error = send.closed(Err(lost()), None).unwrap_err();
    assert_eq!(error.session_error(), Some((7, String::new())));
    assert_eq!(error.stream_error(), None);
    assert_eq!(WriteError::Stopped(7).stream_error(), Some(7));
    let stored = SessionError::LocallyClosed;
    assert_eq!(
        send.written(5, Err(lost()), Some(&stored)),
        Err(WriteError::SessionError(SessionError::LocallyClosed))
    );
    assert_eq!(
        send.written(5, Err(stopped()), Some(&stored)),
        Err(WriteError::Stopped(7))
    );
}

#[test]
fn statistics_come_from_the_recovery_events() {
    let stats = SessionStats::new(None);
    assert_eq!(stats.rtt(), None);
    assert_eq!(stats.send_window(), None);

    let mut context = RecoveryContext::default();
    assert_eq!(SessionStats::new(Some(context)).rtt(), None);
    context.on_recovery_metrics(Duration::from_millis(10), 12_000);
    let stats = SessionStats::new(Some(context));
    assert_eq!(stats.rtt(), Some(Duration::from_millis(10)));
    assert_eq!(stats.send_window(), Some((12_000, Duration::from_millis(10))));
    context.on_recovery_metrics(Duration::from_millis(20), 0);
    assert_eq!(SessionStats::new(Some(context)).send_window(), None);
    context.on_recovery_metrics(Duration::ZERO, 12_000);
    assert_eq!(SessionStats::new(Some(context)).send_window(), None);
    context.on_recovery_metrics(Duration::from_nanos(1), 1);
    assert!(SessionStats::new(Some(context)).send_window().is_some());
}
