use web_transport_quic::error::{ConnectionError, StreamError, WebTransportError};
use web_transport_quic::header::{
    decode_bi, decode_header, decode_uni, encode_header, FRAME_DATA, FRAME_WEBTRANSPORT,
    STREAM_CONTROL, STREAM_QPACK_DECODER, STREAM_QPACK_ENCODER, STREAM_WEBTRANSPORT,
};
use web_transport_quic::settings;
use web_transport_quic::wire::{app_error, HTTP3_ERROR_FIRST, HTTP3_ERROR_LAST};
use web_transport_quic::{ReadError, SendDatagramError, SessionError, WriteError, ALPN};
use web_transport_proto::{Frame, Setting, StreamUni};

#[test]
fn the_constants_are_those_of_the_protocol() {
    assert_eq!(STREAM_CONTROL, StreamUni::CONTROL.0.into_inner());
    assert_eq!(STREAM_QPACK_ENCODER, StreamUni::QPACK_ENCODER.0.into_inner());
    assert_eq!(STREAM_QPACK_DECODER, StreamUni::QPACK_DECODER.0.into_inner());
    assert_eq!(STREAM_WEBTRANSPORT, StreamUni::WEBTRANSPORT.0.into_inner());
    assert_eq!(FRAME_DATA, Frame::DATA.0.into_inner());
    assert_eq!(FRAME_WEBTRANSPORT, Frame::WEBTRANSPORT.0.into_inner());
    for (ours, theirs) in [
        (settings::MAX_FIELD_SECTION_SIZE, Setting::MAX_FIELD_SECTION_SIZE),
        (settings::ENABLE_CONNECT_PROTOCOL, Setting::ENABLE_CONNECT_PROTOCOL),
        (settings::ENABLE_DATAGRAM, Setting::ENABLE_DATAGRAM),
        (settings::ENABLE_DATAGRAM_DEPRECATED, Setting::ENABLE_DATAGRAM_DEPRECATED),
        (settings::WEBTRANSPORT_ENABLE_DEPRECATED, Setting::WEBTRANSPORT_ENABLE_DEPRECATED),
        (
            settings::WEBTRANSPORT_MAX_SESSIONS_DEPRECATED,
            Setting::WEBTRANSPORT_MAX_SESSIONS_DEPRECATED,
        ),
        (settings::WEBTRANSPORT_MAX_SESSIONS, Setting::WEBTRANSPORT_MAX_SESSIONS),
    ] {
        assert_eq!(ours, theirs.0.into_inner());
    }
    assert_eq!(ALPN, "h3");
}

#[test]
fn error_codes_map_into_the_reserved_range() {
    assert_eq!(app_error(0), HTTP3_ERROR_FIRST);
    assert_eq!(app_error(29), HTTP3_ERROR_FIRST + 29);
    // One code is left out after every thirty.
    assert_eq!(app_error(30), HTTP3_ERROR_FIRST + 31);
    assert_eq!(app_error(u32::MAX), HTTP3_ERROR_LAST);
    for code in [0, 1, 29, 30, 31, 59, 60, 42, 65535, u32::MAX - 1, u32::MAX] {
        let closed = ConnectionError::Application { code: app_error(code) };
        assert_eq!(
            SessionError::from_connection(closed),
            SessionError::WebTransportError(WebTransportError::Closed(code, String::new()))
        );
    }
    for code in [0, HTTP3_ERROR_FIRST - 1, HTTP3_ERROR_LAST + 1, u64::MAX] {
        let closed = ConnectionError::Application { code };
        assert_eq!(
            SessionError::from_connection(closed.clone()),
            SessionError::ConnectionError(closed)
        );
    }
}

#[test]
fn error_codes_keep_their_order() {
    let mut last = 0;
    for code in 0..1000 {
        assert!(app_error(code) > last);
        last = app_error(code);
    }
}

#[test]
fn only_a_session_close_has_a_code_and_a_reason() {
    let closed = SessionError::from(WebTransportError::Closed(3, "bye".to_string()));
    assert_eq!(closed.session_error(), Some((3, "bye".to_string())));
    assert_eq!(SessionError::LocallyClosed.session_error(), None);
    assert_eq!(SessionError::from(SendDatagramError::TooLarge).session_error(), None);
    assert_eq!(SessionError::DatagramUnsupported.session_error(), None);
    assert_eq!(WriteError::SessionError(closed.clone()).session_error(), Some((3, "bye".to_string())));
    assert_eq!(ReadError::SessionError(closed).session_error(), Some((3, "bye".to_string())));
    assert_eq!(WriteError::ClosedStream.session_error(), None);
    assert_eq!(ReadError::ClosedStream.session_error(), None);
    let reset = WebTransportError::from(StreamError::Reset { code: 1 });
    assert_eq!(reset, WebTransportError::StreamError(StreamError::Reset { code: 1 }));
    assert_eq!(SessionError::from(reset.clone()).clone(), SessionError::WebTransportError(reset));
}

#[test]
fn headers_are_read_back() {
    for id in [0u64, 63, 64, 16383, 16384, (1 << 30) - 1, 1 << 30, (1 << 62) - 1] {
        let mut wire = encode_header(STREAM_WEBTRANSPORT, id);
        let len = wire.len();
        for k in 0..len {
            assert_eq!(decode_uni(&wire[..k], false, id), None);
            assert_eq!(
                decode_uni(&wire[..k], true, id),
                Some(Err(SessionError::WebTransportError(WebTransportError::UnknownSession)))
            );
        }
        wire.extend_from_slice(b"data");
        assert_eq!(decode_uni(&wire, false, id), Some(Ok((STREAM_WEBTRANSPORT, len))));
        assert_eq!(
            decode_uni(&wire, false, id ^ 1),
            Some(Err(SessionError::WebTransportError(WebTransportError::UnknownSession)))
        );
    }
}

#[test]
fn bidirectional_headers_are_read_back() {
    let wire = encode_header(FRAME_WEBTRANSPORT, 4);
    assert_eq!(decode_bi(&wire, false, 4), Some(Ok(Some(wire.len()))));
    assert_eq!(decode_bi(&wire[..1], false, 4), None);
    assert_eq!(
        decode_bi(&wire, false, 8),
        Some(Err(SessionError::WebTransportError(WebTransportError::UnknownSession)))
    );
    // A frame of another type.
    assert_eq!(decode_bi(&[0x01, 0x04], false, 4), Some(Ok(None)));
    assert_eq!(
        decode_bi(&[], true, 4),
        Some(Err(SessionError::WebTransportError(WebTransportError::UnknownSession)))
    );
}

#[test]
fn a_type_in_a_longer_form_is_the_same_type() {
    // 0x54 in four bytes, and session 4 in two.
    let wire = [0x80, 0x00, 0x00, 0x54, 0x40, 0x04];
    assert_eq!(decode_header(&wire, false, STREAM_WEBTRANSPORT, 4), Some(Ok((0x54, 6))));
}
