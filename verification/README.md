# web_transport_quic

WebTransport over QUIC, as a library proved with Verus.

WebTransport is layered on top of HTTP/3, which is layered on top of QUIC. The library under `src/` is
that layering: the stream headers and datagram prefixes, the SETTINGS and CONNECT exchanges, the close
capsule, the error codes, the accept loops, and the limits on pending handshakes. It does no I/O. The
crate under `app/` drives it over `s2n-quic` and `dquic`: it performs what the library asks for and hands
back what came of it.

## Layout

- `src/wire.rs`, `src/header.rs`, `src/capsule.rs`, `src/settings.rs`, `src/connect.rs`: what is on the
  wire.
- `src/session.rs`, `src/accept.rs`, `src/recv.rs`, `src/send.rs`, `src/error.rs`: an established session,
  its streams and the errors that the application sees.
- `src/server.rs`, `src/client.rs`, `src/tls.rs`, `src/crypto.rs`: how a connection is set up.
- `src/dquic.rs`: what is different on `dquic`.
- `src/stats.rs`: the statistics of a session; `src/span.rs`: lengths of time.
- `src/buffer.rs`: the byte buffers that are shared with the QUIC layer.

What the library relies on in other crates is written down in the items marked `external_body` and
`assume_specification`, each with a comment on what it claims. The public functions whose names start with
`law_` state what holds across several functions.
