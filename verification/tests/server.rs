use futures::future::BoxFuture;
use futures::stream::FuturesUnordered;
use std::time::Duration;
use web_transport_quic::error::ServerError;
use web_transport_quic::server::{
    has_capacity, has_handshake_capacity, Action, Event, H3_EXCESSIVE_LOAD, MAX_INFLIGHT_SESSION_HANDSHAKES,
};
use web_transport_quic::{
    HandshakeCounters, HandshakeLimits, HandshakeStats, Server, ServerBuilder,
};

/// The admission boundary that the server applies to every dequeued connection, exercised against
/// the real constant.
#[test]
fn handshake_capacity_does_not_off_by_one_at_the_cap() {
    assert!(has_handshake_capacity(0));
    assert!(has_handshake_capacity(MAX_INFLIGHT_SESSION_HANDSHAKES - 1));
    assert!(!has_handshake_capacity(MAX_INFLIGHT_SESSION_HANDSHAKES));
    assert!(!has_handshake_capacity(MAX_INFLIGHT_SESSION_HANDSHAKES + 1));
}

#[test]
fn connections_over_the_cap_are_rejected_rather_than_queued() {
    let driven: FuturesUnordered<BoxFuture<'static, ()>> = FuturesUnordered::new();
    let offered = MAX_INFLIGHT_SESSION_HANDSHAKES * 4;
    let mut dequeued = 0usize;
    let mut rejected = 0usize;

    for _ in 0..offered {
        dequeued += 1;
        if has_handshake_capacity(driven.len()) {
            driven.push(Box::pin(std::future::pending()));
        } else {
            rejected += 1;
        }
    }

    assert_eq!(dequeued, offered, "every connection must be dequeued");
    assert_eq!(driven.len(), MAX_INFLIGHT_SESSION_HANDSHAKES);
    assert_eq!(rejected, offered - MAX_INFLIGHT_SESSION_HANDSHAKES);
}

#[test]
fn the_over_capacity_close_code_is_h3_excessive_load() {
    let error = s2n_quic::application::Error::new(H3_EXCESSIVE_LOAD)
        .expect("h3 error code within varint range");
    assert_eq!(u64::from(error), 0x0107);
}

fn connection(server: &mut Server) -> bool {
    match server.accept::<&str>(Event::Connection) {
        Action::Drive { .. } => true,
        Action::Reject { code } => {
            assert_eq!(code, 0x0107);
            false
        }
        _ => panic!("a connection is driven or rejected"),
    }
}

fn failed() -> ServerError {
    ServerError::UnexpectedEnd
}

#[test]
fn stalled_handshakes_time_out_and_free_their_slots() {
    let limits = HandshakeLimits { max_inflight: 2, timeout: Duration::from_millis(300) };
    let mut server = Server::with_handshake_limits(limits);

    match server.accept::<&str>(Event::Connection) {
        Action::Drive { timeout } => assert_eq!(timeout, Duration::from_millis(300)),
        _ => panic!("the first connection is driven"),
    }
    assert!(connection(&mut server));
    let stats = server.handshake_stats();
    assert_eq!(stats.inflight, 2);
    assert_eq!(stats.admitted, 2);

    for _ in 0..2 {
        let timeout = Event::Handshake(Err(ServerError::HandshakeTimeout));
        assert!(matches!(server.accept::<&str>(timeout), Action::Continue));
    }
    let stats = server.handshake_stats();
    assert_eq!(stats.timed_out, 2);
    assert_eq!(stats.inflight, 0);
    assert_eq!(stats.rejected, 0);

    // With the slots free again, a real session goes through.
    assert!(connection(&mut server));
    match server.accept(Event::Handshake(Ok("request"))) {
        Action::Return(Some(request)) => assert_eq!(request, "request"),
        _ => panic!("the request is handed out"),
    }
    let stats = server.handshake_stats();
    assert_eq!(stats.completed, 1);
    assert_eq!(stats.inflight_high_water, 2);
}

#[test]
fn connections_over_the_cap_are_rejected_until_a_slot_frees() {
    let limits = HandshakeLimits { max_inflight: 1, timeout: Duration::from_millis(10_000) };
    let mut server = Server::with_handshake_limits(limits);

    assert!(connection(&mut server));
    assert_eq!(server.handshake_stats().inflight, 1);

    // The set is full: a real client is closed on arrival rather than queued.
    assert!(!connection(&mut server), "connect must fail while the set is full");
    let stats = server.handshake_stats();
    assert_eq!(stats.rejected, 1);
    assert_eq!(stats.inflight, 1, "rejection must not touch the driven set");

    // The occupant leaving frees the slot without waiting for the timeout.
    assert!(matches!(
        server.accept::<&str>(Event::Handshake(Err(failed()))),
        Action::Continue
    ));
    let stats = server.handshake_stats();
    assert_eq!(stats.failed, 1);
    assert_eq!(stats.inflight, 0);
    assert_eq!(stats.timed_out, 0);

    assert!(connection(&mut server));
    assert!(matches!(
        server.accept(Event::Handshake(Ok("request"))),
        Action::Return(Some("request"))
    ));
    assert_eq!(server.handshake_stats().completed, 1);
}

#[test]
fn a_paused_consumer_drains_its_backlog_without_exceeding_the_cap() {
    let limits = HandshakeLimits { max_inflight: 4, timeout: Duration::from_millis(10_000) };
    let mut server = Server::with_handshake_limits(limits);
    assert_eq!(server.handshake_stats(), HandshakeStats::default());

    for _ in 0..8 {
        connection(&mut server);
    }
    let stats = server.handshake_stats();
    assert_eq!(stats.admitted + stats.rejected, 8);
    assert_eq!(stats.admitted, 4);
    assert_eq!(stats.rejected, 4);
    assert_eq!(stats.inflight, 4);
    assert_eq!(stats.inflight_high_water, 4);

    // Releasing the backlog frees every slot; a real session then completes.
    for _ in 0..4 {
        server.accept::<&str>(Event::Handshake(Err(failed())));
    }
    let stats = server.handshake_stats();
    assert_eq!(stats.failed, 4);
    assert_eq!(stats.inflight, 0);

    assert!(connection(&mut server));
    assert!(matches!(
        server.accept(Event::Handshake(Ok("request"))),
        Action::Return(Some("request"))
    ));
}

#[test]
fn completions_are_returned_while_a_burst_is_being_dequeued() {
    let limits = HandshakeLimits { max_inflight: 64, timeout: Duration::from_millis(10_000) };
    let mut server = Server::with_handshake_limits(limits);

    for _ in 0..20 {
        assert!(connection(&mut server));
    }
    assert!(connection(&mut server));
    for _ in 0..10 {
        assert!(connection(&mut server));
    }
    assert!(matches!(
        server.accept(Event::Handshake(Ok("request"))),
        Action::Return(Some("request"))
    ));
    for _ in 0..10 {
        assert!(connection(&mut server));
    }

    let stats = server.handshake_stats();
    assert_eq!(stats.completed, 1);
    assert_eq!(stats.rejected, 0, "cap of 64 must admit the whole burst");
    assert_eq!(stats.admitted, 41);
    assert!(
        stats.inflight_high_water >= 2,
        "the burst must have overlapped in the driven set"
    );
}

#[test]
fn a_closed_endpoint_ends_the_accept_loop() {
    let mut server = Server::new();
    assert!(connection(&mut server));
    assert!(matches!(server.accept::<&str>(Event::EndpointClosed), Action::Return(None)));
    assert_eq!(server.handshake_stats().inflight, 1);
}

#[test]
fn a_server_applies_the_capacity_of_its_limits() {
    let limits = HandshakeLimits { max_inflight: 3, timeout: Duration::from_millis(1) };
    let mut server = Server::with_handshake_limits(limits);
    for _ in 0..5 {
        let free = has_capacity(server.handshake_stats().inflight, limits.max_inflight);
        assert_eq!(connection(&mut server), free);
    }
    assert_eq!(server.handshake_stats().inflight, 3);
}

#[test]
fn a_server_without_slots_rejects_everyone() {
    let limits = HandshakeLimits { max_inflight: 0, timeout: Duration::from_millis(1) };
    let mut server = Server::with_handshake_limits(limits);
    assert!(!connection(&mut server));
    assert_eq!(server.handshake_stats().rejected, 1);
    assert_eq!(server.handshake_stats().inflight_high_water, 0);
}

#[test]
fn counters_follow_each_handshake() {
    let mut counters = HandshakeCounters::new(2);
    assert!(counters.arrived());
    assert!(counters.arrived());
    assert!(!counters.arrived());
    counters.completed();
    assert!(counters.arrived());
    counters.failed();
    counters.timed_out();
    let expected = HandshakeStats {
        admitted: 3,
        rejected: 1,
        completed: 1,
        failed: 1,
        timed_out: 1,
        inflight: 0,
        inflight_high_water: 2,
    };
    assert_eq!(counters.snapshot(), expected);
}

#[test]
fn the_default_limits_clear_a_benign_burst() {
    let limits = HandshakeLimits::default();
    assert_eq!(limits.max_inflight, 8192);
    assert!(limits.max_inflight >= 1347 * 4);
    assert_eq!(limits.timeout, Duration::from_secs(10));
}

#[test]
fn a_server_builder_keeps_what_it_is_given() {
    let builder = ServerBuilder::new();
    assert_eq!(builder.addr, "[::]:443");
    assert_eq!(builder.server_name, "localhost");
    let limits = HandshakeLimits { max_inflight: 3, timeout: Duration::from_millis(7) };
    let builder = ServerBuilder::default()
        .with_addr("127.0.0.1:0".to_string())
        .with_server_name("example.com".to_string())
        .with_handshake_limits(limits);
    assert_eq!(builder.addr, "127.0.0.1:0");
    assert_eq!(builder.server_name, "example.com");
    let mut server = builder.with_certificate(Ok(())).unwrap();
    match server.accept::<&str>(Event::Connection) {
        Action::Drive { timeout } => assert_eq!(timeout, Duration::from_millis(7)),
        _ => panic!("the connection is driven"),
    }
    match builder.with_certificate(Err("address in use".to_string())) {
        Err(ServerError::Build(text)) => assert_eq!(text, "address in use"),
        _ => panic!("the endpoint could not be built"),
    }
}
