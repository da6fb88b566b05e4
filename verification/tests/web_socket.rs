use socket2web::arguments::WebSocketArguments;
use socket2web::protocols::Protocol;
use socket2web::web_socket::{
    Cleanup, ClientStatus, ConnectionPool, HandshakeError, HandshakeReply, ListenerAction,
    ListenerEvent, SessionAction, SessionEvent, WebSocket,
};

fn config(ip: &str, port: u16, max_connections: u64, max_lifetime: u64) -> WebSocketArguments {
    WebSocketArguments {
        ip: ip.to_string(),
        port,
        log_level: "info".to_string(),
        timeout: 10,
        max_connections,
        max_lifetime,
    }
}

fn target(r: Result<Protocol, HandshakeError>) -> (String, u16) {
    match r {
        Ok(Protocol::Tcp(conn)) => {
            assert!(!conn.is_connected());
            (conn.ip_address().clone(), conn.port())
        }
        Err(e) => panic!("handshake refused: {}", e.message()),
    }
}

fn refusal(r: Result<Protocol, HandshakeError>) -> String {
    match r {
        Ok(_) => panic!("handshake should be refused"),
        Err(e) => e.message(),
    }
}

#[test]
fn arguments_default_values() {
    let args = WebSocketArguments::default();
    assert_eq!(args.ip, "127.0.0.1");
    assert_eq!(args.port, 433);
    assert_eq!(args.log_level, "info");
    assert_eq!(args.timeout, 10);
    assert_eq!(args.max_connections, 1000);
    assert_eq!(args.max_lifetime, 3600);
}

#[test]
fn server_address_from_config() {
    let server = WebSocket::new(&WebSocketArguments::default());
    assert_eq!(server.address(), "127.0.0.1:433");
    assert_eq!(server.timeout(), 10);
    assert_eq!(server.max_connections(), 1000);
    assert_eq!(server.max_lifetime(), 3600);
    let other = WebSocket::new(&config("0.0.0.0", 8080, 500, 0));
    assert_eq!(other.address(), "0.0.0.0:8080");
    assert_eq!(other.max_connections(), 500);
    assert_eq!(other.max_lifetime(), 0);
}

#[test]
fn handshake_example_from_readme() {
    let r = WebSocket::read_greeting(
        r#"{"protocol": "tcp", "target_ip": "192.168.1.100", "target_port": 12345}"#,
    );
    assert_eq!(target(r), ("192.168.1.100".to_string(), 12345));
}

#[test]
fn handshake_port_keeps_low_bits() {
    let r = WebSocket::read_greeting(r#"{"protocol":"tcp","target_ip":"h","target_port":70000}"#);
    assert_eq!(target(r), ("h".to_string(), 4464));
}

#[test]
fn handshake_ignores_extra_fields() {
    let r = WebSocket::read_greeting(r#"{"x":[1,2,{"y":null}],"target_port":80,"protocol":"tcp","target_ip":"a.b"}"#);
    assert_eq!(target(r), ("a.b".to_string(), 80));
}

#[test]
fn handshake_errors() {
    assert_eq!(refusal(WebSocket::read_greeting(r#"{"target_ip":"h","target_port":1}"#)), "Missing or invalid protocol field");
    assert_eq!(refusal(WebSocket::read_greeting(r#"{"protocol":5}"#)), "Missing or invalid protocol field");
    assert_eq!(refusal(WebSocket::read_greeting(r#"["tcp"]"#)), "Missing or invalid protocol field");
    assert_eq!(refusal(WebSocket::read_greeting(r#"{"protocol":"udp"}"#)), "Unsupported protocol");
    assert_eq!(refusal(WebSocket::read_greeting(r#"{"protocol":"tcp","target_port":1}"#)), "Missing or invalid target_ip");
    assert_eq!(refusal(WebSocket::read_greeting(r#"{"protocol":"tcp","target_ip":7,"target_port":1}"#)), "Missing or invalid target_ip");
    assert_eq!(refusal(WebSocket::read_greeting(r#"{"protocol":"tcp","target_ip":"h"}"#)), "Missing or invalid target_port");
    assert_eq!(refusal(WebSocket::read_greeting(r#"{"protocol":"tcp","target_ip":"h","target_port":-1}"#)), "Missing or invalid target_port");
    assert_eq!(refusal(WebSocket::read_greeting(r#"{"protocol":"tcp","target_ip":"h","target_port":"80"}"#)), "Missing or invalid target_port");
    assert_eq!(refusal(WebSocket::read_greeting(r#"{"protocol":"tcp","target_ip":"h","target_port":1.5}"#)), "Missing or invalid target_port");
}

#[test]
fn handshake_invalid_json_reports_parser_error() {
    let expected = serde_json::from_str::<serde_json::Value>("not json").unwrap_err().to_string();
    assert_eq!(refusal(WebSocket::read_greeting("not json")), expected);
    assert!(matches!(WebSocket::read_greeting(""), Err(HandshakeError::InvalidJson(_))));
}

#[test]
fn finish_handshake_outcomes() {
    assert_eq!(refusal(WebSocket::finish_handshake(HandshakeReply::TimedOut)), "Handshake timed out");
    assert_eq!(refusal(WebSocket::finish_handshake(HandshakeReply::Ended)), "No handshake was received");
    assert_eq!(refusal(WebSocket::finish_handshake(HandshakeReply::Other)), "Received unexpected, closing connection!");
    assert_eq!(refusal(WebSocket::finish_handshake(HandshakeReply::Failed("boom".into()))), "boom");
    let ok = WebSocket::finish_handshake(HandshakeReply::Text(
        r#"{"protocol":"tcp","target_ip":"127.0.0.1","target_port":9}"#.into(),
    ));
    assert_eq!(target(ok), ("127.0.0.1".to_string(), 9));
}

#[test]
fn greeting_text() {
    assert_eq!(
        WebSocket::get_greeting(),
        r#"{"supported protocols":{"tcp":{"target_ip":"IP Address","target_port":"Port for IP Address"}}}"#
    );
}

#[test]
fn greeting_matches_readme_example() {
    let greeting: serde_json::Value = serde_json::from_str(&WebSocket::get_greeting()).unwrap();
    let expected: serde_json::Value = serde_json::from_str(
        r#"{"supported protocols":{"tcp":{"target_ip":"IP Address","target_port":"Port for IP Address"}}}"#,
    )
    .unwrap();
    assert_eq!(greeting, expected);
}

#[test]
fn status_texts() {
    assert_eq!(WebSocket::proxy_success(), r#"{"status":"Successfully connected, starting to proxy"}"#);
    assert_eq!(
        WebSocket::proxy_failed("Failed to connect: refused"),
        r#"{"reason":"Failed to connect: refused","status":"Connection failed, cancelling proxy"}"#
    );
    assert_eq!(
        WebSocket::proxy_failed("say \"no\"\n"),
        r#"{"reason":"say \"no\"\n","status":"Connection failed, cancelling proxy"}"#
    );
}

#[test]
fn capacity_reason_text() {
    assert_eq!(WebSocket::capacity_reason(), "Server at capacity, try again later");
}

#[test]
fn cleanup_verdicts() {
    let server = WebSocket::new(&config("127.0.0.1", 1, 10, 60));
    assert!(matches!(server.connection_cleanup(&ClientStatus { finished: true, elapsed_secs: 0 }), Cleanup::Release));
    assert!(matches!(server.connection_cleanup(&ClientStatus { finished: true, elapsed_secs: 999 }), Cleanup::Release));
    assert!(matches!(server.connection_cleanup(&ClientStatus { finished: false, elapsed_secs: 60 }), Cleanup::Keep));
    assert!(matches!(server.connection_cleanup(&ClientStatus { finished: false, elapsed_secs: 61 }), Cleanup::Expire));
    let unlimited = WebSocket::new(&config("127.0.0.1", 1, 10, 0));
    assert!(matches!(unlimited.connection_cleanup(&ClientStatus { finished: false, elapsed_secs: u64::MAX }), Cleanup::Keep));
}

#[test]
fn pool_respects_limit() {
    let server = WebSocket::new(&config("127.0.0.1", 1, 2, 0));
    let mut pool: ConnectionPool<&str> = ConnectionPool::new(&server);
    assert!(pool.has_room());
    pool.register("a");
    pool.register("b");
    assert!(!pool.has_room());
    assert_eq!(pool.len(), 2);
    assert_eq!(pool.clients(), &vec!["a", "b"]);
}

#[test]
fn pool_with_no_capacity_refuses_all() {
    let server = WebSocket::new(&config("127.0.0.1", 1, 0, 0));
    let pool: ConnectionPool<u8> = ConnectionPool::new(&server);
    assert!(!pool.has_room());
}

#[test]
fn pool_sweep_keeps_and_expires_in_order() {
    let server = WebSocket::new(&config("127.0.0.1", 1, 10, 0));
    let mut pool: ConnectionPool<u32> = ConnectionPool::new(&server);
    for c in 1..=5 {
        pool.register(c);
    }
    let verdicts = vec![Cleanup::Keep, Cleanup::Expire, Cleanup::Release, Cleanup::Keep, Cleanup::Expire];
    let expired = pool.sweep(&verdicts);
    assert_eq!(expired, vec![2, 5]);
    assert_eq!(pool.clients(), &vec![1, 4]);
    assert!(pool.has_room());
    assert_eq!(pool.drain(), vec![1, 4]);
}

#[test]
fn session_dials_after_handshake() {
    let handshake = WebSocket::read_greeting(r#"{"protocol":"tcp","target_ip":"10.0.0.2","target_port":22}"#);
    match WebSocket::session_step(SessionEvent::Handshake(handshake)) {
        SessionAction::Dial(Protocol::Tcp(conn)) => {
            assert_eq!(conn.target_address(), "10.0.0.2:22");
        }
        _ => panic!("expected to dial"),
    }
}

#[test]
fn session_closes_after_failed_handshake() {
    match WebSocket::session_step(SessionEvent::Handshake(Err(HandshakeError::TimedOut))) {
        SessionAction::Close(reason) => assert_eq!(reason, "Handshake timed out"),
        _ => panic!("expected to close"),
    }
}

#[test]
fn session_relays_after_successful_dial() {
    match WebSocket::session_step(SessionEvent::Dialled(Ok(()))) {
        SessionAction::SendThenRelay(status) => {
            assert_eq!(status, r#"{"status":"Successfully connected, starting to proxy"}"#)
        }
        _ => panic!("expected to relay"),
    }
}

#[test]
fn session_ends_after_failed_dial() {
    match WebSocket::session_step(SessionEvent::Dialled(Err("Failed to connect: refused".into()))) {
        SessionAction::SendThenEnd(status) => assert_eq!(
            status,
            r#"{"reason":"Failed to connect: refused","status":"Connection failed, cancelling proxy"}"#
        ),
        _ => panic!("expected to end"),
    }
}

#[test]
fn listener_serves_then_refuses_at_capacity() {
    let server = WebSocket::new(&config("127.0.0.1", 1, 1, 0));
    let mut pool: ConnectionPool<u8> = ConnectionPool::new(&server);
    let (action, expired) = server.listener_step(&mut pool, ListenerEvent::Accepted, &vec![]);
    assert!(matches!(action, ListenerAction::Serve));
    assert!(expired.is_empty());
    pool.register(1);
    let (action, _) = server.listener_step(&mut pool, ListenerEvent::Accepted, &vec![Cleanup::Keep]);
    match action {
        ListenerAction::Refuse(reason) => assert_eq!(reason, "Server at capacity, try again later"),
        _ => panic!("expected a refusal"),
    }
    let (action, _) = server.listener_step(&mut pool, ListenerEvent::Accepted, &vec![Cleanup::Release]);
    assert!(matches!(action, ListenerAction::Serve));
    assert_eq!(pool.len(), 0);
}

#[test]
fn listener_tick_sweeps_and_shutdown_drains() {
    let server = WebSocket::new(&config("127.0.0.1", 1, 5, 0));
    let mut pool: ConnectionPool<u8> = ConnectionPool::new(&server);
    pool.register(1);
    pool.register(2);
    let (action, expired) = server.listener_step(&mut pool, ListenerEvent::CleanupTick, &vec![Cleanup::Expire, Cleanup::Keep]);
    assert!(matches!(action, ListenerAction::Listen));
    assert_eq!(expired, vec![1]);
    let (action, _) = server.listener_step(&mut pool, ListenerEvent::AcceptFailed, &vec![]);
    assert!(matches!(action, ListenerAction::Listen));
    let (action, _) = server.listener_step(&mut pool, ListenerEvent::ShutdownSignal, &vec![]);
    assert!(matches!(action, ListenerAction::Drain));
    assert_eq!(pool.drain(), vec![2]);
}

#[test]
fn failure_status_reason_round_trips() {
    for reason in ["plain", "say \"no\"\n", "back\\slash", "ünïcödé €", ""] {
        let text = WebSocket::proxy_failed(reason);
        let parsed: serde_json::Value = serde_json::from_str(&text).unwrap();
        assert_eq!(parsed["reason"].as_str(), Some(reason));
        assert_eq!(parsed["status"].as_str(), Some("Connection failed, cancelling proxy"));
    }
}

#[test]
fn success_status_parses_to_its_document() {
    let parsed: serde_json::Value = serde_json::from_str(&WebSocket::proxy_success()).unwrap();
    let expected: serde_json::Value =
        serde_json::from_str(r#"{"status":"Successfully connected, starting to proxy"}"#).unwrap();
    assert_eq!(parsed, expected);
}

#[test]
fn failure_status_parses_to_its_document() {
    let parsed: serde_json::Value = serde_json::from_str(&WebSocket::proxy_failed("x")).unwrap();
    let expected: serde_json::Value =
        serde_json::from_str(r#"{"status":"Connection failed, cancelling proxy","reason":"x"}"#).unwrap();
    assert_eq!(parsed, expected);
}

#[test]
fn pool_capacity_is_max_connections() {
    let server = WebSocket::new(&config("127.0.0.1", 1, 7, 0));
    let pool: ConnectionPool<u8> = ConnectionPool::new(&server);
    assert_eq!(pool.capacity(), 7);
}
