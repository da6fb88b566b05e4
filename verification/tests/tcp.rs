use socket2web::protocols::tcp::{RelayAction, TcpConnection, TcpReadEvent, WebSocketEvent, WsMessage};
use socket2web::protocols::{ProtocolSchema, Schema};

#[test]
fn tcp_connection_new_does_not_init_stream() {
    let conn = TcpConnection::new("ip".into(), 1234);
    assert_eq!(conn.ip_address(), "ip");
    assert_eq!(conn.port(), 1234);
    assert!(!conn.is_connected())
}

#[test]
fn tcp_schema_returns_ip_and_port() {
    let tcp_schema: Schema = TcpConnection::schema();
    assert_eq!(tcp_schema.name, "tcp");

    let reqs = tcp_schema.requirements.as_object().unwrap();
    assert_eq!(reqs.len(), 2);
    assert!(
        reqs.iter().any(|(k, _)| k == "target_ip"),
        "Tcp protocol requirements should contain 'taret_ip'"
    );
    assert!(
        reqs.iter().any(|(k, _)| k == "target_port"),
        "Tcp protocol requirements should contain 'taret_port'"
    );
}

#[test]
fn target_address_joins_ip_and_port() {
    assert_eq!(TcpConnection::new("127.0.0.1".into(), 8080).target_address(), "127.0.0.1:8080");
    assert_eq!(TcpConnection::new("example.org".into(), 0).target_address(), "example.org:0");
    assert_eq!(TcpConnection::new("10.0.0.1".into(), 65535).target_address(), "10.0.0.1:65535");
    assert_eq!(TcpConnection::new("h".into(), 7).target_address(), "h:7");
    assert_eq!(TcpConnection::new("h".into(), 10).target_address(), "h:10");
}

#[test]
fn connect_error_names_the_failure() {
    assert_eq!(TcpConnection::connect_error("ConnectionRefused"), "Failed to connect: ConnectionRefused");
}

fn forwarded(action: RelayAction) -> Vec<u8> {
    match action {
        RelayAction::Forward(bytes) => bytes,
        _ => panic!("expected bytes to forward"),
    }
}

fn stopped(action: RelayAction) -> bool {
    match action {
        RelayAction::Stop { cancel } => cancel,
        _ => panic!("expected the loop to stop"),
    }
}

#[test]
fn tcp_to_web_forwards_what_was_read() {
    let mut buffer = vec![0u8; 64];
    buffer[..15].copy_from_slice(b"hello websocket");
    let action = TcpConnection::tcp_to_web_step(TcpReadEvent::Read(15), &buffer);
    assert_eq!(forwarded(action), b"hello websocket".to_vec());
}

#[test]
fn tcp_to_web_end_of_stream_cancels() {
    let buffer = vec![0u8; 8];
    assert!(stopped(TcpConnection::tcp_to_web_step(TcpReadEvent::Read(0), &buffer)));
    assert!(stopped(TcpConnection::tcp_to_web_step(TcpReadEvent::ReadFailed { would_block: false }, &buffer)));
}

#[test]
fn tcp_to_web_stops_on_cancel_and_send_failure() {
    let buffer = vec![0u8; 8];
    assert!(!stopped(TcpConnection::tcp_to_web_step(TcpReadEvent::Cancelled, &buffer)));
    assert!(!stopped(TcpConnection::tcp_to_web_step(TcpReadEvent::SendFailed, &buffer)));
}

#[test]
fn tcp_to_web_retries_would_block() {
    let buffer = vec![0u8; 8];
    assert!(matches!(
        TcpConnection::tcp_to_web_step(TcpReadEvent::ReadFailed { would_block: true }, &buffer),
        RelayAction::Continue
    ));
}

#[test]
fn web_to_tcp_forwards_binary_text_and_frames() {
    let bin = TcpConnection::web_to_tcp_step(WebSocketEvent::Received(WsMessage::Binary(b"hello tcp".to_vec())));
    assert_eq!(forwarded(bin), b"hello tcp".to_vec());
    let text = TcpConnection::web_to_tcp_step(WebSocketEvent::Received(WsMessage::Text("hello as text".into())));
    assert_eq!(forwarded(text), b"hello as text".to_vec());
    let unicode = TcpConnection::web_to_tcp_step(WebSocketEvent::Received(WsMessage::Text("é€".into())));
    assert_eq!(forwarded(unicode), "é€".as_bytes().to_vec());
    let frame = TcpConnection::web_to_tcp_step(WebSocketEvent::Received(WsMessage::Frame(vec![1, 2, 3])));
    assert_eq!(forwarded(frame), vec![1, 2, 3]);
}

#[test]
fn web_to_tcp_ignores_ping_and_pong() {
    assert!(matches!(TcpConnection::web_to_tcp_step(WebSocketEvent::Received(WsMessage::Ping)), RelayAction::Continue));
    assert!(matches!(TcpConnection::web_to_tcp_step(WebSocketEvent::Received(WsMessage::Pong)), RelayAction::Continue));
}

#[test]
fn web_to_tcp_close_and_errors_cancel() {
    assert!(stopped(TcpConnection::web_to_tcp_step(WebSocketEvent::Received(WsMessage::Close))));
    assert!(stopped(TcpConnection::web_to_tcp_step(WebSocketEvent::ReceiveFailed)));
    assert!(stopped(TcpConnection::web_to_tcp_step(WebSocketEvent::Ended)));
}

#[test]
fn web_to_tcp_stops_on_cancel_and_write_failure() {
    assert!(!stopped(TcpConnection::web_to_tcp_step(WebSocketEvent::Cancelled)));
    assert!(!stopped(TcpConnection::web_to_tcp_step(WebSocketEvent::WriteFailed)));
}

#[test]
fn relay_exit_cancels_once_and_closes() {
    let exit = TcpConnection::relay_exit(false);
    assert!(exit.cancel_token);
    assert!(exit.close_output);
    let exit = TcpConnection::relay_exit(true);
    assert!(!exit.cancel_token);
    assert!(exit.close_output);
}
