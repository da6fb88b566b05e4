//! The TCP target: where a proxied connection goes, and the decisions of the
//! two loops that relay data between the WebSocket and the TCP stream.

use vstd::prelude::*;
use vstd::string::*;
use vstd::utf8::encode_utf8;

use crate::json::{JsonValue, JsonView};
use crate::protocols::{ProtocolSchema, Schema};
use crate::text::{decimal, push_decimal};

verus! {

/// `tokio::net::TcpStream`, a connected TCP socket, held opaque.
#[verifier::external_type_specification]
#[verifier::external_body]
pub struct ExTcpStream(tokio::net::TcpStream);

/// Represents a proxied TCP connection to a target server.
///
/// Holds the target's IP address and port, and the stream once connected.
pub struct TcpConnection {
    ip_address: String,
    port: u16,
    stream: Option<tokio::net::TcpStream>,
}

/// The model of a TCP target: its address, and whether a stream is held.
pub struct TcpConnectionView {
    pub ip_address: Seq<char>,
    pub port: u16,
    pub connected: bool,
}

impl View for TcpConnection {
    type V = TcpConnectionView;

    closed spec fn view(&self) -> TcpConnectionView {
        TcpConnectionView {
            ip_address: self.ip_address@,
            port: self.port,
            connected: self.stream is Some,
        }
    }
}

/// The address that a connection to `ip_address` and `port` dials: `ip:port`.
pub open spec fn socket_address(ip_address: Seq<char>, port: u16) -> Seq<char> {
    ip_address + ":"@ + decimal(port as nat)
}

impl TcpConnection {
    /// The stream held, if any.
    pub closed spec fn stream(self) -> Option<tokio::net::TcpStream> {
        self.stream
    }

    /// Creates a new `TcpConnection` targeting the given IP address and port.
    ///
    /// The connection is not established until a stream is attached.
    pub fn new(ip_address: String, port: u16) -> (r: Self)
        ensures
            r@ == (TcpConnectionView { ip_address: ip_address@, port, connected: false }),
    {
        Self { ip_address: ip_address, port: port, stream: None }
    }

    /// The target's IP address (or host name), as the handshake gave it.
    pub fn ip_address(&self) -> (r: &String)
        ensures
            r@ == self@.ip_address,
    {
        &self.ip_address
    }

    /// The target's port.
    pub fn port(&self) -> (r: u16)
        ensures
            r == self@.port,
    {
        self.port
    }

    /// Whether a connected stream is held.
    pub fn is_connected(&self) -> (r: bool)
        ensures
            r == self@.connected,
    {
        self.stream.is_some()
    }

    /// The address to dial, `format!("{}:{}", ip_address, port)`.
    pub fn target_address(&self) -> (r: String)
        ensures
            r@ == socket_address(self@.ip_address, self@.port),
    {
        let mut address = self.ip_address.clone();
        address.append(":");
        proof { reveal_strlit(":"); }
        push_decimal(&mut address, self.port);
        address
    }

    /// The reason reported when dialling the target failed, given the
    /// `Debug` text of the error.
    pub fn connect_error(detail: &str) -> (r: String)
        ensures
            r@ == "Failed to connect: "@ + detail@,
    {
        let mut reason = String::from_str("Failed to connect: ");
        reason.append(detail);
        reason
    }

    /// Keeps the stream that dialling the target gave.
    pub fn attach_stream(&mut self, stream: tokio::net::TcpStream)
        ensures
            final(self)@ == (TcpConnectionView { connected: true, ..old(self)@ }),
            final(self).stream() == Some(stream),
    {
        self.stream = Some(stream);
    }

    /// Hands out the held stream, if any, leaving the connection without one.
    pub fn take_stream(&mut self) -> (r: Option<tokio::net::TcpStream>)
        ensures
            r == old(self).stream(),
            r is Some == old(self)@.connected,
            final(self).stream() is None,
            final(self)@ == (TcpConnectionView { connected: false, ..old(self)@ }),
    {
        self.stream.take()
    }
}

/// The handshake fields that the TCP protocol requires, with their meaning.
pub open spec fn tcp_requirements() -> JsonView {
    JsonView::Object(
        seq![
            ("target_ip"@, JsonView::String("IP Address"@)),
            ("target_port"@, JsonView::String("Port for IP Address"@)),
        ],
    )
}

impl ProtocolSchema for TcpConnection {
    /// Returns the handshake schema for the TCP protocol.
    ///
    /// Requires `target_ip` (the destination IP address) and
    /// `target_port` (the destination port number) from the client.
    fn schema() -> (r: Schema)
        ensures
            r.name@ == "tcp"@,
            r.requirements@ == tcp_requirements(),
    {
        let mut fields: Vec<(String, JsonValue)> = Vec::new();
        fields.push(
            (String::from_str("target_ip"), JsonValue::String(String::from_str("IP Address"))),
        );
        fields.push(
            (
                String::from_str("target_port"),
                JsonValue::String(String::from_str("Port for IP Address")),
            ),
        );
        assert(fields@[0].1@ == JsonView::String("IP Address"@));
        assert(fields@[1].1@ == JsonView::String("Port for IP Address"@));
        let requirements = JsonValue::Object(fields);
        assert(requirements@->Object_0 =~= tcp_requirements()->Object_0);
        Schema { name: String::from_str("tcp"), requirements }
    }
}

/// What the TCP-to-WebSocket loop observes on one turn.
pub enum TcpReadEvent {
    /// The shared cancellation token is cancelled (checked before reading).
    Cancelled,
    /// A read put this many bytes into the buffer; `0` is the end of the stream.
    Read(usize),
    /// A read failed; `would_block` when its kind is `WouldBlock`.
    ReadFailed { would_block: bool },
    /// Sending the last chunk to the WebSocket failed.
    SendFailed,
}

/// A message of the WebSocket protocol, with what the relay reads of it.
pub enum WsMessage {
    Text(String),
    Binary(Vec<u8>),
    Ping,
    Pong,
    Close,
    /// A raw frame, with its payload.
    Frame(Vec<u8>),
}

/// What the WebSocket-to-TCP loop observes on one turn.
pub enum WebSocketEvent {
    /// The shared cancellation token is cancelled (checked before receiving).
    Cancelled,
    /// A message arrived from the client.
    Received(WsMessage),
    /// Receiving from the client failed.
    ReceiveFailed,
    /// The client's stream ended.
    Ended,
    /// Writing the last bytes to the TCP stream failed.
    WriteFailed,
}

/// What a relay loop does on one turn.
pub enum RelayAction {
    /// Pass these bytes on to the other side, then take the next turn.
    Forward(Vec<u8>),
    /// Pass nothing on; take the next turn.
    Continue,
    /// Leave the loop; with `cancel`, cancel the shared token at once. The
    /// way out is then `TcpConnection::relay_exit`.
    Stop { cancel: bool },
}

/// The model of a relay step.
pub enum RelayStep {
    Forward(Seq<u8>),
    Continue,
    Stop { cancel: bool },
}

impl View for RelayAction {
    type V = RelayStep;

    open spec fn view(&self) -> RelayStep {
        match self {
            RelayAction::Forward(bytes) => RelayStep::Forward(bytes@),
            RelayAction::Continue => RelayStep::Continue,
            RelayAction::Stop { cancel } => RelayStep::Stop { cancel: *cancel },
        }
    }
}

/// The TCP-to-WebSocket decision: a chunk read is sent on as it was read; the
/// end of the stream or a hard read error stops the loop and cancels the
/// token; a `WouldBlock` error is retried; a cancelled token or a failed send
/// stops the loop.
pub open spec fn tcp_to_web_decision(event: TcpReadEvent, buffer: Seq<u8>) -> RelayStep {
    match event {
        TcpReadEvent::Cancelled => RelayStep::Stop { cancel: false },
        TcpReadEvent::Read(n) => if n == 0 {
            RelayStep::Stop { cancel: true }
        } else {
            RelayStep::Forward(buffer.take(n as int))
        },
        TcpReadEvent::ReadFailed { would_block } => if would_block {
            RelayStep::Continue
        } else {
            RelayStep::Stop { cancel: true }
        },
        TcpReadEvent::SendFailed => RelayStep::Stop { cancel: false },
    }
}

/// The WebSocket-to-TCP decision: text (as its UTF-8 bytes), binary data and
/// raw frames are written on; pings and pongs are left to the WebSocket
/// layer; a close, a receive error or the end of the stream stops the loop
/// and cancels the token; a cancelled token or a failed write stops it.
pub open spec fn web_to_tcp_decision(event: WebSocketEvent) -> RelayStep {
    match event {
        WebSocketEvent::Cancelled => RelayStep::Stop { cancel: false },
        WebSocketEvent::Received(message) => match message {
            WsMessage::Text(text) => RelayStep::Forward(encode_utf8(text@)),
            WsMessage::Binary(bytes) => RelayStep::Forward(bytes@),
            WsMessage::Ping => RelayStep::Continue,
            WsMessage::Pong => RelayStep::Continue,
            WsMessage::Close => RelayStep::Stop { cancel: true },
            WsMessage::Frame(payload) => RelayStep::Forward(payload@),
        },
        WebSocketEvent::ReceiveFailed => RelayStep::Stop { cancel: true },
        WebSocketEvent::Ended => RelayStep::Stop { cancel: true },
        WebSocketEvent::WriteFailed => RelayStep::Stop { cancel: false },
    }
}

fn copy_prefix(buffer: &[u8], n: usize) -> (r: Vec<u8>)
    requires
        n <= buffer@.len(),
    ensures
        r@ == buffer@.take(n as int),
{
    let mut out: Vec<u8> = Vec::new();
    let mut i: usize = 0;
    while i < n
        invariant
            i <= n,
            n <= buffer@.len(),
            out@ == buffer@.take(i as int),
        decreases n - i,
    {
        out.push(buffer[i]);
        i = i + 1;
        assert(out@ =~= buffer@.take(i as int));
    }
    out
}

/// How a relay loop leaves: what it does to the shared token and to the side
/// it writes to.
pub struct RelayExit {
    /// Cancel the shared token.
    pub cancel_token: bool,
    /// Close the side the loop writes to (the WebSocket sink, or the TCP
    /// writer).
    pub close_output: bool,
}

impl TcpConnection {
    /// The way out of either relay loop, given whether the shared token is
    /// already cancelled: cancel it if it is not yet, and always close the
    /// output, so that the token ends cancelled and the other direction stops.
    pub fn relay_exit(token_cancelled: bool) -> (r: RelayExit)
        ensures
            r.cancel_token == !token_cancelled,
            r.close_output,
            token_cancelled || r.cancel_token,
    {
        RelayExit { cancel_token: !token_cancelled, close_output: true }
    }

    /// One turn of the loop that reads from the TCP stream and sends each
    /// chunk to the WebSocket as a binary message; `buffer` is the read buffer.
    pub fn tcp_to_web_step(event: TcpReadEvent, buffer: &[u8]) -> (r: RelayAction)
        requires
            event matches TcpReadEvent::Read(n) ==> n <= buffer@.len(),
        ensures
            r@ == tcp_to_web_decision(event, buffer@),
    {
        match event {
            TcpReadEvent::Cancelled => RelayAction::Stop { cancel: false },
            TcpReadEvent::Read(n) => {
                if n == 0 {
                    RelayAction::Stop { cancel: true }
                } else {
                    RelayAction::Forward(copy_prefix(buffer, n))
                }
            },
            TcpReadEvent::ReadFailed { would_block } => {
                if would_block {
                    RelayAction::Continue
                } else {
                    RelayAction::Stop { cancel: true }
                }
            },
            TcpReadEvent::SendFailed => RelayAction::Stop { cancel: false },
        }
    }

    /// One turn of the loop that receives from the WebSocket and writes what
    /// the client sent to the TCP stream.
    pub fn web_to_tcp_step(event: WebSocketEvent) -> (r: RelayAction)
        ensures
            r@ == web_to_tcp_decision(event),
    {
        match event {
            WebSocketEvent::Cancelled => RelayAction::Stop { cancel: false },
            WebSocketEvent::Received(message) => match message {
                WsMessage::Text(text) => {
                    let bytes = text.as_str().as_bytes();
                    assert(bytes@.take(bytes@.len() as int) =~= bytes@);
                    RelayAction::Forward(copy_prefix(bytes, bytes.len()))
                },
                WsMessage::Binary(bytes) => RelayAction::Forward(bytes),
                WsMessage::Ping => RelayAction::Continue,
                WsMessage::Pong => RelayAction::Continue,
                WsMessage::Close => RelayAction::Stop { cancel: true },
                WsMessage::Frame(payload) => RelayAction::Forward(payload),
            },
            WebSocketEvent::ReceiveFailed => RelayAction::Stop { cancel: true },
            WebSocketEvent::Ended => RelayAction::Stop { cancel: true },
            WebSocketEvent::WriteFailed => RelayAction::Stop { cancel: false },
        }
    }
}

/// The two relay loops stop together: a loop that stops because its peer
/// ended (end of stream, close, or an error) cancels the shared token at once,
/// and a loop that finds the token cancelled stops on that turn.
pub proof fn lemma_relay_stops_together(tcp_event: TcpReadEvent, buffer: Seq<u8>, web_event: WebSocketEvent)
    ensures
        tcp_to_web_decision(TcpReadEvent::Cancelled, buffer) is Stop,
        web_to_tcp_decision(WebSocketEvent::Cancelled) is Stop,
        tcp_to_web_decision(TcpReadEvent::Read(0), buffer) == (RelayStep::Stop { cancel: true }),
        web_to_tcp_decision(WebSocketEvent::Received(WsMessage::Close)) == (RelayStep::Stop { cancel: true }),
        web_to_tcp_decision(WebSocketEvent::Ended) == (RelayStep::Stop { cancel: true }),
        tcp_to_web_decision(tcp_event, buffer) is Stop && tcp_event != TcpReadEvent::Cancelled
            && tcp_event != TcpReadEvent::SendFailed ==> tcp_to_web_decision(tcp_event, buffer) == (RelayStep::Stop { cancel: true }),
{
}

/// What the loops forward is exactly what was read: the bytes of a TCP read,
/// and the payload (for text, its UTF-8 encoding) of a WebSocket message.
pub proof fn lemma_relay_forwards_unchanged(n: usize, buffer: Seq<u8>, message: WsMessage)
    requires
        0 < n <= buffer.len(),
    ensures
        tcp_to_web_decision(TcpReadEvent::Read(n), buffer) == RelayStep::Forward(buffer.take(n as int)),
        match message {
            WsMessage::Text(text) => web_to_tcp_decision(WebSocketEvent::Received(message))
                == RelayStep::Forward(encode_utf8(text@)),
            WsMessage::Binary(bytes) => web_to_tcp_decision(WebSocketEvent::Received(message))
                == RelayStep::Forward(bytes@),
            WsMessage::Frame(payload) => web_to_tcp_decision(WebSocketEvent::Received(message))
                == RelayStep::Forward(payload@),
            _ => !(web_to_tcp_decision(WebSocketEvent::Received(message)) is Forward),
        },
{
}

} // verus!
