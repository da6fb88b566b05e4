//! The WebSocket server's decisions: its configuration, the handshake that
//! chooses a target, the messages it sends, and the bookkeeping of the
//! connections it serves.

use vstd::prelude::*;
use vstd::string::*;

use crate::arguments::WebSocketArguments;
use crate::json::{
    agrees, distinct_names, json_parse, lemma_agrees_field, lemma_lookup_distinct,
    lemma_lookup_some, lookup, round_trips, json_text, parse_json, write_json, writable, JsonValue,
    JsonView,
};
use crate::protocols::tcp::{socket_address, tcp_requirements, TcpConnection, TcpConnectionView};
use crate::protocols::{Protocol, ProtocolSchema, ProtocolView};
use crate::text::push_decimal;

verus! {

/// The WebSocket server that accepts client connections and proxies them
/// to target endpoints based on the handshake protocol.
pub struct WebSocket {
    address: String,
    timeout: u64,
    max_lifetime: u64,
    max_connections: u64,
}

/// The model of the server's settings.
pub struct WebSocketView {
    pub address: Seq<char>,
    pub timeout: u64,
    pub max_lifetime: u64,
    pub max_connections: u64,
}

impl View for WebSocket {
    type V = WebSocketView;

    closed spec fn view(&self) -> WebSocketView {
        WebSocketView {
            address: self.address@,
            timeout: self.timeout,
            max_lifetime: self.max_lifetime,
            max_connections: self.max_connections,
        }
    }
}

/// Why a handshake did not yield a target.
pub enum HandshakeError {
    /// The handshake is not JSON; the text of the parser's error.
    InvalidJson(String),
    MissingProtocol,
    MissingTargetIp,
    MissingTargetPort,
    UnsupportedProtocol,
    TimedOut,
    NoHandshake,
    Unexpected,
    /// Receiving the handshake failed; the text of the transport's error.
    Transport(String),
}

/// The model of a handshake error.
pub enum HandshakeFault {
    InvalidJson(Seq<char>),
    MissingProtocol,
    MissingTargetIp,
    MissingTargetPort,
    UnsupportedProtocol,
    TimedOut,
    NoHandshake,
    Unexpected,
    Transport(Seq<char>),
}

impl View for HandshakeError {
    type V = HandshakeFault;

    open spec fn view(&self) -> HandshakeFault {
        match self {
            HandshakeError::InvalidJson(m) => HandshakeFault::InvalidJson(m@),
            HandshakeError::MissingProtocol => HandshakeFault::MissingProtocol,
            HandshakeError::MissingTargetIp => HandshakeFault::MissingTargetIp,
            HandshakeError::MissingTargetPort => HandshakeFault::MissingTargetPort,
            HandshakeError::UnsupportedProtocol => HandshakeFault::UnsupportedProtocol,
            HandshakeError::TimedOut => HandshakeFault::TimedOut,
            HandshakeError::NoHandshake => HandshakeFault::NoHandshake,
            HandshakeError::Unexpected => HandshakeFault::Unexpected,
            HandshakeError::Transport(m) => HandshakeFault::Transport(m@),
        }
    }
}

/// The text that reports a handshake error to the log.
pub open spec fn fault_message(fault: HandshakeFault) -> Seq<char> {
    match fault {
        HandshakeFault::InvalidJson(m) => m,
        HandshakeFault::MissingProtocol => "Missing or invalid protocol field"@,
        HandshakeFault::MissingTargetIp => "Missing or invalid target_ip"@,
        HandshakeFault::MissingTargetPort => "Missing or invalid target_port"@,
        HandshakeFault::UnsupportedProtocol => "Unsupported protocol"@,
        HandshakeFault::TimedOut => "Handshake timed out"@,
        HandshakeFault::NoHandshake => "No handshake was received"@,
        HandshakeFault::Unexpected => "Received unexpected, closing connection!"@,
        HandshakeFault::Transport(m) => m,
    }
}

impl HandshakeError {
    /// The text that reports the error: the fixed text of each kind, or the
    /// parser's or transport's own text.
    pub fn message(&self) -> (r: String)
        ensures
            r@ == fault_message(self@),
    {
        match self {
            HandshakeError::InvalidJson(m) => m.clone(),
            HandshakeError::MissingProtocol => String::from_str("Missing or invalid protocol field"),
            HandshakeError::MissingTargetIp => String::from_str("Missing or invalid target_ip"),
            HandshakeError::MissingTargetPort => String::from_str("Missing or invalid target_port"),
            HandshakeError::UnsupportedProtocol => String::from_str("Unsupported protocol"),
            HandshakeError::TimedOut => String::from_str("Handshake timed out"),
            HandshakeError::NoHandshake => String::from_str("No handshake was received"),
            HandshakeError::Unexpected => String::from_str("Received unexpected, closing connection!"),
            HandshakeError::Transport(m) => m.clone(),
        }
    }
}

/// What the server observed while waiting for the client's handshake.
pub enum HandshakeReply {
    /// Nothing arrived within the timeout.
    TimedOut,
    /// The client's stream ended.
    Ended,
    /// Receiving failed; the text of the transport's error.
    Failed(String),
    /// A text message arrived.
    Text(String),
    /// A message of another kind arrived.
    Other,
}

/// The outcome of a handshake, through the models.
pub open spec fn outcome(r: Result<Protocol, HandshakeError>) -> Result<ProtocolView, HandshakeFault> {
    match r {
        Ok(p) => Ok(p@),
        Err(e) => Err(e@),
    }
}

/// The text of the member `key`, when the document has one that is a string.
pub open spec fn field_text(doc: JsonView, key: Seq<char>) -> Option<Seq<char>> {
    match doc.field(key) {
        Some(v) => v.text(),
        None => None,
    }
}

/// The unsigned integer of the member `key`, when the document has one.
pub open spec fn field_unsigned(doc: JsonView, key: Seq<char>) -> Option<u64> {
    match doc.field(key) {
        Some(v) => v.unsigned(),
        None => None,
    }
}

/// The target that a handshake document names: with `protocol` `"tcp"`, the
/// string `target_ip` and the port `target_port` (an unsigned integer, of
/// which the low 16 bits are kept, as `as u16` does).
pub open spec fn handshake_target(doc: JsonView) -> Result<ProtocolView, HandshakeFault> {
    match field_text(doc, "protocol"@) {
        None => Err(HandshakeFault::MissingProtocol),
        Some(protocol) => if protocol == "tcp"@ {
            match field_text(doc, "target_ip"@) {
                None => Err(HandshakeFault::MissingTargetIp),
                Some(ip) => match field_unsigned(doc, "target_port"@) {
                    None => Err(HandshakeFault::MissingTargetPort),
                    Some(port) => Ok(
                        ProtocolView::Tcp(
                            TcpConnectionView { ip_address: ip, port: port as u16, connected: false },
                        ),
                    ),
                },
            }
        } else {
            Err(HandshakeFault::UnsupportedProtocol)
        },
    }
}

/// The target that a handshake text names, or why it names none.
pub open spec fn handshake_from_text(parsed: Result<JsonView, Seq<char>>) -> Result<ProtocolView, HandshakeFault> {
    match parsed {
        Err(m) => Err(HandshakeFault::InvalidJson(m)),
        Ok(doc) => handshake_target(doc),
    }
}

/// The outcome of waiting for a handshake.
pub open spec fn handshake_reply_outcome(reply: HandshakeReply) -> Result<ProtocolView, HandshakeFault> {
    match reply {
        HandshakeReply::TimedOut => Err(HandshakeFault::TimedOut),
        HandshakeReply::Ended => Err(HandshakeFault::NoHandshake),
        HandshakeReply::Failed(m) => Err(HandshakeFault::Transport(m@)),
        HandshakeReply::Text(text) => handshake_from_text(json_parse(text@)),
        HandshakeReply::Other => Err(HandshakeFault::Unexpected),
    }
}

fn text_field<'a>(doc: &'a JsonValue, key: &str) -> (r: Option<&'a String>)
    ensures
        match r {
            Some(s) => field_text(doc@, key@) == Some(s@),
            None => field_text(doc@, key@) is None,
        },
{
    match doc.get(&String::from_str(key)) {
        Some(v) => v.as_str(),
        None => None,
    }
}

fn unsigned_field(doc: &JsonValue, key: &str) -> (r: Option<u64>)
    ensures
        r == field_unsigned(doc@, key@),
{
    match doc.get(&String::from_str(key)) {
        Some(v) => v.as_u64(),
        None => None,
    }
}

impl WebSocket {
    /// Reads the target out of a parsed handshake document.
    pub fn read_handshake(doc: &JsonValue) -> (r: Result<Protocol, HandshakeError>)
        ensures
            outcome(r) == handshake_target(doc@),
    {
        let protocol = match text_field(doc, "protocol") {
            Some(p) => p,
            None => return Err(HandshakeError::MissingProtocol),
        };
        if *protocol == String::from_str("tcp") {
            let target_ip = match text_field(doc, "target_ip") {
                Some(ip) => ip.clone(),
                None => return Err(HandshakeError::MissingTargetIp),
            };
            let target_port = match unsigned_field(doc, "target_port") {
                Some(port) => port as u16,
                None => return Err(HandshakeError::MissingTargetPort),
            };
            Ok(Protocol::Tcp(TcpConnection::new(target_ip, target_port)))
        } else {
            Err(HandshakeError::UnsupportedProtocol)
        }
    }

    /// Parses a client's handshake JSON and returns the corresponding [`Protocol`].
    ///
    /// Expects a JSON object with `protocol`, `target_ip`, and `target_port` fields.
    /// Currently only the `"tcp"` protocol is supported.
    pub fn read_greeting(json_str: &str) -> (r: Result<Protocol, HandshakeError>)
        ensures
            outcome(r) == handshake_from_text(json_parse(json_str@)),
    {
        match parse_json(json_str) {
            Ok(doc) => WebSocket::read_handshake(&doc),
            Err(message) => Err(HandshakeError::InvalidJson(message)),
        }
    }

    /// Decides the handshake from what arrived while waiting for it.
    pub fn finish_handshake(reply: HandshakeReply) -> (r: Result<Protocol, HandshakeError>)
        ensures
            outcome(r) == handshake_reply_outcome(reply),
    {
        match reply {
            HandshakeReply::TimedOut => Err(HandshakeError::TimedOut),
            HandshakeReply::Ended => Err(HandshakeError::NoHandshake),
            HandshakeReply::Failed(message) => Err(HandshakeError::Transport(message)),
            HandshakeReply::Text(text) => WebSocket::read_greeting(text.as_str()),
            HandshakeReply::Other => Err(HandshakeError::Unexpected),
        }
    }
}

/// The greeting: the supported protocols, each with the fields its handshake
/// requires.
pub open spec fn greeting_document() -> JsonView {
    JsonView::Object(
        seq![("supported protocols"@, JsonView::Object(seq![("tcp"@, tcp_requirements())]))],
    )
}

/// The status sent once the target is connected.
pub open spec fn success_document() -> JsonView {
    JsonView::Object(
        seq![("status"@, JsonView::String("Successfully connected, starting to proxy"@))],
    )
}

/// The status sent when the target could not be connected, with the reason.
pub open spec fn failure_document(reason: Seq<char>) -> JsonView {
    JsonView::Object(
        seq![
            ("status"@, JsonView::String("Connection failed, cancelling proxy"@)),
            ("reason"@, JsonView::String(reason)),
        ],
    )
}

impl WebSocket {
    /// Creates a new `WebSocket` server from the provided CLI configuration.
    pub fn new(config: &WebSocketArguments) -> (r: Self)
        ensures
            r@ == (WebSocketView {
                address: socket_address(config.ip@, config.port),
                timeout: config.timeout,
                max_lifetime: config.max_lifetime,
                max_connections: config.max_connections,
            }),
    {
        let mut address = config.ip.clone();
        address.append(":");
        proof { reveal_strlit(":"); }
        push_decimal(&mut address, config.port);
        Self {
            address,
            timeout: config.timeout,
            max_lifetime: config.max_lifetime,
            max_connections: config.max_connections,
        }
    }

    /// The address the server binds to, `ip:port`.
    pub fn address(&self) -> (r: &String)
        ensures
            r@ == self@.address,
    {
        &self.address
    }

    /// How long to wait for the client's handshake, in seconds.
    pub fn timeout(&self) -> (r: u64)
        ensures
            r == self@.timeout,
    {
        self.timeout
    }

    /// The longest a connection may live, in seconds; `0` for no limit.
    pub fn max_lifetime(&self) -> (r: u64)
        ensures
            r == self@.max_lifetime,
    {
        self.max_lifetime
    }

    /// The most connections served at once.
    pub fn max_connections(&self) -> (r: u64)
        ensures
            r == self@.max_connections,
    {
        self.max_connections
    }

    /// Builds the greeting document sent to clients upon connection.
    pub fn greeting_value() -> (r: JsonValue)
        ensures
            r@ == greeting_document(),
    {
        let schema = TcpConnection::schema();
        let ghost requirements = schema.requirements@;
        let mut protocols: Vec<(String, JsonValue)> = Vec::new();
        protocols.push((schema.name, schema.requirements));
        assert(protocols@[0].1@ == requirements);
        let supported = JsonValue::Object(protocols);
        assert(supported@->Object_0 =~= seq![("tcp"@, tcp_requirements())]);
        let mut fields: Vec<(String, JsonValue)> = Vec::new();
        fields.push((String::from_str("supported protocols"), supported));
        let greeting = JsonValue::Object(fields);
        assert(greeting@->Object_0 =~= greeting_document()->Object_0);
        greeting
    }

    /// Builds the greeting message sent to clients upon connection.
    ///
    /// The greeting is a JSON text that describes the expected handshake
    /// format, including the protocol, target IP, and target port fields.
    pub fn get_greeting() -> (r: String)
        ensures
            r@ == json_text(greeting_document()),
            json_parse(r@) is Ok,
            agrees(json_parse(r@)->Ok_0, greeting_document()),
    {
        let greeting = WebSocket::greeting_value();
        proof {
            lemma_messages_writable(Seq::empty());
            lemma_messages_round_trip(Seq::empty());
        }
        write_json(&greeting)
    }

    /// The status message telling the client that the proxy connection has
    /// been established.
    pub fn proxy_success() -> (r: String)
        ensures
            r@ == json_text(success_document()),
            json_parse(r@) is Ok,
            forall|key: Seq<char>| #[trigger] json_parse(r@)->Ok_0.field(key) == success_document().field(key),
    {
        let mut fields: Vec<(String, JsonValue)> = Vec::new();
        fields.push(
            (
                String::from_str("status"),
                JsonValue::String(String::from_str("Successfully connected, starting to proxy")),
            ),
        );
        assert(fields@[0].1@ == JsonView::String("Successfully connected, starting to proxy"@));
        let status = JsonValue::Object(fields);
        assert(status@->Object_0 =~= success_document()->Object_0);
        proof {
            lemma_messages_writable(Seq::empty());
            lemma_messages_round_trip(Seq::empty());
        }
        let text = write_json(&status);
        proof { lemma_flat_round_trip(json_parse(text@)->Ok_0, success_document()); }
        text
    }

    /// The status message telling the client why the proxy connection could
    /// not be established.
    pub fn proxy_failed(reason: &str) -> (r: String)
        ensures
            r@ == json_text(failure_document(reason@)),
            json_parse(r@) is Ok,
            forall|key: Seq<char>| #[trigger] json_parse(r@)->Ok_0.field(key) == failure_document(reason@).field(key),
            json_parse(r@)->Ok_0.field("reason"@) == Some(JsonView::String(reason@)),
            json_parse(r@)->Ok_0.field("status"@) == Some(
                JsonView::String("Connection failed, cancelling proxy"@),
            ),
    {
        let mut fields: Vec<(String, JsonValue)> = Vec::new();
        fields.push(
            (
                String::from_str("status"),
                JsonValue::String(String::from_str("Connection failed, cancelling proxy")),
            ),
        );
        fields.push((String::from_str("reason"), JsonValue::String(String::from_str(reason))));
        assert(fields@[0].1@ == JsonView::String("Connection failed, cancelling proxy"@));
        assert(fields@[1].1@ == JsonView::String(reason@));
        let status = JsonValue::Object(fields);
        assert(status@->Object_0 =~= failure_document(reason@)->Object_0);
        proof {
            lemma_messages_writable(reason@);
            lemma_messages_round_trip(reason@);
        }
        let text = write_json(&status);
        proof {
            let parsed = json_parse(text@)->Ok_0;
            lemma_flat_round_trip(parsed, failure_document(reason@));
            assert(parsed.field("reason"@) == failure_document(reason@).field("reason"@));
            assert(parsed.field("status"@) == failure_document(reason@).field("status"@));
            lemma_failure_document_fields(reason@);
        }
        text
    }
}

/// A document agreeing with an object of string members under distinct names
/// has exactly that object's members.
proof fn lemma_flat_round_trip(w: JsonView, v: JsonView)
    requires
        v is Object,
        distinct_names(v->Object_0),
        forall|i: int| 0 <= i < v->Object_0.len() ==> (#[trigger] v->Object_0[i]).1 is String,
        agrees(w, v),
    ensures
        forall|key: Seq<char>| #[trigger] w.field(key) == v.field(key),
{
    let entries = v->Object_0;
    assert forall|key: Seq<char>| #[trigger] w.field(key) == v.field(key) by {
        lemma_agrees_field(w, v, key);
        lemma_lookup_some(entries, key);
        if lookup(entries, key) is Some {
            let i = choose|i: int| 0 <= i < entries.len() && #[trigger] entries[i].0 == key;
            lemma_lookup_distinct(entries, i);
            assert(entries[i].1 is String);
        }
    }
}

/// The member names of the TCP requirements differ.
proof fn lemma_tcp_names_distinct()
    ensures
        distinct_names(tcp_requirements()->Object_0),
{
    reveal_strlit("target_ip");
    reveal_strlit("target_port");
    assert("target_ip"@ != "target_port"@) by {
        assert("target_ip"@[7] != "target_port"@[7]);
    }
}

/// The server's messages are read back by a client as they were written.
proof fn lemma_messages_round_trip(reason: Seq<char>)
    ensures
        round_trips(greeting_document(), 127),
        round_trips(success_document(), 127),
        round_trips(failure_document(reason), 127),
        distinct_names(success_document()->Object_0),
        distinct_names(failure_document(reason)->Object_0),
{
    reveal_strlit("status");
    reveal_strlit("reason");
    assert("status"@ != "reason"@) by {
        assert("status"@[0] != "reason"@[0]);
    }
    lemma_tcp_names_distinct();
    let requirements = tcp_requirements();
    assert(round_trips(requirements->Object_0[0].1, 124));
    assert(round_trips(requirements->Object_0[1].1, 124));
    assert(round_trips(requirements, 125));
    let supported = JsonView::Object(seq![("tcp"@, tcp_requirements())]);
    assert(round_trips(supported->Object_0[0].1, 125));
    assert(round_trips(supported, 126));
    assert(round_trips(greeting_document()->Object_0[0].1, 126));
    assert(round_trips(success_document()->Object_0[0].1, 126));
    assert(round_trips(failure_document(reason)->Object_0[0].1, 126));
    assert(round_trips(failure_document(reason)->Object_0[1].1, 126));
}

/// The members of the failure status, by name.
proof fn lemma_failure_document_fields(reason: Seq<char>)
    ensures
        failure_document(reason).field("reason"@) == Some(JsonView::String(reason)),
        failure_document(reason).field("status"@) == Some(
            JsonView::String("Connection failed, cancelling proxy"@),
        ),
{
    reveal_strlit("status");
    reveal_strlit("reason");
    assert("status"@ != "reason"@) by {
        assert("status"@[0] != "reason"@[0]);
    }
    let entries = failure_document(reason)->Object_0;
    assert(entries.drop_first() =~= seq![("reason"@, JsonView::String(reason))]);
    assert(lookup(entries.drop_first(), "reason"@) == Some(JsonView::String(reason)));
    assert(lookup(entries, "reason"@) == lookup(entries.drop_first(), "reason"@));
}

/// The server's messages hold no numbers, so the writer takes them whole.
proof fn lemma_messages_writable(reason: Seq<char>)
    ensures
        writable(greeting_document()),
        writable(success_document()),
        writable(failure_document(reason)),
{
    let requirements = tcp_requirements();
    assert(writable(requirements->Object_0[0].1));
    assert(writable(requirements->Object_0[1].1));
    assert(writable(requirements));
    let supported = JsonView::Object(seq![("tcp"@, tcp_requirements())]);
    assert(writable(supported->Object_0[0].1));
    assert(writable(supported));
    assert(writable(greeting_document()->Object_0[0].1));
    assert(writable(success_document()->Object_0[0].1));
    assert(writable(failure_document(reason)->Object_0[0].1));
    assert(writable(failure_document(reason)->Object_0[1].1));
}

/// What the server knows of a connection it serves when it sweeps its list.
pub struct ClientStatus {
    /// The connection's task has finished.
    pub finished: bool,
    /// Whole seconds since the connection was accepted.
    pub elapsed_secs: u64,
}

/// What a sweep does with a connection.
pub enum Cleanup {
    /// Keep serving it.
    Keep,
    /// Its task has finished: forget it.
    Release,
    /// It outlived the maximum lifetime: cancel it and forget it.
    Expire,
}

/// The sweep's verdict on a connection: a finished one is released; one
/// older than a non-zero maximum lifetime is expired; any other is kept.
pub open spec fn cleanup_verdict(max_lifetime: u64, status: ClientStatus) -> Cleanup {
    if status.finished {
        Cleanup::Release
    } else if max_lifetime > 0 && status.elapsed_secs > max_lifetime {
        Cleanup::Expire
    } else {
        Cleanup::Keep
    }
}

impl WebSocket {
    /// Decides whether a served connection stays in the list.
    pub fn connection_cleanup(&self, client: &ClientStatus) -> (r: Cleanup)
        ensures
            r == cleanup_verdict(self@.max_lifetime, *client),
    {
        if client.finished {
            return Cleanup::Release;
        }
        if self.max_lifetime > 0 && client.elapsed_secs > self.max_lifetime {
            return Cleanup::Expire;
        }
        Cleanup::Keep
    }

    /// The reason sent with the close frame that turns a client away when
    /// the server is at capacity.
    pub fn capacity_reason() -> (r: String)
        ensures
            r@ == "Server at capacity, try again later"@,
    {
        String::from_str("Server at capacity, try again later")
    }
}

/// The connections of `clients` whose verdict in `verdicts` is `want`, in order.
pub open spec fn select<C>(clients: Seq<C>, verdicts: Seq<Cleanup>, want: Cleanup) -> Seq<C>
    decreases clients.len(),
{
    if clients.len() == 0 {
        Seq::empty()
    } else {
        let rest = select(clients.drop_last(), verdicts, want);
        if verdicts[clients.len() - 1] == want {
            rest.push(clients.last())
        } else {
            rest
        }
    }
}

/// A selection is no longer than what it selects from.
pub proof fn lemma_select_len<C>(clients: Seq<C>, verdicts: Seq<Cleanup>, want: Cleanup)
    ensures
        select(clients, verdicts, want).len() <= clients.len(),
    decreases clients.len(),
{
    if clients.len() > 0 {
        lemma_select_len(clients.drop_last(), verdicts, want);
    }
}

/// The connections the server serves, never more than its limit.
pub struct ConnectionPool<C> {
    clients: Vec<C>,
    limit: usize,
}

impl<C> View for ConnectionPool<C> {
    type V = Seq<C>;

    closed spec fn view(&self) -> Seq<C> {
        self.clients@
    }
}

impl<C> ConnectionPool<C> {
    #[verifier::type_invariant]
    spec fn within_limit(self) -> bool {
        self.clients@.len() <= self.limit
    }

    /// The most connections the pool holds.
    pub closed spec fn limit(self) -> usize {
        self.limit
    }

    /// An empty pool for the server, limited to its `max_connections`.
    pub fn new(server: &WebSocket) -> (r: Self)
        ensures
            r@ == Seq::<C>::empty(),
            r.limit() == server@.max_connections as usize,
    {
        ConnectionPool { clients: Vec::new(), limit: server.max_connections as usize }
    }

    /// The number of connections held.
    pub fn len(&self) -> (r: usize)
        ensures
            r == self@.len(),
            r <= self.limit(),
    {
        proof { use_type_invariant(self); }
        self.clients.len()
    }

    /// The connections held, in the order they were registered.
    pub fn clients(&self) -> (r: &Vec<C>)
        ensures
            r@ == self@,
            r@.len() <= self.limit(),
    {
        proof { use_type_invariant(self); }
        &self.clients
    }

    /// The most connections the pool holds.
    pub fn capacity(&self) -> (r: usize)
        ensures
            r == self.limit(),
    {
        self.limit
    }

    /// Whether another connection may be registered.
    pub fn has_room(&self) -> (r: bool)
        ensures
            r == (self@.len() < self.limit()),
    {
        self.clients.len() < self.limit
    }

    /// Registers a newly accepted connection; only while there is room.
    pub fn register(&mut self, client: C)
        requires
            old(self)@.len() < old(self).limit(),
        ensures
            final(self)@ == old(self)@.push(client),
            final(self).limit() == old(self).limit(),
            final(self)@.len() <= final(self).limit(),
    {
        proof { use_type_invariant(&*self); }
        let mut clients: Vec<C> = Vec::new();
        std::mem::swap(&mut clients, &mut self.clients);
        clients.push(client);
        self.clients = clients;
    }

    /// Applies a sweep: keeps the connections whose verdict is `Keep`, in
    /// order, and hands out those whose verdict is `Expire`, in order, for
    /// their cancellation; the released ones are dropped.
    pub fn sweep(&mut self, verdicts: &Vec<Cleanup>) -> (expired: Vec<C>)
        requires
            verdicts@.len() == old(self)@.len(),
        ensures
            final(self)@ == select(old(self)@, verdicts@, Cleanup::Keep),
            expired@ == select(old(self)@, verdicts@, Cleanup::Expire),
            final(self).limit() == old(self).limit(),
            final(self)@.len() <= final(self).limit(),
    {
        proof { use_type_invariant(&*self); }
        let ghost before = self.clients@;
        let mut remaining: Vec<C> = Vec::new();
        std::mem::swap(&mut remaining, &mut self.clients);
        let mut kept: Vec<C> = Vec::new();
        let mut expired: Vec<C> = Vec::new();
        let n = verdicts.len();
        let mut i: usize = 0;
        for client in it: remaining.into_iter()
            invariant
                n == verdicts@.len(),
                n == before.len(),
                it.seq() == before,
                i == it.index(),
                kept@ == select(before.take(i as int), verdicts@, Cleanup::Keep),
                expired@ == select(before.take(i as int), verdicts@, Cleanup::Expire),
        {
            assert(before.take(i + 1).drop_last() =~= before.take(i as int));
            match verdicts[i] {
                Cleanup::Keep => kept.push(client),
                Cleanup::Expire => expired.push(client),
                Cleanup::Release => {},
            }
            i = i + 1;
        }
        assert(before.take(n as int) =~= before);
        proof { lemma_select_len(before, verdicts@, Cleanup::Keep); }
        self.clients = kept;
        expired
    }

    /// Hands out every connection held, in order, emptying the pool.
    pub fn drain(self) -> (r: Vec<C>)
        ensures
            r@ == self@,
    {
        self.clients
    }
}

/// The fields that the greeting lists for the TCP protocol.
pub open spec fn advertised_tcp_fields() -> Seq<Seq<char>> {
    let tcp = greeting_document().field("supported protocols"@).unwrap().field("tcp"@).unwrap();
    tcp->Object_0.map_values(|entry: (Seq<char>, JsonView)| entry.0)
}

/// The greeting asks for exactly what the handshake reads: a handshake that
/// names the protocol `"tcp"` is accepted if and only if each field that the
/// greeting lists for TCP is present (the IP address as a string, the port as
/// an unsigned integer), and the target is then the one those fields name.
pub proof fn lemma_greeting_fields_suffice(doc: JsonView)
    requires
        field_text(doc, "protocol"@) == Some("tcp"@),
    ensures
        advertised_tcp_fields() == seq!["target_ip"@, "target_port"@],
        handshake_target(doc) is Ok <==> (field_text(doc, advertised_tcp_fields()[0]) is Some
            && field_unsigned(doc, advertised_tcp_fields()[1]) is Some),
        handshake_target(doc) is Ok ==> handshake_target(doc) == Ok::<ProtocolView, HandshakeFault>(
            ProtocolView::Tcp(
                TcpConnectionView {
                    ip_address: field_text(doc, "target_ip"@).unwrap(),
                    port: field_unsigned(doc, "target_port"@).unwrap() as u16,
                    connected: false,
                },
            ),
        ),
{
    let g = greeting_document();
    assert(g.field("supported protocols"@) == Some(
        JsonView::Object(seq![("tcp"@, tcp_requirements())]),
    ));
    let supported = JsonView::Object(seq![("tcp"@, tcp_requirements())]);
    assert(supported.field("tcp"@) == Some(tcp_requirements()));
    assert(advertised_tcp_fields() =~= seq!["target_ip"@, "target_port"@]);
}

/// With a maximum lifetime of zero no connection ever expires, and a
/// finished connection is always released, whatever the lifetime.
pub proof fn lemma_cleanup_lifetime(max_lifetime: u64, status: ClientStatus)
    ensures
        max_lifetime == 0 ==> cleanup_verdict(max_lifetime, status) != Cleanup::Expire,
        status.finished ==> cleanup_verdict(max_lifetime, status) == Cleanup::Release,
        !status.finished && status.elapsed_secs <= max_lifetime ==> cleanup_verdict(max_lifetime, status)
            == Cleanup::Keep,
{
}

/// Each sweep verdict in terms of the status: a connection is released if
/// and only if its task has finished; it is expired (cancelled) if and only if
/// it is still running, the lifetime is non-zero and the seconds served exceed
/// the lifetime, whatever the excess; otherwise it is kept.
pub proof fn lemma_cleanup_verdicts(max_lifetime: u64, status: ClientStatus)
    ensures
        (cleanup_verdict(max_lifetime, status) == Cleanup::Release) <==> status.finished,
        (cleanup_verdict(max_lifetime, status) == Cleanup::Expire) <==> (!status.finished && max_lifetime > 0
            && status.elapsed_secs > max_lifetime),
        (cleanup_verdict(max_lifetime, status) == Cleanup::Keep) <==> (!status.finished && (max_lifetime == 0
            || status.elapsed_secs <= max_lifetime)),
{
}

/// A handshake names a target only when its protocol is the string "tcp",
/// and the target is then the string `target_ip` and the low 16 bits of the
/// unsigned `target_port`; a missing or non-string protocol is reported as
/// such, and any other protocol string is unsupported, whatever else the
/// handshake holds.
pub proof fn lemma_handshake_protocol(doc: JsonView)
    ensures
        handshake_target(doc) is Ok ==> field_text(doc, "protocol"@) == Some("tcp"@),
        handshake_target(doc) is Ok ==> handshake_target(doc) == Ok::<ProtocolView, HandshakeFault>(
            ProtocolView::Tcp(
                TcpConnectionView {
                    ip_address: field_text(doc, "target_ip"@).unwrap(),
                    port: (field_unsigned(doc, "target_port"@).unwrap() % 65536) as u16,
                    connected: false,
                },
            ),
        ),
        field_text(doc, "protocol"@) is None ==> handshake_target(doc) == Err::<ProtocolView, HandshakeFault>(
            HandshakeFault::MissingProtocol,
        ),
        (field_text(doc, "protocol"@) matches Some(p) && p != "tcp"@) ==> handshake_target(doc)
            == Err::<ProtocolView, HandshakeFault>(HandshakeFault::UnsupportedProtocol),
        field_text(doc, "protocol"@) == Some("tcp"@) ==> (handshake_target(doc) is Ok <==> (field_text(
            doc,
            "target_ip"@,
        ) is Some && field_unsigned(doc, "target_port"@) is Some)),
{
    if handshake_target(doc) is Ok {
        let port = field_unsigned(doc, "target_port"@).unwrap();
        assert((port as u16) == ((port % 65536) as u16)) by (bit_vector);
    }
}

/// A sweep loses no connection it does not mean to: those kept, expired and
/// released add up to those swept.
pub proof fn lemma_sweep_partitions<C>(clients: Seq<C>, verdicts: Seq<Cleanup>)
    ensures
        select(clients, verdicts, Cleanup::Keep).len() + select(clients, verdicts, Cleanup::Expire).len()
            + select(clients, verdicts, Cleanup::Release).len() == clients.len(),
    decreases clients.len(),
{
    if clients.len() > 0 {
        lemma_sweep_partitions(clients.drop_last(), verdicts);
    }
}

/// What a client session learns at each stage, once the WebSocket is open.
pub enum SessionEvent {
    /// The handshake ended, with the target it named or why it named none.
    Handshake(Result<Protocol, HandshakeError>),
    /// Dialling the target ended; on failure, the reason.
    Dialled(Result<(), String>),
}

/// What a client session does next.
pub enum SessionAction {
    /// Dial this target.
    Dial(Protocol),
    /// Log this reason and close the WebSocket; nothing is proxied.
    Close(String),
    /// Send this status message, then relay between the client and the target.
    SendThenRelay(String),
    /// Send this status message, then end the session; nothing is proxied.
    SendThenEnd(String),
}

/// The model of a session action.
pub enum SessionPlan {
    Dial(ProtocolView),
    Close(Seq<char>),
    SendThenRelay(Seq<char>),
    SendThenEnd(Seq<char>),
}

impl View for SessionAction {
    type V = SessionPlan;

    open spec fn view(&self) -> SessionPlan {
        match self {
            SessionAction::Dial(p) => SessionPlan::Dial(p@),
            SessionAction::Close(m) => SessionPlan::Close(m@),
            SessionAction::SendThenRelay(m) => SessionPlan::SendThenRelay(m@),
            SessionAction::SendThenEnd(m) => SessionPlan::SendThenEnd(m@),
        }
    }
}

/// The session protocol: a handshake that names a target leads to dialling
/// it, a failed one to closing the WebSocket with the reason logged; a
/// successful dial leads to the success status and then to relaying, a failed
/// one to the failure status with the reason, and to the end.
pub open spec fn session_plan(event: SessionEvent) -> SessionPlan {
    match event {
        SessionEvent::Handshake(Ok(p)) => SessionPlan::Dial(p@),
        SessionEvent::Handshake(Err(e)) => SessionPlan::Close(fault_message(e@)),
        SessionEvent::Dialled(Ok(())) => SessionPlan::SendThenRelay(json_text(success_document())),
        SessionEvent::Dialled(Err(reason)) => SessionPlan::SendThenEnd(json_text(failure_document(reason@))),
    }
}

impl WebSocket {
    /// One stage of a client session, from the handshake's outcome to the
    /// relay.
    pub fn session_step(event: SessionEvent) -> (r: SessionAction)
        ensures
            r@ == session_plan(event),
            match event {
                SessionEvent::Handshake(Ok(p)) => r matches SessionAction::Dial(q) && q@ == p@,
                SessionEvent::Handshake(Err(e)) => r matches SessionAction::Close(m) && m@ == fault_message(e@),
                SessionEvent::Dialled(Ok(())) => r matches SessionAction::SendThenRelay(m) && m@ == json_text(success_document())
                    && json_parse(m@) is Ok && forall|key: Seq<char>| #[trigger] json_parse(m@)->Ok_0.field(key) == success_document().field(key),
                SessionEvent::Dialled(Err(reason)) => r matches SessionAction::SendThenEnd(m) && m@ == json_text(failure_document(reason@))
                    && json_parse(m@) is Ok && forall|key: Seq<char>| #[trigger] json_parse(m@)->Ok_0.field(key) == failure_document(reason@).field(key),
            },
    {
        match event {
            SessionEvent::Handshake(Ok(p)) => SessionAction::Dial(p),
            SessionEvent::Handshake(Err(e)) => SessionAction::Close(e.message()),
            SessionEvent::Dialled(Ok(())) => SessionAction::SendThenRelay(WebSocket::proxy_success()),
            SessionEvent::Dialled(Err(reason)) => SessionAction::SendThenEnd(WebSocket::proxy_failed(reason.as_str())),
        }
    }
}

/// No relay follows a failed handshake or a failed dial: a session relays
/// only after a successful dial, dials only after a successful handshake, and
/// a failed handshake never leads to dialling.
pub proof fn lemma_relay_only_after_success(event: SessionEvent)
    ensures
        session_plan(event) is SendThenRelay <==> event matches SessionEvent::Dialled(Ok(())),
        session_plan(event) is Dial <==> event matches SessionEvent::Handshake(Ok(_)),
        event matches SessionEvent::Handshake(Err(_)) ==> session_plan(event) is Close,
        event matches SessionEvent::Dialled(Err(_)) ==> session_plan(event) is SendThenEnd,
{
}

/// What the accept loop observes.
pub enum ListenerEvent {
    /// The shutdown signal arrived.
    ShutdownSignal,
    /// The periodic cleanup timer fired.
    CleanupTick,
    /// A client connection was accepted.
    Accepted,
    /// Accepting a connection failed.
    AcceptFailed,
}

/// What the accept loop does.
pub enum ListenerAction {
    /// Leave the loop and shut down every connection served.
    Drain,
    /// Carry on listening.
    Listen,
    /// Serve the accepted connection; the pool has room for it.
    Serve,
    /// Turn the accepted connection away with a close frame (code `Again`)
    /// carrying this reason.
    Refuse(String),
}

/// The model of an accept-loop action.
pub enum ListenerPlan {
    Drain,
    Listen,
    Serve,
    Refuse(Seq<char>),
}

impl View for ListenerAction {
    type V = ListenerPlan;

    open spec fn view(&self) -> ListenerPlan {
        match self {
            ListenerAction::Drain => ListenerPlan::Drain,
            ListenerAction::Listen => ListenerPlan::Listen,
            ListenerAction::Serve => ListenerPlan::Serve,
            ListenerAction::Refuse(m) => ListenerPlan::Refuse(m@),
        }
    }
}

/// The connections tracked after one event of the accept loop: a tick and an
/// accepted connection sweep the list (`verdicts` giving each connection's
/// verdict); an accepted connection is then added when fewer than `limit`
/// remain; a `newcomer` that is not added is turned away.
pub open spec fn listener_next<C>(
    clients: Seq<C>,
    limit: nat,
    event: ListenerEvent,
    verdicts: Seq<Cleanup>,
    newcomer: C,
) -> Seq<C> {
    match event {
        ListenerEvent::CleanupTick => select(clients, verdicts, Cleanup::Keep),
        ListenerEvent::Accepted => {
            let kept = select(clients, verdicts, Cleanup::Keep);
            if kept.len() < limit {
                kept.push(newcomer)
            } else {
                kept
            }
        },
        _ => clients,
    }
}

/// The connections tracked after a run of events, each with its verdicts and
/// its newcomer.
pub open spec fn listener_run<C>(
    clients: Seq<C>,
    limit: nat,
    steps: Seq<(ListenerEvent, Seq<Cleanup>, C)>,
) -> Seq<C>
    decreases steps.len(),
{
    if steps.len() == 0 {
        clients
    } else {
        let last = steps.last();
        listener_next(listener_run(clients, limit, steps.drop_last()), limit, last.0, last.1, last.2)
    }
}

/// Connection limits hold over any run of the accept loop: starting within
/// the limit, the connections tracked never exceed it, whatever the events.
pub proof fn lemma_listener_within_limit<C>(
    clients: Seq<C>,
    limit: nat,
    steps: Seq<(ListenerEvent, Seq<Cleanup>, C)>,
)
    requires
        clients.len() <= limit,
    ensures
        listener_run(clients, limit, steps).len() <= limit,
    decreases steps.len(),
{
    if steps.len() > 0 {
        let last = steps.last();
        let before = listener_run(clients, limit, steps.drop_last());
        lemma_listener_within_limit(clients, limit, steps.drop_last());
        lemma_select_len(before, last.1, Cleanup::Keep);
    }
}

impl WebSocket {
    /// One event of the accept loop: on the shutdown signal, drain; on a
    /// tick, sweep; on an accepted connection, sweep and then serve it if the
    /// pool has room, else refuse it; on a failed accept, carry on. The
    /// connections that the sweep expired are handed out for cancellation.
    pub fn listener_step<C>(
        &self,
        pool: &mut ConnectionPool<C>,
        event: ListenerEvent,
        verdicts: &Vec<Cleanup>,
    ) -> (r: (ListenerAction, Vec<C>))
        requires
            old(pool).limit() == self@.max_connections as usize,
            (event is CleanupTick || event is Accepted) ==> verdicts@.len() == old(pool)@.len(),
        ensures
            final(pool).limit() == old(pool).limit(),
            final(pool)@.len() <= self@.max_connections as usize,
            match event {
                ListenerEvent::ShutdownSignal => r.0@ == ListenerPlan::Drain && final(pool)@ == old(pool)@
                    && r.1@ == Seq::<C>::empty(),
                ListenerEvent::AcceptFailed => r.0@ == ListenerPlan::Listen && final(pool)@ == old(pool)@
                    && r.1@ == Seq::<C>::empty(),
                ListenerEvent::CleanupTick => r.0@ == ListenerPlan::Listen
                    && final(pool)@ == select(old(pool)@, verdicts@, Cleanup::Keep)
                    && r.1@ == select(old(pool)@, verdicts@, Cleanup::Expire),
                ListenerEvent::Accepted => final(pool)@ == select(old(pool)@, verdicts@, Cleanup::Keep)
                    && r.1@ == select(old(pool)@, verdicts@, Cleanup::Expire)
                    && (if final(pool)@.len() < self@.max_connections as usize {
                        r.0@ == ListenerPlan::Serve
                    } else {
                        r.0@ == ListenerPlan::Refuse("Server at capacity, try again later"@)
                    }),
            },
    {
        proof { use_type_invariant(&*pool); }
        match event {
            ListenerEvent::ShutdownSignal => (ListenerAction::Drain, Vec::new()),
            ListenerEvent::AcceptFailed => (ListenerAction::Listen, Vec::new()),
            ListenerEvent::CleanupTick => {
                let expired = pool.sweep(verdicts);
                (ListenerAction::Listen, expired)
            },
            ListenerEvent::Accepted => {
                let expired = pool.sweep(verdicts);
                if pool.has_room() {
                    (ListenerAction::Serve, expired)
                } else {
                    (ListenerAction::Refuse(WebSocket::capacity_reason()), expired)
                }
            },
        }
    }
}

} // verus!
