# socket2web

A WebSocket-to-TCP proxy. A client connects over WebSocket, receives a
greeting that lists the supported protocols and the fields each one needs,
answers with a JSON handshake naming the protocol, IP address and port, and
from then on its traffic is relayed to that TCP endpoint and back.

Layout:

- `src/` — the verified library (Verus):
  - `json.rs` — the JSON document model, member lookup, and the calls into
    `serde_json` that parse and write documents;
  - `text.rs` — decimal rendering of ports;
  - `arguments.rs` — the server configuration and its defaults;
  - `protocols.rs`, `protocols/tcp.rs` — the protocol targets, the TCP
    schema, and the per-turn decisions of the two relay loops;
  - `web_socket.rs` — the server: address, handshake, greeting and status
    messages, the per-stage decisions of a client session and of the accept
    loop, lifetime sweeps and the bounded pool of connections.
- `app/` — the program: command line, logging, metrics, and the async I/O
  (tokio, tungstenite) that performs what the library decides.
- `tests/` — tests of the library.
