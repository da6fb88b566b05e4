//! The server's configuration, as the command line gives it.

use vstd::prelude::*;
use vstd::string::*;

verus! {

/// Socket2Web - A WebSocket to TCP proxy server.
///
/// Accepts incoming WebSocket connections and proxies them to
/// traditional TCP socket endpoints based on a client handshake.
pub struct WebSocketArguments {
    /// the IP address the WebSocket server will bind to (default: 127.0.0.1)
    pub ip: String,
    /// the port the WebSocket server will listen on (default: 433)
    pub port: u16,
    /// the log-level for what's being logged (default: info)
    pub log_level: String,
    /// the timeout for establishing a greeting, in seconds (default: 10)
    pub timeout: u64,
    /// the number of concurrent connections maximum allowed (default: 1000)
    pub max_connections: u64,
    /// the maxmimum lifetime of a single connection in seconds (default: 3600)
    /// if max_lifetime is set to 0, it's ignored
    pub max_lifetime: u64,
}

impl Default for WebSocketArguments {
    /// The defaults of every option.
    fn default() -> (r: Self)
        ensures
            r.ip@ == "127.0.0.1"@,
            r.port == 433,
            r.log_level@ == "info"@,
            r.timeout == 10,
            r.max_connections == 1000,
            r.max_lifetime == 3600,
    {
        WebSocketArguments {
            ip: String::from_str("127.0.0.1"),
            port: 433,
            log_level: String::from_str("info"),
            timeout: 10,
            max_connections: 1000,
            max_lifetime: 3600,
        }
    }
}

} // verus!
