//! The protocols that a client can ask the proxy to reach, and the schema of
//! the handshake each of them expects.

pub mod tcp;

use vstd::prelude::*;

use crate::json::JsonValue;
use crate::protocols::tcp::{TcpConnection, TcpConnectionView};

verus! {

/// Enumerates the supported proxy target protocols.
pub enum Protocol {
    /// A raw TCP socket connection.
    Tcp(TcpConnection),
}

/// The model of a protocol target.
pub enum ProtocolView {
    Tcp(TcpConnectionView),
}

impl View for Protocol {
    type V = ProtocolView;

    open spec fn view(&self) -> ProtocolView {
        match self {
            Protocol::Tcp(connection) => ProtocolView::Tcp(connection@),
        }
    }
}

/// Describes the handshake schema for a supported protocol.
///
/// Contains the protocol name and a JSON value describing
/// the fields required in the client's handshake message.
pub struct Schema {
    pub name: String,
    pub requirements: JsonValue,
}

/// Trait for protocols that can describe their handshake requirements.
///
/// Implementors return a protocol name and a JSON schema
/// of the fields a client must provide during the handshake.
/// This is used to build the greeting message sent to connecting clients.
pub trait ProtocolSchema {
    /// Returns the protocol name and its required handshake fields.
    fn schema() -> Schema;
}

} // verus!
