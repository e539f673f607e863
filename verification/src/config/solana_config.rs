//! The kind of connection to open, and the endpoint to open it to.

use vstd::prelude::*;

verus! {

/// The two ways of talking to a node.
#[derive(Debug, Clone, Copy, PartialEq, Eq, Structural)]
pub enum ConnectionKind {
    /// Requests and responses.
    Rpc,
    /// A stream of notifications.
    WebSocket,
}

/// The kind that a connection name asks for: the streaming one for
/// `socket`, the request one for every other name.
pub open spec fn kind_named(name: Seq<char>) -> ConnectionKind {
    if name == "socket"@ {
        ConnectionKind::WebSocket
    } else {
        ConnectionKind::Rpc
    }
}

/// The endpoint used where none is configured.
pub open spec fn default_endpoint(kind: ConnectionKind) -> Seq<char> {
    match kind {
        ConnectionKind::Rpc => "https://api.mainnet-beta.solana.com"@,
        ConnectionKind::WebSocket => "wss://api.mainnet-beta.solana.com"@,
    }
}

/// The name of the setting that configures the endpoint.
pub open spec fn endpoint_variable_spec(kind: ConnectionKind) -> Seq<char> {
    match kind {
        ConnectionKind::Rpc => "SOLANA_RPC_URL"@,
        ConnectionKind::WebSocket => "SOLANA_WS_URL"@,
    }
}

/// The kind of connection that the name `conn_type` asks for.
pub fn connection_kind(conn_type: &str) -> (kind: ConnectionKind)
    ensures
        kind == kind_named(conn_type@),
{
    if conn_type.to_owned() == "socket".to_owned() {
        ConnectionKind::WebSocket
    } else {
        ConnectionKind::Rpc
    }
}

/// The name of the setting that configures the endpoint of a kind.
pub fn endpoint_variable(kind: ConnectionKind) -> (name: String)
    ensures
        name@ == endpoint_variable_spec(kind),
{
    match kind {
        ConnectionKind::Rpc => "SOLANA_RPC_URL".to_owned(),
        ConnectionKind::WebSocket => "SOLANA_WS_URL".to_owned(),
    }
}

/// The endpoint to connect to: the configured one, or the default of the
/// kind where none is configured.
pub fn endpoint(kind: ConnectionKind, configured: Option<String>) -> (url: String)
    ensures
        url@ == match configured {
            Some(given) => given@,
            None => default_endpoint(kind),
        },
{
    match configured {
        Some(given) => given,
        None => match kind {
            ConnectionKind::Rpc => "https://api.mainnet-beta.solana.com".to_owned(),
            ConnectionKind::WebSocket => "wss://api.mainnet-beta.solana.com".to_owned(),
        },
    }
}

} // verus!
