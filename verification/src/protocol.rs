//! The error taxonomy and the numeric constants of the JSON-RPC layer.
//! The framing layer itself (message structs over raw JSON values, the
//! transports and the dispatch table) is an external collaborator and
//! lives with the embedding.

use vstd::prelude::*;

verus! {

/// The JSON-RPC protocol version the layer speaks.
pub const JSONRPC_VERSION: &'static str = "2.0";

pub const ERROR_PARSE: i32 = -32700;

pub const ERROR_INVALID_REQUEST: i32 = -32600;

pub const ERROR_METHOD_NOT_FOUND: i32 = -32601;

pub const ERROR_INVALID_PARAMS: i32 = -32602;

pub const ERROR_INTERNAL: i32 = -32603;

pub const ERROR_SERVER_MIN: i32 = -32099;

pub const ERROR_SERVER_MAX: i32 = -32000;

/// What can go wrong in the protocol layer, each with its text.
#[derive(Debug)]
pub enum PmcpError {
    Transport(String),
    Protocol(String),
    Tool(String),
    Server(String),
    JsonRpc { code: i32, message: String },
}

/// An error code within the server-reserved range.
pub open spec fn is_server_error_code(code: i32) -> bool {
    ERROR_SERVER_MIN <= code <= ERROR_SERVER_MAX
}

/// Decides [`is_server_error_code`].
pub fn server_error_code(code: i32) -> (r: bool)
    ensures
        r == is_server_error_code(code),
{
    ERROR_SERVER_MIN <= code && code <= ERROR_SERVER_MAX
}

} // verus!
