//! Messages exchanged with the panel.

use vstd::prelude::*;

verus! {

/// A request to point the panel at another node and server.
#[derive(Debug, Clone)]
pub struct ChangeNodeRequest {
    pub node_id: String,
    pub server_id: String,
}

/// A message the panel broadcasts, with its type and authorisation code.
#[derive(Debug, Clone)]
pub struct IncomingMessage {
    pub message: String,
    pub message_type: String,
    pub authcode: String,
}

} // verus!
