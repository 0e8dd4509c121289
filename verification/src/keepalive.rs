//! The keepalive responder: every heartbeat frame is answered by one
//! acknowledgement with a fixed identifier.

use vstd::prelude::*;
use crate::protocol::{HeartbeatAck, Update};

verus! {

/// The identifier that every acknowledgement carries.
pub const HEARTBEAT_ACK_ID: i32 = 1;

/// The acknowledgement owed for an update: one for a heartbeat frame, none
/// for anything else.
pub open spec fn reply_to<T>(update: Update<T>) -> Option<HeartbeatAck> {
    if update is Ping {
        Some(HeartbeatAck { id: HEARTBEAT_ACK_ID })
    } else {
        None
    }
}

/// Inspects an update and returns the acknowledgement to send, if any.
pub fn respond<T>(update: &Update<T>) -> (reply: Option<HeartbeatAck>)
    ensures
        reply == reply_to(*update),
{
    match update {
        Update::Ping => Some(HeartbeatAck { id: HEARTBEAT_ACK_ID }),
        _ => None,
    }
}

} // verus!
