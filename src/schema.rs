use vstd::prelude::*;

verus! {

/// A message as clients submit it: the action that routed it, the sender's
/// display name, and a tagged payload.
#[derive(Debug)]
pub struct Message {
    pub action: String,
    pub username: String,
    pub content: Content,
}

/// The payload of a message. New kinds may be added as variants; a payload of
/// a kind not listed here is refused when the message is decoded.
#[derive(Debug)]
pub enum Content {
    Message(String),
}

/// One entry of the connection registry, keyed by `connection_id`.
/// Times are whole seconds since the Unix epoch.
#[derive(Debug)]
pub struct Connection {
    pub connection_id: String,
    pub connected_at: i64,
    pub ttl: Option<i64>,
}

/// The reply handed back to the gateway.
#[derive(Debug)]
pub struct Response {
    pub status_code: i64,
}

impl Response {
    /// The reply to an event that was handled.
    pub fn ok() -> (r: Response)
        ensures
            r.status_code == 200,
    {
        Response { status_code: 200 }
    }
}

} // verus!
