//! The ingest endpoint: one decoded payload in, one push onto the event
//! channel, one reply that echoes the payload.

use tokio::sync::mpsc::error::SendError;
use tokio::sync::mpsc::UnboundedSender;
use vstd::prelude::*;

verus! {

/// The status of a reply.
#[derive(Clone, Copy, Debug, PartialEq, Eq, Structural)]
pub enum Status {
    /// The payload was pushed onto the event channel.
    Success,
    /// The payload could not be pushed: the consumer of the channel is
    /// gone.
    InternalServerError,
}

impl Status {
    /// The HTTP status code.
    pub open spec fn spec_code(self) -> u16 {
        match self {
            Status::Success => 200,
            Status::InternalServerError => 500,
        }
    }

    /// The HTTP status code.
    #[verifier::when_used_as_spec(spec_code)]
    pub fn code(self) -> (code: u16)
        ensures
            code == self.spec_code(),
    {
        match self {
            Status::Success => 200,
            Status::InternalServerError => 500,
        }
    }
}

/// The reply to one request: a status, and the payload of the request
/// echoed.
#[derive(Debug, PartialEq, Eq)]
pub struct Reply<E> {
    pub status: Status,
    pub body: E,
}

/// The reply to a request with payload `body`, given how the push of the
/// payload went: `Success` for a payload that was pushed,
/// `InternalServerError` for one that was not, and the payload itself in
/// either case.
pub fn acknowledge<E>(pushed: Result<(), SendError<E>>, body: E) -> (reply: Reply<E>)
    ensures
        reply.status == (if pushed is Ok {
            Status::Success
        } else {
            Status::InternalServerError
        }),
        reply.body == body,
{
    match pushed {
        Ok(()) => Reply { status: Status::Success, body },
        Err(_) => Reply { status: Status::InternalServerError, body },
    }
}

/// Handles one request whose body was decoded to `body`: pushes a copy of
/// the payload onto the event channel, once, and replies as
/// [`acknowledge`] says. Whether the push succeeds is for the channel to
/// say; the reply echoes the payload whatever the channel said.
pub fn handle_update<E: Clone>(sender: &UnboundedSender<E>, body: E) -> (reply: Reply<E>)
    ensures
        reply.body == body,
{
    acknowledge(sender.send(body.clone()), body)
}

} // verus!
