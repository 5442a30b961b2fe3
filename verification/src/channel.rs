//! The event channel: an unbounded queue with many producers and one
//! consumer, which delivers what was pushed in the order in which the
//! pushes completed. The queue itself is tokio's; this module holds what
//! the library relies on.

use tokio::sync::mpsc::error::SendError;
use tokio::sync::mpsc::{UnboundedReceiver, UnboundedSender};
use vstd::prelude::*;

verus! {

/// tokio's `mpsc::UnboundedSender`: the producing end of the event channel.
#[verifier::external_type_specification]
#[verifier::external_body]
#[verifier::reject_recursive_types(T)]
pub struct ExUnboundedSender<T>(UnboundedSender<T>);

/// tokio's `mpsc::UnboundedReceiver`: the consuming end of the event
/// channel.
#[verifier::external_type_specification]
#[verifier::external_body]
#[verifier::reject_recursive_types(T)]
pub struct ExUnboundedReceiver<T>(UnboundedReceiver<T>);

/// tokio's `mpsc::error::SendError`: a push that failed, with the message
/// that was not pushed as its one field.
#[verifier::external_type_specification]
pub struct ExSendError<T>(SendError<T>);

/// tokio's `mpsc::unbounded_channel` makes a new channel and returns its
/// two ends. Nothing is claimed of them.
pub assume_specification<T>[ tokio::sync::mpsc::unbounded_channel::<T> ]() -> (ends: (
    UnboundedSender<T>,
    UnboundedReceiver<T>,
));

/// tokio's `UnboundedSender::send` never waits. Whether the push succeeds
/// depends on whether the consuming end is still open, so nothing is
/// claimed of that. Claimed is only that a failed push hands back the very
/// message that it was given. (tokio ends the process if its count of the
/// messages in flight overflows a `usize`.)
pub assume_specification<T>[ UnboundedSender::<T>::send ](
    sender: &UnboundedSender<T>,
    message: T,
) -> (outcome: Result<(), SendError<T>>)
    ensures
        outcome matches Err(unsent) ==> unsent.0 == message,
;

} // verus!
