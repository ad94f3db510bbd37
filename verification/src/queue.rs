//! The queue of messages that wait to be published: an unbounded channel of
//! tokio whose two ends are kept together, so that nothing is sent or taken
//! but through the functions here.

use crate::message::Message;
use vstd::prelude::*;

verus! {

/// The two ends of one unbounded channel of tokio. A queue is made by
/// `queue_open` alone and its ends are never handed out, so the sending end
/// always feeds the receiving end and the channel is never closed.
#[verifier::external_body]
pub struct OutboundQueue {
    sender: tokio::sync::mpsc::UnboundedSender<Message>,
    receiver: tokio::sync::mpsc::UnboundedReceiver<Message>,
}

/// The messages that wait in the channel, the oldest first.
pub uninterp spec fn queued(queue: OutboundQueue) -> Seq<Message>;

/// Makes the channel with `tokio::sync::mpsc::unbounded_channel`; nothing
/// waits in a new channel.
#[verifier::external_body]
pub(crate) fn queue_open() -> (queue: OutboundQueue)
    ensures
        queued(queue) == Seq::<Message>::empty(),
{
    let (sender, receiver) = tokio::sync::mpsc::unbounded_channel();
    OutboundQueue { sender, receiver }
}

/// Sends `message` with `UnboundedSender::send`. That call fails only where
/// the receiving end was closed or dropped; here it is at hand and open, so
/// the message is taken, behind those that wait already.
#[verifier::external_body]
pub(crate) fn queue_send(queue: &mut OutboundQueue, message: Message) -> (sent: bool)
    ensures
        sent,
        queued(*final(queue)) == queued(*old(queue)).push(message),
{
    queue.sender.send(message).is_ok()
}

/// Takes the oldest waiting message with `UnboundedReceiver::try_recv`, or
/// nothing where none waits.
#[verifier::external_body]
pub(crate) fn queue_take(queue: &mut OutboundQueue) -> (taken: Option<Message>)
    ensures
        queued(*old(queue)).len() == 0 ==> taken is None && queued(*final(queue)) == queued(
            *old(queue),
        ),
        queued(*old(queue)).len() > 0 ==> taken == Some(queued(*old(queue))[0]) && queued(
            *final(queue),
        ) == queued(*old(queue)).skip(1),
{
    queue.receiver.try_recv().ok()
}

/// Counts the waiting messages with `UnboundedReceiver::len`.
#[verifier::external_body]
pub(crate) fn queue_len(queue: &OutboundQueue) -> (count: usize)
    ensures
        count == queued(*queue).len(),
{
    queue.receiver.len()
}

} // verus!
