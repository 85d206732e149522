//! The send-only capability through which messages reach one connection.

use vstd::prelude::*;
use tokio::sync::mpsc::UnboundedSender;
use crate::protocol::WsOutputData;

verus! {

/// `tokio::sync::mpsc::UnboundedSender`, the sending half of an unbounded
/// channel. Nothing is assumed of what a value of it holds.
#[verifier::external_type_specification]
#[verifier::external_body]
#[verifier::reject_recursive_types(T)]
pub struct ExUnboundedSender<T>(UnboundedSender<T>);

/// Calls `UnboundedSender::send`, which never waits. Whether the message is
/// queued depends on the receiving half: once that is closed or dropped the
/// call fails, and the error hands back the very message that was passed in.
#[verifier::external_body]
fn channel_send(sender: &UnboundedSender<WsOutputData>, msg: WsOutputData) -> (outcome: Result<
    (),
    WsOutputData,
>)
    ensures
        outcome matches Err(returned) ==> returned == msg,
{
    sender.send(msg).map_err(|failed| failed.0)
}

/// Enqueues outbound messages for the session that owns the receiving half of
/// the channel. The handle is stale once that session has ended.
pub struct OutboundHandle {
    pub sender: UnboundedSender<WsOutputData>,
}

impl OutboundHandle {
    /// Wraps the sending half of a session's delivery channel.
    pub fn new(sender: UnboundedSender<WsOutputData>) -> (handle: OutboundHandle)
        ensures
            handle.sender == sender,
    {
        OutboundHandle { sender }
    }

    /// Enqueues `msg` behind the messages already waiting. A stale handle
    /// queues nothing and gives the message back.
    pub fn deliver(&self, msg: WsOutputData) -> (outcome: Result<(), WsOutputData>)
        ensures
            outcome matches Err(returned) ==> returned == msg,
    {
        channel_send(&self.sender, msg)
    }
}

} // verus!
