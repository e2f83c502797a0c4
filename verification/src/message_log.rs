//! The replication log: every message of every channel, kept for replay.

use vstd::prelude::*;
use crate::message::{message_views, ChatMessage, ChatMessageView};
use crate::store::{on_channel, MessageStore};
use crate::stream_to_vec_forwarder::{
    forwarder_run, forwarder_step, ForwarderStatus, StreamItem, StreamToVecForwarder,
};

verus! {

/// Mathematical value of a [`MessageLog`].
pub struct MessageLogView {
    /// The recorded messages, oldest first.
    pub messages: Seq<ChatMessageView>,
    /// Where the forwarder of the all-channels feed stands.
    pub status: ForwarderStatus,
}

/// The log of one process: it records the feed of all channels for as long
/// as that feed runs, and answers queries by channel.
pub struct MessageLog {
    messages_received: MessageStore,
    message_forwarder: StreamToVecForwarder,
}

impl View for MessageLog {
    type V = MessageLogView;

    closed spec fn view(&self) -> MessageLogView {
        MessageLogView {
            messages: self.messages_received@,
            status: self.message_forwarder.status,
        }
    }
}

impl MessageLog {
    /// An empty log whose forwarder is ready.
    pub fn new() -> (log: Self)
        ensures
            log@.messages == Seq::<ChatMessageView>::empty(),
            log@.status is Running,
    {
        MessageLog {
            messages_received: MessageStore::new(),
            message_forwarder: StreamToVecForwarder::new(),
        }
    }

    /// Records one pulled `item` of the all-channels feed; the result says
    /// whether the forwarder goes on.
    pub fn record(&mut self, item: StreamItem) -> (running: bool)
        ensures
            (final(self)@.status, final(self)@.messages) == forwarder_step(
                old(self)@.status,
                old(self)@.messages,
                item,
            ),
            running == (final(self)@.status is Running),
    {
        self.message_forwarder.forward(item, &mut self.messages_received)
    }

    /// Records the pulled `items` of the all-channels feed in their order.
    pub fn record_all(&mut self, items: Vec<StreamItem>) -> (running: bool)
        ensures
            (final(self)@.status, final(self)@.messages) == forwarder_run(
                old(self)@.status,
                old(self)@.messages,
                items@,
            ),
            running == (final(self)@.status is Running),
    {
        self.message_forwarder.forward_messages_to_vec(items, &mut self.messages_received)
    }

    /// A copy of the recorded messages of `channel`, oldest first.
    pub fn messages_received(&self, channel: &str) -> (snapshot: Vec<ChatMessage>)
        ensures
            message_views(snapshot@) == on_channel(self@.messages, channel@),
    {
        self.messages_received.for_channel(channel)
    }

    /// A copy of every recorded message, oldest first.
    pub fn all_messages(&self) -> (snapshot: Vec<ChatMessage>)
        ensures
            message_views(snapshot@) == self@.messages,
    {
        self.messages_received.all()
    }
}

} // verus!
