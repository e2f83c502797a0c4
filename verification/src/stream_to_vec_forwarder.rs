//! The forwarder that drains one feed into a message store.

use vstd::prelude::*;
use crate::message::{ChatMessage, ChatMessageView};
use crate::store::MessageStore;

verus! {

/// Where a forwarder stands.
#[derive(Debug)]
pub enum ForwarderStatus {
    /// The feed is being drained.
    Running,
    /// The feed ended.
    Finished,
    /// The forwarder was told to stop.
    Cancelled,
    /// The feed failed; the reason is kept for whoever looks later.
    Failed(String),
}

/// What one pull of a feed yields: a message, a failure, or `None` once the
/// feed has ended.
pub type StreamItem = Option<Result<ChatMessage, String>>;

/// One pull: while running, a message goes to the end of the store, a
/// failure or the end of the feed stops the forwarder; once stopped or
/// cancelled, nothing is taken from the feed any more, so an item that was
/// pulled before the cancellation and is handed over after it is dropped.
pub open spec fn forwarder_step(
    status: ForwarderStatus,
    messages: Seq<ChatMessageView>,
    item: StreamItem,
) -> (ForwarderStatus, Seq<ChatMessageView>) {
    if status is Running {
        match item {
            Some(Ok(message)) => (ForwarderStatus::Running, messages.push(message@)),
            Some(Err(reason)) => (ForwarderStatus::Failed(reason), messages),
            None => (ForwarderStatus::Finished, messages),
        }
    } else {
        (status, messages)
    }
}

/// The status after a request to stop: a running forwarder is cancelled,
/// one that stopped by itself stays as it is.
pub open spec fn forwarder_cancel(status: ForwarderStatus) -> ForwarderStatus {
    if status is Running {
        ForwarderStatus::Cancelled
    } else {
        status
    }
}

/// The pulls of `items`, one after the other, first to last.
pub open spec fn forwarder_run(
    status: ForwarderStatus,
    messages: Seq<ChatMessageView>,
    items: Seq<StreamItem>,
) -> (ForwarderStatus, Seq<ChatMessageView>)
    decreases items.len(),
{
    if items.len() == 0 {
        (status, messages)
    } else {
        let before = forwarder_run(status, messages, items.drop_last());
        forwarder_step(before.0, before.1, items.last())
    }
}

/// Drains one feed into one store, item by item and in order.
pub struct StreamToVecForwarder {
    pub status: ForwarderStatus,
}

impl StreamToVecForwarder {
    /// A forwarder that is ready to drain its feed.
    pub fn new() -> (forwarder: Self)
        ensures
            forwarder.status is Running,
    {
        StreamToVecForwarder { status: ForwarderStatus::Running }
    }

    /// Whether the forwarder still takes items from its feed.
    pub fn is_running(&self) -> (running: bool)
        ensures
            running == (self.status is Running),
    {
        match self.status {
            ForwarderStatus::Running => true,
            _ => false,
        }
    }

    /// Tells the forwarder to stop; the result says whether it was running.
    pub fn cancel(&mut self) -> (was_running: bool)
        ensures
            was_running == (old(self).status is Running),
            final(self).status == forwarder_cancel(old(self).status),
    {
        if self.is_running() {
            self.status = ForwarderStatus::Cancelled;
            true
        } else {
            false
        }
    }

    /// Handles one pulled `item`, storing it in `message_list` where it is a
    /// message; the result says whether the forwarder goes on.
    pub fn forward(&mut self, item: StreamItem, message_list: &mut MessageStore) -> (running: bool)
        ensures
            (final(self).status, final(message_list)@) == forwarder_step(
                old(self).status,
                old(message_list)@,
                item,
            ),
            running == (final(self).status is Running),
    {
        if !self.is_running() {
            return false;
        }
        match item {
            Some(Ok(message)) => {
                message_list.append(message);
                true
            },
            Some(Err(reason)) => {
                self.status = ForwarderStatus::Failed(reason);
                false
            },
            None => {
                self.status = ForwarderStatus::Finished;
                false
            },
        }
    }

    /// Handles the pulled `items` in their order, as [`Self::forward`] does
    /// one by one; what follows a failure or the end of the feed is ignored.
    pub fn forward_messages_to_vec(
        &mut self,
        items: Vec<StreamItem>,
        message_list: &mut MessageStore,
    ) -> (running: bool)
        ensures
            (final(self).status, final(message_list)@) == forwarder_run(
                old(self).status,
                old(message_list)@,
                items@,
            ),
            running == (final(self).status is Running),
    {
        let ghost all = items@;
        let ghost start = self.status;
        let ghost stored = message_list@;
        assert(all.take(0) =~= Seq::<StreamItem>::empty());
        for item in feed: items
            invariant
                feed.seq() == all,
                (self.status, message_list@) == forwarder_run(
                    start,
                    stored,
                    all.take(feed.index() as int),
                ),
        {
            assert(all.take(feed.index() + 1).drop_last() =~= all.take(feed.index() as int));
            self.forward(item, message_list);
        }
        assert(all.take(all.len() as int) =~= all);
        self.is_running()
    }
}

} // verus!
