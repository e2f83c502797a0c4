//! The relay that merges a channel's recorded history with its live feed.

use vstd::prelude::*;
use crate::channel_subscriber::ChannelSubscriber;
use crate::message::{message_views, ChatMessage, ChatMessageView};
use crate::registry::{is_live, is_opening, is_reserved, no_subscriptions, SubscriptionRegistry};
use crate::relay::{
    after_begin_subscribe, after_delivery, after_failure, after_history, after_unsubscribe,
    RelayView,
};
use crate::replication_log_client::ReplicationLogClient;
use crate::store::{on_channel, MessageStore};

verus! {

/// Why a subscription could not be set up.
#[derive(Debug)]
pub enum SubscribeError {
    /// The live feed of the channel could not be opened.
    StreamOpen(String),
    /// The recorded history of the channel could not be fetched.
    HistoryFetch(String),
}

/// A relay process: the subscriptions it holds and the messages it received.
pub struct ChatServer {
    active_subscriptions: SubscriptionRegistry,
    messages_received: MessageStore,
}

impl View for ChatServer {
    type V = RelayView;

    closed spec fn view(&self) -> RelayView {
        RelayView {
            subscriptions: self.active_subscriptions@,
            messages: self.messages_received@,
        }
    }
}

impl ChatServer {
    /// A relay without subscriptions or messages.
    pub fn new() -> (server: Self)
        ensures
            server@.subscriptions == no_subscriptions(),
            server@.messages == Seq::<ChatMessageView>::empty(),
    {
        ChatServer {
            active_subscriptions: SubscriptionRegistry::new(),
            messages_received: MessageStore::new(),
        }
    }

    /// A copy of every received message, oldest first.
    pub fn messages_received(&self) -> (snapshot: Vec<ChatMessage>)
        ensures
            message_views(snapshot@) == self@.messages,
    {
        self.messages_received.all()
    }

    /// A copy of the received messages of `channel_name`, oldest first.
    pub fn messages_for_channel(&self, channel_name: &str) -> (snapshot: Vec<ChatMessage>)
        ensures
            message_views(snapshot@) == on_channel(self@.messages, channel_name@),
    {
        self.messages_received.for_channel(channel_name)
    }

    /// Whether `channel_name` has a live subscription.
    pub fn is_subscribed(&self, channel_name: &str) -> (live: bool)
        ensures
            live == is_live(self@.subscriptions, channel_name@),
    {
        self.active_subscriptions.is_live(channel_name)
    }

    /// First step of subscribing: reserves the entry of `channel_name`.
    /// Returns `true` where the caller won the entry and must now open the
    /// feed, fetch the history and report through [`Self::finish_subscribe`];
    /// `false` where the channel already has an entry.
    pub fn begin_subscribe(&mut self, channel_name: &str) -> (won: bool)
        ensures
            won == !is_reserved(old(self)@.subscriptions, channel_name@),
            final(self)@ == after_begin_subscribe(old(self)@, channel_name@),
    {
        self.active_subscriptions.reserve(channel_name)
    }

    /// Last step of subscribing. With the history of the channel, an opening
    /// entry turns live, the history is stored in its order, and the result
    /// is `Ok(true)`: the caller starts forwarding the feed. Without an
    /// opening entry nothing changes and the result is `Ok(false)`: the
    /// caller drops the feed. With an error the opening entry is withdrawn,
    /// nothing is stored, and the error is handed back.
    pub fn finish_subscribe(
        &mut self,
        channel_name: &str,
        outcome: Result<Vec<ChatMessage>, SubscribeError>,
    ) -> (result: Result<bool, SubscribeError>)
        ensures
            match outcome {
                Ok(history) => result == Ok::<bool, SubscribeError>(
                    is_opening(old(self)@.subscriptions, channel_name@),
                ) && final(self)@ == after_history(
                    old(self)@,
                    channel_name@,
                    message_views(history@),
                ),
                Err(error) => result == Err::<bool, SubscribeError>(error) && final(self)@
                    == after_failure(old(self)@, channel_name@),
            },
    {
        match outcome {
            Ok(history) => {
                if self.active_subscriptions.activate(channel_name) {
                    self.messages_received.extend(history);
                    Ok(true)
                } else {
                    Ok(false)
                }
            },
            Err(error) => {
                self.active_subscriptions.withdraw(channel_name);
                Err(error)
            },
        }
    }

    /// Subscribes to `channel_name`. Where the channel already has an entry,
    /// nothing is called or changed and the result is `Ok(None)`. Otherwise
    /// the feed is opened first, then the history is fetched and stored, and
    /// the result is the opened feed, to be forwarded by the caller. Where
    /// either call fails, the relay is left as it was and the feed, if it
    /// was opened, is dropped.
    pub fn subscribe<S: ChannelSubscriber, R: ReplicationLogClient>(
        &mut self,
        channel_subscriber: &S,
        replication_log_client: &R,
        channel_name: &str,
    ) -> (result: Result<Option<S::Stream>, SubscribeError>)
        ensures
            is_reserved(old(self)@.subscriptions, channel_name@) ==> final(self)@ == old(self)@
                && result matches Ok(None),
            !is_reserved(old(self)@.subscriptions, channel_name@) ==> match result {
                Ok(Some(_)) => final(self)@.subscriptions == old(self)@.subscriptions.insert(
                    channel_name@,
                    true,
                ) && old(self)@.messages.is_prefix_of(final(self)@.messages),
                Ok(None) => false,
                Err(_) => final(self)@ == old(self)@,
            },
    {
        if !self.begin_subscribe(channel_name) {
            return Ok(None);
        }
        let (stream, outcome) = match channel_subscriber.subscribe(channel_name) {
            Err(reason) => (None, Err(SubscribeError::StreamOpen(reason))),
            Ok(stream) => {
                match replication_log_client.get_messages_for_channel(channel_name) {
                    Ok(history) => (Some(stream), Ok(history)),
                    Err(reason) => (Some(stream), Err(SubscribeError::HistoryFetch(reason))),
                }
            },
        };
        match self.finish_subscribe(channel_name, outcome) {
            Ok(_) => {
                assert(self@.subscriptions =~= old(self)@.subscriptions.insert(
                    channel_name@,
                    true,
                ));
                Ok(stream)
            },
            Err(error) => {
                assert(self@.subscriptions =~= old(self)@.subscriptions);
                Err(error)
            },
        }
    }

    /// Unsubscribes from `channel_name`. Where the channel is live, its entry
    /// and every stored message of it are removed and the result is `true`:
    /// the caller cancels the forwarder. Otherwise nothing changes and the
    /// result is `false`.
    pub fn unsubscribe(&mut self, channel_name: &str) -> (was_subscribed: bool)
        ensures
            was_subscribed == is_live(old(self)@.subscriptions, channel_name@),
            final(self)@ == after_unsubscribe(old(self)@, channel_name@),
    {
        let was_subscribed = self.active_subscriptions.remove(channel_name);
        if was_subscribed {
            self.messages_received.remove_channel(channel_name);
        }
        was_subscribed
    }

    /// Takes `message` from the feed of `channel_name`. It is stored, and the
    /// result is `true`, while the channel is live; a message that arrives
    /// for a channel that is not live is dropped.
    pub fn deliver(&mut self, channel_name: &str, message: ChatMessage) -> (stored: bool)
        ensures
            stored == is_live(old(self)@.subscriptions, channel_name@),
            final(self)@ == after_delivery(old(self)@, channel_name@, message@),
    {
        if self.active_subscriptions.is_live(channel_name) {
            self.messages_received.append(message);
            true
        } else {
            false
        }
    }
}

} // verus!
