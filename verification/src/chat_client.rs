//! The relay that shows what arrives on the channels it subscribed to.

use vstd::prelude::*;
use crate::channel_subscriber::ChannelSubscriber;
use crate::chat_server::SubscribeError;
use crate::message::{message_views, ChatMessage, ChatMessageView};
use crate::registry::{is_live, is_opening, is_reserved, no_subscriptions, SubscriptionRegistry};
use crate::relay::{
    after_begin_subscribe, after_delivery, after_detach, after_failure, after_history, RelayView,
};
use crate::store::MessageStore;

verus! {

/// A client process: the subscriptions it holds and the messages it received.
pub struct ChatClient {
    active_subscriptions: SubscriptionRegistry,
    messages_received: MessageStore,
}

impl View for ChatClient {
    type V = RelayView;

    closed spec fn view(&self) -> RelayView {
        RelayView {
            subscriptions: self.active_subscriptions@,
            messages: self.messages_received@,
        }
    }
}

impl ChatClient {
    /// A client without subscriptions or messages.
    pub fn new() -> (client: Self)
        ensures
            client@.subscriptions == no_subscriptions(),
            client@.messages == Seq::<ChatMessageView>::empty(),
    {
        ChatClient {
            active_subscriptions: SubscriptionRegistry::new(),
            messages_received: MessageStore::new(),
        }
    }

    /// A copy of every received message, oldest first.
    pub fn messages_received(&self) -> (snapshot: Vec<ChatMessage>)
        ensures
            message_views(snapshot@) == self@.messages,
    {
        self.messages_received.all()
    }

    /// Whether `channel_name` has a live subscription.
    pub fn is_subscribed(&self, channel_name: &str) -> (live: bool)
        ensures
            live == is_live(self@.subscriptions, channel_name@),
    {
        self.active_subscriptions.is_live(channel_name)
    }

    /// First step of subscribing: reserves the entry of `channel_name`.
    /// Returns `true` where the caller won the entry and must now open the
    /// feed and report through [`Self::finish_subscribe`]; `false` where the
    /// channel already has an entry.
    pub fn begin_subscribe(&mut self, channel_name: &str) -> (won: bool)
        ensures
            won == !is_reserved(old(self)@.subscriptions, channel_name@),
            final(self)@ == after_begin_subscribe(old(self)@, channel_name@),
    {
        self.active_subscriptions.reserve(channel_name)
    }

    /// Last step of subscribing. Where the feed was opened, an opening entry
    /// turns live and the result is `Ok(true)`: the caller starts forwarding
    /// the feed. Without an opening entry nothing changes and the result is
    /// `Ok(false)`: the caller drops the feed. With an error the opening
    /// entry is withdrawn and the error is handed back.
    pub fn finish_subscribe(&mut self, channel_name: &str, outcome: Result<(), SubscribeError>) -> (result:
        Result<bool, SubscribeError>)
        ensures
            match outcome {
                Ok(_) => result == Ok::<bool, SubscribeError>(
                    is_opening(old(self)@.subscriptions, channel_name@),
                ) && final(self)@ == after_history(old(self)@, channel_name@, Seq::empty()),
                Err(error) => result == Err::<bool, SubscribeError>(error) && final(self)@
                    == after_failure(old(self)@, channel_name@),
            },
    {
        match outcome {
            Ok(_) => {
                let activated = self.active_subscriptions.activate(channel_name);
                assert(self@.messages =~= old(self)@.messages + Seq::<ChatMessageView>::empty());
                Ok(activated)
            },
            Err(error) => {
                self.active_subscriptions.withdraw(channel_name);
                Err(error)
            },
        }
    }

    /// Subscribes to `channel_name`. Where the channel already has an entry,
    /// nothing is called or changed and the result is `Ok(None)`. Otherwise
    /// the feed is opened and handed back, to be forwarded by the caller.
    /// Where it cannot be opened, the client is left as it was.
    pub fn subscribe<S: ChannelSubscriber>(
        &mut self,
        channel_subscriber: &S,
        channel_name: &str,
    ) -> (result: Result<Option<S::Stream>, SubscribeError>)
        ensures
            is_reserved(old(self)@.subscriptions, channel_name@) ==> final(self)@ == old(self)@
                && result matches Ok(None),
            !is_reserved(old(self)@.subscriptions, channel_name@) ==> match result {
                Ok(Some(_)) => final(self)@.subscriptions == old(self)@.subscriptions.insert(
                    channel_name@,
                    true,
                ) && final(self)@.messages == old(self)@.messages,
                Ok(None) => false,
                Err(error) => error is StreamOpen && final(self)@ == old(self)@,
            },
    {
        if !self.begin_subscribe(channel_name) {
            return Ok(None);
        }
        let (stream, outcome) = match channel_subscriber.subscribe(channel_name) {
            Err(reason) => (None, Err(SubscribeError::StreamOpen(reason))),
            Ok(stream) => (Some(stream), Ok(())),
        };
        match self.finish_subscribe(channel_name, outcome) {
            Ok(_) => {
                assert(self@.subscriptions =~= old(self)@.subscriptions.insert(
                    channel_name@,
                    true,
                ));
                Ok(stream)
            },
            Err(error) => {
                assert(self@.subscriptions =~= old(self)@.subscriptions);
                Err(error)
            },
        }
    }

    /// Unsubscribes from `channel_name`. Where the channel is live, its entry
    /// is removed and the result is `true`: the caller cancels the forwarder.
    /// Otherwise nothing changes and the result is `false`. What was received
    /// stays in the store.
    pub fn unsubscribe(&mut self, channel_name: &str) -> (was_subscribed: bool)
        ensures
            was_subscribed == is_live(old(self)@.subscriptions, channel_name@),
            final(self)@ == after_detach(old(self)@, channel_name@),
    {
        self.active_subscriptions.remove(channel_name)
    }

    /// Takes `message` from the feed of `channel_name`. It is stored, and the
    /// result is `true`, while the channel is live; a message that arrives
    /// for a channel that is not live is dropped.
    pub fn deliver(&mut self, channel_name: &str, message: ChatMessage) -> (stored: bool)
        ensures
            stored == is_live(old(self)@.subscriptions, channel_name@),
            final(self)@ == after_delivery(old(self)@, channel_name@, message@),
    {
        if self.active_subscriptions.is_live(channel_name) {
            self.messages_received.append(message);
            true
        } else {
            false
        }
    }
}

} // verus!
