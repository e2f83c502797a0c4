//! The ordered store of received messages.

use vstd::prelude::*;
use crate::message::{message_views, ChatMessage, ChatMessageView};

verus! {

/// The messages of `messages` that belong to `channel`, in their order.
pub open spec fn on_channel(messages: Seq<ChatMessageView>, channel: Seq<char>) -> Seq<
    ChatMessageView,
> {
    messages.filter(|m: ChatMessageView| m.channel == channel)
}

/// The messages of `messages` that do not belong to `channel`, in their order.
pub open spec fn off_channel(messages: Seq<ChatMessageView>, channel: Seq<char>) -> Seq<
    ChatMessageView,
> {
    messages.filter(|m: ChatMessageView| m.channel != channel)
}

/// An ordered sequence of messages: appended to at the end, read by snapshot,
/// and purged one channel at a time.
pub struct MessageStore {
    messages: Vec<ChatMessage>,
}

impl View for MessageStore {
    type V = Seq<ChatMessageView>;

    closed spec fn view(&self) -> Seq<ChatMessageView> {
        message_views(self.messages@)
    }
}

impl MessageStore {
    /// An empty store.
    pub fn new() -> (store: Self)
        ensures
            store@ == Seq::<ChatMessageView>::empty(),
    {
        let store = MessageStore { messages: Vec::new() };
        assert(store@ =~= Seq::<ChatMessageView>::empty());
        store
    }

    /// How many messages the store holds.
    pub fn len(&self) -> (n: usize)
        ensures
            n == self@.len(),
    {
        self.messages.len()
    }

    /// Adds `message` at the end.
    pub fn append(&mut self, message: ChatMessage)
        ensures
            final(self)@ == old(self)@.push(message@),
    {
        self.messages.push(message);
        assert(self@ =~= old(self)@.push(message@));
    }

    /// Adds the messages of `batch` at the end, in the order of `batch`.
    pub fn extend(&mut self, batch: Vec<ChatMessage>)
        ensures
            final(self)@ == old(self)@ + message_views(batch@),
    {
        let ghost added = message_views(batch@);
        let mut batch = batch;
        self.messages.append(&mut batch);
        assert(self@ =~= old(self)@ + added);
    }

    /// A copy of every message, in order.
    pub fn all(&self) -> (snapshot: Vec<ChatMessage>)
        ensures
            message_views(snapshot@) == self@,
    {
        let mut snapshot: Vec<ChatMessage> = Vec::new();
        let mut i: usize = 0;
        while i < self.messages.len()
            invariant
                i <= self.messages.len(),
                message_views(snapshot@) == self@.take(i as int),
            decreases self.messages.len() - i,
        {
            let ghost before = snapshot@;
            snapshot.push(self.messages[i].clone());
            assert(message_views(snapshot@) =~= message_views(before).push(self@[i as int]));
            i += 1;
            assert(self@.take(i as int) =~= self@.take(i - 1).push(self@[i - 1]));
        }
        assert(self@.take(i as int) =~= self@);
        snapshot
    }

    /// A copy of the messages of `channel`, in order.
    pub fn for_channel(&self, channel: &str) -> (snapshot: Vec<ChatMessage>)
        ensures
            message_views(snapshot@) == on_channel(self@, channel@),
    {
        let mut snapshot: Vec<ChatMessage> = Vec::new();
        let mut i: usize = 0;
        assert(self@.take(0) =~= Seq::<ChatMessageView>::empty());
        assert(message_views(snapshot@) =~= Seq::<ChatMessageView>::empty());
        while i < self.messages.len()
            invariant
                i <= self.messages.len(),
                message_views(snapshot@) == on_channel(self@.take(i as int), channel@),
            decreases self.messages.len() - i,
        {
            proof {
                let seen = self@.take(i as int);
                assert(self@.take(i + 1) =~= seen.push(self@[i as int]));
                seen.lemma_filter_push(
                    self@[i as int],
                    |m: ChatMessageView| m.channel == channel@,
                );
            }
            if self.messages[i].is_on(channel) {
                let ghost before = snapshot@;
                snapshot.push(self.messages[i].clone());
                assert(message_views(snapshot@) =~= message_views(before).push(self@[i as int]));
            }
            i += 1;
        }
        assert(self@.take(i as int) =~= self@);
        snapshot
    }

    /// Removes every message of `channel`; the others keep their order.
    pub fn remove_channel(&mut self, channel: &str)
        ensures
            final(self)@ == off_channel(old(self)@, channel@),
    {
        let mut held: Vec<ChatMessage> = Vec::new();
        std::mem::swap(&mut self.messages, &mut held);
        let ghost all = message_views(held@);
        assert(all.take(0) =~= Seq::<ChatMessageView>::empty());
        assert(self@ =~= Seq::<ChatMessageView>::empty());
        for message in feed: held
            invariant
                all == old(self)@,
                message_views(feed.seq()) == all,
                self@ == off_channel(all.take(feed.index() as int), channel@),
        {
            proof {
                let seen = all.take(feed.index() as int);
                assert(all.take(feed.index() + 1) =~= seen.push(message@));
                seen.lemma_filter_push(message@, |m: ChatMessageView| m.channel != channel@);
            }
            if !message.is_on(channel) {
                let ghost before = self.messages@;
                self.messages.push(message);
                assert(self@ =~= message_views(before).push(message@));
            }
        }
        assert(all.take(all.len() as int) =~= all);
    }
}

} // verus!
