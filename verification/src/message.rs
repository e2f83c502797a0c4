//! The message that travels through the relay.

use vstd::prelude::*;

verus! {

/// The channel that a process subscribes to when it starts.
pub const DEFAULT_CHANNEL: &'static str = "default-channel";

/// Mathematical value of a [`ChatMessage`]: its channel and its text.
pub struct ChatMessageView {
    pub channel: Seq<char>,
    pub message_text: Seq<char>,
}

/// One message, scoped to exactly one channel.
#[derive(Debug)]
pub struct ChatMessage {
    pub channel: String,
    pub message_text: String,
}

impl View for ChatMessage {
    type V = ChatMessageView;

    open spec fn view(&self) -> ChatMessageView {
        ChatMessageView { channel: self.channel@, message_text: self.message_text@ }
    }
}

/// The views of a run of messages, in the same order.
pub open spec fn message_views(messages: Seq<ChatMessage>) -> Seq<ChatMessageView> {
    messages.map_values(|m: ChatMessage| m@)
}

impl Clone for ChatMessage {
    fn clone(&self) -> (copy: Self)
        ensures
            copy@ == self@,
    {
        ChatMessage { channel: self.channel.clone(), message_text: self.message_text.clone() }
    }
}

impl PartialEq for ChatMessage {
    fn eq(&self, other: &Self) -> (same: bool) {
        self.channel == other.channel && self.message_text == other.message_text
    }
}

impl vstd::std_specs::cmp::PartialEqSpecImpl for ChatMessage {
    open spec fn obeys_eq_spec() -> bool {
        true
    }

    open spec fn eq_spec(&self, other: &Self) -> bool {
        self.channel@ == other.channel@ && self.message_text@ == other.message_text@
    }
}

impl ChatMessage {
    /// Builds a message for `channel` carrying `message_text`.
    pub fn new(channel: &str, message_text: &str) -> (message: Self)
        ensures
            message@ == (ChatMessageView { channel: channel@, message_text: message_text@ }),
    {
        ChatMessage { channel: channel.to_owned(), message_text: message_text.to_owned() }
    }

    /// Whether this message belongs to `channel`.
    pub fn is_on(&self, channel: &str) -> (on: bool)
        ensures
            on == (self@.channel == channel@),
    {
        *self.channel.as_str() == *channel
    }
}

} // verus!
