//! The source of live channel feeds.

use vstd::prelude::*;

verus! {

/// Opens the live feed of one channel. Each call opens a feed of its own;
/// dropping the returned feed closes it.
pub trait ChannelSubscriber {
    /// The opened feed: a lazy, ordered sequence of messages.
    type Stream;

    /// Opens the feed of `channel_name`, or says why it could not be opened.
    fn subscribe(&self, channel_name: &str) -> Result<Self::Stream, String>;
}

/// The address of the broker whose channels are subscribed to.
pub struct RedisChannelSubscriber {
    pub redis_url: String,
}

impl RedisChannelSubscriber {
    /// A subscriber for the broker at `redis_url`.
    pub fn new(redis_url: String) -> (subscriber: Self)
        ensures
            subscriber.redis_url == redis_url,
    {
        RedisChannelSubscriber { redis_url }
    }
}

} // verus!
