//! The service that recorded what was published before a subscription began.

use vstd::prelude::*;
use crate::message::ChatMessage;

verus! {

/// Fetches the recorded history of one channel.
pub trait ReplicationLogClient {
    /// The messages recorded for `channel_name`, in arrival order, or why
    /// they could not be fetched.
    fn get_messages_for_channel(&self, channel_name: &str) -> Result<Vec<ChatMessage>, String>;
}

/// The address of a replication log that is queried over HTTP.
pub struct ReqwestReplicationLogClient {
    pub replication_log_url: String,
}

/// The address under which a log at `base` serves the history of `channel`.
pub open spec fn history_url(base: Seq<char>, channel: Seq<char>) -> Seq<char> {
    base + seq!['/'] + channel
}

impl ReqwestReplicationLogClient {
    /// The address to query for the history of `channel_name`.
    pub fn url_for_channel(&self, channel_name: &str) -> (url: String)
        ensures
            url@ == history_url(self.replication_log_url@, channel_name@),
    {
        let mut url = self.replication_log_url.clone();
        url.push('/');
        url.push_str(channel_name);
        assert(url@ =~= history_url(self.replication_log_url@, channel_name@));
        url
    }
}

} // verus!
