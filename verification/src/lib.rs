//! Relay core for channel publish/subscribe traffic: an ordered message
//! store, a registry of live channel subscriptions, and the rules that merge
//! a channel's recorded history with its live feed.

pub mod channel_subscriber;
pub mod chat_client;
pub mod chat_server;
pub mod incoming_message_manager;
pub mod laws;
pub mod message;
pub mod message_log;
pub mod registry;
pub mod relay;
pub mod replication_log_client;
pub mod store;
pub mod stream_to_vec_forwarder;
pub mod string_specs;
