//! Messages as the broker hands them over.

use vstd::prelude::*;
use redis::{Msg, RedisError};
use crate::message::{ChatMessage, ChatMessageView};

verus! {

/// `redis::Msg`, a message of the broker, taken as an opaque value.
#[verifier::external_type_specification]
#[verifier::external_body]
pub struct ExMsg(Msg);

/// `redis::RedisError`, the client library's error, taken as an opaque
/// value.
#[verifier::external_type_specification]
#[verifier::external_body]
pub struct ExRedisError(RedisError);

/// Why a message of the broker could not be taken in.
pub enum IncomingMessageManagerError {
    /// The broker's client library reported the error inside.
    Redis(RedisError),
}

/// The address of the broker whose messages are taken in.
pub struct RedisIncomingMessageManager {
    pub redis_url: String,
}

impl RedisIncomingMessageManager {
    /// A manager for the broker at `redis_url`; this never fails.
    pub fn new(redis_url: String) -> (manager: Result<Self, IncomingMessageManagerError>)
        ensures
            manager matches Ok(made) && made.redis_url == redis_url,
    {
        Ok(RedisIncomingMessageManager { redis_url })
    }
}

/// The channel of a broker message read as text, where it can be read so.
pub uninterp spec fn msg_channel_text(msg: Msg) -> Option<Seq<char>>;

/// The payload of a broker message read as text, where it can be read so.
pub uninterp spec fn msg_payload_text(msg: Msg) -> Option<Seq<char>>;

/// `Msg::get_channel` with a `String` asked for: the channel as text, or the
/// client library's error where the channel cannot be read as text.
#[verifier::external_body]
fn msg_channel(msg: &Msg) -> (channel: Result<String, RedisError>)
    ensures
        match channel {
            Ok(text) => msg_channel_text(*msg) == Some(text@),
            Err(_) => msg_channel_text(*msg) is None,
        },
{
    msg.get_channel()
}

/// `Msg::get_payload` with a `String` asked for: the payload as text, or the
/// client library's error where the payload cannot be read as text.
#[verifier::external_body]
fn msg_payload(msg: &Msg) -> (payload: Result<String, RedisError>)
    ensures
        match payload {
            Ok(text) => msg_payload_text(*msg) == Some(text@),
            Err(_) => msg_payload_text(*msg) is None,
        },
{
    msg.get_payload()
}

/// Puts a message together from what was read of its channel and of its
/// payload. Where both were read, the message holds them; otherwise the
/// error of the channel comes back, or else that of the payload.
pub fn chat_message_from_parts(
    channel: Result<String, RedisError>,
    payload: Result<String, RedisError>,
) -> (message: Result<ChatMessage, IncomingMessageManagerError>)
    ensures
        match (channel, payload) {
            (Ok(name), Ok(text)) => message matches Ok(made) && made.channel == name
                && made.message_text == text,
            (Err(error), _) => message matches Err(IncomingMessageManagerError::Redis(inner))
                && inner == error,
            (Ok(_), Err(error)) => message matches Err(IncomingMessageManagerError::Redis(inner))
                && inner == error,
        },
{
    match channel {
        Err(error) => Err(IncomingMessageManagerError::Redis(error)),
        Ok(name) => match payload {
            Err(error) => Err(IncomingMessageManagerError::Redis(error)),
            Ok(text) => Ok(ChatMessage { channel: name, message_text: text }),
        },
    }
}

/// Reads a broker message as a [`ChatMessage`]. It succeeds exactly where
/// both the channel and the payload can be read as text, and the message
/// then holds the two texts.
pub fn chat_message_from_redis_msg(msg: Msg) -> (message: Result<
    ChatMessage,
    IncomingMessageManagerError,
>)
    ensures
        match (msg_channel_text(msg), msg_payload_text(msg)) {
            (Some(name), Some(text)) => message matches Ok(made) && made@ == (ChatMessageView {
                channel: name,
                message_text: text,
            }),
            _ => message is Err,
        },
{
    chat_message_from_parts(msg_channel(&msg), msg_payload(&msg))
}

} // verus!
