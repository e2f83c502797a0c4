use chat_relay::channel_subscriber::{ChannelSubscriber, RedisChannelSubscriber};
use chat_relay::chat_client::ChatClient;
use chat_relay::chat_server::SubscribeError;
use chat_relay::incoming_message_manager::{
    chat_message_from_redis_msg, IncomingMessageManagerError, RedisIncomingMessageManager,
};
use chat_relay::message::{ChatMessage, DEFAULT_CHANNEL};
use chat_relay::replication_log_client::ReqwestReplicationLogClient;
use redis::{Msg, Value};

struct MockChannelSubscriber {
    reachable: bool,
}

impl ChannelSubscriber for MockChannelSubscriber {
    type Stream = String;

    fn subscribe(&self, channel_name: &str) -> Result<String, String> {
        if self.reachable {
            Ok(channel_name.to_string())
        } else {
            Err("connection refused".to_string())
        }
    }
}

fn publish_message(client: &mut ChatClient, feeds: &[String], msg: ChatMessage) {
    for feed in feeds {
        if *feed == msg.channel {
            client.deliver(feed, msg.clone());
        }
    }
}

#[test]
fn chat_client_subscribe() {
    let mock_channel_subscriber = MockChannelSubscriber { reachable: true };
    let mut chat_client = ChatClient::new();
    let mut feeds: Vec<String> = Vec::new();

    assert_eq!(format!("{:?}", chat_client.messages_received()), "[]");

    let channel_name = "test-channel".to_string();
    let feed = chat_client.subscribe(&mock_channel_subscriber, &channel_name).unwrap();
    feeds.extend(feed);

    publish_message(
        &mut chat_client,
        &feeds,
        ChatMessage {
            channel: channel_name.clone(),
            message_text: "This message should show up in the client.".to_string(),
        },
    );
    let expected = "[\n    ChatMessage {\n        channel: \"test-channel\",\n        message_text: \"This message should show up in the client.\",\n    },\n]";
    assert_eq!(format!("{:#?}", chat_client.messages_received()), expected);

    let unrelated_channel_name = "some-other-channel".to_string();
    publish_message(
        &mut chat_client,
        &feeds,
        ChatMessage {
            channel: unrelated_channel_name,
            message_text: "This message should not show up.".to_string(),
        },
    );
    assert_eq!(format!("{:#?}", chat_client.messages_received()), expected);
}

#[test]
fn chat_client_unsubscribe() {
    let mock_channel_subscriber = MockChannelSubscriber { reachable: true };
    let mut chat_client = ChatClient::new();
    let mut feeds: Vec<String> = Vec::new();

    let channel_name = "test-channel".to_string();
    let feed = chat_client.subscribe(&mock_channel_subscriber, &channel_name).unwrap();
    feeds.extend(feed);
    chat_client.unsubscribe(&channel_name);

    publish_message(
        &mut chat_client,
        &feeds,
        ChatMessage {
            channel: channel_name.clone(),
            message_text:
                "This message should not show up in the client because we already unsubscribed."
                    .to_string(),
        },
    );
    assert_eq!(format!("{:?}", chat_client.messages_received()), "[]");
}

#[test]
fn client_unsubscribe_keeps_what_was_received() {
    let mut client = ChatClient::new();
    client.subscribe(&MockChannelSubscriber { reachable: true }, "a").unwrap();
    assert!(client.deliver("a", ChatMessage::new("a", "1")));
    assert!(client.unsubscribe("a"));
    assert!(!client.unsubscribe("a"));
    assert!(!client.is_subscribed("a"));
    assert!(!client.deliver("a", ChatMessage::new("a", "2")));
    assert_eq!(client.messages_received(), vec![ChatMessage::new("a", "1")]);
}

#[test]
fn client_subscribes_once_per_channel() {
    let broker = MockChannelSubscriber { reachable: true };
    let mut client = ChatClient::new();
    assert_eq!(client.subscribe(&broker, "a").unwrap(), Some("a".to_string()));
    assert_eq!(client.subscribe(&broker, "a").unwrap(), None);
    assert_eq!(client.subscribe(&broker, "b").unwrap(), Some("b".to_string()));
    assert!(client.is_subscribed("a"));
    assert!(client.is_subscribed("b"));
}

#[test]
fn client_failed_open_leaves_no_entry() {
    let mut client = ChatClient::new();
    match client.subscribe(&MockChannelSubscriber { reachable: false }, "a") {
        Err(SubscribeError::StreamOpen(reason)) => assert_eq!(reason, "connection refused"),
        other => panic!("unexpected result {:?}", other),
    }
    assert!(!client.is_subscribed("a"));
    assert!(client.begin_subscribe("a"));
    assert!(!client.begin_subscribe("a"));
    assert_eq!(client.finish_subscribe("a", Ok(())).unwrap(), true);
    assert_eq!(client.finish_subscribe("a", Ok(())).unwrap(), false);
    assert!(client.is_subscribed("a"));
}

#[test]
fn subscriber_and_manager_keep_the_broker_address() {
    let subscriber = RedisChannelSubscriber::new("redis://127.0.0.1:6379".to_string());
    assert_eq!(subscriber.redis_url, "redis://127.0.0.1:6379");
    match RedisIncomingMessageManager::new("redis://localhost:6379".to_string()) {
        Ok(manager) => assert_eq!(manager.redis_url, "redis://localhost:6379"),
        Err(_) => panic!("the manager is always made"),
    }
}

#[test]
fn url_for_channel_joins_base_and_channel() {
    let client = ReqwestReplicationLogClient {
        replication_log_url: "http://replication-log-service:80/messages".to_string(),
    };
    assert_eq!(
        client.url_for_channel(DEFAULT_CHANNEL),
        "http://replication-log-service:80/messages/default-channel"
    );
    assert_eq!(
        client.url_for_channel("other-channel"),
        "http://replication-log-service:80/messages/other-channel"
    );
    assert_eq!(client.url_for_channel(""), "http://replication-log-service:80/messages/");
}

fn broker_message(channel: &[u8], payload: &[u8]) -> Msg {
    let value = Value::Bulk(vec![
        Value::Data(b"message".to_vec()),
        Value::Data(channel.to_vec()),
        Value::Data(payload.to_vec()),
    ]);
    Msg::from_value(&value).unwrap()
}

#[test]
fn broker_message_becomes_chat_message() {
    match chat_message_from_redis_msg(broker_message(b"test-channel", b"hello")) {
        Ok(message) => assert_eq!(message, ChatMessage::new("test-channel", "hello")),
        Err(_) => panic!("both parts are text"),
    }
}

#[test]
fn broker_message_with_unreadable_channel_is_rejected() {
    let result = chat_message_from_redis_msg(broker_message(&[0xff, 0xfe], b"hello"));
    assert!(matches!(result, Err(IncomingMessageManagerError::Redis(_))));
}

#[test]
fn broker_message_with_unreadable_payload_is_rejected() {
    let result = chat_message_from_redis_msg(broker_message(b"test-channel", &[0xc3, 0x28]));
    assert!(matches!(result, Err(IncomingMessageManagerError::Redis(_))));
}
