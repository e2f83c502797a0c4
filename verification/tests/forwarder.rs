use chat_relay::message::{ChatMessage, DEFAULT_CHANNEL};
use chat_relay::message_log::MessageLog;
use chat_relay::store::MessageStore;
use chat_relay::stream_to_vec_forwarder::{ForwarderStatus, StreamItem, StreamToVecForwarder};

fn message(channel: &str, text: &str) -> StreamItem {
    Some(Ok(ChatMessage::new(channel, text)))
}

#[test]
fn forward_stores_messages_while_running() {
    let mut store = MessageStore::new();
    let mut forwarder = StreamToVecForwarder::new();
    assert!(forwarder.is_running());
    assert!(forwarder.forward(message("a", "1"), &mut store));
    assert!(forwarder.forward(message("b", "2"), &mut store));
    assert_eq!(store.all(), vec![ChatMessage::new("a", "1"), ChatMessage::new("b", "2")]);
    assert!(matches!(forwarder.status, ForwarderStatus::Running));
}

#[test]
fn forward_stops_at_end_of_feed() {
    let mut store = MessageStore::new();
    let mut forwarder = StreamToVecForwarder::new();
    assert!(!forwarder.forward(None, &mut store));
    assert!(matches!(forwarder.status, ForwarderStatus::Finished));
    assert!(!forwarder.forward(message("a", "late"), &mut store));
    assert_eq!(store.len(), 0);
    assert!(matches!(forwarder.status, ForwarderStatus::Finished));
}

#[test]
fn forward_records_failure_and_takes_nothing_more() {
    let mut store = MessageStore::new();
    let mut forwarder = StreamToVecForwarder::new();
    forwarder.forward(message("a", "1"), &mut store);
    assert!(!forwarder.forward(Some(Err("connection lost".to_string())), &mut store));
    match &forwarder.status {
        ForwarderStatus::Failed(reason) => assert_eq!(reason, "connection lost"),
        other => panic!("unexpected status {:?}", other),
    }
    assert!(!forwarder.forward(message("a", "2"), &mut store));
    assert!(!forwarder.forward(None, &mut store));
    assert!(matches!(forwarder.status, ForwarderStatus::Failed(_)));
    assert_eq!(store.all(), vec![ChatMessage::new("a", "1")]);
}

#[test]
fn cancelled_forwarder_drops_what_is_in_flight() {
    let mut store = MessageStore::new();
    let mut forwarder = StreamToVecForwarder::new();
    forwarder.forward(message("a", "1"), &mut store);
    assert!(forwarder.cancel());
    assert!(matches!(forwarder.status, ForwarderStatus::Cancelled));
    assert!(!forwarder.is_running());
    assert!(!forwarder.forward(message("a", "in flight"), &mut store));
    assert!(!forwarder.cancel());
    assert!(matches!(forwarder.status, ForwarderStatus::Cancelled));
    assert_eq!(store.all(), vec![ChatMessage::new("a", "1")]);
}

#[test]
fn cancel_leaves_a_stopped_forwarder_as_it_is() {
    let mut store = MessageStore::new();
    let mut forwarder = StreamToVecForwarder::new();
    forwarder.forward(Some(Err("lost".to_string())), &mut store);
    assert!(!forwarder.cancel());
    assert!(matches!(forwarder.status, ForwarderStatus::Failed(_)));
}

#[test]
fn forward_messages_to_vec_keeps_feed_order() {
    let mut store = MessageStore::new();
    store.append(ChatMessage::new("old", "0"));
    let mut forwarder = StreamToVecForwarder::new();
    let running = forwarder.forward_messages_to_vec(
        vec![message("a", "1"), message("b", "2"), message("a", "3")],
        &mut store,
    );
    assert!(running);
    assert_eq!(
        store.all(),
        vec![
            ChatMessage::new("old", "0"),
            ChatMessage::new("a", "1"),
            ChatMessage::new("b", "2"),
            ChatMessage::new("a", "3"),
        ]
    );
    assert_eq!(
        store.for_channel("a"),
        vec![ChatMessage::new("a", "1"), ChatMessage::new("a", "3")]
    );
}

#[test]
fn forward_messages_to_vec_stops_at_first_failure() {
    let mut store = MessageStore::new();
    let mut forwarder = StreamToVecForwarder::new();
    let running = forwarder.forward_messages_to_vec(
        vec![
            message("a", "1"),
            Some(Err("broken".to_string())),
            message("a", "2"),
            None,
        ],
        &mut store,
    );
    assert!(!running);
    assert_eq!(store.all(), vec![ChatMessage::new("a", "1")]);
    match &forwarder.status {
        ForwarderStatus::Failed(reason) => assert_eq!(reason, "broken"),
        other => panic!("unexpected status {:?}", other),
    }
}

#[test]
fn forward_messages_to_vec_with_nothing_changes_nothing() {
    let mut store = MessageStore::new();
    let mut forwarder = StreamToVecForwarder::new();
    assert!(forwarder.forward_messages_to_vec(vec![], &mut store));
    assert_eq!(store.len(), 0);
}

#[test]
fn retrieve_messages() {
    let mut message_log = MessageLog::new();
    message_log.record_all(vec![
        Some(Ok(ChatMessage::new(DEFAULT_CHANNEL, "first message"))),
        Some(Ok(ChatMessage::new("some-other-channel", "second message"))),
        Some(Ok(ChatMessage::new("yet-another-channel", "third message"))),
        None,
    ]);

    assert_eq!(
        format!("{:#?}", message_log.messages_received(DEFAULT_CHANNEL)),
        "[\n    ChatMessage {\n        channel: \"default-channel\",\n        message_text: \"first message\",\n    },\n]"
    );
    assert_eq!(
        format!("{:#?}", message_log.messages_received("some-other-channel")),
        "[\n    ChatMessage {\n        channel: \"some-other-channel\",\n        message_text: \"second message\",\n    },\n]"
    );
    assert_eq!(
        format!("{:#?}", message_log.messages_received("yet-another-channel")),
        "[\n    ChatMessage {\n        channel: \"yet-another-channel\",\n        message_text: \"third message\",\n    },\n]"
    );
}

#[test]
fn message_log_records_every_channel_until_the_feed_stops() {
    let mut message_log = MessageLog::new();
    assert_eq!(message_log.all_messages(), vec![]);
    assert_eq!(message_log.messages_received("a"), vec![]);
    assert!(message_log.record(message("a", "1")));
    assert!(message_log.record(message("b", "2")));
    assert!(!message_log.record(Some(Err("gone".to_string()))));
    assert!(!message_log.record(message("a", "3")));
    assert_eq!(
        message_log.all_messages(),
        vec![ChatMessage::new("a", "1"), ChatMessage::new("b", "2")]
    );
    assert_eq!(message_log.messages_received("b"), vec![ChatMessage::new("b", "2")]);
}
