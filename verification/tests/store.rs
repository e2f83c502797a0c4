use chat_relay::message::{ChatMessage, DEFAULT_CHANNEL};
use chat_relay::store::MessageStore;

fn sample() -> MessageStore {
    let mut store = MessageStore::new();
    store.append(ChatMessage::new("c1", "m1"));
    store.append(ChatMessage::new("c2", "n1"));
    store.append(ChatMessage::new("c1", "m2"));
    store
}

#[test]
fn new_message_holds_channel_and_text() {
    let message = ChatMessage::new(DEFAULT_CHANNEL, "hello");
    assert_eq!(message.channel, "default-channel");
    assert_eq!(message.message_text, "hello");
    assert_eq!(
        format!("{:?}", message),
        "ChatMessage { channel: \"default-channel\", message_text: \"hello\" }"
    );
}

#[test]
fn messages_compare_by_both_fields() {
    assert_eq!(ChatMessage::new("a", "x"), ChatMessage::new("a", "x"));
    assert_ne!(ChatMessage::new("a", "x"), ChatMessage::new("b", "x"));
    assert_ne!(ChatMessage::new("a", "x"), ChatMessage::new("a", "y"));
    let first = ChatMessage::new("a", "x");
    assert_eq!(first.clone(), first);
    assert!(first.is_on("a"));
    assert!(!first.is_on("A"));
}

#[test]
fn empty_store_reads_empty() {
    let store = MessageStore::new();
    assert_eq!(store.len(), 0);
    assert_eq!(store.all(), vec![]);
    assert_eq!(store.for_channel("anything"), vec![]);
}

#[test]
fn append_keeps_arrival_order() {
    let store = sample();
    assert_eq!(store.len(), 3);
    assert_eq!(
        store.all(),
        vec![
            ChatMessage::new("c1", "m1"),
            ChatMessage::new("c2", "n1"),
            ChatMessage::new("c1", "m2"),
        ]
    );
}

#[test]
fn extend_adds_batch_in_its_order() {
    let mut store = sample();
    store.extend(vec![ChatMessage::new("c3", "x"), ChatMessage::new("c1", "m3")]);
    assert_eq!(store.len(), 5);
    let all = store.all();
    assert_eq!(all[3], ChatMessage::new("c3", "x"));
    assert_eq!(all[4], ChatMessage::new("c1", "m3"));
    store.extend(vec![]);
    assert_eq!(store.len(), 5);
}

#[test]
fn for_channel_filters_and_keeps_order() {
    let store = sample();
    assert_eq!(
        store.for_channel("c1"),
        vec![ChatMessage::new("c1", "m1"), ChatMessage::new("c1", "m2")]
    );
    assert_eq!(store.for_channel("c2"), vec![ChatMessage::new("c2", "n1")]);
    assert_eq!(store.for_channel("C1"), vec![]);
    assert_eq!(store.for_channel(""), vec![]);
    assert_eq!(store.len(), 3);
}

#[test]
fn remove_channel_keeps_the_others_in_order() {
    let mut store = sample();
    store.append(ChatMessage::new("c3", "z"));
    store.remove_channel("c1");
    assert_eq!(
        store.all(),
        vec![ChatMessage::new("c2", "n1"), ChatMessage::new("c3", "z")]
    );
    assert_eq!(store.for_channel("c1"), vec![]);
    store.remove_channel("unknown");
    assert_eq!(store.len(), 2);
}

#[test]
fn remove_channel_spares_other_channel_views() {
    let mut store = sample();
    let before = store.for_channel("c2");
    store.remove_channel("c1");
    assert_eq!(store.for_channel("c2"), before);
}

#[test]
fn arrival_on_other_channel_leaves_channel_view() {
    let mut store = sample();
    let before = store.for_channel("c1");
    store.append(ChatMessage::new("c2", "n2"));
    assert_eq!(store.for_channel("c1"), before);
    assert!(!store.for_channel("c1").contains(&ChatMessage::new("c2", "n2")));
}
