//! The states of a relay and the steps between them.

use vstd::prelude::*;
use crate::message::ChatMessageView;
use crate::registry::{is_live, is_opening, is_reserved};
use crate::store::off_channel;

verus! {

/// Mathematical value of a relay: its subscriptions and its messages.
pub struct RelayView {
    /// Each channel that has an entry, mapped to whether it is live.
    pub subscriptions: Map<Seq<char>, bool>,
    /// The received messages, oldest first.
    pub messages: Seq<ChatMessageView>,
}

/// The state after a request to subscribe to `channel`: a channel without an
/// entry gets an opening one, anything else stays.
pub open spec fn after_begin_subscribe(pre: RelayView, channel: Seq<char>) -> RelayView {
    if is_reserved(pre.subscriptions, channel) {
        pre
    } else {
        RelayView { subscriptions: pre.subscriptions.insert(channel, false), ..pre }
    }
}

/// The state after the history of `channel` arrived: an opening entry turns
/// live and the history goes to the end of the store, in its own order.
pub open spec fn after_history(
    pre: RelayView,
    channel: Seq<char>,
    history: Seq<ChatMessageView>,
) -> RelayView {
    if is_opening(pre.subscriptions, channel) {
        RelayView {
            subscriptions: pre.subscriptions.insert(channel, true),
            messages: pre.messages + history,
        }
    } else {
        pre
    }
}

/// The state after setting up `channel` failed: an opening entry is gone.
pub open spec fn after_failure(pre: RelayView, channel: Seq<char>) -> RelayView {
    if is_opening(pre.subscriptions, channel) {
        RelayView { subscriptions: pre.subscriptions.remove(channel), ..pre }
    } else {
        pre
    }
}

/// The state after a request to unsubscribe from `channel` that purges: a
/// live entry is gone, and with it every stored message of that channel.
pub open spec fn after_unsubscribe(pre: RelayView, channel: Seq<char>) -> RelayView {
    if is_live(pre.subscriptions, channel) {
        RelayView {
            subscriptions: pre.subscriptions.remove(channel),
            messages: off_channel(pre.messages, channel),
        }
    } else {
        pre
    }
}

/// The state after the feed of `channel` handed over `message`: it goes to
/// the end of the store while the channel is live, and is dropped otherwise.
pub open spec fn after_delivery(
    pre: RelayView,
    channel: Seq<char>,
    message: ChatMessageView,
) -> RelayView {
    if is_live(pre.subscriptions, channel) {
        RelayView { messages: pre.messages.push(message), ..pre }
    } else {
        pre
    }
}

/// The state after a request to unsubscribe from `channel` that keeps what
/// was received: a live entry is gone, the store stays.
pub open spec fn after_detach(pre: RelayView, channel: Seq<char>) -> RelayView {
    if is_live(pre.subscriptions, channel) {
        RelayView { subscriptions: pre.subscriptions.remove(channel), ..pre }
    } else {
        pre
    }
}

/// What can happen to a relay, one step at a time.
pub enum RelayEvent {
    /// A caller asked to subscribe to the channel.
    SubscribeRequested { channel: Seq<char> },
    /// The feed of the channel was opened and its history fetched.
    HistoryArrived { channel: Seq<char>, history: Seq<ChatMessageView> },
    /// Opening the feed of the channel, or fetching its history, failed.
    SetupFailed { channel: Seq<char> },
    /// A caller asked to unsubscribe from the channel, purging its messages.
    UnsubscribeRequested { channel: Seq<char> },
    /// A caller asked to unsubscribe from the channel, keeping its messages.
    DetachRequested { channel: Seq<char> },
    /// The feed of the channel handed over a message.
    MessageArrived { channel: Seq<char>, message: ChatMessageView },
}

/// The state after `event`.
pub open spec fn relay_step(pre: RelayView, event: RelayEvent) -> RelayView {
    match event {
        RelayEvent::SubscribeRequested { channel } => after_begin_subscribe(pre, channel),
        RelayEvent::HistoryArrived { channel, history } => after_history(pre, channel, history),
        RelayEvent::SetupFailed { channel } => after_failure(pre, channel),
        RelayEvent::UnsubscribeRequested { channel } => after_unsubscribe(pre, channel),
        RelayEvent::DetachRequested { channel } => after_detach(pre, channel),
        RelayEvent::MessageArrived { channel, message } => after_delivery(pre, channel, message),
    }
}

/// The state after `events`, first to last.
pub open spec fn relay_run(start: RelayView, events: Seq<RelayEvent>) -> RelayView
    decreases events.len(),
{
    if events.len() == 0 {
        start
    } else {
        relay_step(relay_run(start, events.drop_last()), events.last())
    }
}

/// Everything that `events` handed to the relay, stored or not, in the order
/// in which it was handed over.
pub open spec fn handed_over(events: Seq<RelayEvent>) -> Seq<ChatMessageView>
    decreases events.len(),
{
    if events.len() == 0 {
        Seq::empty()
    } else {
        let before = handed_over(events.drop_last());
        match events.last() {
            RelayEvent::HistoryArrived { history, .. } => before + history,
            RelayEvent::MessageArrived { message, .. } => before.push(message),
            _ => before,
        }
    }
}

/// Whether what `event` brings belongs to the channel it came for: a message
/// to the channel of its feed, a history to the channel it was asked for.
pub open spec fn well_labelled(event: RelayEvent) -> bool {
    match event {
        RelayEvent::HistoryArrived { channel, history } => forall|i: int|
            0 <= i < history.len() ==> (#[trigger] history[i]).channel == channel,
        RelayEvent::MessageArrived { channel, message } => message.channel == channel,
        _ => true,
    }
}

/// Whether every stored message belongs to a channel that is live.
pub open spec fn store_is_scoped(relay: RelayView) -> bool {
    forall|i: int|
        0 <= i < relay.messages.len() ==> is_live(
            relay.subscriptions,
            (#[trigger] relay.messages[i]).channel,
        )
}

/// Whether `event` makes the caller start the forwarder of `channel`: the
/// history arrives for an entry that is opening.
pub open spec fn starts_forwarder(pre: RelayView, event: RelayEvent, channel: Seq<char>) -> bool {
    event matches RelayEvent::HistoryArrived { channel: opened, .. } && opened == channel
        && is_opening(pre.subscriptions, channel)
}

/// Whether `event` makes the caller cancel the forwarder of `channel`: a
/// request to unsubscribe meets a live entry.
pub open spec fn cancels_forwarder(pre: RelayView, event: RelayEvent, channel: Seq<char>) -> bool {
    is_live(pre.subscriptions, channel) && match event {
        RelayEvent::UnsubscribeRequested { channel: left } => left == channel,
        RelayEvent::DetachRequested { channel: left } => left == channel,
        _ => false,
    }
}

/// How many forwarders of `channel` were started and not cancelled in the
/// course of `events`.
pub open spec fn running_forwarders(
    start: RelayView,
    events: Seq<RelayEvent>,
    channel: Seq<char>,
) -> int
    decreases events.len(),
{
    if events.len() == 0 {
        0
    } else {
        let before = relay_run(start, events.drop_last());
        let so_far = running_forwarders(start, events.drop_last(), channel);
        if starts_forwarder(before, events.last(), channel) {
            so_far + 1
        } else if cancels_forwarder(before, events.last(), channel) {
            so_far - 1
        } else {
            so_far
        }
    }
}

} // verus!
