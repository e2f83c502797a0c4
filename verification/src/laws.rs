//! What holds of the relay whatever it is given.

use vstd::prelude::*;
use crate::message::ChatMessageView;
use crate::registry::{is_live, is_opening, is_reserved};
use crate::relay::{
    after_begin_subscribe, after_delivery, after_detach, after_history, after_unsubscribe,
    handed_over, relay_run, relay_step, running_forwarders, store_is_scoped, well_labelled,
    RelayEvent, RelayView,
};
use crate::store::{off_channel, on_channel};
use crate::stream_to_vec_forwarder::{forwarder_run, ForwarderStatus, StreamItem};

verus! {

/// Whether `part` can be had from `whole` by leaving messages out, without
/// moving any.
pub open spec fn is_subsequence(part: Seq<ChatMessageView>, whole: Seq<ChatMessageView>) -> bool
    decreases whole.len(),
{
    if part.len() == 0 {
        true
    } else if whole.len() == 0 {
        false
    } else {
        ||| part.last() == whole.last() && is_subsequence(part.drop_last(), whole.drop_last())
        ||| is_subsequence(part, whole.drop_last())
    }
}

/// Whether a pulled item is a message.
pub open spec fn is_message(item: StreamItem) -> bool {
    item matches Some(Ok(_))
}

/// The messages of `items`, where every item is one, in their order.
pub open spec fn feed_messages(items: Seq<StreamItem>) -> Seq<ChatMessageView> {
    Seq::new(
        items.len(),
        |i: int|
            match items[i] {
                Some(Ok(message)) => message@,
                _ => arbitrary(),
            },
    )
}

/// At most one subscription per channel: once a request to subscribe to a
/// channel was taken, the channel has an entry, and a second request for it
/// is refused and changes nothing, both while the first is still opening
/// and after it went live with any history.
pub proof fn law_one_subscription_per_channel(
    pre: RelayView,
    channel: Seq<char>,
    history: Seq<ChatMessageView>,
)
    ensures
        is_reserved(after_begin_subscribe(pre, channel).subscriptions, channel),
        after_begin_subscribe(after_begin_subscribe(pre, channel), channel)
            == after_begin_subscribe(pre, channel),
        ({
            let live = after_history(after_begin_subscribe(pre, channel), channel, history);
            is_reserved(live.subscriptions, channel) && after_begin_subscribe(live, channel)
                == live
        }),
{
}

/// At most one forwarder per channel, in every state: whatever happens to a
/// relay that began without live subscriptions, a channel has exactly one
/// running forwarder while it is live and none while it is not.
pub proof fn law_one_forwarder_per_channel(
    start: RelayView,
    events: Seq<RelayEvent>,
    channel: Seq<char>,
)
    requires
        !is_live(start.subscriptions, channel),
    ensures
        running_forwarders(start, events, channel) == (if is_live(
            relay_run(start, events).subscriptions,
            channel,
        ) {
            1int
        } else {
            0int
        }),
    decreases events.len(),
{
    if events.len() > 0 {
        law_one_forwarder_per_channel(start, events.drop_last(), channel);
    }
}

/// Channel isolation: what is read for a channel holds messages of that
/// channel only, and a message that arrives on another channel leaves it as
/// it was.
pub proof fn law_channel_isolation(
    messages: Seq<ChatMessageView>,
    arriving: ChatMessageView,
    channel: Seq<char>,
)
    ensures
        forall|i: int|
            0 <= i < on_channel(messages, channel).len() ==> (#[trigger] on_channel(
                messages,
                channel,
            )[i]).channel == channel,
        arriving.channel != channel ==> on_channel(messages.push(arriving), channel)
            == on_channel(messages, channel),
        arriving.channel != channel ==> !on_channel(messages.push(arriving), channel).contains(
            arriving,
        ),
{
    let wanted = |m: ChatMessageView| m.channel == channel;
    assert forall|i: int| 0 <= i < on_channel(messages, channel).len() implies (
    #[trigger] on_channel(messages, channel)[i]).channel == channel by {
        messages.lemma_filter_pred(wanted, i);
    }
    messages.lemma_filter_push(arriving, wanted);
    if arriving.channel != channel && on_channel(messages, channel).contains(arriving) {
        let i = choose|i: int|
            0 <= i < on_channel(messages, channel).len() && on_channel(messages, channel)[i]
                == arriving;
        messages.lemma_filter_pred(wanted, i);
    }
}

/// Purging one channel leaves what is read for every other channel as it
/// was.
pub proof fn law_purge_spares_other_channels(
    messages: Seq<ChatMessageView>,
    purged: Seq<char>,
    channel: Seq<char>,
)
    requires
        purged != channel,
    ensures
        on_channel(off_channel(messages, purged), channel) == on_channel(messages, channel),
    decreases messages.len(),
{
    let wanted = |m: ChatMessageView| m.channel == channel;
    let spared = |m: ChatMessageView| m.channel != purged;
    if messages.len() == 0 {
        reveal(Seq::filter);
        assert(off_channel(messages, purged) =~= messages);
    } else {
        let rest = messages.drop_last();
        let last = messages.last();
        law_purge_spares_other_channels(rest, purged, channel);
        assert(messages =~= rest.push(last));
        rest.lemma_filter_push(last, wanted);
        rest.lemma_filter_push(last, spared);
        if spared(last) {
            off_channel(rest, purged).lemma_filter_push(last, wanted);
        }
    }
}

/// Purging a channel leaves nothing to read for it.
pub proof fn law_purge_empties_channel(messages: Seq<ChatMessageView>, channel: Seq<char>)
    ensures
        on_channel(off_channel(messages, channel), channel) == Seq::<ChatMessageView>::empty(),
{
    let wanted = |m: ChatMessageView| m.channel == channel;
    let spared = |m: ChatMessageView| m.channel != channel;
    let kept = off_channel(messages, channel);
    assert forall|i: int| 0 <= i < kept.len() implies !wanted(#[trigger] kept[i]) by {
        messages.lemma_filter_pred(spared, i);
    }
    assert(kept.all(|m: ChatMessageView| !wanted(m)));
    kept.lemma_all_neg_filter_empty(wanted);
    assert(on_channel(kept, channel) =~= Seq::<ChatMessageView>::empty());
}

/// Unsubscribe purge: after unsubscribing from a live channel nothing is
/// left to read for it.
pub proof fn law_unsubscribe_purges(pre: RelayView, channel: Seq<char>)
    requires
        is_live(pre.subscriptions, channel),
    ensures
        !is_reserved(after_unsubscribe(pre, channel).subscriptions, channel),
        on_channel(after_unsubscribe(pre, channel).messages, channel) == Seq::<
            ChatMessageView,
        >::empty(),
{
    law_purge_empties_channel(pre.messages, channel);
}

/// One well-labelled step of a relay that purges keeps every stored message
/// within the live channels.
proof fn lemma_step_keeps_scope(pre: RelayView, event: RelayEvent)
    requires
        store_is_scoped(pre),
        well_labelled(event),
        !(event is DetachRequested),
    ensures
        store_is_scoped(relay_step(pre, event)),
{
    let post = relay_step(pre, event);
    match event {
        RelayEvent::UnsubscribeRequested { channel } => {
            if is_live(pre.subscriptions, channel) {
                let spared = |m: ChatMessageView| m.channel != channel;
                assert forall|i: int| 0 <= i < post.messages.len() implies is_live(
                    post.subscriptions,
                    (#[trigger] post.messages[i]).channel,
                ) by {
                    pre.messages.lemma_filter_pred(spared, i);
                    assert(pre.messages.filter(spared).contains(post.messages[i]));
                    pre.messages.lemma_filter_contains_rev(spared, post.messages[i]);
                }
            }
        },
        RelayEvent::HistoryArrived { channel, history } => {
            if is_opening(pre.subscriptions, channel) {
                assert forall|i: int| 0 <= i < post.messages.len() implies is_live(
                    post.subscriptions,
                    (#[trigger] post.messages[i]).channel,
                ) by {
                    if i < pre.messages.len() {
                        assert(post.messages[i] == pre.messages[i]);
                    } else {
                        assert(post.messages[i] == history[i - pre.messages.len()]);
                    }
                }
            }
        },
        RelayEvent::MessageArrived { channel, message } => {
            if is_live(pre.subscriptions, channel) {
                assert forall|i: int| 0 <= i < post.messages.len() implies is_live(
                    post.subscriptions,
                    (#[trigger] post.messages[i]).channel,
                ) by {
                    if i < pre.messages.len() {
                        assert(post.messages[i] == pre.messages[i]);
                    }
                }
            }
        },
        _ => {},
    }
}

/// Unsubscribe purge, in every state: in a relay that purges on unsubscribe
/// and is handed only well-labelled messages and histories, nothing is left
/// to read for a channel that is not live, whatever happened before.
pub proof fn law_unsubscribed_channel_reads_empty(
    start: RelayView,
    events: Seq<RelayEvent>,
    channel: Seq<char>,
)
    requires
        store_is_scoped(start),
        forall|i: int|
            0 <= i < events.len() ==> well_labelled(#[trigger] events[i]) && !(events[i]
                is DetachRequested),
    ensures
        store_is_scoped(relay_run(start, events)),
        !is_live(relay_run(start, events).subscriptions, channel) ==> on_channel(
            relay_run(start, events).messages,
            channel,
        ) == Seq::<ChatMessageView>::empty(),
    decreases events.len(),
{
    if events.len() > 0 {
        law_unsubscribed_channel_reads_empty(start, events.drop_last(), channel);
        lemma_step_keeps_scope(relay_run(start, events.drop_last()), events.last());
    }
    let end = relay_run(start, events);
    if !is_live(end.subscriptions, channel) {
        let wanted = |m: ChatMessageView| m.channel == channel;
        assert(end.messages.all(|m: ChatMessageView| !wanted(m)));
        end.messages.lemma_all_neg_filter_empty(wanted);
        assert(on_channel(end.messages, channel) =~= Seq::<ChatMessageView>::empty());
    }
}

/// Nothing reappears: whatever the feed of a channel still hands over after
/// the channel was unsubscribed from is dropped, with or without a purge.
pub proof fn law_late_delivery_is_dropped(
    pre: RelayView,
    channel: Seq<char>,
    late: ChatMessageView,
)
    ensures
        after_delivery(after_unsubscribe(pre, channel), channel, late) == after_unsubscribe(
            pre,
            channel,
        ),
        after_delivery(after_detach(pre, channel), channel, late) == after_detach(pre, channel),
{
}

/// Unsubscribing from a channel that is not live changes nothing, neither
/// the subscriptions nor the store.
pub proof fn law_unsubscribe_without_subscription(pre: RelayView, channel: Seq<char>)
    requires
        !is_live(pre.subscriptions, channel),
    ensures
        after_unsubscribe(pre, channel) == pre,
        after_detach(pre, channel) == pre,
{
}

/// Order preservation in the store: what is read for a channel is the store
/// with messages left out, never reordered.
pub proof fn law_channel_view_keeps_order(messages: Seq<ChatMessageView>, channel: Seq<char>)
    ensures
        is_subsequence(on_channel(messages, channel), messages),
    decreases messages.len(),
{
    let wanted = |m: ChatMessageView| m.channel == channel;
    if messages.len() == 0 {
        messages.lemma_filter_len(wanted);
    } else {
        let rest = messages.drop_last();
        let last = messages.last();
        law_channel_view_keeps_order(rest, channel);
        assert(messages =~= rest.push(last));
        rest.lemma_filter_push(last, wanted);
        if wanted(last) {
            assert(on_channel(messages, channel).drop_last() =~= on_channel(rest, channel));
        }
    }
}

/// A subsequence stays one when the whole grows at its end.
proof fn lemma_subsequence_of_longer(
    part: Seq<ChatMessageView>,
    whole: Seq<ChatMessageView>,
    more: Seq<ChatMessageView>,
)
    requires
        is_subsequence(part, whole),
    ensures
        is_subsequence(part, whole + more),
    decreases more.len(),
{
    if more.len() == 0 {
        assert(whole + more =~= whole);
    } else {
        lemma_subsequence_of_longer(part, whole, more.drop_last());
        assert((whole + more).drop_last() =~= whole + more.drop_last());
    }
}

/// A subsequence stays one when both grow by the same messages at the end.
proof fn lemma_subsequence_grows_along(
    part: Seq<ChatMessageView>,
    whole: Seq<ChatMessageView>,
    more: Seq<ChatMessageView>,
)
    requires
        is_subsequence(part, whole),
    ensures
        is_subsequence(part + more, whole + more),
    decreases more.len(),
{
    if more.len() == 0 {
        assert(whole + more =~= whole);
        assert(part + more =~= part);
    } else {
        lemma_subsequence_grows_along(part, whole, more.drop_last());
        assert((whole + more).drop_last() =~= whole + more.drop_last());
        assert((part + more).drop_last() =~= part + more.drop_last());
    }
}

/// Leaving messages out of a subsequence leaves a subsequence.
proof fn lemma_filtered_subsequence(
    part: Seq<ChatMessageView>,
    whole: Seq<ChatMessageView>,
    keep: spec_fn(ChatMessageView) -> bool,
)
    requires
        is_subsequence(part, whole),
    ensures
        is_subsequence(part.filter(keep), whole),
    decreases whole.len(),
{
    part.lemma_filter_len(keep);
    if part.len() > 0 && whole.len() > 0 {
        let rest = whole.drop_last();
        assert(whole =~= rest + seq![whole.last()]);
        if part.last() == whole.last() && is_subsequence(part.drop_last(), rest) {
            lemma_filtered_subsequence(part.drop_last(), rest, keep);
            assert(part =~= part.drop_last().push(part.last()));
            part.drop_last().lemma_filter_push(part.last(), keep);
            if keep(part.last()) {
                lemma_subsequence_grows_along(
                    part.drop_last().filter(keep),
                    rest,
                    seq![whole.last()],
                );
                assert(part.filter(keep) =~= part.drop_last().filter(keep) + seq![whole.last()]);
            } else {
                lemma_subsequence_of_longer(part.filter(keep), rest, seq![whole.last()]);
            }
        } else {
            lemma_filtered_subsequence(part, rest, keep);
            lemma_subsequence_of_longer(part.filter(keep), rest, seq![whole.last()]);
        }
    }
}

/// A subsequence whose messages all pass a filter is a subsequence of the
/// filtered whole.
proof fn lemma_subsequence_of_filtered(
    part: Seq<ChatMessageView>,
    whole: Seq<ChatMessageView>,
    keep: spec_fn(ChatMessageView) -> bool,
)
    requires
        is_subsequence(part, whole),
        forall|i: int| 0 <= i < part.len() ==> keep(#[trigger] part[i]),
    ensures
        is_subsequence(part, whole.filter(keep)),
    decreases whole.len(),
{
    if part.len() > 0 && whole.len() > 0 {
        let rest = whole.drop_last();
        assert(whole =~= rest.push(whole.last()));
        rest.lemma_filter_push(whole.last(), keep);
        if part.last() == whole.last() && is_subsequence(part.drop_last(), rest) {
            assert(keep(part[part.len() - 1]));
            assert forall|i: int| 0 <= i < part.drop_last().len() implies keep(
                #[trigger] part.drop_last()[i],
            ) by {
                assert(part.drop_last()[i] == part[i]);
            }
            lemma_subsequence_of_filtered(part.drop_last(), rest, keep);
            lemma_subsequence_grows_along(part.drop_last(), rest.filter(keep), seq![whole.last()]);
            assert(part =~= part.drop_last() + seq![whole.last()]);
            assert(whole.filter(keep) =~= rest.filter(keep) + seq![whole.last()]);
        } else {
            lemma_subsequence_of_filtered(part, rest, keep);
            if keep(whole.last()) {
                lemma_subsequence_of_longer(part, rest.filter(keep), seq![whole.last()]);
                assert(whole.filter(keep) =~= rest.filter(keep) + seq![whole.last()]);
            }
        }
    }
}

/// Order preservation, in every state: whatever happens to a relay that
/// began empty, its store is what was handed to it with messages left out,
/// never reordered; and what is read for a channel is what was handed over
/// on that channel with messages left out, never reordered.
pub proof fn law_store_keeps_handover_order(
    start: RelayView,
    events: Seq<RelayEvent>,
    channel: Seq<char>,
)
    requires
        start.messages.len() == 0,
    ensures
        is_subsequence(relay_run(start, events).messages, handed_over(events)),
        is_subsequence(
            on_channel(relay_run(start, events).messages, channel),
            on_channel(handed_over(events), channel),
        ),
    decreases events.len(),
{
    let wanted = |m: ChatMessageView| m.channel == channel;
    if events.len() > 0 {
        let earlier = events.drop_last();
        law_store_keeps_handover_order(start, earlier, channel);
        let before = relay_run(start, earlier);
        let given = handed_over(earlier);
        match events.last() {
            RelayEvent::HistoryArrived { channel: opened, history } => {
                if is_opening(before.subscriptions, opened) {
                    lemma_subsequence_grows_along(before.messages, given, history);
                } else {
                    lemma_subsequence_of_longer(before.messages, given, history);
                }
            },
            RelayEvent::MessageArrived { channel: fed, message } => {
                assert(given.push(message) =~= given + seq![message]);
                if is_live(before.subscriptions, fed) {
                    assert(before.messages.push(message) =~= before.messages + seq![message]);
                    lemma_subsequence_grows_along(before.messages, given, seq![message]);
                } else {
                    lemma_subsequence_of_longer(before.messages, given, seq![message]);
                }
            },
            RelayEvent::UnsubscribeRequested { channel: left } => {
                if is_live(before.subscriptions, left) {
                    lemma_filtered_subsequence(
                        before.messages,
                        given,
                        |m: ChatMessageView| m.channel != left,
                    );
                }
            },
            _ => {},
        }
    }
    let end = relay_run(start, events);
    lemma_filtered_subsequence(end.messages, handed_over(events), wanted);
    assert forall|i: int| 0 <= i < on_channel(end.messages, channel).len() implies wanted(
        #[trigger] on_channel(end.messages, channel)[i],
    ) by {
        end.messages.lemma_filter_pred(wanted, i);
    }
    lemma_subsequence_of_filtered(on_channel(end.messages, channel), handed_over(events), wanted);
}

/// Order preservation across arrivals: what arrives later is read after
/// what was stored before, channel by channel.
pub proof fn law_arrivals_follow_stored(
    stored: Seq<ChatMessageView>,
    arriving: Seq<ChatMessageView>,
    channel: Seq<char>,
)
    ensures
        on_channel(stored + arriving, channel) == on_channel(stored, channel) + on_channel(
            arriving,
            channel,
        ),
{
    Seq::filter_distributes_over_add(stored, arriving, |m: ChatMessageView| m.channel == channel);
}

/// Order preservation in the forwarder: a running forwarder stores the
/// messages of its feed up to the first item that is no message, in feed
/// order and after what the store held; it is still running exactly where
/// every item was a message. The result is the number of items stored.
pub proof fn law_forwarder_stores_feed_prefix(
    messages: Seq<ChatMessageView>,
    items: Seq<StreamItem>,
) -> (taken: int)
    ensures
        0 <= taken <= items.len(),
        forall|i: int| 0 <= i < taken ==> is_message(#[trigger] items[i]),
        taken < items.len() ==> !is_message(items[taken]),
        forwarder_run(ForwarderStatus::Running, messages, items).1 == messages + feed_messages(
            items.take(taken),
        ),
        forwarder_run(ForwarderStatus::Running, messages, items).0 is Running <==> taken
            == items.len(),
    decreases items.len(),
{
    if items.len() == 0 {
        assert(messages + feed_messages(items.take(0)) =~= messages);
        0
    } else {
        let rest = items.drop_last();
        let taken_before = law_forwarder_stores_feed_prefix(messages, rest);
        let before = forwarder_run(ForwarderStatus::Running, messages, rest);
        assert forall|i: int| 0 <= i < taken_before implies is_message(#[trigger] items[i]) by {
            assert(items[i] == rest[i]);
        }
        if taken_before == rest.len() && is_message(items.last()) {
            assert(rest.take(taken_before) =~= rest);
            assert(items.take(items.len() as int) =~= items);
            assert(before.1.push(items.last()->Some_0->Ok_0@) =~= messages + feed_messages(items));
            items.len() as int
        } else {
            assert(items.take(taken_before) =~= rest.take(taken_before));
            taken_before
        }
    }
}

} // verus!
