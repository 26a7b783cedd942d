//! What becomes of messages: which count as one, and how they come into a room's history.

use super::client::MatrixBackend;
use super::history::{
    at_time, insert_in_time, knows, lemma_merge_keeps_and_covers, lemma_stable_sort_keeps_messages,
    lemma_time_sorted_is_stable, lemma_with_messages_extends, merged, same_message, time_sorted,
    with_message, with_messages,
};
use super::timeline::{
    arrived, message_of, messages_of, timeline_message, TimelineEvent, TimelineEventView,
};
use super::types::{MatrixBridgeEvent, MatrixMessage, MatrixMessageView};
use vstd::prelude::*;

verus! {

/// Two messages of different senders, with different words or more than five seconds apart are one
/// message only by one and the same event id, and messages of different rooms or with different
/// event ids never are.
pub proof fn lemma_different_messages_are_told_apart(a: MatrixMessage, b: MatrixMessage, r: bool)
    requires
        call_ensures(MatrixBackend::is_same_message, (&a, &b), r),
    ensures
        a.room_id@ != b.room_id@ ==> !r,
        a.event_id is Some && b.event_id is Some && a.event_id->0@ != b.event_id->0@ ==> !r,
        r && (a.sender@ != b.sender@ || a.body@ != b.body@ || a.timestamp > b.timestamp + 5000
            || b.timestamp > a.timestamp + 5000) ==> a.event_id is Some && b.event_id is Some
            && a.event_id->0@ == b.event_id->0@,
{
}

/// The copies of a message are recognized: one event id in one room makes one message, whatever
/// else differs, and what lacks an event id is the same as what its sender said in the same words
/// in the same room at most five seconds before or after.
pub proof fn lemma_copies_are_recognized(a: MatrixMessage, b: MatrixMessage, r: bool)
    requires
        call_ensures(MatrixBackend::is_same_message, (&a, &b), r),
        a.room_id@ == b.room_id@,
    ensures
        a.event_id is Some && b.event_id is Some && a.event_id->0@ == b.event_id->0@ ==> r,
        a.sender@ == b.sender@ && a.body@ == b.body@ && a.timestamp <= b.timestamp + 5000
            && b.timestamp <= a.timestamp + 5000 && (a.event_id is None || b.event_id is None)
            ==> r,
{
}

/// A message that arrives comes to the end of its room's history, unless the history holds the same
/// message: one with its event id, or one of its sender with its words at nearly its time, where
/// one of the two has no event id. Nothing else changes.
pub proof fn lemma_message_arrives(
    backend: &mut MatrixBackend,
    event: MatrixBridgeEvent,
    r: bool,
    message: MatrixMessageView,
    before: Seq<MatrixMessageView>,
)
    requires
        call_ensures(MatrixBackend::apply_event, (backend, event), r),
        event matches MatrixBridgeEvent::NewMessage { generation, message: m } && m@ == message
            && generation == old(backend).sync_generation,
        old(backend).messages@.contains_key(message.room_id) ==> before
            == old(backend).messages@[message.room_id],
        !old(backend).messages@.contains_key(message.room_id) ==> before.len() == 0,
    ensures
        r,
        ({
            let after = final(backend).messages@[message.room_id];
            &&& final(backend).messages@.contains_key(message.room_id)
            &&& after == before || after == before.push(message)
            &&& (forall|i: int|
                0 <= i < before.len() ==> {
                    let m = #[trigger] before[i];
                    ||| m.room_id != message.room_id
                    ||| m.event_id is Some && message.event_id is Some && m.event_id
                        != message.event_id
                    ||| (m.event_id is None || message.event_id is None) && (m.sender
                        != message.sender || m.body != message.body || m.timestamp
                        > message.timestamp + 5000 || message.timestamp > m.timestamp + 5000)
                }) ==> after == before.push(message)
            &&& (exists|i: int|
                0 <= i < before.len() && {
                    let m = #[trigger] before[i];
                    &&& m.room_id == message.room_id
                    &&& m.event_id is Some && m.event_id == message.event_id || (m.event_id is None
                        || message.event_id is None) && m.sender == message.sender && m.body
                        == message.body && m.timestamp <= message.timestamp + 5000
                        && message.timestamp <= m.timestamp + 5000
                }) ==> after == before
        }),
        forall|id: Seq<char>|
            id != message.room_id ==> (#[trigger] final(backend).messages@.contains_key(id)
                == old(backend).messages@.contains_key(id)),
        forall|id: Seq<char>|
            id != message.room_id && old(backend).messages@.contains_key(id) ==> (
            #[trigger] final(backend).messages@[id]) == old(backend).messages@[id],
        final(backend).rooms.deep_view() == old(backend).rooms.deep_view(),
        final(backend).public_rooms.deep_view() == old(backend).public_rooms.deep_view(),
        final(backend).pending_verification.deep_view()
            == old(backend).pending_verification.deep_view(),
        final(backend).connection_status@ == old(backend).connection_status@,
{
    if !old(backend).messages@.contains_key(message.room_id) {
        assert(before =~= Seq::<MatrixMessageView>::empty());
    }
    let after = final(backend).messages@[message.room_id];
    assert(after == with_message(before, message));
    if exists|i: int|
        0 <= i < before.len() && {
            let m = #[trigger] before[i];
            &&& m.room_id == message.room_id
            &&& m.event_id is Some && m.event_id == message.event_id || (m.event_id is None
                || message.event_id is None) && m.sender == message.sender && m.body
                == message.body && m.timestamp <= message.timestamp + 5000 && message.timestamp
                <= m.timestamp + 5000
        } {
        let i = choose|i: int|
            0 <= i < before.len() && {
                let m = #[trigger] before[i];
                &&& m.room_id == message.room_id
                &&& m.event_id is Some && m.event_id == message.event_id || (m.event_id is None
                    || message.event_id is None) && m.sender == message.sender && m.body
                    == message.body && m.timestamp <= message.timestamp + 5000 && message.timestamp
                    <= m.timestamp + 5000
            };
        assert(same_message(before[i], message));
    }
}

proof fn lemma_sorting_keeps_the_length(history: Seq<MatrixMessageView>)
    ensures
        time_sorted(history).len() == history.len(),
    decreases history.len(),
{
    if history.len() > 0 {
        lemma_sorting_keeps_the_length(history.drop_last());
        lemma_insertion_adds_one(time_sorted(history.drop_last()), history.last());
    }
}

proof fn lemma_insertion_adds_one(history: Seq<MatrixMessageView>, m: MatrixMessageView)
    ensures
        insert_in_time(history, m).len() == history.len() + 1,
    decreases history.len(),
{
    if history.len() > 0 && history.last().timestamp > m.timestamp {
        lemma_insertion_adds_one(history.drop_last(), m);
    }
}

proof fn lemma_with_messages_grows(
    history: Seq<MatrixMessageView>,
    incoming: Seq<MatrixMessageView>,
    n: int,
)
    requires
        0 <= n <= incoming.len(),
    ensures
        with_messages(history, incoming.take(n)).is_prefix_of(with_messages(history, incoming)),
        with_messages(history, incoming).len() <= history.len() + incoming.len(),
    decreases incoming.len(),
{
    if incoming.len() > 0 {
        let front = incoming.drop_last();
        if n < incoming.len() {
            lemma_with_messages_grows(history, front, n);
            assert(front.take(n) =~= incoming.take(n));
            let a = with_messages(history, incoming.take(n));
            let c = with_messages(history, incoming);
            assert(a =~= c.subrange(0, a.len() as int));
        } else {
            lemma_with_messages_grows(history, front, front.len() as int);
            assert(incoming.take(n) =~= incoming);
        }
    } else {
        assert(incoming.take(n) =~= incoming);
    }
}

/// A history that is loaded comes into the room's history in time order. What was there stays, what
/// is added was loaded, and a loaded message is left out only where the same message was there or
/// was loaded before it.
pub proof fn lemma_history_is_merged(
    existing: &mut Vec<MatrixMessage>,
    incoming: Vec<MatrixMessage>,
    i: int,
)
    requires
        call_ensures(MatrixBackend::merge_room_history, (existing, incoming), ()),
        0 <= i < incoming.len(),
    ensures
        forall|j: int, k: int|
            0 <= j <= k < final(existing).len() ==> (#[trigger] final(existing)@[j]).timestamp <= (
            #[trigger] final(existing)@[k]).timestamp,
        old(existing).len() <= final(existing).len() <= old(existing).len() + incoming.len(),
        forall|m: MatrixMessageView| #[trigger]
            old(existing).deep_view().contains(m) ==> final(existing).deep_view().contains(m),
        forall|m: MatrixMessageView| #[trigger]
            final(existing).deep_view().contains(m) ==> old(existing).deep_view().contains(m)
                || incoming.deep_view().contains(m),
        (forall|k: int|
            0 <= k < old(existing).len() ==> {
                let m = #[trigger] old(existing).deep_view()[k];
                let new = incoming.deep_view()[i];
                ||| m.room_id != new.room_id
                ||| m.event_id is Some && new.event_id is Some && m.event_id != new.event_id
                ||| (m.event_id is None || new.event_id is None) && (m.sender != new.sender
                    || m.body != new.body || m.timestamp > new.timestamp + 5000 || new.timestamp
                    > m.timestamp + 5000)
            }) && (forall|k: int|
            0 <= k < i ==> {
                let m = #[trigger] incoming.deep_view()[k];
                let new = incoming.deep_view()[i];
                ||| m.room_id != new.room_id
                ||| m.event_id is Some && new.event_id is Some && m.event_id != new.event_id
                ||| (m.event_id is None || new.event_id is None) && (m.sender != new.sender
                    || m.body != new.body || m.timestamp > new.timestamp + 5000 || new.timestamp
                    > m.timestamp + 5000)
            }) ==> final(existing).deep_view().contains(incoming.deep_view()[i]),
{
    let before = old(existing).deep_view();
    let news = incoming.deep_view();
    let after = final(existing).deep_view();
    let all = with_messages(before, news);
    let new = news[i];
    lemma_merge_keeps_and_covers(before, news);
    lemma_sorting_keeps_the_length(all);
    lemma_with_messages_extends(before, news);
    lemma_with_messages_grows(before, news, i);
    assert(after.len() == all.len());
    assert forall|j: int, k: int| 0 <= j <= k < final(existing).len() implies (
    #[trigger] final(existing)@[j]).timestamp <= (#[trigger] final(existing)@[k]).timestamp by {
        assert(after[j].timestamp <= after[k].timestamp);
    }
    let front = with_messages(before, news.take(i));
    lemma_with_messages_extends(before, news.take(i));
    lemma_with_messages_grows(before, news, i + 1);
    assert(news.take(i + 1).drop_last() =~= news.take(i));
    let next = with_messages(before, news.take(i + 1));
    if !knows(front, new) {
        assert(next == front.push(new));
        assert(all[front.len() as int] == all.subrange(0, next.len() as int)[front.len() as int]);
        assert(all.contains(new));
        lemma_time_sorted_is_stable(all);
        lemma_stable_sort_keeps_messages(all, after, new);
    } else {
        let k = choose|k: int| 0 <= k < front.len() && same_message(#[trigger] front[k], new);
        if k < before.len() {
            assert(front[k] == front.subrange(0, before.len() as int)[k]);
            assert(same_message(before[k], new));
        } else {
            assert(news.take(i).contains(front[k]));
            let j = choose|j: int| 0 <= j < news.take(i).len() && news.take(i)[j] == front[k];
            assert(same_message(news[j], new));
        }
    }
}

/// A text of a timeline becomes a message of its room with its own sender, words, time and event
/// id; nothing else becomes one.
pub proof fn lemma_text_becomes_a_message(
    room_id: &str,
    event: Option<TimelineEvent>,
    r: Option<MatrixMessage>,
)
    requires
        call_ensures(timeline_message, (room_id, event), r),
    ensures
        r is Some <==> event is Some && event->0 is Text,
        r matches Some(m) ==> m.room_id@ == room_id@ && (event->0 matches TimelineEvent::Text {
            sender,
            body,
            timestamp,
            event_id,
        } && m.sender@ == sender@ && m.body@ == body@ && m.timestamp == timestamp
            && m.event_id is Some && m.event_id->0@ == event_id@),
{
}

/// A text that arrives is reported under the generation of its session as a message of its room,
/// with its time in milliseconds or in whole seconds; nothing else is reported.
pub proof fn lemma_arrival_is_reported(
    generation: u64,
    in_seconds: bool,
    room_id: &str,
    event: TimelineEvent,
    r: Option<MatrixBridgeEvent>,
)
    requires
        call_ensures(arrived, (generation, in_seconds, room_id, event), r),
    ensures
        r is Some <==> event is Text,
        r matches Some(report) ==> (report matches MatrixBridgeEvent::NewMessage {
            generation: g,
            message,
        } && g == generation && message.room_id@ == room_id@ && (event matches
            TimelineEvent::Text { sender, body, timestamp, event_id } && message.sender@ == sender@
            && message.body@ == body@ && message.event_id is Some && message.event_id->0@
            == event_id@ && (in_seconds ==> message.timestamp * 1000 <= timestamp
            < message.timestamp * 1000 + 1000) && (!in_seconds ==> message.timestamp
            == timestamp))),
{
}

/// The history of one event is that event as a message, where it is a text, and else nothing.
pub proof fn lemma_history_of_one_event(room_id: Seq<char>, event: Option<TimelineEventView>)
    ensures
        event matches Some(TimelineEventView::Text { sender, body, timestamp, event_id })
            ==> messages_of(room_id, seq![event]) == seq![
            MatrixMessageView { room_id, sender, body, timestamp, event_id: Some(event_id) },
        ],
        !(event is Some && event->0 is Text) ==> messages_of(room_id, seq![event]).len() == 0,
        messages_of(room_id, Seq::<Option<TimelineEventView>>::empty()).len() == 0,
{
    reveal_with_fuel(messages_of, 2);
    let one = seq![event];
    assert(one.drop_last() =~= Seq::<Option<TimelineEventView>>::empty());
    assert(one.last() == event);
    match message_of(room_id, event) {
        Some(m) => {
            assert(messages_of(room_id, one) =~= seq![m]);
        },
        None => {},
    }
}

/// A history of messages that are all there already, by their event ids, adds none.
pub proof fn lemma_known_history_adds_nothing(
    existing: &mut Vec<MatrixMessage>,
    incoming: Vec<MatrixMessage>,
)
    requires
        call_ensures(MatrixBackend::merge_room_history, (existing, incoming), ()),
        forall|i: int|
            0 <= i < incoming.len() ==> (#[trigger] incoming.deep_view()[i]).event_id is Some
                && exists|k: int|
                0 <= k < old(existing).len() && (#[trigger] old(existing).deep_view()[k]).room_id
                    == incoming.deep_view()[i].room_id && old(existing).deep_view()[k].event_id
                    == incoming.deep_view()[i].event_id,
    ensures
        final(existing).len() == old(existing).len(),
{
    let before = old(existing).deep_view();
    let news = incoming.deep_view();
    assert forall|i: int| 0 <= i < news.len() implies knows(before, #[trigger] news[i]) by {
        let k = choose|k: int|
            0 <= k < old(existing).len() && (#[trigger] before[k]).room_id == news[i].room_id
                && before[k].event_id == news[i].event_id;
        assert(same_message(before[k], news[i]));
    }
    lemma_nothing_new(before, news);
    lemma_sorting_keeps_the_length(before);
    assert(final(existing).deep_view().len() == final(existing)@.len());
    assert(before.len() == old(existing)@.len());
}

proof fn lemma_nothing_new(history: Seq<MatrixMessageView>, incoming: Seq<MatrixMessageView>)
    requires
        forall|i: int| 0 <= i < incoming.len() ==> knows(history, #[trigger] incoming[i]),
    ensures
        with_messages(history, incoming) == history,
    decreases incoming.len(),
{
    if incoming.len() > 0 {
        let front = incoming.drop_last();
        assert forall|i: int| 0 <= i < front.len() implies knows(history, #[trigger] front[i]) by {
            assert(knows(history, incoming[i]));
        }
        lemma_nothing_new(history, front);
        assert(knows(history, incoming[incoming.len() - 1]));
    }
}

/// Messages of one time keep the order in which they came: first those that were there, then those
/// that were added.
pub proof fn lemma_messages_of_one_time_keep_their_order(
    existing: &mut Vec<MatrixMessage>,
    incoming: Vec<MatrixMessage>,
    t: u64,
)
    requires
        call_ensures(MatrixBackend::merge_room_history, (existing, incoming), ()),
    ensures
        final(existing).deep_view().filter(|m: MatrixMessageView| m.timestamp == t)
            == with_messages(old(existing).deep_view(), incoming.deep_view()).filter(
            |m: MatrixMessageView| m.timestamp == t,
        ),
{
    let all = with_messages(old(existing).deep_view(), incoming.deep_view());
    lemma_time_sorted_is_stable(all);
    assert(at_time(final(existing).deep_view(), t) == at_time(all, t));
}

} // verus!
