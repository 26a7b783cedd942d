//! Events of a room's timeline and the messages they become.

use super::types::{MatrixBridgeEvent, MatrixBridgeEventView, MatrixMessage, MatrixMessageView};
use matrix_sdk::ruma::events::room::message::MessageType;
use matrix_sdk::ruma::events::{
    AnySyncMessageLikeEvent, AnySyncTimelineEvent, SyncMessageLikeEvent,
};
use vstd::prelude::*;

verus! {

/// An event of a room's timeline, as far as the client shows it.
pub enum TimelineEvent {
    /// A text message that was not redacted. `timestamp` counts milliseconds.
    Text { sender: String, body: String, timestamp: u64, event_id: String },
    /// Another message that was not redacted, such as an image.
    OtherMessage,
    /// Anything else.
    Other,
}

/// The contents of a [`TimelineEvent`].
#[verifier::ext_equal]
pub enum TimelineEventView {
    Text { sender: Seq<char>, body: Seq<char>, timestamp: u64, event_id: Seq<char> },
    OtherMessage,
    Other,
}

impl View for TimelineEvent {
    type V = TimelineEventView;

    open spec fn view(&self) -> TimelineEventView {
        match *self {
            TimelineEvent::Text { sender, body, timestamp, event_id } => TimelineEventView::Text {
                sender: sender@,
                body: body@,
                timestamp,
                event_id: event_id@,
            },
            TimelineEvent::OtherMessage => TimelineEventView::OtherMessage,
            TimelineEvent::Other => TimelineEventView::Other,
        }
    }
}

impl DeepView for TimelineEvent {
    type V = TimelineEventView;

    open spec fn deep_view(&self) -> TimelineEventView {
        self@
    }
}

/// The timeline event that the JSON text `json` holds, if it holds one.
pub uninterp spec fn event_of_json(json: Seq<char>) -> Option<TimelineEventView>;

/// Reads a timeline event with `serde_json::from_str` as an `AnySyncTimelineEvent` and keeps what
/// the client shows of it. What it reads is named [`event_of_json`].
#[verifier::external_body]
fn decode_event(json: &str) -> (r: Option<TimelineEvent>)
    ensures
        r.deep_view() == event_of_json(json@),
{
    let original = match serde_json::from_str::<AnySyncTimelineEvent>(json).ok()? {
        AnySyncTimelineEvent::MessageLike(AnySyncMessageLikeEvent::RoomMessage(
            SyncMessageLikeEvent::Original(original),
        )) => original,
        _ => return Some(TimelineEvent::Other),
    };
    let sender = original.sender.to_string();
    let timestamp = original.origin_server_ts.get().into();
    let event_id = original.event_id.to_string();
    match original.content.msgtype {
        MessageType::Text(text) => {
            Some(TimelineEvent::Text { sender, body: text.body, timestamp, event_id })
        },
        _ => Some(TimelineEvent::OtherMessage),
    }
}

/// The message of the room `room_id` that an event is, where it is a text.
pub open spec fn message_of(room_id: Seq<char>, event: Option<TimelineEventView>) -> Option<
    MatrixMessageView,
> {
    match event {
        Some(TimelineEventView::Text { sender, body, timestamp, event_id }) => Some(
            MatrixMessageView { room_id, sender, body, timestamp, event_id: Some(event_id) },
        ),
        _ => None,
    }
}

/// The messages of the room `room_id` among `events`, in their order.
pub open spec fn messages_of(
    room_id: Seq<char>,
    events: Seq<Option<TimelineEventView>>,
) -> Seq<MatrixMessageView>
    decreases events.len(),
{
    if events.len() == 0 {
        Seq::empty()
    } else {
        let front = messages_of(room_id, events.drop_last());
        match message_of(room_id, events.last()) {
            Some(message) => front.push(message),
            None => front,
        }
    }
}

/// The events that the JSON texts hold.
pub open spec fn events_of_json(texts: Seq<Seq<char>>) -> Seq<Option<TimelineEventView>> {
    texts.map_values(|text: Seq<char>| event_of_json(text))
}

/// The timeline event that the JSON text `json` holds, if it holds one.
pub fn timeline_event(json: &str) -> (r: Option<TimelineEvent>)
    ensures
        r.deep_view() == event_of_json(json@),
{
    decode_event(json)
}

/// The message of the room `room_id` that an event is, where it is a text.
pub fn timeline_message(room_id: &str, event: Option<TimelineEvent>) -> (r: Option<MatrixMessage>)
    ensures
        r.deep_view() == message_of(room_id@, event.deep_view()),
{
    match event {
        Some(TimelineEvent::Text { sender, body, timestamp, event_id }) => Some(
            MatrixMessage {
                room_id: room_id.to_owned(),
                sender,
                body,
                timestamp,
                event_id: Some(event_id),
            },
        ),
        _ => None,
    }
}

/// The report of an event that just arrived in the room `room_id`, where it is a text. Its time is
/// reported in seconds or in milliseconds.
pub open spec fn arrival(
    generation: u64,
    in_seconds: bool,
    room_id: Seq<char>,
    event: TimelineEventView,
) -> Option<MatrixBridgeEventView> {
    match message_of(room_id, Some(event)) {
        Some(message) => Some(
            MatrixBridgeEventView::NewMessage {
                generation,
                message: MatrixMessageView {
                    timestamp: if in_seconds {
                        message.timestamp / 1000
                    } else {
                        message.timestamp
                    },
                    ..message
                },
            },
        ),
        None => None,
    }
}

/// The report of an event that just arrived in the room `room_id`, where it is a text.
pub fn arrived(generation: u64, in_seconds: bool, room_id: &str, event: TimelineEvent) -> (r:
    Option<MatrixBridgeEvent>)
    ensures
        r.deep_view() == arrival(generation, in_seconds, room_id@, event@),
{
    match timeline_message(room_id, Some(event)) {
        Some(message) => {
            let timestamp: u64 = if in_seconds {
                message.timestamp / 1000
            } else {
                message.timestamp
            };
            let message = MatrixMessage { timestamp, ..message };
            Some(MatrixBridgeEvent::NewMessage { generation, message })
        },
        None => None,
    }
}

/// The messages of the room `room_id` among `events`, in their order.
pub fn history_from_events(room_id: &str, events: Vec<Option<TimelineEvent>>) -> (r: Vec<
    MatrixMessage,
>)
    ensures
        r.deep_view() == messages_of(room_id@, events.deep_view()),
{
    let ghost all = events.deep_view();
    let mut history: Vec<MatrixMessage> = Vec::new();
    assert(all.take(0) =~= Seq::empty());
    assert(history.deep_view() =~= Seq::<MatrixMessageView>::empty());
    for event in it: events
        invariant
            it.seq() == events@,
            all == events.deep_view(),
            history.deep_view() == messages_of(room_id@, all.take(it.index() as int)),
    {
        let ghost n = it.index() as int;
        let ghost before = history.deep_view();
        assert(all.take(n + 1).drop_last() =~= all.take(n));
        assert(all.take(n + 1).last() == event.deep_view());
        if let Some(message) = timeline_message(room_id, event) {
            history.push(message);
            assert(history.deep_view() =~= before.push(message@));
        }
    }
    assert(all.take(all.len() as int) =~= all);
    history
}

/// The messages of the room `room_id` among the events that the JSON texts hold, in their order.
pub fn history_from_json(room_id: &str, texts: Vec<String>) -> (r: Vec<MatrixMessage>)
    ensures
        r.deep_view() == messages_of(room_id@, events_of_json(texts.deep_view())),
{
    let ghost all = events_of_json(texts.deep_view());
    let mut events: Vec<Option<TimelineEvent>> = Vec::new();
    for text in it: texts
        invariant
            it.seq() == texts@,
            all == events_of_json(texts.deep_view()),
            events.deep_view() == all.take(it.index() as int),
    {
        let ghost n = it.index() as int;
        let ghost before = events.deep_view();
        let event = decode_event(text.as_str());
        assert(all[n] == event.deep_view());
        events.push(event);
        assert(events.deep_view() =~= before.push(event.deep_view()));
        assert(all.take(n + 1) =~= all.take(n).push(all[n]));
    }
    assert(all.take(all.len() as int) =~= all);
    history_from_events(room_id, events)
}

/// A history is one message for each text, in the order of the timeline: it has the room's id, and
/// what is no text leaves no trace.
pub proof fn lemma_messages_of(room_id: Seq<char>, events: Seq<Option<TimelineEventView>>)
    ensures
        messages_of(room_id, events).len() <= events.len(),
        forall|i: int|
            0 <= i < messages_of(room_id, events).len() ==> (#[trigger] messages_of(
                room_id,
                events,
            )[i]).room_id == room_id && messages_of(room_id, events)[i].event_id is Some,
        forall|k: int|
            0 <= k < events.len() && message_of(room_id, #[trigger] events[k]) is Some
                ==> messages_of(room_id, events).contains(message_of(room_id, events[k])->0),
    decreases events.len(),
{
    if events.len() > 0 {
        let front = messages_of(room_id, events.drop_last());
        let all = messages_of(room_id, events);
        lemma_messages_of(room_id, events.drop_last());
        assert forall|k: int|
            0 <= k < events.len() && message_of(
                room_id,
                #[trigger] events[k],
            ) is Some implies all.contains(message_of(room_id, events[k])->0) by {
            let m = message_of(room_id, events[k])->0;
            if k < events.len() - 1 {
                assert(events.drop_last()[k] == events[k]);
                assert(front.contains(m));
                let i = choose|i: int| 0 <= i < front.len() && front[i] == m;
                assert(all[i] == m);
            } else {
                assert(all.last() == m);
            }
        }
    }
}

/// The histories of two stretches of a timeline make up the history of the whole.
pub proof fn lemma_messages_of_joined(
    room_id: Seq<char>,
    a: Seq<Option<TimelineEventView>>,
    b: Seq<Option<TimelineEventView>>,
)
    ensures
        messages_of(room_id, a + b) == messages_of(room_id, a) + messages_of(room_id, b),
    decreases b.len(),
{
    if b.len() == 0 {
        assert(a + b =~= a);
        assert(messages_of(room_id, a) + messages_of(room_id, b) =~= messages_of(room_id, a));
    } else {
        lemma_messages_of_joined(room_id, a, b.drop_last());
        assert((a + b).drop_last() =~= a + b.drop_last());
        assert(messages_of(room_id, a + b) =~= messages_of(room_id, a) + messages_of(room_id, b));
    }
}

} // verus!
