//! What holds of the client whatever happens to it.

use super::client::{
    applied, is_current, left, next_generation, offline, outdated, signed_out, BackendView,
};
use super::history::{
    in_time_order, knows, lemma_merge_is_idempotent, lemma_merge_keeps_and_covers,
    lemma_merge_makes_no_doubles, lemma_message_makes_no_doubles, no_doubles, same_message,
    with_message,
};
use super::login::{login_turn, LoginFlowView};
use super::login_laws::lemma_login_reports_its_generation;
use super::protocol::{emits, lemma_emitted, ReplyView};
use super::rooms::{
    distinct_rooms, lemma_rooms_without_stay_distinct, lemma_unique_rooms, lists_key, room_ids,
    rooms_without,
};
use super::store::history_of;
use super::task_laws::lemma_task_reports_its_generation;
use super::tasks::{task_turn, TaskFlowView};
use super::types::{MatrixBridgeEventView, MatrixMessageView, RoomInfoView};
use vstd::prelude::*;

verus! {

/// Whether no two rooms of the client have the same key and no two messages of a room are the same.
pub open spec fn backend_wf(b: BackendView) -> bool {
    &&& distinct_rooms(b.rooms)
    &&& forall|id: Seq<char>| #[trigger]
        b.messages.contains_key(id) ==> no_doubles(b.messages[id])
}

/// No two rooms of the client ever have the same key, and no two messages of a room are ever the
/// same.
pub proof fn lemma_nothing_is_doubled(b: BackendView, event: MatrixBridgeEventView, id: Seq<char>)
    requires
        backend_wf(b),
    ensures
        backend_wf(offline()),
        backend_wf(applied(b, event)),
        backend_wf(outdated(b)),
        backend_wf(left(b, id)),
        backend_wf(signed_out(b)),
{
    match event {
        MatrixBridgeEventView::SyncRooms { rooms, .. } => {
            lemma_unique_rooms(rooms);
        },
        MatrixBridgeEventView::RoomHistory { room_id, messages, .. } => {
            lemma_merge_makes_no_doubles(history_of(b.messages, room_id), messages);
        },
        MatrixBridgeEventView::NewMessage { message, .. } => {
            lemma_message_makes_no_doubles(history_of(b.messages, message.room_id), message);
        },
        _ => {},
    }
    lemma_rooms_without_stay_distinct(b.rooms, id);
}

/// An event that arrives twice changes no more than one that arrives once.
pub proof fn lemma_event_twice(b: BackendView, event: MatrixBridgeEventView)
    ensures
        applied(applied(b, event), event) == applied(b, event),
{
    let once = applied(b, event);
    let twice = applied(once, event);
    if is_current(b, event) {
        match event {
            MatrixBridgeEventView::SyncRooms { rooms, .. } => {
                assert(twice.messages =~= once.messages);
            },
            MatrixBridgeEventView::RoomHistory { room_id, messages, .. } => {
                lemma_merge_is_idempotent(history_of(b.messages, room_id), messages);
                assert(twice.messages =~= once.messages);
            },
            MatrixBridgeEventView::NewMessage { message, .. } => {
                let before = history_of(b.messages, message.room_id);
                let after = with_message(before, message);
                assert(knows(after, message)) by {
                    if !knows(before, message) {
                        assert(after.last() == message);
                        assert(same_message(after[after.len() - 1], message));
                    }
                }
                assert(twice.messages =~= once.messages);
            },
            _ => {},
        }
    }
}

/// A generation differs from the one before it.
pub proof fn lemma_generations_differ(generation: u64)
    ensures
        next_generation(generation) != generation,
{
}

/// Once a later generation has begun, by a login, a search, a leave or a logout, an event of the
/// generation before it changes nothing.
pub proof fn lemma_outdated_events_change_nothing(
    b: BackendView,
    event: MatrixBridgeEventView,
    id: Seq<char>,
)
    requires
        event.generation() == b.sync_generation,
    ensures
        applied(outdated(b), event) == outdated(b),
        applied(left(b, id), event) == left(b, id),
        applied(signed_out(b), event) == signed_out(b),
{
}

/// No event changes the generation.
pub proof fn lemma_events_keep_the_generation(b: BackendView, event: MatrixBridgeEventView)
    ensures
        applied(b, event).sync_generation == b.sync_generation,
{
}

/// After the rooms are synced, messages are kept of the listed rooms only, and all that were known
/// of those.
pub proof fn lemma_sync_keeps_listed_histories(
    b: BackendView,
    rooms: Seq<RoomInfoView>,
    id: Seq<char>,
)
    ensures
        ({
            let after = applied(
                b,
                MatrixBridgeEventView::SyncRooms { generation: b.sync_generation, rooms },
            );
            &&& after.messages.contains_key(id) <==> b.messages.contains_key(id) && room_ids(
                after.rooms,
            ).contains(id)
            &&& after.messages.contains_key(id) ==> after.messages[id] == b.messages[id]
            &&& forall|key: Seq<char>| #[trigger]
                lists_key(after.rooms, key) == lists_key(rooms, key)
        }),
{
    lemma_unique_rooms(rooms);
}

/// A room that was left is gone with its messages; the other rooms and their messages stay.
pub proof fn lemma_left_room_is_gone(b: BackendView, id: Seq<char>, room: RoomInfoView)
    ensures
        !room_ids(left(b, id).rooms).contains(id),
        !left(b, id).messages.contains_key(id),
        room.id != id ==> (left(b, id).rooms.contains(room) == b.rooms.contains(room)),
        room.id != id ==> (left(b, id).messages.contains_key(room.id) == b.messages.contains_key(
            room.id,
        )),
        room.id != id && b.messages.contains_key(room.id) ==> left(b, id).messages[room.id]
            == b.messages[room.id],
{
    let keep = |r: RoomInfoView| r.id != id;
    let rest = rooms_without(b.rooms, id);
    assert forall|i: int| 0 <= i < rest.len() implies (#[trigger] rest[i]).id != id by {
        b.rooms.lemma_filter_pred(keep, i);
    }
    if room.id != id {
        if b.rooms.contains(room) {
            let i = choose|i: int| 0 <= i < b.rooms.len() && b.rooms[i] == room;
            b.rooms.lemma_filter_contains(keep, i);
        }
        if rest.contains(room) {
            let i = choose|i: int| 0 <= i < rest.len() && rest[i] == room;
            b.rooms.lemma_filter_contains_rev(keep, rest[i]);
        }
    }
}

/// After a logout the client knows no room, no message and no pending verification.
pub proof fn lemma_logout_forgets(b: BackendView)
    ensures
        signed_out(b).rooms.len() == 0,
        signed_out(b).messages.dom() == Set::<Seq<char>>::empty(),
        signed_out(b).pending_verification is None,
        signed_out(b).connection_status == offline().connection_status,
        signed_out(signed_out(b)) == (BackendView {
            sync_generation: next_generation(signed_out(b).sync_generation),
            ..signed_out(b)
        }),
{
    assert(signed_out(b).messages.dom() =~= Set::<Seq<char>>::empty());
}

/// A message that arrives is in the history of its room afterwards, or one that counts as the same
/// is, and no message that was known is lost.
pub proof fn lemma_message_is_kept(b: BackendView, message: MatrixMessageView)
    ensures
        ({
            let after = history_of(
                applied(
                    b,
                    MatrixBridgeEventView::NewMessage { generation: b.sync_generation, message },
                ).messages,
                message.room_id,
            );
            &&& knows(after, message)
            &&& history_of(b.messages, message.room_id).is_prefix_of(after)
        }),
{
    let before = history_of(b.messages, message.room_id);
    let after = with_message(before, message);
    if !knows(before, message) {
        assert(same_message(after[after.len() - 1], message));
    }
    assert(before =~= after.subrange(0, before.len() as int));
}

/// A message that counts as the same as one that was just added, such as the server's copy of a
/// local echo, is not added again.
pub proof fn lemma_echo_is_not_doubled(
    b: BackendView,
    echo: MatrixMessageView,
    copy: MatrixMessageView,
)
    requires
        same_message(echo, copy),
        !knows(history_of(b.messages, echo.room_id), echo),
    ensures
        ({
            let generation = b.sync_generation;
            let shown = applied(
                b,
                MatrixBridgeEventView::NewMessage { generation, message: echo },
            );
            applied(shown, MatrixBridgeEventView::NewMessage { generation, message: copy })
                == shown
        }),
{
    let generation = b.sync_generation;
    let before = history_of(b.messages, echo.room_id);
    let after = with_message(before, echo);
    let shown = applied(b, MatrixBridgeEventView::NewMessage { generation, message: echo });
    assert(same_message(after[after.len() - 1], copy));
    assert(knows(after, copy));
    let twice = applied(shown, MatrixBridgeEventView::NewMessage { generation, message: copy });
    assert(twice.messages =~= shown.messages);
}

/// A history that was loaded leaves the messages of its room in time order, keeps those that were
/// known, and covers those that were loaded.
pub proof fn lemma_loaded_history_is_in_order(
    b: BackendView,
    room_id: Seq<char>,
    messages: Seq<MatrixMessageView>,
    i: int,
    m: MatrixMessageView,
)
    ensures
        ({
            let generation = b.sync_generation;
            let after = applied(
                b,
                MatrixBridgeEventView::RoomHistory { generation, room_id, messages },
            ).messages[room_id];
            &&& in_time_order(after)
            &&& history_of(b.messages, room_id).contains(m) ==> after.contains(m)
            &&& 0 <= i < messages.len() ==> knows(after, messages[i])
        }),
{
    lemma_merge_keeps_and_covers(history_of(b.messages, room_id), messages);
}

/// Whatever a session reports changes nothing once a later generation has begun.
pub proof fn lemma_outdated_login_changes_nothing(
    b: BackendView,
    flow: LoginFlowView,
    reply: ReplyView,
    event: MatrixBridgeEventView,
)
    requires
        emits(login_turn(flow, reply).steps, event),
        b.sync_generation != flow.generation,
    ensures
        applied(b, event) == b,
{
    lemma_login_reports_its_generation(flow, reply);
    lemma_emitted(login_turn(flow, reply).steps, event);
}

/// Whatever a task reports changes nothing once a later generation has begun.
pub proof fn lemma_outdated_task_changes_nothing(
    b: BackendView,
    flow: TaskFlowView,
    reply: ReplyView,
    event: MatrixBridgeEventView,
)
    requires
        emits(task_turn(flow, reply).steps, event),
        b.sync_generation != flow.generation,
    ensures
        applied(b, event) == b,
{
    lemma_task_reports_its_generation(flow, reply);
    lemma_emitted(task_turn(flow, reply).steps, event);
}

} // verus!
