//! What becomes of rooms: those of the account and those that a search finds.

use super::client::{left, BackendView, MatrixBackend};
use super::history::merged;
use super::login::{login_after, login_turn, LoginFlowView};
use super::protocol::{Command, CommandView, Reply, ReplyView};
use super::rooms::{
    lemma_unique_rooms, lists_key, room_key, unique_rooms, JoinedRoom, JoinedRoomView,
};
use super::tasks::{task_turn, TaskFlow, TaskFlowView};
use super::types::{
    MatrixBridgeEvent, MatrixBridgeEventView, MatrixMessageView, PublicRoomSearchResult,
    PublicRoomSearchResultView, RoomInfo, RoomInfoView,
};
use crate::text::trimmed;
use vstd::prelude::*;

verus! {

/// Whether `info` says of a joined room what is known of it: its id, its name or else its id, and
/// whether it is a direct chat, which a room of which that is not known is not.
pub open spec fn describes(info: RoomInfoView, room: JoinedRoomView) -> bool {
    &&& info.id == room.room_id
    &&& room.display_name matches Some(name) ==> info.display_name == name
    &&& room.display_name is None ==> info.display_name == room.room_id
    &&& room.is_direct matches Some(direct) ==> info.is_direct == direct
    &&& room.is_direct is None ==> !info.is_direct
}

/// Every joined room is listed, in the order in which they come, with its own id and name. A room
/// that is known to be a direct chat is listed as one, and a room that is known to be none as none.
pub proof fn lemma_joined_rooms_are_listed(joined: Vec<JoinedRoom>, r: Vec<RoomInfo>)
    requires
        call_ensures(MatrixBackend::collect_joined_rooms, (joined,), r),
    ensures
        r.len() == joined.len(),
        forall|i: int|
            0 <= i < r.len() ==> {
                let room = joined@[i];
                let info = #[trigger] r@[i];
                &&& info.id@ == room.room_id@
                &&& room.display_name matches Some(name) ==> info.display_name@ == name@
                &&& room.display_name is None ==> info.display_name@ == room.room_id@
                &&& room.is_direct matches Some(direct) ==> info.is_direct == direct
                &&& room.is_direct is None ==> !info.is_direct
            },
{
    assert(r.deep_view().len() == joined.deep_view().len());
    assert(joined.deep_view().len() == joined@.len());
    assert forall|i: int| 0 <= i < r.len() implies {
        let room = joined@[i];
        let info = #[trigger] r@[i];
        &&& info.id@ == room.room_id@
        &&& room.display_name matches Some(name) ==> info.display_name@ == name@
        &&& room.display_name is None ==> info.display_name@ == room.room_id@
        &&& room.is_direct matches Some(direct) ==> info.is_direct == direct
        &&& room.is_direct is None ==> !info.is_direct
    } by {
        assert(r.deep_view()[i] == r@[i]@);
        assert(joined.deep_view()[i] == joined@[i]@);
    }
}

/// The same of the event that reports the joined rooms.
pub proof fn lemma_joined_rooms_are_reported(
    generation: u64,
    joined: Vec<JoinedRoom>,
    r: MatrixBridgeEvent,
)
    requires
        call_ensures(MatrixBackend::refresh_joined_rooms, (generation, joined), r),
    ensures
        r matches MatrixBridgeEvent::SyncRooms { generation: g, rooms } && g == generation
            && rooms.len() == joined.len() && forall|i: int|
            0 <= i < rooms.len() ==> describes((#[trigger] rooms@[i])@, joined@[i]@),
{
    if let MatrixBridgeEvent::SyncRooms { rooms, .. } = r {
        assert(r@->SyncRooms_rooms == rooms.deep_view());
        assert forall|i: int| 0 <= i < rooms.len() implies describes(
            (#[trigger] rooms@[i])@,
            joined@[i]@,
        ) by {
            assert(rooms.deep_view()[i] == rooms@[i]@);
            assert(joined.deep_view()[i] == joined@[i]@);
        }
    }
}

/// The first room of each key is kept.
proof fn lemma_first_of_its_key_is_kept(rooms: Seq<RoomInfoView>, i: int)
    requires
        0 <= i < rooms.len(),
        forall|j: int| 0 <= j < i ==> room_key(#[trigger] rooms[j]) != room_key(rooms[i]),
    ensures
        unique_rooms(rooms).contains(rooms[i]),
    decreases rooms.len(),
{
    let init = rooms.drop_last();
    let front = unique_rooms(init);
    let out = unique_rooms(rooms);
    lemma_unique_rooms(init);
    if i < init.len() {
        assert forall|j: int| 0 <= j < i implies room_key(#[trigger] init[j]) != room_key(
            init[i],
        ) by {
            assert(room_key(rooms[j]) != room_key(rooms[i]));
        }
        lemma_first_of_its_key_is_kept(init, i);
        let p = choose|p: int| 0 <= p < front.len() && front[p] == rooms[i];
        assert(out[p] == rooms[i]);
    } else {
        if lists_key(init, room_key(rooms[i])) {
            let j = choose|j: int|
                0 <= j < init.len() && room_key(#[trigger] init[j]) == room_key(rooms[i]);
            assert(room_key(rooms[j]) != room_key(rooms[i]));
        }
        assert(out.last() == rooms[i]);
    }
}

proof fn lemma_kept_is_the_first_of_its_key(rooms: Seq<RoomInfoView>, p: int)
    requires
        0 <= p < unique_rooms(rooms).len(),
    ensures
        exists|i: int|
            0 <= i < rooms.len() && #[trigger] rooms[i] == unique_rooms(rooms)[p] && forall|j: int|
                0 <= j < i ==> room_key(#[trigger] rooms[j]) != room_key(rooms[i]),
    decreases rooms.len(),
{
    let init = rooms.drop_last();
    let front = unique_rooms(init);
    let n = init.len() as int;
    lemma_unique_rooms(init);
    if p < front.len() {
        lemma_kept_is_the_first_of_its_key(init, p);
        let i = choose|i: int|
            0 <= i < init.len() && #[trigger] init[i] == front[p] && forall|j: int|
                0 <= j < i ==> room_key(#[trigger] init[j]) != room_key(init[i]);
        assert(rooms[i] == front[p]);
        assert forall|j: int| 0 <= j < i implies room_key(#[trigger] rooms[j]) != room_key(
            rooms[i],
        ) by {
            assert(room_key(init[j]) != room_key(init[i]));
        }
    } else {
        assert(rooms[n] == unique_rooms(rooms)[p]);
        assert forall|j: int| 0 <= j < n implies room_key(#[trigger] rooms[j]) != room_key(
            rooms[n],
        ) by {
            assert(room_key(init[j]) == room_key(rooms[j]));
            assert(!lists_key(init, room_key(rooms[n])));
        }
    }
}

/// What comes later in a list does not change what is kept of its beginning, nor its order.
pub proof fn lemma_kept_rooms_keep_their_order(a: Seq<RoomInfoView>, b: Seq<RoomInfoView>)
    ensures
        unique_rooms(a).is_prefix_of(unique_rooms(a + b)),
    decreases b.len(),
{
    if b.len() == 0 {
        assert(a + b =~= a);
    } else {
        lemma_kept_rooms_keep_their_order(a, b.drop_last());
        assert((a + b).drop_last() =~= a + b.drop_last());
        let kept = unique_rooms(a);
        let all = unique_rooms(a + b);
        assert(kept =~= all.subrange(0, kept.len() as int));
    }
}

/// A list without doubles holds, for each id, the first room that has it but for surrounding white
/// space: no other room, and no two of one id.
pub proof fn lemma_doubles_are_dropped(rooms: Vec<RoomInfo>, r: Vec<RoomInfo>)
    requires
        call_ensures(MatrixBackend::dedupe_rooms, (rooms,), r),
    ensures
        forall|p: int, q: int|
            0 <= p < q < r.len() ==> trimmed((#[trigger] r.deep_view()[p]).id) != trimmed(
                (#[trigger] r.deep_view()[q]).id,
            ),
        forall|i: int|
            0 <= i < rooms.len() && (forall|j: int|
                0 <= j < i ==> trimmed((#[trigger] rooms.deep_view()[j]).id) != trimmed(
                    rooms.deep_view()[i].id,
                )) ==> r.deep_view().contains(#[trigger] rooms.deep_view()[i]),
        forall|p: int|
            0 <= p < r.len() ==> exists|i: int|
                0 <= i < rooms.len() && #[trigger] rooms.deep_view()[i]
                    == #[trigger] r.deep_view()[p] && forall|j: int|
                    0 <= j < i ==> trimmed((#[trigger] rooms.deep_view()[j]).id) != trimmed(
                        rooms.deep_view()[i].id,
                    ),
{
    let all = rooms.deep_view();
    let kept = r.deep_view();
    lemma_unique_rooms(all);
    assert forall|p: int, q: int| 0 <= p < q < r.len() implies trimmed(
        (#[trigger] kept[p]).id,
    ) != trimmed((#[trigger] kept[q]).id) by {
        assert(room_key(kept[p]) != room_key(kept[q]));
    }
    assert forall|i: int|
        0 <= i < rooms.len() && (forall|j: int|
            0 <= j < i ==> trimmed((#[trigger] all[j]).id) != trimmed(
                all[i].id,
            )) implies kept.contains(#[trigger] all[i]) by {
        assert forall|j: int| 0 <= j < i implies room_key(#[trigger] all[j]) != room_key(
            all[i],
        ) by {
            assert(trimmed(all[j].id) != trimmed(all[i].id));
        }
        lemma_first_of_its_key_is_kept(all, i);
    }
    assert forall|p: int| 0 <= p < r.len() implies exists|i: int|
        0 <= i < rooms.len() && #[trigger] all[i] == #[trigger] kept[p] && forall|j: int|
            0 <= j < i ==> trimmed((#[trigger] all[j]).id) != trimmed(all[i].id) by {
        lemma_kept_is_the_first_of_its_key(all, p);
        let i = choose|i: int|
            0 <= i < all.len() && #[trigger] all[i] == kept[p] && forall|j: int|
                0 <= j < i ==> room_key(#[trigger] all[j]) != room_key(all[i]);
        assert forall|j: int| 0 <= j < i implies trimmed((#[trigger] all[j]).id) != trimmed(
            all[i].id,
        ) by {
            assert(room_key(all[j]) != room_key(all[i]));
        }
    }
}

/// After the rooms are reported the client lists, for each id, the first room that has it, and
/// keeps the messages of just the listed rooms. Nothing else changes.
pub proof fn lemma_reported_rooms_are_listed(
    backend: &mut MatrixBackend,
    event: MatrixBridgeEvent,
    r: bool,
    rooms: Seq<RoomInfoView>,
    i: int,
    id: Seq<char>,
)
    requires
        call_ensures(MatrixBackend::apply_event, (backend, event), r),
        event matches MatrixBridgeEvent::SyncRooms { generation, rooms: list } && list.deep_view()
            == rooms && generation == old(backend).sync_generation,
        0 <= i < rooms.len(),
        forall|j: int|
            0 <= j < i ==> trimmed((#[trigger] rooms[j]).id) != trimmed(rooms[i].id),
    ensures
        r,
        final(backend).rooms.deep_view().contains(rooms[i]),
        forall|room: RoomInfoView| #[trigger]
            final(backend).rooms.deep_view().contains(room) ==> rooms.contains(room),
        forall|p: int, q: int|
            0 <= p < q < final(backend).rooms.deep_view().len() ==> trimmed(
                (#[trigger] final(backend).rooms.deep_view()[p]).id,
            ) != trimmed((#[trigger] final(backend).rooms.deep_view()[q]).id),
        final(backend).messages@.contains_key(rooms[i].id)
            == old(backend).messages@.contains_key(rooms[i].id),
        final(backend).messages@.contains_key(id) ==> old(backend).messages@.contains_key(id)
            && final(backend).messages@[id] == old(backend).messages@[id] && exists|k: int|
            0 <= k < rooms.len() && (#[trigger] rooms[k]).id == id,
        final(backend).public_rooms.deep_view() == old(backend).public_rooms.deep_view(),
        final(backend).pending_verification.deep_view()
            == old(backend).pending_verification.deep_view(),
        final(backend).connection_status@ == old(backend).connection_status@,
{
    let after = final(backend).rooms.deep_view();
    assert(after == unique_rooms(rooms));
    assert forall|j: int| 0 <= j < i implies room_key(#[trigger] rooms[j]) != room_key(
        rooms[i],
    ) by {
        assert(trimmed(rooms[j].id) != trimmed(rooms[i].id));
    }
    lemma_first_of_its_key_is_kept(rooms, i);
    lemma_unique_rooms(rooms);
    assert forall|p: int, q: int| 0 <= p < q < after.len() implies trimmed(
        (#[trigger] after[p]).id,
    ) != trimmed((#[trigger] after[q]).id) by {
        assert(room_key(after[p]) != room_key(after[q]));
    }
    let p = choose|p: int| 0 <= p < after.len() && after[p] == rooms[i];
    assert(after[p].id == rooms[i].id);
    if final(backend).messages@.contains_key(id) {
        let q = choose|q: int| 0 <= q < after.len() && (#[trigger] after[q]).id == id;
        assert(after.contains(after[q]));
        let k = choose|k: int| 0 <= k < rooms.len() && rooms[k] == after[q];
        assert(rooms[k].id == id);
    }
}

/// A history that is loaded is merged into that of its room, and of no other. Nothing else changes.
pub proof fn lemma_loaded_history_is_of_its_room(
    backend: &mut MatrixBackend,
    event: MatrixBridgeEvent,
    r: bool,
    id: Seq<char>,
    messages: Seq<MatrixMessageView>,
)
    requires
        call_ensures(MatrixBackend::apply_event, (backend, event), r),
        event matches MatrixBridgeEvent::RoomHistory { generation, room_id, messages: m }
            && room_id@ == id && m.deep_view() == messages && generation
            == old(backend).sync_generation,
    ensures
        r,
        final(backend).messages@.contains_key(id),
        old(backend).messages@.contains_key(id) ==> final(backend).messages@[id] == merged(
            old(backend).messages@[id],
            messages,
        ),
        !old(backend).messages@.contains_key(id) ==> final(backend).messages@[id] == merged(
            Seq::empty(),
            messages,
        ),
        forall|other: Seq<char>|
            other != id ==> (#[trigger] final(backend).messages@.contains_key(other)
                == old(backend).messages@.contains_key(other)),
        forall|other: Seq<char>|
            other != id && old(backend).messages@.contains_key(other) ==> (
            #[trigger] final(backend).messages@[other]) == old(backend).messages@[other],
        final(backend).rooms.deep_view() == old(backend).rooms.deep_view(),
        final(backend).public_rooms.deep_view() == old(backend).public_rooms.deep_view(),
        final(backend).pending_verification.deep_view()
            == old(backend).pending_verification.deep_view(),
        final(backend).connection_status@ == old(backend).connection_status@,
{
}

/// A session reports the rooms that it collects, before it is up and after each sync, as long as
/// its generation is the current one: every joined room, described as it is. With the first report
/// it says that it is up.
pub proof fn lemma_collected_rooms_are_reported(flow: LoginFlowView, joined: Seq<JoinedRoomView>)
    requires
        flow.phase is FirstRooms || flow.phase is NextRooms,
    ensures
        ({
            let gate = login_after(flow, ReplyView::Rooms { rooms: joined });
            let asked = login_turn(flow, ReplyView::Rooms { rooms: joined }).steps;
            let steps = login_turn(
                gate,
                ReplyView::Generation { current: flow.generation },
            ).steps;
            &&& asked == seq![CommandView::ReadGeneration]
            &&& steps[0] matches CommandView::Emit { event }
            &&& event matches MatrixBridgeEventView::SyncRooms { generation, rooms }
            &&& generation == flow.generation
            &&& rooms.len() == joined.len()
            &&& forall|i: int| 0 <= i < rooms.len() ==> describes(#[trigger] rooms[i], joined[i])
            &&& flow.phase is FirstRooms ==> steps.contains(
                CommandView::Emit {
                    event: MatrixBridgeEventView::Connected { generation: flow.generation },
                },
            )
            &&& steps.last() == CommandView::ReadGeneration
            &&& login_after(
                gate,
                ReplyView::Generation { current: flow.generation },
            ).phase is SyncGate
        }),
{
    let gate = login_after(flow, ReplyView::Rooms { rooms: joined });
    let steps = login_turn(gate, ReplyView::Generation { current: flow.generation }).steps;
    if flow.phase is FirstRooms {
        assert(steps[1] == (CommandView::Emit {
            event: MatrixBridgeEventView::Connected { generation: flow.generation },
        }));
    }
}

/// A search that is still current shows the rooms that the directory gave in their order, all of
/// them up to twelve.
pub proof fn lemma_found_rooms_are_shown(
    search: &mut TaskFlow,
    gate: &mut TaskFlow,
    found: Vec<PublicRoomSearchResult>,
    asked: Vec<Command>,
    r: Vec<Command>,
)
    requires
        old(search).phase is Searching,
        call_ensures(
            TaskFlow::step,
            (search, Reply::Found { result: Ok::<Vec<PublicRoomSearchResult>, String>(found) }),
            asked,
        ),
        old(gate)@ == final(search)@,
        call_ensures(
            TaskFlow::step,
            (gate, Reply::Generation { current: old(search).generation }),
            r,
        ),
    ensures
        asked.len() == 1 && asked@[0] is ReadGeneration,
        r.len() == 2 && r@[1] is Stop,
        r@[0] matches Command::Emit { event } && (event matches
            MatrixBridgeEvent::PublicRoomsDiscovered { generation, rooms } && generation
            == old(search).generation && (found.len() <= 12 ==> rooms.len() == found.len()) && (
        found.len() > 12 ==> rooms.len() == 12) && forall|i: int|
            0 <= i < rooms.len() ==> (#[trigger] rooms@[i])@ == found@[i]@),
{
    let first = Reply::Found { result: Ok::<Vec<PublicRoomSearchResult>, String>(found) };
    let second = Reply::Generation { current: old(search).generation };
    assert(first@ == (ReplyView::Found {
        result: Ok::<Seq<PublicRoomSearchResultView>, Seq<char>>(found.deep_view()),
    }));
    assert(asked.deep_view() == task_turn(old(search)@, first@).steps);
    assert(r.deep_view() == task_turn(old(gate)@, second@).steps);
    assert(asked.deep_view().len() == asked@.len());
    assert(r.deep_view().len() == r@.len());
    assert(asked.deep_view()[0] == asked@[0]@);
    assert(r.deep_view()[0] == r@[0]@);
    assert(r.deep_view()[1] == r@[1]@);
    if let Command::Emit { event } = r@[0] {
        if let MatrixBridgeEvent::PublicRoomsDiscovered { rooms, .. } = event {
            assert(event@->PublicRoomsDiscovered_rooms == rooms.deep_view());
            assert forall|i: int| 0 <= i < rooms.len() implies (#[trigger] rooms@[i])@
                == found@[i]@ by {
                assert(rooms.deep_view()[i] == rooms@[i]@);
                assert(found.deep_view()[i] == found@[i]@);
            }
        }
    }
}

/// A search that fails is reported with what the server said; one that is no longer current reports
/// nothing.
pub proof fn lemma_failed_or_outdated_search(flow: TaskFlowView, error: Seq<char>, current: u64)
    ensures
        flow.phase is Searching ==> {
            let steps = task_turn(
                flow,
                ReplyView::Found { result: Err::<Seq<_>, Seq<char>>(error) },
            ).steps;
            &&& steps.len() == 2
            &&& steps[0] == (CommandView::Emit {
                event: MatrixBridgeEventView::ConnectionFailed {
                    generation: flow.generation,
                    error,
                },
            })
            &&& steps[1] is Stop
        },
        flow.phase is SearchGate && current != flow.generation ==> {
            let steps = task_turn(flow, ReplyView::Generation { current }).steps;
            steps.len() == 1 && steps[0] is Stop
        },
{
}

/// What a search found is what the client has found from then on. Nothing else changes.
pub proof fn lemma_found_rooms_are_kept(
    backend: &mut MatrixBackend,
    event: MatrixBridgeEvent,
    r: bool,
    rooms: Vec<PublicRoomSearchResult>,
)
    requires
        call_ensures(MatrixBackend::apply_event, (backend, event), r),
        event matches MatrixBridgeEvent::PublicRoomsDiscovered { generation, rooms: list } && list
            == rooms && generation == old(backend).sync_generation,
    ensures
        r,
        final(backend).public_rooms.deep_view() == rooms.deep_view(),
        final(backend).rooms.deep_view() == old(backend).rooms.deep_view(),
        final(backend).messages@ == old(backend).messages@,
        final(backend).pending_verification.deep_view()
            == old(backend).pending_verification.deep_view(),
        final(backend).connection_status@ == old(backend).connection_status@,
{
}

/// To leave a room keeps the order of the others: one more room at the end of the list is one more
/// at the end of what is left, unless it is the room that is left.
pub proof fn lemma_left_rooms_keep_their_order(b: BackendView, room: RoomInfoView, id: Seq<char>)
    ensures
        ({
            let more = BackendView { rooms: b.rooms.push(room), ..b };
            &&& room.id == id ==> left(more, id).rooms == left(b, id).rooms
            &&& room.id != id ==> left(more, id).rooms == left(b, id).rooms.push(room)
        }),
        left(BackendView { rooms: Seq::empty(), ..b }, id).rooms.len() == 0,
{
    reveal(Seq::filter);
    assert(b.rooms.push(room).drop_last() =~= b.rooms);
}

} // verus!
