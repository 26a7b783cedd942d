//! Lists of joined rooms.

use super::client::MatrixBackend;
use super::types::{RoomInfo, RoomInfoView};
use crate::text::{same_text, trim, trimmed};
use vstd::prelude::*;

verus! {

/// What tells rooms of a list apart: the id without surrounding white space.
pub open spec fn room_key(room: RoomInfoView) -> Seq<char> {
    trimmed(room.id)
}

/// Whether a room of `rooms` has the key `key`.
pub open spec fn lists_key(rooms: Seq<RoomInfoView>, key: Seq<char>) -> bool {
    exists|i: int| 0 <= i < rooms.len() && room_key(#[trigger] rooms[i]) == key
}

/// The rooms of `rooms` whose key no earlier room has, in their order.
pub open spec fn unique_rooms(rooms: Seq<RoomInfoView>) -> Seq<RoomInfoView>
    decreases rooms.len(),
{
    if rooms.len() == 0 {
        rooms
    } else {
        let front = unique_rooms(rooms.drop_last());
        if lists_key(front, room_key(rooms.last())) {
            front
        } else {
            front.push(rooms.last())
        }
    }
}

/// Whether no two rooms of `rooms` have the same key.
pub open spec fn distinct_rooms(rooms: Seq<RoomInfoView>) -> bool {
    forall|i: int, j: int|
        0 <= i < j < rooms.len() ==> room_key(#[trigger] rooms[i]) != room_key(#[trigger] rooms[j])
}

/// The ids of `rooms`.
pub open spec fn room_ids(rooms: Seq<RoomInfoView>) -> Set<Seq<char>> {
    Set::new(|id: Seq<char>| exists|i: int| 0 <= i < rooms.len() && (#[trigger] rooms[i]).id == id)
}

/// The rooms of `rooms` with another id than `id`, in their order.
pub open spec fn rooms_without(rooms: Seq<RoomInfoView>, id: Seq<char>) -> Seq<RoomInfoView> {
    rooms.filter(|room: RoomInfoView| room.id != id)
}

/// Deduplication leaves no two rooms with one key, keeps a room for every key, and adds no room.
pub proof fn lemma_unique_rooms(rooms: Seq<RoomInfoView>)
    ensures
        distinct_rooms(unique_rooms(rooms)),
        forall|key: Seq<char>| #[trigger]
            lists_key(unique_rooms(rooms), key) == lists_key(rooms, key),
        forall|room: RoomInfoView| #[trigger]
            unique_rooms(rooms).contains(room) ==> rooms.contains(room),
    decreases rooms.len(),
{
    if rooms.len() > 0 {
        let init = rooms.drop_last();
        let front = unique_rooms(init);
        let last = rooms.last();
        let out = unique_rooms(rooms);
        lemma_unique_rooms(init);
        assert forall|key: Seq<char>| #[trigger] lists_key(out, key) == lists_key(rooms, key) by {
            assert(lists_key(front, key) == lists_key(init, key));
            if lists_key(out, key) {
                let i = choose|i: int| 0 <= i < out.len() && room_key(#[trigger] out[i]) == key;
                if i < front.len() {
                    assert(room_key(front[i]) == key);
                    let j = choose|j: int|
                        0 <= j < init.len() && room_key(#[trigger] init[j]) == key;
                    assert(room_key(rooms[j]) == key);
                } else {
                    assert(room_key(rooms[rooms.len() - 1]) == key);
                }
            }
            if lists_key(rooms, key) {
                let i = choose|i: int| 0 <= i < rooms.len() && room_key(#[trigger] rooms[i]) == key;
                if i < init.len() {
                    assert(room_key(init[i]) == key);
                    let j = choose|j: int|
                        0 <= j < front.len() && room_key(#[trigger] front[j]) == key;
                    assert(room_key(out[j]) == key);
                } else if !lists_key(front, room_key(last)) {
                    assert(room_key(out[front.len() as int]) == key);
                }
            }
        }
        assert forall|i: int, j: int| 0 <= i < j < out.len() implies room_key(#[trigger] out[i])
            != room_key(#[trigger] out[j]) by {
            if j < front.len() {
                assert(room_key(front[i]) != room_key(front[j]));
            } else {
                assert(room_key(front[i]) == room_key(out[i]));
            }
        }
        assert forall|room: RoomInfoView| #[trigger] out.contains(room) implies rooms.contains(
            room,
        ) by {
            let i = choose|i: int| 0 <= i < out.len() && out[i] == room;
            if i < front.len() {
                assert(front.contains(room));
                let j = choose|j: int| 0 <= j < init.len() && init[j] == room;
                assert(rooms[j] == room);
            } else {
                assert(rooms[rooms.len() - 1] == room);
            }
        }
    }
}

/// A list without double keys is left as it is by deduplication.
pub proof fn lemma_unique_rooms_is_idempotent(rooms: Seq<RoomInfoView>)
    ensures
        distinct_rooms(rooms) ==> unique_rooms(rooms) == rooms,
        unique_rooms(unique_rooms(rooms)) == unique_rooms(rooms),
{
    lemma_unique_rooms(rooms);
    lemma_distinct_stays(unique_rooms(rooms));
    if distinct_rooms(rooms) {
        lemma_distinct_stays(rooms);
    }
}

proof fn lemma_distinct_stays(rooms: Seq<RoomInfoView>)
    requires
        distinct_rooms(rooms),
    ensures
        unique_rooms(rooms) == rooms,
    decreases rooms.len(),
{
    if rooms.len() > 0 {
        let init = rooms.drop_last();
        lemma_distinct_stays(init);
        if lists_key(init, room_key(rooms.last())) {
            let i = choose|i: int|
                0 <= i < init.len() && room_key(#[trigger] init[i]) == room_key(rooms.last());
            assert(room_key(rooms[i]) != room_key(rooms[rooms.len() - 1]));
        }
        assert(rooms =~= init.push(rooms.last()));
    }
}

/// Some rooms of a list have distinct keys where those of the list are.
pub proof fn lemma_filtered_rooms_stay_distinct(
    rooms: Seq<RoomInfoView>,
    keep: spec_fn(RoomInfoView) -> bool,
)
    requires
        distinct_rooms(rooms),
    ensures
        distinct_rooms(rooms.filter(keep)),
    decreases rooms.len(),
{
    reveal(Seq::filter);
    let out = rooms.filter(keep);
    if rooms.len() > 0 {
        let init = rooms.drop_last();
        let front = init.filter(keep);
        lemma_filtered_rooms_stay_distinct(init, keep);
        assert forall|i: int, j: int| 0 <= i < j < out.len() implies room_key(#[trigger] out[i])
            != room_key(#[trigger] out[j]) by {
            if j < front.len() {
                assert(room_key(front[i]) != room_key(front[j]));
            } else {
                assert(front.contains(front[i]));
                init.lemma_filter_contains_rev(keep, front[i]);
                let k = choose|k: int| 0 <= k < init.len() && init[k] == front[i];
                assert(room_key(rooms[k]) != room_key(rooms[rooms.len() - 1]));
            }
        }
    }
}

/// Taking a room off a list keeps its keys distinct.
pub proof fn lemma_rooms_without_stay_distinct(rooms: Seq<RoomInfoView>, id: Seq<char>)
    requires
        distinct_rooms(rooms),
    ensures
        distinct_rooms(rooms_without(rooms, id)),
        !room_ids(rooms_without(rooms, id)).contains(id),
{
    let keep = |room: RoomInfoView| room.id != id;
    let out = rooms_without(rooms, id);
    lemma_filtered_rooms_stay_distinct(rooms, keep);
    if room_ids(out).contains(id) {
        let i = choose|i: int| 0 <= i < out.len() && (#[trigger] out[i]).id == id;
        rooms.lemma_filter_pred(keep, i);
    }
}

/// A joined room as the homeserver's client library describes it: its name and whether it is a
/// direct chat are absent where they could not be found out.
#[derive(Debug)]
pub struct JoinedRoom {
    pub room_id: String,
    pub display_name: Option<String>,
    pub is_direct: Option<bool>,
}

/// The contents of a [`JoinedRoom`].
#[verifier::ext_equal]
pub struct JoinedRoomView {
    pub room_id: Seq<char>,
    pub display_name: Option<Seq<char>>,
    pub is_direct: Option<bool>,
}

impl View for JoinedRoom {
    type V = JoinedRoomView;

    open spec fn view(&self) -> JoinedRoomView {
        JoinedRoomView {
            room_id: self.room_id@,
            display_name: self.display_name.deep_view(),
            is_direct: self.is_direct,
        }
    }
}

impl DeepView for JoinedRoom {
    type V = JoinedRoomView;

    open spec fn deep_view(&self) -> JoinedRoomView {
        self@
    }
}

/// How a joined room is listed: under its id where it has no name, and as a group room where
/// nothing else is known.
pub open spec fn listed(room: JoinedRoomView) -> RoomInfoView {
    RoomInfoView {
        id: room.room_id,
        display_name: match room.display_name {
            Some(name) => name,
            None => room.room_id,
        },
        is_direct: room.is_direct == Some(true),
    }
}

impl MatrixBackend {
    /// Drops the rooms whose id, without surrounding white space, an earlier room has.
    pub fn dedupe_rooms(rooms: Vec<RoomInfo>) -> (r: Vec<RoomInfo>)
        ensures
            r.deep_view() == unique_rooms(rooms.deep_view()),
    {
        let ghost all = rooms.deep_view();
        let mut deduped: Vec<RoomInfo> = Vec::new();
        let mut seen_room_ids: Vec<String> = Vec::new();
        assert(all.take(0) =~= Seq::<RoomInfoView>::empty());
        assert(deduped.deep_view() =~= unique_rooms(all.take(0)));
        for room in it: rooms
            invariant
                it.seq().len() == all.len(),
                forall|k: int| 0 <= k < all.len() ==> #[trigger] it.seq()[k]@ == all[k],
                deduped.deep_view() == unique_rooms(all.take(it.index() as int)),
                seen_room_ids.len() == deduped.len(),
                forall|k: int|
                    0 <= k < deduped.len() ==> #[trigger] seen_room_ids[k]@ == room_key(
                        deduped.deep_view()[k],
                    ),
        {
            let ghost front = deduped.deep_view();
            proof {
                assert(all.take(it.index() + 1).drop_last() =~= all.take(it.index() as int));
                assert(room@ == all[it.index() as int]);
            }
            let room_key: String = trim(room.id.as_str()).to_owned();
            let mut seen: bool = false;
            let mut i: usize = 0;
            while i < seen_room_ids.len()
                invariant
                    i <= seen_room_ids.len() == front.len(),
                    forall|k: int|
                        0 <= k < front.len() ==> #[trigger] seen_room_ids[k]@ == self::room_key(
                            front[k],
                        ),
                    seen == exists|k: int|
                        0 <= k < i && self::room_key(#[trigger] front[k]) == room_key@,
                decreases seen_room_ids.len() - i,
            {
                if seen_room_ids[i] == room_key {
                    assert(self::room_key(front[i as int]) == room_key@);
                    seen = true;
                }
                i = i + 1;
            }
            assert(seen == lists_key(front, room_key@));
            if !seen {
                seen_room_ids.push(room_key);
                deduped.push(room);
                assert(deduped.deep_view() =~= front.push(room@));
            }
        }
        assert(all.take(all.len() as int) =~= all);
        deduped
    }

    /// Lists the joined rooms.
    pub fn collect_joined_rooms(joined: Vec<JoinedRoom>) -> (r: Vec<RoomInfo>)
        ensures
            r.deep_view() == joined.deep_view().map_values(|room: JoinedRoomView| listed(room)),
    {
        let ghost all = joined.deep_view();
        let mut rooms: Vec<RoomInfo> = Vec::new();
        for room in it: joined
            invariant
                it.seq().len() == all.len(),
                forall|k: int| 0 <= k < all.len() ==> #[trigger] it.seq()[k]@ == all[k],
                rooms.len() == it.index(),
                forall|k: int| 0 <= k < rooms.len() ==> #[trigger] rooms[k]@ == listed(all[k]),
        {
            assert(room@ == all[it.index() as int]);
            let JoinedRoom { room_id, display_name, is_direct } = room;
            let display_name: String = match display_name {
                Some(name) => name,
                None => room_id.clone(),
            };
            let is_direct: bool = match is_direct {
                Some(value) => value,
                None => false,
            };
            rooms.push(RoomInfo { id: room_id, display_name, is_direct });
        }
        assert(rooms.deep_view() =~= all.map_values(|room: JoinedRoomView| listed(room)));
        rooms
    }
}

/// Takes the rooms with the id `id` off the list.
pub fn remove_room(rooms: &mut Vec<RoomInfo>, id: &str)
    ensures
        final(rooms).deep_view() == rooms_without(old(rooms).deep_view(), id@),
{
    let ghost all = rooms.deep_view();
    let ghost pred = |room: RoomInfoView| room.id != id@;
    let mut source: Vec<RoomInfo> = Vec::new();
    std::mem::swap(&mut source, rooms);
    assert(all.take(0) =~= Seq::<RoomInfoView>::empty());
    proof {
        reveal(Seq::filter);
    }
    assert(rooms.deep_view() =~= rooms_without(all.take(0), id@));
    for room in it: source
        invariant
            it.seq().len() == all.len(),
            forall|k: int| 0 <= k < all.len() ==> #[trigger] it.seq()[k]@ == all[k],
            rooms.deep_view() == rooms_without(all.take(it.index() as int), id@),
    {
        let ghost front = rooms.deep_view();
        proof {
            reveal(Seq::filter);
            assert(all.take(it.index() + 1).drop_last() =~= all.take(it.index() as int));
            assert(room@ == all[it.index() as int]);
        }
        if !same_text(room.id.as_str(), id) {
            rooms.push(room);
            assert(rooms.deep_view() =~= front.push(room@));
        }
    }
    assert(all.take(all.len() as int) =~= all);
}

/// Whether a room of the list has the id `id`.
pub fn has_room(rooms: &Vec<RoomInfo>, id: &str) -> (r: bool)
    ensures
        r == room_ids(rooms.deep_view()).contains(id@),
{
    let ghost all = rooms.deep_view();
    let mut i: usize = 0;
    while i < rooms.len()
        invariant
            i <= rooms.len(),
            all == rooms.deep_view(),
            forall|k: int| 0 <= k < i ==> (#[trigger] all[k]).id != id@,
        decreases rooms.len() - i,
    {
        if same_text(rooms[i].id.as_str(), id) {
            assert(all[i as int].id == id@);
            return true;
        }
        i = i + 1;
    }
    false
}

} // verus!
