//! Histories by room.

use super::history::{add_message, merged, with_message};
use super::rooms::{has_room, room_ids};
use super::types::{MatrixMessage, MatrixMessageView, RoomInfo};
use super::client::MatrixBackend;
use crate::text::same_text;
use vstd::prelude::*;

verus! {

/// The history of one room.
#[derive(Debug)]
struct RoomMessages {
    room_id: String,
    messages: Vec<MatrixMessage>,
}

/// The histories of rooms by room id.
#[derive(Debug)]
pub struct MessageStore {
    entries: Vec<RoomMessages>,
}

/// The history that stands first under `id`.
spec fn lookup(entries: Seq<RoomMessages>, id: Seq<char>) -> Option<Seq<MatrixMessageView>>
    decreases entries.len(),
{
    if entries.len() == 0 {
        None
    } else {
        match lookup(entries.drop_last(), id) {
            Some(found) => Some(found),
            None => if entries.last().room_id@ == id {
                Some(entries.last().messages.deep_view())
            } else {
                None
            },
        }
    }
}

/// The history of the room `id`; none so far where the store has no history of it.
pub open spec fn history_of(
    histories: Map<Seq<char>, Seq<MatrixMessageView>>,
    id: Seq<char>,
) -> Seq<MatrixMessageView> {
    if histories.contains_key(id) {
        histories[id]
    } else {
        Seq::empty()
    }
}

impl View for MessageStore {
    type V = Map<Seq<char>, Seq<MatrixMessageView>>;

    closed spec fn view(&self) -> Map<Seq<char>, Seq<MatrixMessageView>> {
        Map::new(
            |id: Seq<char>| lookup(self.entries@, id) is Some,
            |id: Seq<char>| lookup(self.entries@, id)->0,
        )
    }
}

proof fn lemma_lookup_push(entries: Seq<RoomMessages>, e: RoomMessages, id: Seq<char>)
    ensures
        lookup(entries.push(e), id) == match lookup(entries, id) {
            Some(found) => Some(found),
            None => if e.room_id@ == id {
                Some(e.messages.deep_view())
            } else {
                None
            },
        },
{
    assert(entries.push(e).drop_last() =~= entries);
}

proof fn lemma_lookup_at(entries: Seq<RoomMessages>, i: int, id: Seq<char>)
    requires
        0 <= i <= entries.len(),
        forall|k: int| 0 <= k < i ==> (#[trigger] entries[k]).room_id@ != id,
        i < entries.len() ==> entries[i].room_id@ == id,
    ensures
        lookup(entries, id) == if i < entries.len() {
            Some(entries[i].messages.deep_view())
        } else {
            None
        },
    decreases entries.len(),
{
    if i < entries.len() {
        lemma_lookup_at(entries.drop_last(), i, id);
    } else if entries.len() > 0 {
        lemma_lookup_at(entries.drop_last(), i - 1, id);
    }
}

/// Replacing the messages of the first entry of a room leaves the other rooms alone.
proof fn lemma_lookup_update(
    entries: Seq<RoomMessages>,
    i: int,
    e: RoomMessages,
    id: Seq<char>,
)
    requires
        0 <= i < entries.len(),
        e.room_id@ == entries[i].room_id@,
        forall|k: int| 0 <= k < i ==> (#[trigger] entries[k]).room_id@ != entries[i].room_id@,
    ensures
        lookup(entries.update(i, e), id) == if id == e.room_id@ {
            Some(e.messages.deep_view())
        } else {
            lookup(entries, id)
        },
    decreases entries.len(),
{
    let out = entries.update(i, e);
    if id == e.room_id@ {
        lemma_lookup_at(out, i, id);
    } else if i < entries.len() - 1 {
        lemma_lookup_update(entries.drop_last(), i, e, id);
        assert(out.drop_last() =~= entries.drop_last().update(i, e));
    } else {
        assert(out.drop_last() =~= entries.drop_last());
    }
}

/// Replacing the messages of the first entry of a room replaces the history of that room alone,
/// also where the entry was made for it.
proof fn lemma_history_replaced(
    start: Map<Seq<char>, Seq<MatrixMessageView>>,
    before: MessageStore,
    after: MessageStore,
    i: int,
    id: Seq<char>,
)
    requires
        before@ == start.insert(id, before.entries@[i].messages.deep_view()),
        0 <= i < before.entries@.len(),
        after.entries@ == before.entries@.update(i, after.entries@[i]),
        forall|k: int| 0 <= k < i ==> (#[trigger] before.entries@[k]).room_id@ != id,
        before.entries@[i].room_id@ == id,
        after.entries@[i].room_id@ == id,
    ensures
        after@ == start.insert(id, after.entries@[i].messages.deep_view()),
{
    let e = after.entries@[i];
    assert forall|key: Seq<char>|
        lookup(after.entries@, key) == if key == id {
            Some(e.messages.deep_view())
        } else {
            lookup(before.entries@, key)
        } by {
        lemma_lookup_update(before.entries@, i, e, key);
    }
    assert(after@ =~= before@.insert(id, e.messages.deep_view()));
    assert(after@ =~= start.insert(id, e.messages.deep_view()));
}

impl MessageStore {
    /// A store without any history.
    pub fn new() -> (r: MessageStore)
        ensures
            r@ == Map::<Seq<char>, Seq<MatrixMessageView>>::empty(),
    {
        let r = MessageStore { entries: Vec::new() };
        assert(r@ =~= Map::<Seq<char>, Seq<MatrixMessageView>>::empty());
        r
    }

    /// The place of the first entry of the room `id`, or the number of entries.
    fn position(&self, id: &str) -> (r: usize)
        ensures
            r <= self.entries@.len(),
            forall|k: int| 0 <= k < r ==> (#[trigger] self.entries@[k]).room_id@ != id@,
            r < self.entries@.len() ==> self.entries@[r as int].room_id@ == id@,
    {
        let mut i: usize = 0;
        while i < self.entries.len()
            invariant
                i <= self.entries.len(),
                forall|k: int| 0 <= k < i ==> (#[trigger] self.entries@[k]).room_id@ != id@,
            decreases self.entries.len() - i,
        {
            if same_text(self.entries[i].room_id.as_str(), id) {
                return i;
            }
            i = i + 1;
        }
        i
    }

    /// The history of the room `id`, if the store has one.
    pub fn get(&self, id: &str) -> (r: Option<&Vec<MatrixMessage>>)
        ensures
            r is Some <==> self@.contains_key(id@),
            r matches Some(history) ==> history.deep_view() == self@[id@],
    {
        let i: usize = self.position(id);
        proof {
            lemma_lookup_at(self.entries@, i as int, id@);
        }
        if i < self.entries.len() {
            Some(&self.entries[i].messages)
        } else {
            None
        }
    }

    /// Merges `incoming` into the history of the room `id`.
    pub fn merge(&mut self, id: String, incoming: Vec<MatrixMessage>)
        ensures
            final(self)@ == old(self)@.insert(
                id@,
                merged(history_of(old(self)@, id@), incoming.deep_view()),
            ),
    {
        let i: usize = self.entry(id);
        let ghost before = *self;
        MatrixBackend::merge_room_history(&mut self.entries[i].messages, incoming);
        proof {
            lemma_history_replaced(old(self)@, before, *self, i as int, id@);
        }
    }

    /// Adds `message` to the history of its room, unless it is known there.
    pub fn add(&mut self, message: MatrixMessage)
        ensures
            final(self)@ == old(self)@.insert(
                message@.room_id,
                with_message(history_of(old(self)@, message@.room_id), message@),
            ),
    {
        let id: String = message.room_id.clone();
        let i: usize = self.entry(id);
        let ghost before = *self;
        add_message(&mut self.entries[i].messages, message);
        proof {
            lemma_history_replaced(old(self)@, before, *self, i as int, id@);
        }
    }

    /// The place of the entry of the room `id`, which is made where there is none.
    fn entry(&mut self, id: String) -> (r: usize)
        ensures
            r < final(self).entries@.len(),
            forall|k: int| 0 <= k < r ==> (#[trigger] final(self).entries@[k]).room_id@ != id@,
            final(self).entries@[r as int].room_id@ == id@,
            final(self).entries@[r as int].messages.deep_view() == history_of(old(self)@, id@),
            final(self)@ == old(self)@.insert(id@, history_of(old(self)@, id@)),
    {
        let i: usize = self.position(id.as_str());
        let ghost raw = self.entries@;
        proof {
            lemma_lookup_at(raw, i as int, id@);
        }
        if i == self.entries.len() {
            let e = RoomMessages { room_id: id, messages: Vec::new() };
            self.entries.push(e);
            proof {
                assert forall|key: Seq<char>|
                    lookup(self.entries@, key) == if key == id@ {
                        Some(Seq::<MatrixMessageView>::empty())
                    } else {
                        lookup(raw, key)
                    } by {
                    lemma_lookup_push(raw, e, key);
                    assert(e.messages.deep_view() =~= Seq::<MatrixMessageView>::empty());
                }
            }
        }
        assert(self@ =~= old(self)@.insert(id@, history_of(old(self)@, id@)));
        i
    }

    /// Drops the history of the room `id`.
    pub fn remove(&mut self, id: &str)
        ensures
            final(self)@ == old(self)@.remove(id@),
    {
        let ghost raw = self.entries@;
        let mut source: Vec<RoomMessages> = Vec::new();
        std::mem::swap(&mut source, &mut self.entries);
        assert(raw.take(0) =~= Seq::<RoomMessages>::empty());
        for e in it: source
            invariant
                it.seq() == raw,
                forall|key: Seq<char>| #[trigger]
                    lookup(self.entries@, key) == if key == id@ {
                        None
                    } else {
                        lookup(raw.take(it.index() as int), key)
                    },
        {
            let ghost kept = self.entries@;
            let ghost n = it.index() as int;
            assert(raw.take(n + 1) =~= raw.take(n).push(e));
            let keep: bool = !same_text(e.room_id.as_str(), id);
            if keep {
                self.entries.push(e);
            }
            proof {
                assert forall|key: Seq<char>| #[trigger]
                    lookup(self.entries@, key) == if key == id@ {
                        None
                    } else {
                        lookup(raw.take(n + 1), key)
                    } by {
                    assert(lookup(kept, key) == if key == id@ {
                        None
                    } else {
                        lookup(raw.take(n), key)
                    });
                    lemma_lookup_push(raw.take(n), e, key);
                    if keep {
                        lemma_lookup_push(kept, e, key);
                    }
                }
            }
        }
        assert(raw.take(raw.len() as int) =~= raw);
        assert(self@ =~= old(self)@.remove(id@));
    }

    /// Keeps the histories of the listed rooms only.
    pub fn retain_rooms(&mut self, rooms: &Vec<RoomInfo>)
        ensures
            final(self)@ == old(self)@.restrict(room_ids(rooms.deep_view())),
    {
        let ghost raw = self.entries@;
        let ghost ids = room_ids(rooms.deep_view());
        let mut source: Vec<RoomMessages> = Vec::new();
        std::mem::swap(&mut source, &mut self.entries);
        assert(raw.take(0) =~= Seq::<RoomMessages>::empty());
        for e in it: source
            invariant
                it.seq() == raw,
                ids == room_ids(rooms.deep_view()),
                forall|key: Seq<char>| #[trigger]
                    lookup(self.entries@, key) == if ids.contains(key) {
                        lookup(raw.take(it.index() as int), key)
                    } else {
                        None
                    },
        {
            let ghost kept = self.entries@;
            let ghost n = it.index() as int;
            assert(raw.take(n + 1) =~= raw.take(n).push(e));
            let keep: bool = has_room(rooms, e.room_id.as_str());
            if keep {
                self.entries.push(e);
            }
            proof {
                assert forall|key: Seq<char>| #[trigger]
                    lookup(self.entries@, key) == if ids.contains(key) {
                        lookup(raw.take(n + 1), key)
                    } else {
                        None
                    } by {
                    assert(lookup(kept, key) == if ids.contains(key) {
                        lookup(raw.take(n), key)
                    } else {
                        None
                    });
                    lemma_lookup_push(raw.take(n), e, key);
                    if keep {
                        lemma_lookup_push(kept, e, key);
                    }
                }
            }
        }
        assert(raw.take(raw.len() as int) =~= raw);
        assert(self@ =~= old(self)@.restrict(ids));
    }
}

} // verus!
