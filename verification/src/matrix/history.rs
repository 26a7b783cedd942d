//! Room histories: which messages count as the same, and how histories are merged.

use super::client::MatrixBackend;
use super::types::{MatrixMessage, MatrixMessageView};
use vstd::prelude::*;

verus! {

/// Two messages without an event id on both sides are compared by their text, and count as the
/// same only this close in time.
pub const ECHO_WINDOW_MS: u64 = 5_000;

/// Whether `a` and `b` are the same message of the same room. Event ids decide where both have
/// one. Otherwise, as with a local echo, it is sender, text and nearness in time.
pub open spec fn same_message(a: MatrixMessageView, b: MatrixMessageView) -> bool {
    &&& a.room_id == b.room_id
    &&& match (a.event_id, b.event_id) {
        (Some(x), Some(y)) => x == y,
        _ => {
            &&& a.sender == b.sender
            &&& a.body == b.body
            &&& a.timestamp - b.timestamp <= ECHO_WINDOW_MS
            &&& b.timestamp - a.timestamp <= ECHO_WINDOW_MS
        },
    }
}

/// Whether `history` holds a message that is the same as `m`.
pub open spec fn knows(history: Seq<MatrixMessageView>, m: MatrixMessageView) -> bool {
    exists|i: int| 0 <= i < history.len() && same_message(#[trigger] history[i], m)
}

/// Whether no two messages of `history` are the same.
pub open spec fn no_doubles(history: Seq<MatrixMessageView>) -> bool {
    forall|i: int, j: int|
        0 <= i < j < history.len() ==> !same_message(#[trigger] history[i], #[trigger] history[j])
}

/// `history` with `m` at its end, unless it knows `m` already.
pub open spec fn with_message(history: Seq<MatrixMessageView>, m: MatrixMessageView) -> Seq<
    MatrixMessageView,
> {
    if knows(history, m) {
        history
    } else {
        history.push(m)
    }
}

/// `history` with each message of `incoming`, in turn, that it does not know by then.
pub open spec fn with_messages(
    history: Seq<MatrixMessageView>,
    incoming: Seq<MatrixMessageView>,
) -> Seq<MatrixMessageView>
    decreases incoming.len(),
{
    if incoming.len() == 0 {
        history
    } else {
        with_message(with_messages(history, incoming.drop_last()), incoming.last())
    }
}

/// Whether no message stands behind a later one.
pub open spec fn in_time_order(history: Seq<MatrixMessageView>) -> bool {
    forall|i: int, j: int|
        0 <= i <= j < history.len() ==> (#[trigger] history[i]).timestamp <= (
        #[trigger] history[j]).timestamp
}

/// The messages of `history` with the timestamp `t`, in their order.
pub open spec fn at_time(history: Seq<MatrixMessageView>, t: u64) -> Seq<MatrixMessageView> {
    history.filter(|m: MatrixMessageView| m.timestamp == t)
}

/// Whether `after` holds the messages of `before` in time order, those of one time in the order
/// that they had.
pub open spec fn stably_sorted(
    before: Seq<MatrixMessageView>,
    after: Seq<MatrixMessageView>,
) -> bool {
    &&& in_time_order(after)
    &&& forall|t: u64| #[trigger] at_time(after, t) == at_time(before, t)
}

/// `history` with `m` behind its last message that is not later than `m`.
pub open spec fn insert_in_time(history: Seq<MatrixMessageView>, m: MatrixMessageView) -> Seq<
    MatrixMessageView,
>
    decreases history.len(),
{
    if history.len() == 0 || history.last().timestamp <= m.timestamp {
        history.push(m)
    } else {
        insert_in_time(history.drop_last(), m).push(history.last())
    }
}

/// The messages of `history` in time order, those of one time in the order that they have.
pub open spec fn time_sorted(history: Seq<MatrixMessageView>) -> Seq<MatrixMessageView>
    decreases history.len(),
{
    if history.len() == 0 {
        history
    } else {
        insert_in_time(time_sorted(history.drop_last()), history.last())
    }
}

/// `history` after the messages of `incoming` that it does not know were added and all were put
/// in time order.
pub open spec fn merged(
    history: Seq<MatrixMessageView>,
    incoming: Seq<MatrixMessageView>,
) -> Seq<MatrixMessageView> {
    time_sorted(with_messages(history, incoming))
}

proof fn lemma_at_time_push(h: Seq<MatrixMessageView>, m: MatrixMessageView, t: u64)
    ensures
        at_time(h.push(m), t) == if m.timestamp == t {
            at_time(h, t).push(m)
        } else {
            at_time(h, t)
        },
{
    reveal(Seq::filter);
    assert(h.push(m).drop_last() =~= h);
}

/// In a history in time order whose messages are all later than `t` there is none of time `t`.
proof fn lemma_at_time_none(h: Seq<MatrixMessageView>, t: u64)
    requires
        forall|i: int| 0 <= i < h.len() ==> (#[trigger] h[i]).timestamp != t,
    ensures
        at_time(h, t) == Seq::<MatrixMessageView>::empty(),
    decreases h.len(),
{
    reveal(Seq::filter);
    if h.len() > 0 {
        lemma_at_time_none(h.drop_last(), t);
    }
}

proof fn lemma_insert_in_time(h: Seq<MatrixMessageView>, m: MatrixMessageView)
    requires
        in_time_order(h),
    ensures
        in_time_order(insert_in_time(h, m)),
        insert_in_time(h, m).len() == h.len() + 1,
        forall|i: int|
            0 <= i <= h.len() ==> (#[trigger] insert_in_time(h, m)[i]).timestamp <= if h.len()
                == 0 || h.last().timestamp <= m.timestamp {
                m.timestamp
            } else {
                h.last().timestamp
            },
        forall|t: u64| #[trigger]
            at_time(insert_in_time(h, m), t) == at_time(h.push(m), t),
    decreases h.len(),
{
    if h.len() == 0 || h.last().timestamp <= m.timestamp {
    } else {
        let front = h.drop_last();
        let last = h.last();
        lemma_insert_in_time(front, m);
        let inner = insert_in_time(front, m);
        assert forall|t: u64| #[trigger] at_time(insert_in_time(h, m), t) == at_time(
            h.push(m),
            t,
        ) by {
            lemma_at_time_push(inner, last, t);
            lemma_at_time_push(front, m, t);
            lemma_at_time_push(front, last, t);
            assert(front.push(last) =~= h);
            lemma_at_time_push(h, m, t);
        }
        assert forall|i: int, j: int| 0 <= i <= j < insert_in_time(h, m).len() implies (
        #[trigger] insert_in_time(h, m)[i]).timestamp <= (
        #[trigger] insert_in_time(h, m)[j]).timestamp by {
            if j < inner.len() {
                assert(inner[i].timestamp <= inner[j].timestamp);
            }
        }
    }
}

/// Sorting puts every message in time order and keeps the order among messages of one time.
pub proof fn lemma_time_sorted_is_stable(h: Seq<MatrixMessageView>)
    ensures
        stably_sorted(h, time_sorted(h)),
    decreases h.len(),
{
    if h.len() > 0 {
        let front = h.drop_last();
        lemma_time_sorted_is_stable(front);
        lemma_insert_in_time(time_sorted(front), h.last());
        assert forall|t: u64| #[trigger] at_time(time_sorted(h), t) == at_time(h, t) by {
            assert(at_time(time_sorted(front), t) == at_time(front, t));
            lemma_at_time_push(time_sorted(front), h.last(), t);
            lemma_at_time_push(front, h.last(), t);
            assert(front.push(h.last()) =~= h);
        }
    }
}

/// Sorting loses no message and adds none.
pub proof fn lemma_stable_sort_keeps_messages(
    before: Seq<MatrixMessageView>,
    after: Seq<MatrixMessageView>,
    m: MatrixMessageView,
)
    requires
        stably_sorted(before, after),
    ensures
        after.contains(m) <==> before.contains(m),
{
    let pred = |x: MatrixMessageView| x.timestamp == m.timestamp;
    let t = m.timestamp;
    assert(at_time(after, t) == at_time(before, t));
    if before.contains(m) {
        let i = choose|i: int| 0 <= i < before.len() && before[i] == m;
        before.lemma_filter_contains(pred, i);
        assert(at_time(before, t).contains(m));
        after.lemma_filter_contains_rev(pred, m);
    }
    if after.contains(m) {
        let i = choose|i: int| 0 <= i < after.len() && after[i] == m;
        after.lemma_filter_contains(pred, i);
        assert(at_time(after, t).contains(m));
        before.lemma_filter_contains_rev(pred, m);
    }
}

/// Being a stable sort of a history determines the outcome.
pub proof fn lemma_stable_sort_is_unique(
    before: Seq<MatrixMessageView>,
    a: Seq<MatrixMessageView>,
    b: Seq<MatrixMessageView>,
)
    requires
        stably_sorted(before, a),
        stably_sorted(before, b),
    ensures
        a == b,
{
    assert forall|t: u64| #[trigger] at_time(a, t) == at_time(b, t) by {
        assert(at_time(a, t) == at_time(before, t));
        assert(at_time(b, t) == at_time(before, t));
    }
    lemma_same_times_same_history(a, b);
}

proof fn lemma_last_at_time(h: Seq<MatrixMessageView>)
    requires
        h.len() > 0,
    ensures
        at_time(h, h.last().timestamp).len() > 0,
        at_time(h, h.last().timestamp).last() == h.last(),
        forall|t: u64| #[trigger]
            at_time(h.drop_last(), t) == if t == h.last().timestamp {
                at_time(h, t).drop_last()
            } else {
                at_time(h, t)
            },
{
    assert(h.drop_last().push(h.last()) =~= h);
    lemma_at_time_push(h.drop_last(), h.last(), h.last().timestamp);
    assert forall|t: u64| #[trigger]
        at_time(h.drop_last(), t) == if t == h.last().timestamp {
            at_time(h, t).drop_last()
        } else {
            at_time(h, t)
        } by {
        lemma_at_time_push(h.drop_last(), h.last(), t);
        if t == h.last().timestamp {
            assert(at_time(h, t).drop_last() =~= at_time(h.drop_last(), t));
        }
    }
}

proof fn lemma_same_times_same_history(a: Seq<MatrixMessageView>, b: Seq<MatrixMessageView>)
    requires
        in_time_order(a),
        in_time_order(b),
        forall|t: u64| #[trigger] at_time(a, t) == at_time(b, t),
    ensures
        a == b,
    decreases a.len(),
{
    if a.len() == 0 {
        if b.len() > 0 {
            lemma_last_at_time(b);
            lemma_at_time_none(a, b.last().timestamp);
            assert(at_time(a, b.last().timestamp) == at_time(b, b.last().timestamp));
        }
    } else {
        let ta = a.last().timestamp;
        lemma_last_at_time(a);
        assert(at_time(a, ta) == at_time(b, ta));
        if b.len() == 0 {
            lemma_at_time_none(b, ta);
        }
        let tb = b.last().timestamp;
        lemma_last_at_time(b);
        assert(at_time(a, tb) == at_time(b, tb));
        if ta < tb {
            assert forall|i: int| 0 <= i < a.len() implies (#[trigger] a[i]).timestamp != tb by {
                assert(a[i].timestamp <= a[a.len() - 1].timestamp);
            }
            lemma_at_time_none(a, tb);
        }
        if tb < ta {
            assert forall|i: int| 0 <= i < b.len() implies (#[trigger] b[i]).timestamp != ta by {
                assert(b[i].timestamp <= b[b.len() - 1].timestamp);
            }
            lemma_at_time_none(b, ta);
        }
        assert(a.last() == b.last());
        assert forall|t: u64| #[trigger]
            at_time(a.drop_last(), t) == at_time(b.drop_last(), t) by {
            assert(at_time(a, t) == at_time(b, t));
        }
        lemma_same_times_same_history(a.drop_last(), b.drop_last());
        assert(a =~= a.drop_last().push(a.last()));
        assert(b =~= b.drop_last().push(b.last()));
    }
}

/// A history in time order is left as it is by sorting.
proof fn lemma_sorted_stays(h: Seq<MatrixMessageView>)
    requires
        in_time_order(h),
    ensures
        time_sorted(h) == h,
{
    lemma_time_sorted_is_stable(h);
    lemma_stable_sort_is_unique(h, time_sorted(h), h);
}

/// Every message is the same as itself, and sameness goes both ways.
pub proof fn lemma_same_message_is_reflexive_and_symmetric(
    a: MatrixMessageView,
    b: MatrixMessageView,
)
    ensures
        same_message(a, a),
        same_message(a, b) == same_message(b, a),
{
}

/// Adding messages keeps what was there, at its place, and leaves each added message known.
pub proof fn lemma_with_messages_extends(
    history: Seq<MatrixMessageView>,
    incoming: Seq<MatrixMessageView>,
)
    ensures
        history.is_prefix_of(with_messages(history, incoming)),
        forall|i: int|
            0 <= i < incoming.len() ==> knows(
                with_messages(history, incoming),
                #[trigger] incoming[i],
            ),
        forall|i: int|
            history.len() <= i < with_messages(history, incoming).len() ==> incoming.contains(
                #[trigger] with_messages(history, incoming)[i],
            ),
    decreases incoming.len(),
{
    if incoming.len() > 0 {
        let front = incoming.drop_last();
        let m = incoming.last();
        lemma_with_messages_extends(history, front);
        let before = with_messages(history, front);
        let after = with_messages(history, incoming);
        assert forall|i: int| 0 <= i < incoming.len() implies knows(
            after,
            #[trigger] incoming[i],
        ) by {
            if i < front.len() {
                assert(knows(before, front[i]));
                let k = choose|k: int|
                    0 <= k < before.len() && same_message(#[trigger] before[k], front[i]);
                assert(same_message(after[k], incoming[i]));
            } else if !knows(before, m) {
                assert(same_message(after[before.len() as int], m));
            }
        }
        assert forall|i: int| history.len() <= i < after.len() implies incoming.contains(
            #[trigger] after[i],
        ) by {
            if i < before.len() {
                assert(front.contains(before[i]));
                let k = choose|k: int| 0 <= k < front.len() && front[k] == before[i];
                assert(incoming[k] == after[i]);
            } else {
                assert(incoming[front.len() as int] == after[i]);
            }
        }
        assert(history =~= after.subrange(0, history.len() as int));
    }
}

proof fn lemma_all_known_adds_nothing(
    history: Seq<MatrixMessageView>,
    incoming: Seq<MatrixMessageView>,
)
    requires
        forall|i: int| 0 <= i < incoming.len() ==> knows(history, #[trigger] incoming[i]),
    ensures
        with_messages(history, incoming) == history,
    decreases incoming.len(),
{
    if incoming.len() > 0 {
        let front = incoming.drop_last();
        assert forall|i: int| 0 <= i < front.len() implies knows(
            history,
            #[trigger] front[i],
        ) by {
            assert(knows(history, incoming[i]));
        }
        lemma_all_known_adds_nothing(history, front);
        assert(knows(history, incoming[incoming.len() - 1]));
    }
}

/// A merge keeps every message that was there, adds none but incoming ones, leaves every incoming
/// message known, and leaves the history in time order.
pub proof fn lemma_merge_keeps_and_covers(
    history: Seq<MatrixMessageView>,
    incoming: Seq<MatrixMessageView>,
)
    ensures
        in_time_order(merged(history, incoming)),
        forall|m: MatrixMessageView| #[trigger]
            history.contains(m) ==> merged(history, incoming).contains(m),
        forall|m: MatrixMessageView| #[trigger]
            merged(history, incoming).contains(m) ==> history.contains(m) || incoming.contains(
                m,
            ),
        forall|i: int|
            0 <= i < incoming.len() ==> knows(
                merged(history, incoming),
                #[trigger] incoming[i],
            ),
{
    let all = with_messages(history, incoming);
    let out = merged(history, incoming);
    lemma_time_sorted_is_stable(all);
    lemma_with_messages_extends(history, incoming);
    assert forall|m: MatrixMessageView| #[trigger] history.contains(m) implies out.contains(m) by {
        let i = choose|i: int| 0 <= i < history.len() && history[i] == m;
        assert(all[i] == all.subrange(0, history.len() as int)[i]);
        assert(all.contains(m));
        lemma_stable_sort_keeps_messages(all, out, m);
    }
    assert forall|m: MatrixMessageView| #[trigger] out.contains(m) implies history.contains(m)
        || incoming.contains(m) by {
        lemma_stable_sort_keeps_messages(all, out, m);
        let i = choose|i: int| 0 <= i < all.len() && all[i] == m;
        if i < history.len() {
            assert(all[i] == all.subrange(0, history.len() as int)[i]);
            assert(history[i] == m);
        }
    }
    assert forall|i: int| 0 <= i < incoming.len() implies knows(out, #[trigger] incoming[i]) by {
        assert(knows(all, incoming[i]));
        let k = choose|k: int| 0 <= k < all.len() && same_message(#[trigger] all[k], incoming[i]);
        assert(all.contains(all[k]));
        lemma_stable_sort_keeps_messages(all, out, all[k]);
        let j = choose|j: int| 0 <= j < out.len() && out[j] == all[k];
        assert(same_message(out[j], incoming[i]));
    }
}

/// Merging the same messages a second time changes nothing.
pub proof fn lemma_merge_is_idempotent(
    history: Seq<MatrixMessageView>,
    incoming: Seq<MatrixMessageView>,
)
    ensures
        merged(merged(history, incoming), incoming) == merged(history, incoming),
{
    let once = merged(history, incoming);
    lemma_merge_keeps_and_covers(history, incoming);
    lemma_all_known_adds_nothing(once, incoming);
    lemma_sorted_stays(once);
}

/// Adding a message leaves no two messages the same where none were.
pub proof fn lemma_message_makes_no_doubles(
    history: Seq<MatrixMessageView>,
    m: MatrixMessageView,
)
    requires
        no_doubles(history),
    ensures
        no_doubles(with_message(history, m)),
{
}

proof fn lemma_messages_make_no_doubles(
    history: Seq<MatrixMessageView>,
    incoming: Seq<MatrixMessageView>,
)
    requires
        no_doubles(history),
    ensures
        no_doubles(with_messages(history, incoming)),
    decreases incoming.len(),
{
    if incoming.len() > 0 {
        lemma_messages_make_no_doubles(history, incoming.drop_last());
        lemma_message_makes_no_doubles(
            with_messages(history, incoming.drop_last()),
            incoming.last(),
        );
    }
}

proof fn lemma_insert_makes_no_doubles(h: Seq<MatrixMessageView>, m: MatrixMessageView)
    requires
        no_doubles(h),
        !knows(h, m),
    ensures
        no_doubles(insert_in_time(h, m)),
        forall|x: MatrixMessageView| #[trigger]
            insert_in_time(h, m).contains(x) ==> h.contains(x) || x == m,
    decreases h.len(),
{
    let out = insert_in_time(h, m);
    if h.len() == 0 || h.last().timestamp <= m.timestamp {
        assert forall|x: MatrixMessageView| #[trigger] out.contains(x) implies h.contains(x) || x
            == m by {
            let i = choose|i: int| 0 <= i < out.len() && out[i] == x;
            if i < h.len() {
                assert(h[i] == x);
            }
        }
    } else {
        let front = h.drop_last();
        let inner = insert_in_time(front, m);
        let last = h.last();
        assert forall|i: int| 0 <= i < front.len() implies !same_message(
            #[trigger] front[i],
            m,
        ) by {
            assert(!same_message(h[i], m));
        }
        lemma_insert_makes_no_doubles(front, m);
        assert forall|i: int, j: int| 0 <= i < j < out.len() implies !same_message(
            #[trigger] out[i],
            #[trigger] out[j],
        ) by {
            if j < inner.len() {
                assert(!same_message(inner[i], inner[j]));
            } else {
                assert(inner.contains(inner[i]));
                if inner[i] == m {
                    assert(!same_message(h[h.len() - 1], m));
                    lemma_same_message_is_reflexive_and_symmetric(m, last);
                } else {
                    let k = choose|k: int| 0 <= k < front.len() && front[k] == inner[i];
                    assert(!same_message(h[k], h[h.len() - 1]));
                }
            }
        }
        assert forall|x: MatrixMessageView| #[trigger] out.contains(x) implies h.contains(x) || x
            == m by {
            let i = choose|i: int| 0 <= i < out.len() && out[i] == x;
            if i < inner.len() {
                assert(inner.contains(x));
                if x != m {
                    let k = choose|k: int| 0 <= k < front.len() && front[k] == x;
                    assert(h[k] == x);
                }
            } else {
                assert(h[h.len() - 1] == x);
            }
        }
    }
}

proof fn lemma_sorting_makes_no_doubles(h: Seq<MatrixMessageView>)
    requires
        no_doubles(h),
    ensures
        no_doubles(time_sorted(h)),
    decreases h.len(),
{
    if h.len() > 0 {
        let front = h.drop_last();
        let sorted = time_sorted(front);
        lemma_sorting_makes_no_doubles(front);
        lemma_time_sorted_is_stable(front);
        assert forall|i: int| 0 <= i < sorted.len() implies !same_message(
            #[trigger] sorted[i],
            h.last(),
        ) by {
            assert(sorted.contains(sorted[i]));
            lemma_stable_sort_keeps_messages(front, sorted, sorted[i]);
            let k = choose|k: int| 0 <= k < front.len() && front[k] == sorted[i];
            assert(!same_message(h[k], h[h.len() - 1]));
        }
        lemma_insert_makes_no_doubles(sorted, h.last());
    }
}

/// A merge leaves no two messages the same where none were.
pub proof fn lemma_merge_makes_no_doubles(
    history: Seq<MatrixMessageView>,
    incoming: Seq<MatrixMessageView>,
)
    requires
        no_doubles(history),
    ensures
        no_doubles(merged(history, incoming)),
{
    lemma_messages_make_no_doubles(history, incoming);
    lemma_sorting_makes_no_doubles(with_messages(history, incoming));
}

proof fn lemma_insert_position(h: Seq<MatrixMessageView>, m: MatrixMessageView, j: int)
    requires
        0 <= j <= h.len(),
        j > 0 ==> h[j - 1].timestamp <= m.timestamp,
        forall|k: int| j <= k < h.len() ==> m.timestamp < (#[trigger] h[k]).timestamp,
    ensures
        insert_in_time(h, m) == h.insert(j, m),
    decreases h.len(),
{
    if j < h.len() {
        lemma_insert_position(h.drop_last(), m, j);
        assert(h.drop_last().insert(j, m).push(h.last()) =~= h.insert(j, m));
    } else {
        assert(h.insert(j, m) =~= h.push(m));
    }
}

/// Puts the messages in time order and keeps the order among messages of one time.
fn sort_by_timestamp(messages: &mut Vec<MatrixMessage>)
    ensures
        final(messages).deep_view() == time_sorted(old(messages).deep_view()),
{
    let ghost all = messages.deep_view();
    let len: usize = messages.len();
    let mut i: usize = 0;
    assert(all.take(0) =~= Seq::<MatrixMessageView>::empty());
    assert(messages.deep_view() =~= time_sorted(all.take(0)) + all.skip(0));
    while i < len
        invariant
            i <= len == messages.len() == all.len(),
            time_sorted(all.take(i as int)).len() == i,
            in_time_order(time_sorted(all.take(i as int))),
            messages.deep_view() == time_sorted(all.take(i as int)) + all.skip(i as int),
        decreases len - i,
    {
        let ghost front = time_sorted(all.take(i as int));
        let ghost before = messages.deep_view();
        let ghost raw = messages@;
        let mut j: usize = i;
        let t: u64 = messages[i].timestamp;
        assert(before[i as int] == all[i as int]);
        while j > 0 && messages[j - 1].timestamp > t
            invariant
                j <= i < len == messages.len(),
                before == messages.deep_view(),
                raw == messages@,
                front.len() == i,
                in_time_order(front),
                before.take(i as int) == front,
                forall|k: int| j <= k < i ==> t < (#[trigger] front[k]).timestamp,
            decreases j,
        {
            assert(before[j - 1] == front[j - 1]);
            j = j - 1;
        }
        proof {
            if j > 0 {
                assert(before[j - 1] == before.take(i as int)[j - 1]);
            }
            assert(before.take(i as int) =~= front);
            lemma_insert_position(front, all[i as int], j as int);
            lemma_insert_in_time(front, all[i as int]);
            assert(all.take(i + 1).drop_last() =~= all.take(i as int));
        }
        if j < i {
            let m = messages.remove(i);
            messages.insert(j, m);
        }
        proof {
            let out = front.insert(j as int, all[i as int]) + all.skip(i + 1);
            assert forall|k: int| 0 <= k < len implies messages.deep_view()[k] == out[k] by {
                let source = if k < j || k > i {
                    k
                } else if k == j {
                    i as int
                } else {
                    k - 1
                };
                assert(messages@[k] == raw[source]);
                assert(before[source] == raw[source]@);
                assert(before[source] == (front + all.skip(i as int))[source]);
            }
            assert(messages.deep_view() =~= out);
        }
        i = i + 1;
    }
    assert(all.take(len as int) =~= all);
    assert(all.skip(len as int) =~= Seq::<MatrixMessageView>::empty());
    assert(messages.deep_view() =~= time_sorted(all));
}

/// Whether `history` holds a message that is the same as `message`.
pub fn is_known(history: &Vec<MatrixMessage>, message: &MatrixMessage) -> (r: bool)
    ensures
        r == knows(history.deep_view(), message@),
{
    let mut i: usize = 0;
    while i < history.len()
        invariant
            i <= history.len(),
            forall|k: int|
                0 <= k < i ==> !same_message(#[trigger] history.deep_view()[k], message@),
        decreases history.len() - i,
    {
        if MatrixBackend::is_same_message(&history[i], message) {
            assert(same_message(history.deep_view()[i as int], message@));
            return true;
        }
        i = i + 1;
    }
    false
}

/// Adds `message` at the end of `history`, unless it is known there already.
pub fn add_message(history: &mut Vec<MatrixMessage>, message: MatrixMessage)
    ensures
        final(history).deep_view() == with_message(old(history).deep_view(), message@),
{
    if !is_known(history, &message) {
        let ghost before = history.deep_view();
        history.push(message);
        assert(history.deep_view() =~= before.push(message@));
    }
}

impl MatrixBackend {
    /// Whether `lhs` and `rhs` are the same message: of one room, and with one event id where both
    /// have an event id, otherwise with one sender and text at nearly the same time.
    pub fn is_same_message(lhs: &MatrixMessage, rhs: &MatrixMessage) -> (r: bool)
        ensures
            r == same_message(lhs@, rhs@),
    {
        if lhs.room_id != rhs.room_id {
            return false;
        }
        if let (Some(lhs_event_id), Some(rhs_event_id)) = (&lhs.event_id, &rhs.event_id) {
            return *lhs_event_id == *rhs_event_id;
        }
        if lhs.sender != rhs.sender || lhs.body != rhs.body {
            return false;
        }
        let time_delta_ms: u64 = if lhs.timestamp >= rhs.timestamp {
            lhs.timestamp - rhs.timestamp
        } else {
            rhs.timestamp - lhs.timestamp
        };
        time_delta_ms <= ECHO_WINDOW_MS
    }

    /// Adds the messages of `incoming` that `existing` does not know and puts all in time order.
    pub fn merge_room_history(existing: &mut Vec<MatrixMessage>, incoming: Vec<MatrixMessage>)
        ensures
            final(existing).deep_view() == merged(old(existing).deep_view(), incoming.deep_view()),
            stably_sorted(
                with_messages(old(existing).deep_view(), incoming.deep_view()),
                final(existing).deep_view(),
            ),
    {
        let ghost before = existing.deep_view();
        let ghost news = incoming.deep_view();
        assert(news.take(0) =~= Seq::<MatrixMessageView>::empty());
        for message in it: incoming
            invariant
                it.seq().len() == news.len(),
                forall|k: int| 0 <= k < news.len() ==> #[trigger] it.seq()[k]@ == news[k],
                existing.deep_view() == with_messages(before, news.take(it.index() as int)),
        {
            proof {
                assert(news.take(it.index() + 1).drop_last() =~= news.take(it.index() as int));
                assert(message@ == news[it.index() as int]);
            }
            add_message(existing, message);
        }
        assert(news.take(news.len() as int) =~= news);
        sort_by_timestamp(existing);
        proof {
            lemma_time_sorted_is_stable(with_messages(before, news));
        }
    }
}

} // verus!
