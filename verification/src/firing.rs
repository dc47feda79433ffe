//! What a day of ticks and refreshes does to the pending flips, and the laws
//! that follow: nothing fires twice, everything fires at the first tick at or
//! after its time, a refresh starts the day anew, and a failed refresh
//! silences the engine until one succeeds.

use crate::data::Flip;
use crate::schedule::{after_event, due_batch, emitted, is_due, still_pending, Event};
use vstd::prelude::*;

verus! {

/// The pending flips after all of `events`, taken in order.
pub open spec fn after_events(pending: Seq<Flip>, events: Seq<Event>) -> Seq<Flip>
    decreases events.len(),
{
    if events.len() == 0 {
        pending
    } else {
        after_event(after_events(pending, events.drop_last()), events.last())
    }
}

/// The batch that the event at position `k` of `events` sends out.
pub open spec fn emitted_at(pending: Seq<Flip>, events: Seq<Event>, k: int) -> Seq<Flip> {
    emitted(after_events(pending, events.take(k)), events[k])
}

/// The events of a stretch of ticks with no refresh in between, one tick for
/// each clock reading `(hour, minute)`.
pub open spec fn ticks(clocks: Seq<(int, int)>) -> Seq<Event> {
    Seq::new(clocks.len(), |j: int| Event::Tick { hour: clocks[j].0, minute: clocks[j].1 })
}

/// The flip is due at none of the clock readings.
pub open spec fn never_due(flip: Flip, clocks: Seq<(int, int)>) -> bool {
    forall|j: int| 0 <= j < clocks.len() ==> !is_due(flip, #[trigger] clocks[j].0, clocks[j].1)
}

/// Reading `k` is the first at which the flip is due.
pub open spec fn first_due_at(flip: Flip, clocks: Seq<(int, int)>, k: int) -> bool {
    is_due(flip, clocks[k].0, clocks[k].1) && never_due(flip, clocks.take(k))
}

/// `never_due` as a predicate on flips.
pub open spec fn never_due_at(clocks: Seq<(int, int)>) -> spec_fn(Flip) -> bool {
    |flip: Flip| never_due(flip, clocks)
}

/// `first_due_at` as a predicate on flips.
pub open spec fn first_due_in(clocks: Seq<(int, int)>, k: int) -> spec_fn(Flip) -> bool {
    |flip: Flip| first_due_at(flip, clocks, k)
}

/// Filtering twice is filtering once by both predicates.
pub proof fn lemma_filter_twice<A>(
    s: Seq<A>,
    p: spec_fn(A) -> bool,
    q: spec_fn(A) -> bool,
    both: spec_fn(A) -> bool,
)
    requires
        forall|x: A| #[trigger] both(x) == (p(x) && q(x)),
    ensures
        s.filter(p).filter(q) == s.filter(both),
    decreases s.len(),
{
    reveal(Seq::filter);
    if s.len() > 0 {
        lemma_filter_twice(s.drop_last(), p, q, both);
        if p(s.last()) {
            let kept = s.drop_last().filter(p).push(s.last());
            assert(kept.drop_last() =~= s.drop_last().filter(p));
        }
    }
}

/// A flip is in a filtered sequence exactly when it is in the sequence and
/// meets the predicate.
pub proof fn lemma_filter_contains<A>(s: Seq<A>, p: spec_fn(A) -> bool, x: A)
    ensures
        s.filter(p).contains(x) <==> s.contains(x) && p(x),
    decreases s.len(),
{
    reveal(Seq::filter);
    if s.len() > 0 {
        let front = s.drop_last();
        lemma_filter_contains(front, p, x);
        assert(s =~= front.push(s.last()));
        if s.contains(x) {
            let i = choose|i: int| 0 <= i < s.len() && s[i] == x;
            if i < front.len() {
                assert(front[i] == x);
            }
        }
        if front.contains(x) {
            let i = choose|i: int| 0 <= i < front.len() && front[i] == x;
            assert(s[i] == x);
        }
        assert(s[s.len() - 1] == s.last());
        if p(s.last()) {
            let kept = front.filter(p).push(s.last());
            if kept.contains(x) {
                let i = choose|i: int| 0 <= i < kept.len() && kept[i] == x;
                if i < kept.len() - 1 {
                    assert(front.filter(p)[i] == x);
                }
            }
            if front.filter(p).contains(x) {
                let i = choose|i: int| 0 <= i < front.filter(p).len() && front.filter(p)[i] == x;
                assert(kept[i] == x);
            }
            assert(kept[kept.len() - 1] == s.last());
        }
    }
}

/// After a stretch of ticks, exactly those flips are pending that were due at
/// none of them, in their order.
pub proof fn lemma_pending_after_ticks(pending: Seq<Flip>, clocks: Seq<(int, int)>)
    ensures
        after_events(pending, ticks(clocks)) == pending.filter(never_due_at(clocks)),
    decreases clocks.len(),
{
    if clocks.len() == 0 {
        assert(ticks(clocks) =~= Seq::<Event>::empty());
        lemma_filter_all(pending, never_due_at(clocks));
    } else {
        let earlier = clocks.drop_last();
        let (hour, minute) = clocks.last();
        lemma_pending_after_ticks(pending, earlier);
        assert(ticks(clocks).drop_last() =~= ticks(earlier));
        assert(ticks(clocks).last() == Event::Tick { hour, minute });
        let not_now = |flip: Flip| !is_due(flip, hour, minute);
        assert forall|flip: Flip| #[trigger]
            never_due_at(clocks)(flip) == (never_due_at(earlier)(flip) && not_now(flip)) by {
            if never_due(flip, clocks) {
                assert forall|j: int| 0 <= j < earlier.len() implies !is_due(
                    flip,
                    #[trigger] earlier[j].0,
                    earlier[j].1,
                ) by {
                    assert(earlier[j] == clocks[j]);
                }
                assert(clocks[clocks.len() - 1] == clocks.last());
            }
            if never_due(flip, earlier) && not_now(flip) {
                assert forall|j: int| 0 <= j < clocks.len() implies !is_due(
                    flip,
                    #[trigger] clocks[j].0,
                    clocks[j].1,
                ) by {
                    if j < earlier.len() {
                        assert(earlier[j] == clocks[j]);
                    }
                }
            }
        }
        lemma_filter_twice(pending, never_due_at(earlier), not_now, never_due_at(clocks));
    }
}

/// Filtering by a predicate that every element meets changes nothing.
pub proof fn lemma_filter_all<A>(s: Seq<A>, p: spec_fn(A) -> bool)
    requires
        forall|x: A| #[trigger] p(x),
    ensures
        s.filter(p) == s,
    decreases s.len(),
{
    reveal(Seq::filter);
    if s.len() > 0 {
        lemma_filter_all(s.drop_last(), p);
        assert(s.drop_last().push(s.last()) =~= s);
    }
}

/// The batch of a tick holds exactly the flips for which that tick is the
/// first at which they are due, in their order.
pub proof fn lemma_batch_of_tick(pending: Seq<Flip>, clocks: Seq<(int, int)>, k: int)
    requires
        0 <= k < clocks.len(),
    ensures
        emitted_at(pending, ticks(clocks), k) == pending.filter(first_due_in(clocks, k)),
{
    let earlier = clocks.take(k);
    let (hour, minute) = clocks[k];
    lemma_pending_after_ticks(pending, earlier);
    assert(ticks(clocks).take(k) =~= ticks(earlier));
    let due_now = |flip: Flip| is_due(flip, hour, minute);
    assert forall|flip: Flip| #[trigger]
        first_due_in(clocks, k)(flip) == (never_due_at(earlier)(flip) && due_now(flip)) by {}
    lemma_filter_twice(pending, never_due_at(earlier), due_now, first_due_in(clocks, k));
}

/// At most once: a flip that one tick has sent out is no longer pending after
/// that tick, and no later tick of the same stretch sends it out again.
pub proof fn law_fires_at_most_once(
    pending: Seq<Flip>,
    clocks: Seq<(int, int)>,
    j: int,
    k: int,
    flip: Flip,
)
    requires
        0 <= j < k < clocks.len(),
        emitted_at(pending, ticks(clocks), j).contains(flip),
    ensures
        !after_events(pending, ticks(clocks.take(j + 1))).contains(flip),
        !emitted_at(pending, ticks(clocks), k).contains(flip),
{
    lemma_batch_of_tick(pending, clocks, j);
    lemma_batch_of_tick(pending, clocks, k);
    lemma_pending_after_ticks(pending, clocks.take(j + 1));
    lemma_filter_contains(pending, first_due_in(clocks, j), flip);
    lemma_filter_contains(pending, first_due_in(clocks, k), flip);
    lemma_filter_contains(pending, never_due_at(clocks.take(j + 1)), flip);
    assert(clocks.take(j + 1)[j] == clocks[j]);
    assert(clocks.take(k)[j] == clocks[j]);
}

/// Between two refreshes the pending flips only shrink: after a stretch of
/// ticks no more flips are pending than before, and each of them was pending
/// before.
pub proof fn law_pending_only_shrinks(pending: Seq<Flip>, clocks: Seq<(int, int)>)
    ensures
        after_events(pending, ticks(clocks)).len() <= pending.len(),
        forall|flip: Flip| #[trigger]
            after_events(pending, ticks(clocks)).contains(flip) ==> pending.contains(flip),
{
    lemma_pending_after_ticks(pending, clocks);
    pending.lemma_filter_len(never_due_at(clocks));
    assert forall|flip: Flip| #[trigger]
        after_events(pending, ticks(clocks)).contains(flip) implies pending.contains(flip) by {
        lemma_filter_contains(pending, never_due_at(clocks), flip);
    }
}

/// What a tick sends out and what it leaves pending are together exactly
/// what was pending before it: no flip is lost and none is made.
pub proof fn law_tick_splits_pending(pending: Seq<Flip>, hour: int, minute: int)
    ensures
        due_batch(pending, hour, minute).to_multiset().add(
            still_pending(pending, hour, minute).to_multiset(),
        ) == pending.to_multiset(),
    decreases pending.len(),
{
    reveal(Seq::filter);
    broadcast use vstd::seq_lib::group_to_multiset_ensures;

    if pending.len() == 0 {
        assert(due_batch(pending, hour, minute) =~= Seq::<Flip>::empty());
        assert(still_pending(pending, hour, minute) =~= Seq::<Flip>::empty());
        assert(due_batch(pending, hour, minute).to_multiset().add(
            still_pending(pending, hour, minute).to_multiset(),
        ) =~= pending.to_multiset());
    } else {
        let front = pending.drop_last();
        let last = pending.last();
        law_tick_splits_pending(front, hour, minute);
        assert(pending =~= front.push(last));
        assert(due_batch(pending, hour, minute).to_multiset().add(
            still_pending(pending, hour, minute).to_multiset(),
        ) =~= pending.to_multiset());
    }
}

/// A refresh replaces and does not merge: whatever was pending, and whatever
/// had fired before, after a refresh that the store answered exactly its
/// answer is pending, so the next tick sends out every flip of the answer
/// that is due then.
pub proof fn law_refresh_replaces(
    pending: Seq<Flip>,
    events: Seq<Event>,
    today: Seq<Flip>,
    hour: int,
    minute: int,
)
    ensures
        after_events(pending, events.push(Event::Refresh { fetched: Some(today) })) == today,
        emitted_at(
            pending,
            events.push(Event::Refresh { fetched: Some(today) }).push(Event::Tick { hour, minute }),
            events.len() as int + 1,
        ) == due_batch(today, hour, minute),
{
    let refreshed = events.push(Event::Refresh { fetched: Some(today) });
    assert(refreshed.drop_last() =~= events);
    let then_tick = refreshed.push(Event::Tick { hour, minute });
    assert(then_tick.take(events.len() as int + 1) =~= refreshed);
}

/// The first due tick fires: a pending flip is in the batch of the first
/// tick whose clock is at or past the time of the flip, and in the batch of
/// no other tick of the stretch.
pub proof fn law_fires_at_first_due_tick(
    pending: Seq<Flip>,
    clocks: Seq<(int, int)>,
    k: int,
    flip: Flip,
)
    requires
        pending.contains(flip),
        0 <= k < clocks.len(),
        first_due_at(flip, clocks, k),
    ensures
        emitted_at(pending, ticks(clocks), k).contains(flip),
        forall|j: int|
            0 <= j < clocks.len() && j != k ==> !(#[trigger] emitted_at(
                pending,
                ticks(clocks),
                j,
            )).contains(flip),
{
    lemma_batch_of_tick(pending, clocks, k);
    lemma_filter_contains(pending, first_due_in(clocks, k), flip);
    assert forall|j: int| 0 <= j < clocks.len() && j != k implies !(#[trigger] emitted_at(
        pending,
        ticks(clocks),
        j,
    )).contains(flip) by {
        lemma_batch_of_tick(pending, clocks, j);
        lemma_filter_contains(pending, first_due_in(clocks, j), flip);
        if j < k {
            assert(clocks.take(k)[j] == clocks[j]);
        } else {
            assert(clocks.take(j)[k] == clocks[k]);
        }
    }
}

/// A pending flip whose time no tick of the stretch has reached is in no
/// batch and is still pending at the end.
pub proof fn law_waits_until_due(pending: Seq<Flip>, clocks: Seq<(int, int)>, flip: Flip)
    requires
        pending.contains(flip),
        never_due(flip, clocks),
    ensures
        after_events(pending, ticks(clocks)).contains(flip),
        forall|j: int|
            0 <= j < clocks.len() ==> !(#[trigger] emitted_at(pending, ticks(clocks), j)).contains(
                flip,
            ),
{
    lemma_pending_after_ticks(pending, clocks);
    lemma_filter_contains(pending, never_due_at(clocks), flip);
    assert forall|j: int| 0 <= j < clocks.len() implies !(#[trigger] emitted_at(
        pending,
        ticks(clocks),
        j,
    )).contains(flip) by {
        lemma_batch_of_tick(pending, clocks, j);
        lemma_filter_contains(pending, first_due_in(clocks, j), flip);
    }
}

/// Being due only grows with the clock: a flip that is due at one time is
/// due at every later time of the day.
pub proof fn law_due_is_monotone(flip: Flip, hour: int, minute: int, later_hour: int, later_minute: int)
    requires
        is_due(flip, hour, minute),
        hour < later_hour || (hour == later_hour && minute <= later_minute),
    ensures
        is_due(flip, later_hour, later_minute),
{
}

/// No event of the stretch is a refresh that the store answered.
pub open spec fn no_refresh_succeeds(events: Seq<Event>) -> bool {
    forall|j: int|
        0 <= j < events.len() ==> !(#[trigger] events[j] matches Event::Refresh { fetched: Some(_) })
}

/// The pending flips right after a refresh that failed.
pub open spec fn silenced(pending: Seq<Flip>) -> Seq<Flip> {
    after_event(pending, Event::Refresh { fetched: None })
}

/// Degraded mode: once a refresh has failed, nothing is pending, and through
/// whatever ticks and failed refreshes follow nothing becomes pending and
/// every batch is empty, until a refresh succeeds.
pub proof fn law_degraded_until_refreshed(pending: Seq<Flip>, events: Seq<Event>)
    requires
        no_refresh_succeeds(events),
    ensures
        silenced(pending) == Seq::<Flip>::empty(),
        after_events(silenced(pending), events) == Seq::<Flip>::empty(),
        forall|k: int|
            0 <= k < events.len() ==> #[trigger] emitted_at(silenced(pending), events, k)
                == Seq::<Flip>::empty(),
    decreases events.len(),
{
    reveal(Seq::filter);
    let nothing = silenced(pending);
    if events.len() > 0 {
        let earlier = events.drop_last();
        assert forall|j: int| 0 <= j < earlier.len() implies !(#[trigger] earlier[j] matches Event::Refresh {
            fetched: Some(_),
        }) by {
            assert(earlier[j] == events[j]);
        }
        law_degraded_until_refreshed(pending, earlier);
        assert(events[events.len() - 1] == events.last());
        assert forall|k: int| 0 <= k < events.len() implies #[trigger] emitted_at(nothing, events, k)
            == Seq::<Flip>::empty() by {
            if k < earlier.len() {
                assert(events.take(k) =~= earlier.take(k));
                assert(events[k] == earlier[k]);
                assert(emitted_at(nothing, events, k) == emitted_at(nothing, earlier, k));
            } else {
                assert(events.take(k) =~= earlier);
            }
        }
    }
}

} // verus!
