//! What holds of a whole pearl run, whatever events it meets.

use vstd::prelude::*;

use crate::pearl::{
    click_on, fresh, handled, hits, idle, BotActions, BotView, EntityKind, EventView,
    DISPENSE_PAUSE_TICKS, TICK_MS, TIMEOUT_TICKS,
};

use crate::pearl_step_laws::{a_step_clicks_its_own_blocks, opens};

verus! {

/// A run that has just begun.
pub open spec fn is_fresh(s: BotView) -> bool {
    s == fresh(
        s.trapdoor,
        s.requester,
        s.click_delay_ms,
        s.dispense_block,
        s.dispense_max_retries,
    )
}

/// The state after a series of events.
pub open spec fn after(s: BotView, events: Seq<EventView>) -> BotView
    decreases events.len(),
{
    if events.len() == 0 {
        s
    } else {
        handled(after(s, events.drop_last()), events.last()).0
    }
}

/// The actions that the event at position `i` of a series calls for.
pub open spec fn actions_at(s: BotView, events: Seq<EventView>, i: int) -> BotActions {
    handled(after(s, events.take(i)), events[i]).1
}

/// How many of the events are ticks.
pub open spec fn tick_count(events: Seq<EventView>) -> nat
    decreases events.len(),
{
    if events.len() == 0 {
        0
    } else {
        tick_count(events.drop_last()) + if events.last() is Tick {
            1nat
        } else {
            0
        }
    }
}

/// A series that consists of `n` ticks.
pub open spec fn only_ticks(n: nat) -> Seq<EventView> {
    Seq::new(n, |i: int| EventView::Tick)
}

proof fn lemma_one_more(s: BotView, events: Seq<EventView>, i: int)
    requires
        0 <= i < events.len(),
    ensures
        after(s, events.take(i + 1)) == handled(after(s, events.take(i)), events[i]).0,
{
    assert(events.take(i + 1).drop_last() =~= events.take(i));
}

/// A run never takes back that it clicked, that it reported, that it succeeded or that it is
/// over; it never forgets a click on the dispenser or that the dropper fired; and its trapdoor,
/// requester, delay and dispenser never change.
pub proof fn progress_is_never_undone(s: BotView, events: Seq<EventView>, i: int, j: int)
    requires
        0 <= i <= j <= events.len(),
    ensures
        after(s, events.take(i)).clicked ==> after(s, events.take(j)).clicked,
        after(s, events.take(i)).done_sent ==> after(s, events.take(j)).done_sent,
        after(s, events.take(i)).success ==> after(s, events.take(j)).success,
        after(s, events.take(i)).should_exit ==> after(s, events.take(j)).should_exit,
        after(s, events.take(i)).dispense_clicks > 0 ==> after(s, events.take(j)).dispense_clicks
            > 0,
        after(s, events.take(i)).dropper_fired ==> after(s, events.take(j)).dropper_fired,
        after(s, events.take(j)).trapdoor == after(s, events.take(i)).trapdoor,
        after(s, events.take(j)).requester == after(s, events.take(i)).requester,
        after(s, events.take(j)).click_delay_ms == after(s, events.take(i)).click_delay_ms,
        after(s, events.take(j)).dispense_block == after(s, events.take(i)).dispense_block,
        after(s, events.take(j)).dispense_max_retries == after(
            s,
            events.take(i),
        ).dispense_max_retries,
    decreases j,
{
    if i < j {
        progress_is_never_undone(s, events, i, j - 1);
        lemma_one_more(s, events, j - 1);
        lemma_a_step_keeps_progress(after(s, events.take(j - 1)), events[j - 1]);
    }
}

proof fn lemma_a_step_keeps_progress(s: BotView, event: EventView)
    ensures
        ({
            let t = handled(s, event).0;
            &&& s.clicked ==> t.clicked
            &&& s.done_sent ==> t.done_sent
            &&& s.success ==> t.success
            &&& s.should_exit ==> t.should_exit
            &&& s.dispense_clicks > 0 ==> t.dispense_clicks > 0
            &&& s.dropper_fired ==> t.dropper_fired
            &&& t.trapdoor == s.trapdoor
            &&& t.requester == s.requester
            &&& t.click_delay_ms == s.click_delay_ms
            &&& t.dispense_block == s.dispense_block
            &&& t.dispense_max_retries == s.dispense_max_retries
        }),
{
}

/// A run clicks its trapdoor at most once.
pub proof fn at_most_one_click(s: BotView, events: Seq<EventView>, i: int, j: int)
    requires
        0 <= i < j < events.len(),
        actions_at(s, events, i).click is Some,
    ensures
        actions_at(s, events, j).click is None,
{
    lemma_one_more(s, events, i);
    progress_is_never_undone(s, events, i + 1, j);
}

/// Every click on a trapdoor opens the run's own.
pub proof fn clicks_hit_the_trapdoor(s: BotView, events: Seq<EventView>, i: int)
    requires
        0 <= i < events.len(),
        actions_at(s, events, i).click is Some,
    ensures
        actions_at(s, events, i).click == Some(click_on(s.trapdoor)),
{
    progress_is_never_undone(s, events, 0, i);
}

/// A run reports its result at most once.
pub proof fn at_most_one_report(s: BotView, events: Seq<EventView>, i: int, j: int)
    requires
        0 <= i < j < events.len(),
        actions_at(s, events, i).done is Some,
    ensures
        actions_at(s, events, j).done is None,
{
    lemma_one_more(s, events, i);
    progress_is_never_undone(s, events, i + 1, j);
}

/// A run that loses its connection, or is told to leave, has reported its result by then.
pub proof fn every_end_is_reported(s: BotView, events: Seq<EventView>, i: int)
    requires
        0 <= i < events.len(),
        events[i] is Disconnect || actions_at(s, events, i).exit,
        !s.done_sent,
    ensures
        exists|k: int| 0 <= k <= i && (#[trigger] actions_at(s, events, k)).done is Some,
{
    lemma_one_more(s, events, i);
    lemma_reported_somewhere(s, events, i + 1);
}

proof fn lemma_reported_somewhere(s: BotView, events: Seq<EventView>, n: int)
    requires
        0 <= n <= events.len(),
        !s.done_sent,
        after(s, events.take(n)).done_sent,
    ensures
        exists|k: int| 0 <= k < n && (#[trigger] actions_at(s, events, k)).done is Some,
    decreases n,
{
    if n > 0 {
        lemma_one_more(s, events, n - 1);
        if after(s, events.take(n - 1)).done_sent {
            lemma_reported_somewhere(s, events, n - 1);
        } else {
            assert(actions_at(s, events, n - 1).done is Some);
        }
    }
}

/// A run counts as clicked exactly if one of its events called for the click.
pub proof fn clicked_means_a_click(s: BotView, events: Seq<EventView>)
    requires
        !s.clicked,
    ensures
        after(s, events).clicked <==> exists|k: int|
            0 <= k < events.len() && (#[trigger] actions_at(s, events, k)).click is Some,
{
    assert(events.take(events.len() as int) =~= events);
    if after(s, events).clicked {
        lemma_clicked_somewhere(s, events, events.len() as int);
    }
    if exists|k: int| 0 <= k < events.len() && (#[trigger] actions_at(s, events, k)).click is Some {
        let k = choose|k: int|
            0 <= k < events.len() && (#[trigger] actions_at(s, events, k)).click is Some;
        lemma_one_more(s, events, k);
        progress_is_never_undone(s, events, k + 1, events.len() as int);
    }
}

proof fn lemma_clicked_somewhere(s: BotView, events: Seq<EventView>, n: int)
    requires
        0 <= n <= events.len(),
        !s.clicked,
        after(s, events.take(n)).clicked,
    ensures
        exists|k: int| 0 <= k < n && (#[trigger] actions_at(s, events, k)).click is Some,
    decreases n,
{
    if n > 0 {
        lemma_one_more(s, events, n - 1);
        if after(s, events.take(n - 1)).clicked {
            lemma_clicked_somewhere(s, events, n - 1);
        } else {
            assert(actions_at(s, events, n - 1).click is Some);
        }
    }
}

/// The event at `k` removes a pearl that the run tracked, after the click.
pub open spec fn pulls(s: BotView, events: Seq<EventView>, k: int) -> bool {
    &&& events[k] matches EventView::RemoveEntities(ids)
    &&& hits(after(s, events.take(k)), ids)
    &&& after(s, events.take(k)).clicked
}

/// A run succeeds exactly if a pearl it tracked goes away after the click.
pub proof fn success_means_a_pearl_was_pulled(s: BotView, events: Seq<EventView>)
    requires
        !s.success,
    ensures
        after(s, events).success <==> exists|k: int|
            0 <= k < events.len() && #[trigger] pulls(s, events, k),
{
    assert(events.take(events.len() as int) =~= events);
    if after(s, events).success {
        lemma_pulled_somewhere(s, events, events.len() as int);
    }
    if exists|k: int| 0 <= k < events.len() && #[trigger] pulls(s, events, k) {
        let k = choose|k: int| 0 <= k < events.len() && #[trigger] pulls(s, events, k);
        lemma_one_more(s, events, k);
        progress_is_never_undone(s, events, k + 1, events.len() as int);
    }
}

proof fn lemma_pulled_somewhere(s: BotView, events: Seq<EventView>, n: int)
    requires
        0 <= n <= events.len(),
        !s.success,
        after(s, events.take(n)).success,
    ensures
        exists|k: int| 0 <= k < n && #[trigger] pulls(s, events, k),
    decreases n,
{
    if n > 0 {
        lemma_one_more(s, events, n - 1);
        if after(s, events.take(n - 1)).success {
            lemma_pulled_somewhere(s, events, n - 1);
        } else {
            assert(pulls(s, events, n - 1));
        }
    }
}

/// The reported result is true exactly if a tracked pearl had gone after the click by then.
pub proof fn the_report_is_true(s: BotView, events: Seq<EventView>, i: int)
    requires
        0 <= i < events.len(),
        !s.success,
        actions_at(s, events, i).done is Some,
    ensures
        actions_at(s, events, i).done == Some(true) <==> exists|k: int|
            0 <= k < i && #[trigger] pulls(s, events, k),
{
    let before = events.take(i);
    success_means_a_pearl_was_pulled(s, before);
    assert forall|k: int| 0 <= k < i implies pulls(s, before, k) == #[trigger] pulls(
        s,
        events,
        k,
    ) by {
        assert(before.take(k) =~= events.take(k));
    }
    if exists|k: int| 0 <= k < before.len() && #[trigger] pulls(s, before, k) {
        let k = choose|k: int| 0 <= k < before.len() && #[trigger] pulls(s, before, k);
        assert(pulls(s, events, k));
    }
}

/// Once the pearl was pulled, a report is one of success; and without a dispenser every tick tells
/// the bot to leave.
pub proof fn a_pulled_pearl_ends_the_run(s: BotView, events: Seq<EventView>, k: int, i: int)
    requires
        0 <= k < i < events.len(),
        pulls(s, events, k),
    ensures
        s.dispense_block is None && events[i] is Tick ==> actions_at(s, events, i).exit,
        actions_at(s, events, i).done is Some ==> actions_at(s, events, i).done == Some(true),
{
    lemma_one_more(s, events, k);
    progress_is_never_undone(s, events, 0, k);
    progress_is_never_undone(s, events, k + 1, i);
}

/// The tick counter counts the ticks, as far as it goes.
pub proof fn ticks_are_counted(s: BotView, events: Seq<EventView>)
    requires
        s.ticks + tick_count(events) <= u32::MAX,
    ensures
        after(s, events).ticks == s.ticks + tick_count(events),
    decreases events.len(),
{
    if events.len() > 0 {
        ticks_are_counted(s, events.drop_last());
    }
}

/// A new run is told to leave on every tick from the one that ends its time, pearl or no pearl.
pub proof fn every_run_times_out(s: BotView, events: Seq<EventView>, i: int)
    requires
        is_fresh(s),
        0 <= i < events.len(),
        events[i] is Tick,
        TIMEOUT_TICKS <= tick_count(events.take(i + 1)) <= u32::MAX,
    ensures
        actions_at(s, events, i).exit,
{
    assert(events.take(i + 1).drop_last() =~= events.take(i));
    ticks_are_counted(s, events.take(i));
}

/// A new run is told to leave only once its time is over or its pearl was pulled.
pub proof fn no_run_ends_early(s: BotView, events: Seq<EventView>, i: int)
    requires
        is_fresh(s),
        0 <= i < events.len(),
        tick_count(events.take(i + 1)) < TIMEOUT_TICKS,
        actions_at(s, events, i).exit,
    ensures
        exists|k: int|
            0 <= k < i && #[trigger] pulls(s, events, k),
{
    assert(events.take(i + 1).drop_last() =~= events.take(i));
    ticks_are_counted(s, events.take(i));
    lemma_over_only_by_success(s, events.take(i));
    a_run_stays_consistent(s, events.take(i));
    lemma_pulled_somewhere(s, events, i);
}

proof fn lemma_over_only_by_success(s: BotView, events: Seq<EventView>)
    requires
        is_fresh(s),
        tick_count(events) < TIMEOUT_TICKS,
    ensures
        after(s, events).should_exit ==> after(s, events).success,
    decreases events.len(),
{
    if events.len() > 0 {
        lemma_over_only_by_success(s, events.drop_last());
        ticks_are_counted(s, events.drop_last());
        a_run_stays_consistent(s, events.drop_last());
    }
}

/// How the parts of a run's state fit together: a success takes a click on the trapdoor; the
/// dispenser is clicked from the catch on, and not too often; a success is the end of a run
/// unless the dispenser is still at work; only a clicked dispenser fires, and that is the end.
pub open spec fn consistent(s: BotView) -> bool {
    &&& s.success ==> s.clicked
    &&& s.dispense_clicks > 0 <==> s.success && s.dispense_block is Some
    &&& s.dispense_clicks <= 1 + s.dispense_max_retries
    &&& s.success && s.dispense_block is None ==> s.should_exit
    &&& s.dropper_fired ==> s.should_exit && s.dispense_clicks > 0
}

/// A run is consistent after any events.
pub proof fn a_run_stays_consistent(s: BotView, events: Seq<EventView>)
    requires
        is_fresh(s),
    ensures
        consistent(after(s, events)),
    decreases events.len(),
{
    if events.len() > 0 {
        a_run_stays_consistent(s, events.drop_last());
    }
}

/// Pearls were detected, and the dispenser was clicked, in the past.
pub proof fn what_was_noted_is_past(s: BotView, events: Seq<EventView>)
    requires
        is_fresh(s),
        tick_count(events) <= u32::MAX,
    ensures
        after(s, events).detected_at <= after(s, events).ticks,
        after(s, events).dispensed_at <= after(s, events).ticks,
    decreases events.len(),
{
    if events.len() > 0 {
        what_was_noted_is_past(s, events.drop_last());
        ticks_are_counted(s, events.drop_last());
    }
}

/// While pearls lie near an unclicked trapdoor, the click falls on the first tick by which the
/// delay since their detection has passed, and on no other.
pub proof fn the_click_waits_out_its_delay(s: BotView, n: nat)
    requires
        n >= 1,
        !s.clicked,
        !s.nearby.is_empty(),
        s.detected_at <= s.ticks,
        s.ticks + n <= u32::MAX,
    ensures
        actions_at(s, only_ticks(n), n - 1).click is Some <==> {
            &&& (s.ticks + n - s.detected_at) * TICK_MS >= s.click_delay_ms
            &&& n == 1 || (s.ticks + n - 1 - s.detected_at) * TICK_MS < s.click_delay_ms
        },
{
    let events = only_ticks(n);
    lemma_waiting(s, (n - 1) as nat);
    assert(events.take(n - 1) =~= only_ticks((n - 1) as nat));
}

proof fn lemma_waiting(s: BotView, n: nat)
    requires
        !s.clicked,
        !s.nearby.is_empty(),
        s.detected_at <= s.ticks,
        s.ticks + n <= u32::MAX,
    ensures
        ({
            let t = after(s, only_ticks(n));
            &&& t.ticks == s.ticks + n
            &&& t.nearby == s.nearby
            &&& t.detected_at == s.detected_at
            &&& t.click_delay_ms == s.click_delay_ms
            &&& t.clicked <==> n >= 1 && (s.ticks + n - s.detected_at) * TICK_MS
                >= s.click_delay_ms
        }),
    decreases n,
{
    if n > 0 {
        lemma_waiting(s, (n - 1) as nat);
        assert(only_ticks(n).drop_last() =~= only_ticks((n - 1) as nat));
    }
}

/// The event brings a pearl near the trapdoor.
pub open spec fn detects(event: EventView) -> bool {
    event matches EventView::AddEntity { kind, near, .. } && kind == EntityKind::EnderPearl && near
}

/// A new run clicks only after a pearl was detected, and not before the delay since then has
/// passed.
pub proof fn no_click_before_its_time(s: BotView, events: Seq<EventView>, i: int)
    requires
        is_fresh(s),
        0 <= i < events.len(),
        tick_count(events.take(i + 1)) <= u32::MAX,
        actions_at(s, events, i).click is Some,
    ensures
        exists|k: int|
            {
                &&& 0 <= k < i
                &&& detects(#[trigger] events[k])
                &&& (tick_count(events.take(i + 1)) - tick_count(events.take(k))) * TICK_MS
                    >= s.click_delay_ms
            },
{
    assert(events.take(i + 1).drop_last() =~= events.take(i));
    ticks_are_counted(s, events.take(i));
    progress_is_never_undone(s, events, 0, i);
    lemma_detected_somewhere(s, events, i);
}

proof fn lemma_detected_somewhere(s: BotView, events: Seq<EventView>, n: int)
    requires
        0 <= n <= events.len(),
        s.nearby.is_empty(),
        s.ticks == 0,
        tick_count(events.take(n)) <= u32::MAX,
        !after(s, events.take(n)).nearby.is_empty(),
    ensures
        exists|k: int|
            {
                &&& 0 <= k < n
                &&& detects(#[trigger] events[k])
                &&& after(s, events.take(n)).detected_at == tick_count(events.take(k))
                &&& tick_count(events.take(k)) <= tick_count(events.take(n))
            },
    decreases n,
{
    if n > 0 {
        let before = after(s, events.take(n - 1));
        lemma_one_more(s, events, n - 1);
        assert(events.take(n).drop_last() =~= events.take(n - 1));
        ticks_are_counted(s, events.take(n - 1));
        if !before.nearby.is_empty() {
            lemma_detected_somewhere(s, events, n - 1);
        }
    }
}

/// A pearl comes near the trapdoor.
pub open spec fn sighting(id: i32) -> EventView {
    EventView::AddEntity { kind: EntityKind::EnderPearl, id, near: true }
}

/// Without a delay, the first tick after a pearl is detected brings the click.
pub proof fn without_delay_the_next_tick_clicks(s: BotView, id: i32)
    requires
        !s.clicked,
        s.click_delay_ms == 0,
    ensures
        ({
            let seen = handled(s, sighting(id)).0;
            handled(seen, EventView::Tick).1.click == Some(click_on(s.trapdoor))
        }),
{
}

/// No click on the trapdoor without a tracked pearl.
pub proof fn no_click_without_a_pearl(s: BotView, event: EventView)
    requires
        s.nearby.is_empty(),
    ensures
        handled(s, event).1.click is None,
{
}

/// Entities that are neither pearls nor items, pearls out of reach, items before the dispenser was
/// clicked and the going of untracked entities leave a run as it was.
pub proof fn other_entities_change_nothing(s: BotView, id: i32, near: bool, ids: Set<i32>)
    requires
        !hits(s, ids),
    ensures
        handled(s, EventView::AddEntity { kind: EntityKind::Other, id, near }) == (s, idle()),
        handled(s, EventView::AddEntity { kind: EntityKind::EnderPearl, id, near: false }) == (
            s,
            idle(),
        ),
        s.dispense_clicks == 0 ==> handled(
            s,
            EventView::AddEntity { kind: EntityKind::Item, id, near },
        ) == (s, idle()),
        handled(s, EventView::RemoveEntities(ids)) == (s, idle()),
{
}

/// All pearls near the trapdoor are tracked: any one of several that goes after the click makes
/// the run a success.
pub proof fn any_tracked_pearl_counts(s: BotView, first: i32, second: i32)
    ensures
        ({
            let one = handled(s, sighting(first));
            let two = handled(one.0, sighting(second));
            &&& two.0.nearby == s.nearby.insert(first).insert(second)
            &&& s.clicked ==> handled(
                two.0,
                EventView::RemoveEntities(set![first]),
            ).0.success
            &&& s.clicked ==> handled(
                two.0,
                EventView::RemoveEntities(set![second]),
            ).0.success
        }),
{
    let one = handled(s, sighting(first)).0;
    let two = handled(one, sighting(second)).0;
    assert(two.nearby.contains(first) && set![first].contains(first));
    assert(two.nearby.contains(second) && set![second].contains(second));
}

/// How many clicks on the dispenser the events call for.
pub open spec fn dispenser_clicks(s: BotView, events: Seq<EventView>) -> nat
    decreases events.len(),
{
    if events.len() == 0 {
        0
    } else {
        dispenser_clicks(s, events.drop_last()) + if handled(
            after(s, events.drop_last()),
            events.last(),
        ).1.dispense is Some {
            1nat
        } else {
            0
        }
    }
}

/// The event shows an item.
pub open spec fn shows_item(event: EventView) -> bool {
    event matches EventView::AddEntity { kind, .. } && kind == EntityKind::Item
}

/// A run without a dispenser clicks none, and every click on a dispenser is on the run's own.
pub proof fn dispenser_clicks_hit_the_dispenser(s: BotView, events: Seq<EventView>, i: int)
    requires
        0 <= i < events.len(),
    ensures
        match s.dispense_block {
            Some(block) => actions_at(s, events, i).dispense is Some ==> actions_at(
                s,
                events,
                i,
            ).dispense == Some(click_on(block)),
            None => actions_at(s, events, i).dispense is None,
        },
{
    progress_is_never_undone(s, events, 0, i);
}

/// The catch itself brings a click on the dispenser, and from then on nothing else is clicked.
pub proof fn a_catch_is_followed_by_the_dispenser(
    s: BotView,
    events: Seq<EventView>,
    block: [i32; 3],
    k: int,
    i: int,
)
    requires
        0 <= k <= i < events.len(),
        s.dispense_block == Some(block),
        pulls(s, events, k),
        !after(s, events.take(k)).success,
    ensures
        actions_at(s, events, k).dispense == Some(click_on(block)),
        actions_at(s, events, i).click is None,
{
    progress_is_never_undone(s, events, 0, k);
    progress_is_never_undone(s, events, k, i);
}

/// A new run does not click its dispenser before the catch.
pub proof fn no_dispensing_before_the_catch(s: BotView, events: Seq<EventView>, i: int)
    requires
        is_fresh(s),
        0 <= i < events.len(),
        actions_at(s, events, i).dispense is Some,
    ensures
        exists|k: int| 0 <= k <= i && #[trigger] pulls(s, events, k),
{
    a_run_stays_consistent(s, events.take(i));
    if after(s, events.take(i)).success {
        lemma_pulled_somewhere(s, events, i);
    } else {
        assert(pulls(s, events, i));
    }
}

/// A new run clicks its dispenser once and then at most as often again as the slot allows.
pub proof fn dispenser_clicks_are_bounded(s: BotView, events: Seq<EventView>)
    requires
        is_fresh(s),
    ensures
        dispenser_clicks(s, events) == after(s, events).dispense_clicks,
        dispenser_clicks(s, events) <= 1 + s.dispense_max_retries,
    decreases events.len(),
{
    a_run_stays_consistent(s, events);
    progress_is_never_undone(s, events, 0, events.len() as int);
    assert(events.take(events.len() as int) =~= events);
    if events.len() > 0 {
        dispenser_clicks_are_bounded(s, events.drop_last());
        a_run_stays_consistent(s, events.drop_last());
    }
}

/// An item after the catch confirms that the dropper fired: the dispenser is not clicked any more,
/// and every tick tells the bot to leave.
pub proof fn an_item_ends_the_dispensing(
    s: BotView,
    events: Seq<EventView>,
    k: int,
    item: int,
    i: int,
)
    requires
        is_fresh(s),
        s.dispense_block is Some,
        0 <= k < item < i < events.len(),
        pulls(s, events, k),
        shows_item(events[item]),
    ensures
        actions_at(s, events, i).dispense is None,
        events[i] is Tick ==> actions_at(s, events, i).exit,
{
    lemma_one_more(s, events, k);
    progress_is_never_undone(s, events, k + 1, item);
    progress_is_never_undone(s, events, 0, item);
    a_run_stays_consistent(s, events.take(item));
    lemma_one_more(s, events, item);
    progress_is_never_undone(s, events, item + 1, i);
    a_run_stays_consistent(s, events.take(i));
}

/// While no item comes, the dispenser is clicked again after every pause, as often as the slot
/// allows; one pause after the last click the bot is told to leave.
pub proof fn the_dispenser_is_retried(s: BotView, block: [i32; 3], n: nat)
    requires
        n >= 1,
        s.dispense_block == Some(block),
        s.dispense_clicks == 1,
        s.dispensed_at == s.ticks,
        !s.should_exit,
        s.ticks + n < TIMEOUT_TICKS,
    ensures
        actions_at(s, only_ticks(n), n - 1).dispense is Some <==> n % (
        DISPENSE_PAUSE_TICKS as nat) == 0 && n / (DISPENSE_PAUSE_TICKS as nat)
            <= s.dispense_max_retries,
        actions_at(s, only_ticks(n), n - 1).exit <==> n / (DISPENSE_PAUSE_TICKS as nat)
            > s.dispense_max_retries,
{
    lemma_retrying(s, (n - 1) as nat);
    assert(only_ticks(n).take(n - 1) =~= only_ticks((n - 1) as nat));
}

proof fn lemma_retrying(s: BotView, n: nat)
    requires
        s.dispense_block is Some,
        s.dispense_clicks == 1,
        s.dispensed_at == s.ticks,
        !s.should_exit,
        s.ticks + n < TIMEOUT_TICKS,
    ensures
        ({
            let t = after(s, only_ticks(n));
            let pauses = n / (DISPENSE_PAUSE_TICKS as nat);
            &&& t.ticks == s.ticks + n
            &&& t.dispense_block == s.dispense_block
            &&& t.dispense_max_retries == s.dispense_max_retries
            &&& t.should_exit <==> pauses > s.dispense_max_retries
            &&& !t.should_exit ==> t.dispense_clicks == 1 + pauses && t.dispensed_at == s.ticks
                + DISPENSE_PAUSE_TICKS * pauses
        }),
    decreases n,
{
    if n > 0 {
        lemma_retrying(s, (n - 1) as nat);
        assert(only_ticks(n).drop_last() =~= only_ticks((n - 1) as nat));
    }
}

/// A new run with a dispenser is told to leave before its time only once an item came after a
/// click on the dispenser, or all clicks that the slot allows were made.
pub proof fn a_run_waits_for_its_dispenser(s: BotView, events: Seq<EventView>, i: int)
    requires
        is_fresh(s),
        s.dispense_block is Some,
        0 <= i < events.len(),
        tick_count(events.take(i + 1)) < TIMEOUT_TICKS,
        actions_at(s, events, i).exit,
    ensures
        (exists|m: int|
            0 <= m < i && shows_item(#[trigger] events[m]) && dispenser_clicks(s, events.take(m))
                > 0) || dispenser_clicks(s, events.take(i)) == 1 + s.dispense_max_retries,
{
    assert(events.take(i + 1).drop_last() =~= events.take(i));
    ticks_are_counted(s, events.take(i));
    progress_is_never_undone(s, events, 0, i);
    dispenser_clicks_are_bounded(s, events.take(i));
    if after(s, events.take(i)).should_exit {
        lemma_over_by_dispenser(s, events, i);
    }
}

proof fn lemma_over_by_dispenser(s: BotView, events: Seq<EventView>, n: int)
    requires
        is_fresh(s),
        s.dispense_block is Some,
        0 <= n <= events.len(),
        tick_count(events.take(n)) < TIMEOUT_TICKS,
        after(s, events.take(n)).should_exit,
    ensures
        (exists|m: int|
            0 <= m < n && shows_item(#[trigger] events[m]) && dispenser_clicks(s, events.take(m))
                > 0) || after(s, events.take(n)).dispense_clicks > s.dispense_max_retries,
    decreases n,
{
    if n > 0 {
        lemma_one_more(s, events, n - 1);
        assert(events.take(n).drop_last() =~= events.take(n - 1));
        ticks_are_counted(s, events.take(n - 1));
        progress_is_never_undone(s, events, 0, n - 1);
        dispenser_clicks_are_bounded(s, events.take(n - 1));
        a_run_stays_consistent(s, events.take(n - 1));
        if after(s, events.take(n - 1)).should_exit {
            lemma_over_by_dispenser(s, events, n - 1);
        }
    }
}

/// Every click of a run is a right click on the middle of the upper face of its own trapdoor or
/// dispenser.
pub proof fn clicks_meet_the_runs_own_blocks(s: BotView, events: Seq<EventView>, i: int)
    requires
        0 <= i < events.len(),
    ensures
        actions_at(s, events, i).click matches Some(click) ==> opens(click, s.trapdoor),
        actions_at(s, events, i).dispense matches Some(click) ==> s.dispense_block matches Some(
            block,
        ) && opens(click, block),
{
    progress_is_never_undone(s, events, 0, i);
    a_step_clicks_its_own_blocks(after(s, events.take(i)), events[i]);
}

/// The event shows the pearl `id` near the trapdoor.
pub open spec fn sights(event: EventView, id: i32) -> bool {
    event == sighting(id)
}

/// The event removes the entity `id`.
pub open spec fn removes(event: EventView, id: i32) -> bool {
    event matches EventView::RemoveEntities(ids) && ids.contains(id)
}

/// A pearl is tracked exactly from when it comes near to when it is removed, whatever else
/// happens.
pub proof fn a_pearl_is_tracked_until_it_is_removed(s: BotView, events: Seq<EventView>, id: i32)
    requires
        is_fresh(s),
    ensures
        after(s, events).nearby.contains(id) <==> exists|k: int|
            {
                &&& 0 <= k < events.len()
                &&& sights(#[trigger] events[k], id)
                &&& forall|j: int| k < j < events.len() ==> !removes(#[trigger] events[j], id)
            },
    decreases events.len(),
{
    if events.len() > 0 {
        let rest = events.drop_last();
        let last = events.len() - 1;
        a_pearl_is_tracked_until_it_is_removed(s, rest, id);
        if after(s, rest).nearby.contains(id) && !removes(events[last], id) {
            let k = choose|k: int|
                {
                    &&& 0 <= k < rest.len()
                    &&& sights(#[trigger] rest[k], id)
                    &&& forall|j: int| k < j < rest.len() ==> !removes(#[trigger] rest[j], id)
                };
            assert(sights(events[k], id));
            assert forall|j: int| k < j < events.len() implies !removes(
                #[trigger] events[j],
                id,
            ) by {
                if j < last {
                    assert(rest[j] == events[j]);
                }
            }
        }
        if exists|k: int|
            {
                &&& 0 <= k < events.len()
                &&& sights(#[trigger] events[k], id)
                &&& forall|j: int| k < j < events.len() ==> !removes(#[trigger] events[j], id)
            } {
            let k = choose|k: int|
                {
                    &&& 0 <= k < events.len()
                    &&& sights(#[trigger] events[k], id)
                    &&& forall|j: int| k < j < events.len() ==> !removes(#[trigger] events[j], id)
                };
            if k < last {
                assert(sights(rest[k], id));
                assert forall|j: int| k < j < rest.len() implies !removes(
                    #[trigger] rest[j],
                    id,
                ) by {
                    assert(rest[j] == events[j]);
                }
                assert(!removes(events[last], id));
            }
        }
    }
}

/// While pearls are tracked, the run remembers the tick count at which the first of them came
/// near: there was none before, and there was one at any time since.
pub proof fn the_detection_is_remembered(s: BotView, events: Seq<EventView>, n: int)
    requires
        is_fresh(s),
        0 <= n <= events.len(),
        tick_count(events.take(n)) <= u32::MAX,
        !after(s, events.take(n)).nearby.is_empty(),
    ensures
        exists|k: int|
            {
                &&& 0 <= k < n
                &&& detects(#[trigger] events[k])
                &&& after(s, events.take(k)).nearby.is_empty()
                &&& forall|j: int|
                    k < j <= n ==> !(#[trigger] after(s, events.take(j))).nearby.is_empty()
                &&& after(s, events.take(n)).detected_at == tick_count(events.take(k))
            },
    decreases n,
{
    if n > 0 {
        let before = after(s, events.take(n - 1));
        lemma_one_more(s, events, n - 1);
        assert(events.take(n).drop_last() =~= events.take(n - 1));
        ticks_are_counted(s, events.take(n - 1));
        if before.nearby.is_empty() {
            assert(detects(events[n - 1]));
        } else {
            the_detection_is_remembered(s, events, n - 1);
            let k = choose|k: int|
                {
                    &&& 0 <= k < n - 1
                    &&& detects(#[trigger] events[k])
                    &&& after(s, events.take(k)).nearby.is_empty()
                    &&& forall|j: int|
                        k < j <= n - 1 ==> !(#[trigger] after(s, events.take(j))).nearby.is_empty()
                    &&& before.detected_at == tick_count(events.take(k))
                };
            assert(detects(events[k]));
            assert forall|j: int| k < j <= n implies !(#[trigger] after(
                s,
                events.take(j),
            )).nearby.is_empty() by {
                if j < n {
                    assert(!after(s, events.take(j)).nearby.is_empty());
                }
            }
        }
    }
}

/// The event at `i` is an end of the run: the connection is lost, or the bot is told to leave.
pub open spec fn is_end(s: BotView, events: Seq<EventView>, i: int) -> bool {
    events[i] is Disconnect || actions_at(s, events, i).exit
}

/// The result of a new run is handed out at its first end and at no other time.
pub proof fn the_first_end_brings_the_result(s: BotView, events: Seq<EventView>, i: int)
    requires
        is_fresh(s),
        0 <= i < events.len(),
    ensures
        actions_at(s, events, i).done is Some <==> is_end(s, events, i) && forall|j: int|
            0 <= j < i ==> !#[trigger] is_end(s, events, j),
{
    if is_end(s, events, i) && forall|j: int| 0 <= j < i ==> !#[trigger] is_end(s, events, j) {
        if after(s, events.take(i)).done_sent {
            lemma_reported_somewhere(s, events, i);
            let k = choose|k: int| 0 <= k < i && (#[trigger] actions_at(s, events, k)).done is Some;
            assert(is_end(s, events, k));
        }
    }
    if actions_at(s, events, i).done is Some {
        assert forall|j: int| 0 <= j < i implies !#[trigger] is_end(s, events, j) by {
            if is_end(s, events, j) {
                lemma_one_more(s, events, j);
                progress_is_never_undone(s, events, j + 1, i);
            }
        }
    }
}

} // verus!
