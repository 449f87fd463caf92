//! What a single event changes in a pearl run, and what it leaves alone.

use vstd::prelude::*;

use crate::pearl::{
    click_on, dispensing, done_report, fresh, handled, reported, timed_out, BotActions, BotEvent,
    BotView, Direction, EntityKind, EventView, InteractionHand, PearlBotState, UseItemOn,
};

verus! {

/// The actions call for nothing.
pub open spec fn nothing_to_do(actions: BotActions) -> bool {
    &&& !actions.heartbeat
    &&& actions.click is None
    &&& actions.dispense is None
    &&& actions.done is None
    &&& !actions.exit
}

/// The click is one of the main hand on the middle of the upper face of `block`. Locations count
/// in halves of a block, so the middle is one half in from the block's corner, and the upper face
/// two halves up.
pub open spec fn opens(click: UseItemOn, block: [i32; 3]) -> bool {
    &&& click.block_pos == block
    &&& click.hand == InteractionHand::MainHand
    &&& click.direction == Direction::Up
    &&& click.location.x - block[0] - block[0] == 1
    &&& click.location.y - block[1] - block[1] == 2
    &&& click.location.z - block[2] - block[2] == 1
    &&& !click.inside
    &&& !click.world_border
    &&& click.seq == 0
}

/// The two states belong to the same run: one trapdoor, requester, delay and dispenser.
pub open spec fn same_run(s: BotView, t: BotView) -> bool {
    &&& t.trapdoor == s.trapdoor
    &&& t.requester == s.requester
    &&& t.click_delay_ms == s.click_delay_ms
    &&& t.dispense_block == s.dispense_block
    &&& t.dispense_max_retries == s.dispense_max_retries
}

/// Ticks from count `from` to count `to`, on a counter of 32 bits.
pub open spec fn elapsed(from: u32, to: u32) -> int {
    (to - from) % 0x1_0000_0000
}

/// A click names the block it is meant for, and meets the middle of that block's upper face.
pub proof fn a_click_meets_its_block(block: [i32; 3])
    ensures
        opens(click_on(block), block),
{
}

/// Whatever happens, a click opens the trapdoor or sets off the dispenser of the run itself.
pub proof fn a_step_clicks_its_own_blocks(s: BotView, event: EventView)
    ensures
        handled(s, event).1.click matches Some(click) ==> opens(click, s.trapdoor),
        handled(s, event).1.dispense matches Some(click) ==> s.dispense_block matches Some(block)
            && opens(click, block),
{
}

/// A new run has its settings as given; it has seen, done and reported nothing.
pub proof fn a_new_run_is_blank(
    trapdoor: [i32; 3],
    requester: Seq<char>,
    click_delay_ms: u64,
    dispense_block: Option<[i32; 3]>,
    dispense_max_retries: u32,
)
    ensures
        ({
            let s = fresh(
                trapdoor,
                requester,
                click_delay_ms,
                dispense_block,
                dispense_max_retries,
            );
            &&& s.trapdoor == trapdoor
            &&& s.requester == requester
            &&& s.click_delay_ms == click_delay_ms
            &&& s.dispense_block == dispense_block
            &&& s.dispense_max_retries == dispense_max_retries
            &&& forall|id: i32| !s.nearby.contains(id)
            &&& s.ticks == 0
            &&& s.detected_at == 0
            &&& s.dispense_clicks == 0
            &&& s.dispensed_at == 0
            &&& !s.should_exit
            &&& !s.success
            &&& !s.clicked
            &&& !s.done_sent
            &&& !s.dropper_fired
        }),
{
}

/// The view of a run shows every field as it is.
pub proof fn a_view_shows_the_whole_run(state: PearlBotState)
    ensures
        state@.trapdoor == state.trapdoor,
        state@.requester == state.requester@,
        state@.nearby == state.nearby_pearls@,
        state@.detected_at == state.detected_at,
        state@.should_exit == state.should_exit,
        state@.success == state.success,
        state@.ticks == state.ticks,
        state@.clicked == state.clicked,
        state@.done_sent == state.done_sent,
        state@.click_delay_ms == state.click_delay_ms,
        state@.dispense_block == state.dispense_block,
        state@.dispense_max_retries == state.dispense_max_retries,
        state@.dispense_clicks == state.dispense_clicks,
        state@.dispensed_at == state.dispensed_at,
        state@.dropper_fired == state.dropper_fired,
{
}

/// The view of an event shows the event as it is; a list of removed entities counts as a set.
pub proof fn a_view_shows_the_event(event: BotEvent)
    ensures
        event is Spawn <==> event@ is Spawn,
        event is Tick <==> event@ is Tick,
        event is Disconnect <==> event@ is Disconnect,
        event is Other <==> event@ is Other,
        event is AddEntity <==> event@ is AddEntity,
        event is RemoveEntities <==> event@ is RemoveEntities,
        event matches BotEvent::AddEntity { kind, id, near } ==> event@ == (EventView::AddEntity {
            kind,
            id,
            near,
        }),
        event matches BotEvent::RemoveEntities(ids) ==> event@ matches EventView::RemoveEntities(
            set,
        ) && forall|id: i32|
            set.contains(id) <==> exists|i: int| 0 <= i < ids@.len() && #[trigger] ids@[i] == id,
{
    if let BotEvent::RemoveEntities(ids) = event {
        assert forall|id: i32| ids@.to_set().contains(id) <==> exists|i: int|
            0 <= i < ids@.len() && #[trigger] ids@[i] == id by {
            if exists|i: int| 0 <= i < ids@.len() && #[trigger] ids@[i] == id {
                assert(ids@.contains(id));
            }
        }
    }
}

/// Joining the world, and anything the bot takes no decision on, changes nothing and calls for
/// nothing; nor does an entity that is neither pearl nor item, or a pearl out of reach.
pub proof fn unrelated_events_change_nothing(s: BotView, id: i32, near: bool)
    ensures
        handled(s, EventView::Spawn).0 == s,
        nothing_to_do(handled(s, EventView::Spawn).1),
        handled(s, EventView::Other).0 == s,
        nothing_to_do(handled(s, EventView::Other).1),
        handled(s, EventView::AddEntity { kind: EntityKind::Other, id, near }).0 == s,
        nothing_to_do(handled(s, EventView::AddEntity { kind: EntityKind::Other, id, near }).1),
        handled(s, EventView::AddEntity { kind: EntityKind::EnderPearl, id, near: false }).0 == s,
        nothing_to_do(
            handled(s, EventView::AddEntity { kind: EntityKind::EnderPearl, id, near: false }).1,
        ),
{
}

/// A pearl that comes near joins the tracked ones; the moment is noted if it is the only one.
/// Nothing else changes, and nothing is to be done yet.
pub proof fn a_near_pearl_joins_the_tracked(s: BotView, id: i32)
    ensures
        ({
            let (t, actions) = handled(
                s,
                EventView::AddEntity { kind: EntityKind::EnderPearl, id, near: true },
            );
            &&& nothing_to_do(actions)
            &&& forall|x: i32| t.nearby.contains(x) <==> s.nearby.contains(x) || x == id
            &&& (exists|x: i32| s.nearby.contains(x)) ==> t.detected_at == s.detected_at
            &&& (forall|x: i32| !s.nearby.contains(x)) ==> t.detected_at == s.ticks
            &&& same_run(s, t)
            &&& t.should_exit == s.should_exit
            &&& t.success == s.success
            &&& t.ticks == s.ticks
            &&& t.clicked == s.clicked
            &&& t.done_sent == s.done_sent
            &&& t.dispense_clicks == s.dispense_clicks
            &&& t.dispensed_at == s.dispensed_at
            &&& t.dropper_fired == s.dropper_fired
        }),
{
    if forall|x: i32| !s.nearby.contains(x) {
        assert(s.nearby =~= Set::empty());
    }
}

/// Removed entities are tracked no more, and all others still are. If one of them was tracked and
/// the trapdoor had been clicked, the run is a success: over at once without a dispenser, and
/// else with a first click on the dispenser. Nothing else changes.
pub proof fn a_removal_drops_its_pearls(s: BotView, ids: Set<i32>)
    ensures
        ({
            let (t, actions) = handled(s, EventView::RemoveEntities(ids));
            let pulled = s.clicked && exists|x: i32| s.nearby.contains(x) && ids.contains(x);
            let first = pulled && !s.success && s.dispense_block is Some;
            &&& forall|x: i32| t.nearby.contains(x) <==> s.nearby.contains(x) && !ids.contains(x)
            &&& t.success <==> s.success || pulled
            &&& t.should_exit <==> s.should_exit || (pulled && s.dispense_block is None)
            &&& actions.dispense is Some <==> first
            &&& first ==> t.dispense_clicks == 1 && t.dispensed_at == s.ticks
            &&& !first ==> t.dispense_clicks == s.dispense_clicks && t.dispensed_at
                == s.dispensed_at
            &&& !actions.heartbeat && actions.click is None && actions.done is None
                && !actions.exit
            &&& same_run(s, t)
            &&& t.detected_at == s.detected_at
            &&& t.ticks == s.ticks
            &&& t.clicked == s.clicked
            &&& t.done_sent == s.done_sent
            &&& t.dropper_fired == s.dropper_fired
        }),
{
}

/// An item changes nothing before the dispenser was clicked. Afterwards it shows that the dropper
/// fired, and the run is over; nothing else changes.
pub proof fn an_item_confirms_a_clicked_dispenser(s: BotView, id: i32, near: bool)
    ensures
        ({
            let (t, actions) = handled(
                s,
                EventView::AddEntity { kind: EntityKind::Item, id, near },
            );
            &&& nothing_to_do(actions)
            &&& s.dispense_clicks == 0 ==> t == s
            &&& s.dispense_clicks > 0 ==> t.dropper_fired && t.should_exit
            &&& same_run(s, t)
            &&& t.nearby == s.nearby
            &&& t.detected_at == s.detected_at
            &&& t.success == s.success
            &&& t.ticks == s.ticks
            &&& t.clicked == s.clicked
            &&& t.done_sent == s.done_sent
            &&& t.dispense_clicks == s.dispense_clicks
            &&& t.dispensed_at == s.dispensed_at
        }),
{
}

/// A lost connection brings the result if it was not handed out yet. Nothing else changes, and
/// there is nothing left to click or to leave.
pub proof fn a_lost_connection_only_reports(s: BotView)
    ensures
        ({
            let (t, actions) = handled(s, EventView::Disconnect);
            &&& !s.done_sent ==> actions.done == Some(s.success)
            &&& s.done_sent ==> actions.done is None
            &&& !actions.heartbeat && actions.click is None && actions.dispense is None
                && !actions.exit
            &&& t.done_sent
            &&& same_run(s, t)
            &&& t.nearby == s.nearby
            &&& t.detected_at == s.detected_at
            &&& t.should_exit == s.should_exit
            &&& t.success == s.success
            &&& t.ticks == s.ticks
            &&& t.clicked == s.clicked
            &&& t.dispense_clicks == s.dispense_clicks
            &&& t.dispensed_at == s.dispensed_at
            &&& t.dropper_fired == s.dropper_fired
        }),
{
}

/// A tick counts up by one and leaves the tracked pearls and the outcome of the run alone. A
/// heartbeat is due on every twentieth.
pub proof fn a_tick_counts(s: BotView)
    ensures
        ({
            let (t, actions) = handled(s, EventView::Tick);
            &&& t.ticks as int == (s.ticks + 1) % 0x1_0000_0000
            &&& actions.heartbeat <==> t.ticks % 20 == 0
            &&& same_run(s, t)
            &&& t.nearby == s.nearby
            &&& t.detected_at == s.detected_at
            &&& t.success == s.success
            &&& t.dropper_fired == s.dropper_fired
        }),
{
}

/// A tick brings the click on the trapdoor exactly if there was none yet, a pearl is tracked, and
/// the delay since the detection has passed, at 50 ms a tick; and the run notes the click.
pub proof fn a_tick_clicks_when_the_delay_is_over(s: BotView)
    ensures
        ({
            let (t, actions) = handled(s, EventView::Tick);
            &&& actions.click is Some <==> {
                &&& !s.clicked
                &&& exists|id: i32| s.nearby.contains(id)
                &&& 50 * elapsed(s.detected_at, t.ticks) >= s.click_delay_ms
            }
            &&& t.clicked <==> s.clicked || actions.click is Some
        }),
{
    if exists|id: i32| s.nearby.contains(id) {
        assert(!s.nearby.is_empty());
    } else {
        assert(s.nearby =~= Set::empty());
    }
}

/// A tick clicks the dispenser again exactly if the run is not over, the dispenser was clicked and
/// has had 20 ticks, and a retry is left. The click is counted and timed.
pub proof fn a_tick_retries_the_dispenser(s: BotView)
    ensures
        ({
            let (t, actions) = handled(s, EventView::Tick);
            let given_its_time = s.dispense_clicks > 0 && elapsed(s.dispensed_at, t.ticks) >= 20;
            &&& actions.dispense is Some <==> {
                &&& !s.should_exit
                &&& t.ticks < 600
                &&& given_its_time
                &&& s.dispense_block is Some
                &&& s.dispense_clicks <= s.dispense_max_retries
            }
            &&& actions.dispense is Some ==> t.dispense_clicks == s.dispense_clicks + 1
                && t.dispensed_at == t.ticks
            &&& actions.dispense is None ==> t.dispense_clicks == s.dispense_clicks
                && t.dispensed_at == s.dispensed_at
        }),
{
}

/// A tick tells the bot to leave exactly if the run was over, its 600 ticks are up, or the
/// dispenser has had its time after the last click allowed. From then on the run is over.
pub proof fn a_tick_leaves_when_the_run_is_over(s: BotView)
    ensures
        ({
            let (t, actions) = handled(s, EventView::Tick);
            let given_its_time = s.dispense_clicks > 0 && elapsed(s.dispensed_at, t.ticks) >= 20;
            &&& actions.exit <==> {
                ||| s.should_exit
                ||| t.ticks >= 600
                ||| given_its_time && (s.dispense_block is None || s.dispense_clicks
                    > s.dispense_max_retries)
            }
            &&& t.should_exit == actions.exit
        }),
{
}

/// A result is handed out exactly at the end of the run, by a lost connection or when the bot is
/// told to leave, and only if it was not handed out before. It says whether the run succeeded.
pub proof fn a_result_comes_only_with_the_end(s: BotView, event: EventView)
    ensures
        ({
            let (t, actions) = handled(s, event);
            &&& actions.done is Some <==> !s.done_sent && (event is Disconnect || actions.exit)
            &&& actions.done matches Some(success) ==> success == s.success
            &&& t.done_sent <==> s.done_sent || actions.done is Some
        }),
{
}

/// The bot is told to leave, reminded of its heartbeat and sent to the trapdoor on ticks only.
pub proof fn only_ticks_make_the_bot_move(s: BotView, event: EventView)
    requires
        !(event is Tick),
    ensures
        !handled(s, event).1.exit,
        !handled(s, event).1.heartbeat,
        handled(s, event).1.click is None,
        handled(s, event).0.ticks == s.ticks,
        handled(s, event).0.clicked == s.clicked,
{
}

/// Asked for its result, a run gives it once and is otherwise unchanged.
pub proof fn a_result_is_given_once(s: BotView)
    ensures
        s.done_sent ==> done_report(s) is None,
        !s.done_sent ==> done_report(s) == Some(s.success),
        done_report(reported(s)) is None,
        reported(s).done_sent,
        same_run(s, reported(s)),
        reported(s).nearby == s.nearby,
        reported(s).detected_at == s.detected_at,
        reported(s).should_exit == s.should_exit,
        reported(s).success == s.success,
        reported(s).ticks == s.ticks,
        reported(s).clicked == s.clicked,
        reported(s).dispense_clicks == s.dispense_clicks,
        reported(s).dispensed_at == s.dispensed_at,
        reported(s).dropper_fired == s.dropper_fired,
{
}

/// The time limit ends a run at 600 ticks and changes nothing else.
pub proof fn the_time_limit_only_ends_the_run(s: BotView)
    ensures
        timed_out(s).should_exit <==> s.should_exit || s.ticks >= 600,
        same_run(s, timed_out(s)),
        timed_out(s).nearby == s.nearby,
        timed_out(s).detected_at == s.detected_at,
        timed_out(s).success == s.success,
        timed_out(s).ticks == s.ticks,
        timed_out(s).clicked == s.clicked,
        timed_out(s).done_sent == s.done_sent,
        timed_out(s).dispense_clicks == s.dispense_clicks,
        timed_out(s).dispensed_at == s.dispensed_at,
        timed_out(s).dropper_fired == s.dropper_fired,
{
}

/// Seeing to the dispenser is a matter of its clicks and of the end of the run. It waits while the
/// run is over, before the first click and for 20 ticks after each; then it clicks the dispenser
/// again while a retry is left, and ends the run if none is.
pub proof fn the_dispenser_is_seen_to(s: BotView)
    ensures
        ({
            let (t, click) = dispensing(s);
            let at_work = !s.should_exit && s.dispense_clicks > 0 && elapsed(
                s.dispensed_at,
                s.ticks,
            ) >= 20;
            let again = at_work && s.dispense_block is Some && s.dispense_clicks
                <= s.dispense_max_retries;
            &&& click is Some <==> again
            &&& click matches Some(c) ==> s.dispense_block matches Some(block) && opens(c, block)
            &&& again ==> t.dispense_clicks == s.dispense_clicks + 1 && t.dispensed_at == s.ticks
            &&& !again ==> t.dispense_clicks == s.dispense_clicks && t.dispensed_at
                == s.dispensed_at
            &&& t.should_exit <==> s.should_exit || (at_work && !again)
            &&& same_run(s, t)
            &&& t.nearby == s.nearby
            &&& t.detected_at == s.detected_at
            &&& t.success == s.success
            &&& t.ticks == s.ticks
            &&& t.clicked == s.clicked
            &&& t.done_sent == s.done_sent
            &&& t.dropper_fired == s.dropper_fired
        }),
{
}

} // verus!
