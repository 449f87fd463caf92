//! One pearl run: the state a bot keeps from the moment it joins the server until it reports
//! whether the pearl was pulled.

use std::collections::HashSet;

use vstd::prelude::*;
use vstd::string::*;

use crate::text::{decimal, decimal_text};

verus! {

/// Ticks after which a run is given up: 30 s at 20 ticks a second.
pub const TIMEOUT_TICKS: u32 = 600;

/// Milliseconds between two ticks.
pub const TICK_MS: u64 = 50;

/// Ticks that a dispenser is given to drop an item before it is clicked again or given up.
pub const DISPENSE_PAUSE_TICKS: u32 = 20;

/// Ticks between two heartbeats.
pub const HEARTBEAT_TICKS: u32 = 20;

/// Squared distance, in blocks, up to which a pearl belongs to the chamber.
pub const PEARL_PROXIMITY_SQR: u32 = 25;

/// Seconds a session on the server may last.
pub const SESSION_LIMIT_SECS: u64 = 50;

/// Seconds a run may take in all.
pub const RUN_LIMIT_SECS: u64 = 60;

/// A face of a block.
#[derive(Debug, Clone, Copy, PartialEq, Eq, Structural)]
pub enum Direction {
    Down,
    Up,
    North,
    South,
    West,
    East,
}

/// A hand that interacts with a block.
#[derive(Debug, Clone, Copy, PartialEq, Eq, Structural)]
pub enum InteractionHand {
    MainHand,
    OffHand,
}

/// A point in the world, in halves of a block.
#[derive(Debug, Clone, Copy, PartialEq, Eq, Structural)]
pub struct HalfBlocks {
    pub x: i64,
    pub y: i64,
    pub z: i64,
}

/// A click on a block.
#[derive(Debug, Clone, Copy, PartialEq, Eq)]
pub struct UseItemOn {
    pub hand: InteractionHand,
    pub block_pos: [i32; 3],
    pub direction: Direction,
    pub location: HalfBlocks,
    pub inside: bool,
    pub world_border: bool,
    pub seq: u32,
}

/// What kind of entity appeared, as far as the bot cares.
#[derive(Debug, Clone, Copy, PartialEq, Eq, Structural)]
pub enum EntityKind {
    EnderPearl,
    /// An item lying in the world.
    Item,
    Other,
}

/// What the server, or the end of the connection, tells the bot.
#[derive(Debug, Clone)]
pub enum BotEvent {
    Spawn,
    /// An entity appeared; `near` says whether it is within reach of the trapdoor.
    AddEntity { kind: EntityKind, id: i32, near: bool },
    RemoveEntities(Vec<i32>),
    Tick,
    Disconnect,
    /// Anything the bot takes no decision on.
    Other,
}

/// What the bot has to do after an event.
#[derive(Debug, Clone, Copy)]
pub struct BotActions {
    /// A line on the bot's state is due in the log.
    pub heartbeat: bool,
    /// The click on the trapdoor to send.
    pub click: Option<UseItemOn>,
    /// The click on the dispenser to send.
    pub dispense: Option<UseItemOn>,
    /// The run's result, to be reported to whoever waits for it.
    pub done: Option<bool>,
    /// Leave the server.
    pub exit: bool,
}

/// The state of one run.
#[derive(Debug)]
pub struct PearlBotState {
    pub trapdoor: [i32; 3],
    pub requester: String,
    /// Entity ids of the pearls seen near the trapdoor and not yet gone.
    pub nearby_pearls: HashSet<i32>,
    /// Tick count at which `nearby_pearls` last stopped being empty.
    pub detected_at: u32,
    pub should_exit: bool,
    pub success: bool,
    pub ticks: u32,
    pub clicked: bool,
    pub done_sent: bool,
    pub click_delay_ms: u64,
    /// The button or lever that re-arms the dropper.
    pub dispense_block: Option<[i32; 3]>,
    pub dispense_max_retries: u32,
    /// How often the dispenser was clicked.
    pub dispense_clicks: u64,
    /// Tick count at which the dispenser was last clicked.
    pub dispensed_at: u32,
    /// An item appeared after the dispenser was clicked.
    pub dropper_fired: bool,
}

/// The mathematical content of a [`PearlBotState`].
#[verifier::ext_equal]
pub struct BotView {
    pub trapdoor: [i32; 3],
    pub requester: Seq<char>,
    pub nearby: Set<i32>,
    pub detected_at: u32,
    pub should_exit: bool,
    pub success: bool,
    pub ticks: u32,
    pub clicked: bool,
    pub done_sent: bool,
    pub click_delay_ms: u64,
    pub dispense_block: Option<[i32; 3]>,
    pub dispense_max_retries: u32,
    pub dispense_clicks: u64,
    pub dispensed_at: u32,
    pub dropper_fired: bool,
}

/// The mathematical content of a [`BotEvent`].
pub enum EventView {
    Spawn,
    AddEntity { kind: EntityKind, id: i32, near: bool },
    RemoveEntities(Set<i32>),
    Tick,
    Disconnect,
    Other,
}

impl View for PearlBotState {
    type V = BotView;

    open spec fn view(&self) -> BotView {
        BotView {
            trapdoor: self.trapdoor,
            requester: self.requester@,
            nearby: self.nearby_pearls@,
            detected_at: self.detected_at,
            should_exit: self.should_exit,
            success: self.success,
            ticks: self.ticks,
            clicked: self.clicked,
            done_sent: self.done_sent,
            click_delay_ms: self.click_delay_ms,
            dispense_block: self.dispense_block,
            dispense_max_retries: self.dispense_max_retries,
            dispense_clicks: self.dispense_clicks,
            dispensed_at: self.dispensed_at,
            dropper_fired: self.dropper_fired,
        }
    }
}

impl View for BotEvent {
    type V = EventView;

    open spec fn view(&self) -> EventView {
        match *self {
            BotEvent::Spawn => EventView::Spawn,
            BotEvent::AddEntity { kind, id, near } => EventView::AddEntity { kind, id, near },
            BotEvent::RemoveEntities(ids) => EventView::RemoveEntities(ids@.to_set()),
            BotEvent::Tick => EventView::Tick,
            BotEvent::Disconnect => EventView::Disconnect,
            BotEvent::Other => EventView::Other,
        }
    }
}

/// The state of a run that has just begun.
pub open spec fn fresh(
    trapdoor: [i32; 3],
    requester: Seq<char>,
    click_delay_ms: u64,
    dispense_block: Option<[i32; 3]>,
    dispense_max_retries: u32,
) -> BotView {
    BotView {
        trapdoor,
        requester,
        nearby: Set::empty(),
        detected_at: 0,
        should_exit: false,
        success: false,
        ticks: 0,
        clicked: false,
        done_sent: false,
        click_delay_ms,
        dispense_block,
        dispense_max_retries,
        dispense_clicks: 0,
        dispensed_at: 0,
        dropper_fired: false,
    }
}

/// Nothing to do.
pub open spec fn idle() -> BotActions {
    BotActions { heartbeat: false, click: None, dispense: None, done: None, exit: false }
}

/// The tick count after `ticks`; it starts over at the end of its range.
pub open spec fn next_tick(ticks: u32) -> u32 {
    if ticks == u32::MAX {
        0
    } else {
        (ticks + 1) as u32
    }
}

/// Ticks from count `from` to count `to`.
pub open spec fn ticks_between(from: u32, to: u32) -> int {
    if from <= to {
        to - from
    } else {
        to - from + 0x1_0000_0000
    }
}

/// While pearls are near, a run waits out its delay and then clicks once. The delay is counted
/// from when the first of them came near a trapdoor that had none.
pub open spec fn click_due(s: BotView, now: u32) -> bool {
    &&& !s.clicked
    &&& !s.nearby.is_empty()
    &&& ticks_between(s.detected_at, now) * TICK_MS >= s.click_delay_ms
}

/// A right click with the main hand on the middle of a block's upper face.
pub open spec fn click_on(block: [i32; 3]) -> UseItemOn {
    UseItemOn {
        hand: InteractionHand::MainHand,
        block_pos: block,
        direction: Direction::Up,
        location: HalfBlocks {
            x: (2 * block[0] + 1) as i64,
            y: (2 * block[1] + 2) as i64,
            z: (2 * block[2] + 1) as i64,
        },
        inside: false,
        world_border: false,
        seq: 0,
    }
}

/// A pearl near the trapdoor is tracked from now on.
pub open spec fn tracking(s: BotView, id: i32) -> BotView {
    BotView {
        nearby: s.nearby.insert(id),
        detected_at: if s.nearby.is_empty() {
            s.ticks
        } else {
            s.detected_at
        },
        ..s
    }
}

/// Some tracked pearl is among `ids`.
pub open spec fn hits(s: BotView, ids: Set<i32>) -> bool {
    exists|id: i32| #[trigger] s.nearby.contains(id) && ids.contains(id)
}

/// Entities left the world. A tracked pearl that goes after the click was pulled. The first such
/// catch is the end of the run, unless there is a dispenser: then that is clicked at once.
pub open spec fn without(s: BotView, ids: Set<i32>) -> (BotView, BotActions) {
    let pulled = hits(s, ids) && s.clicked;
    let seen = BotView { nearby: s.nearby.difference(ids), success: s.success || pulled, ..s };
    match s.dispense_block {
        None => (BotView { should_exit: s.should_exit || pulled, ..seen }, idle()),
        Some(block) => if pulled && !s.success {
            (
                BotView { dispense_clicks: 1, dispensed_at: s.ticks, ..seen },
                BotActions { dispense: Some(click_on(block)), ..idle() },
            )
        } else {
            (seen, idle())
        },
    }
}

/// An item appeared. After a click on the dispenser this confirms that the dropper fired, and the
/// run is over; before, it means nothing.
pub open spec fn item_seen(s: BotView) -> BotView {
    if s.dispense_clicks > 0 {
        BotView { dropper_fired: true, should_exit: true, ..s }
    } else {
        s
    }
}

/// A clicked dispenser is given its pause. If no item came by then, it is clicked again, or, with
/// the retries used up, the run is over.
pub open spec fn dispensing(s: BotView) -> (BotView, Option<UseItemOn>) {
    if s.should_exit || s.dispense_clicks == 0 || ticks_between(s.dispensed_at, s.ticks)
        < DISPENSE_PAUSE_TICKS {
        (s, None)
    } else if s.dispense_block is Some && s.dispense_clicks <= s.dispense_max_retries {
        (
            BotView {
                dispense_clicks: (s.dispense_clicks + 1) as u64,
                dispensed_at: s.ticks,
                ..s
            },
            Some(click_on(s.dispense_block->0)),
        )
    } else {
        (BotView { should_exit: true, ..s }, None)
    }
}

/// What `signal_done` hands out in state `s`.
pub open spec fn done_report(s: BotView) -> Option<bool> {
    if s.done_sent {
        None
    } else {
        Some(s.success)
    }
}

/// The run's state once its result has been handed out.
pub open spec fn reported(s: BotView) -> BotView {
    BotView { done_sent: true, ..s }
}

/// The run is given up when its time is over.
pub open spec fn timed_out(s: BotView) -> BotView {
    BotView { should_exit: s.should_exit || s.ticks >= TIMEOUT_TICKS, ..s }
}

/// A tick: count it, click if the click is due, see to the dispenser, and leave if the run is
/// over.
pub open spec fn ticked(s: BotView) -> (BotView, BotActions) {
    let now = next_tick(s.ticks);
    let click = click_due(s, now);
    let counted = timed_out(BotView { ticks: now, clicked: s.clicked || click, ..s });
    let (served, dispense) = dispensing(counted);
    let leave = served.should_exit;
    (
        if leave {
            reported(served)
        } else {
            served
        },
        BotActions {
            heartbeat: now % HEARTBEAT_TICKS == 0,
            click: if click {
                Some(click_on(s.trapdoor))
            } else {
                None
            },
            dispense,
            done: if leave {
                done_report(served)
            } else {
                None
            },
            exit: leave,
        },
    )
}

/// The new state and the actions after an event.
pub open spec fn handled(s: BotView, event: EventView) -> (BotView, BotActions) {
    match event {
        EventView::AddEntity { kind: EntityKind::EnderPearl, id, near } => if near {
            (tracking(s, id), idle())
        } else {
            (s, idle())
        },
        EventView::AddEntity { kind: EntityKind::Item, .. } => (item_seen(s), idle()),
        EventView::AddEntity { kind: EntityKind::Other, .. } => (s, idle()),
        EventView::RemoveEntities(ids) => without(s, ids),
        EventView::Tick => ticked(s),
        EventView::Disconnect => (
            reported(s),
            BotActions { done: done_report(s), ..idle() },
        ),
        EventView::Spawn | EventView::Other => (s, idle()),
    }
}

impl PearlBotState {
    /// A run for `requester` at `trapdoor`, with the dispenser that re-arms the chamber.
    pub fn new(
        trapdoor: [i32; 3],
        requester: String,
        click_delay_ms: u64,
        dispense_block: Option<[i32; 3]>,
        dispense_max_retries: u32,
    ) -> (state: Self)
        ensures
            state@ == fresh(
                trapdoor,
                requester@,
                click_delay_ms,
                dispense_block,
                dispense_max_retries,
            ),
    {
        PearlBotState {
            trapdoor,
            requester,
            nearby_pearls: HashSet::new(),
            detected_at: 0,
            should_exit: false,
            success: false,
            ticks: 0,
            clicked: false,
            done_sent: false,
            click_delay_ms,
            dispense_block,
            dispense_max_retries,
            dispense_clicks: 0,
            dispensed_at: 0,
            dropper_fired: false,
        }
    }

    /// The run's result, the first time it is asked for; nothing afterwards.
    pub fn signal_done(&mut self) -> (report: Option<bool>)
        ensures
            report == done_report(old(self)@),
            final(self)@ == reported(old(self)@),
    {
        if self.done_sent {
            None
        } else {
            self.done_sent = true;
            Some(self.success)
        }
    }

    /// The click that opens the trapdoor.
    pub fn trapdoor_click(&self) -> (click: UseItemOn)
        ensures
            click == click_on(self.trapdoor),
    {
        Self::click(self.trapdoor)
    }

    /// A click on `block`.
    fn click(block: [i32; 3]) -> (click: UseItemOn)
        ensures
            click == click_on(block),
    {
        let x: i64 = block[0] as i64;
        let y: i64 = block[1] as i64;
        let z: i64 = block[2] as i64;
        UseItemOn {
            hand: InteractionHand::MainHand,
            block_pos: block,
            direction: Direction::Up,
            location: HalfBlocks { x: 2 * x + 1, y: 2 * y + 2, z: 2 * z + 1 },
            inside: false,
            world_border: false,
            seq: 0,
        }
    }

    /// Gives the run up once its time is over.
    pub fn check_timeout(&mut self)
        ensures
            final(self)@ == timed_out(old(self)@),
    {
        if self.ticks >= TIMEOUT_TICKS && !self.should_exit {
            self.should_exit = true;
        }
    }

    /// Clicks the dispenser again, or gives it up, once its pause is over without an item.
    pub fn check_dispenser(&mut self) -> (click: Option<UseItemOn>)
        ensures
            (final(self)@, click) == dispensing(old(self)@),
    {
        if self.should_exit || self.dispense_clicks == 0 || self.ticks.wrapping_sub(
            self.dispensed_at,
        ) < DISPENSE_PAUSE_TICKS {
            return None;
        }
        match self.dispense_block {
            Some(block) if self.dispense_clicks <= self.dispense_max_retries as u64 => {
                self.dispense_clicks = self.dispense_clicks + 1;
                self.dispensed_at = self.ticks;
                Some(Self::click(block))
            },
            _ => {
                self.should_exit = true;
                None
            },
        }
    }

    /// Whether to leave now, and the result to report with it.
    pub fn check_exit(&mut self) -> (r: (bool, Option<bool>))
        ensures
            r.0 == old(self).should_exit,
            r.0 ==> r.1 == done_report(old(self)@) && final(self)@ == reported(old(self)@),
            !r.0 ==> r.1 is None && final(self)@ == old(self)@,
    {
        if self.should_exit {
            (true, self.signal_done())
        } else {
            (false, None)
        }
    }

    /// Takes the state through one tick.
    fn tick(&mut self) -> (actions: BotActions)
        ensures
            (final(self)@, actions) == ticked(old(self)@),
    {
        let now: u32 = self.ticks.wrapping_add(1);
        self.ticks = now;
        let waited: u32 = now.wrapping_sub(self.detected_at);
        let waited_ms: u64 = waited as u64 * TICK_MS;
        let click = if !self.nearby_pearls.is_empty() && waited_ms >= self.click_delay_ms
            && !self.clicked {
            self.clicked = true;
            Some(self.trapdoor_click())
        } else {
            None
        };
        self.check_timeout();
        let dispense = self.check_dispenser();
        let (exit, done) = self.check_exit();
        BotActions { heartbeat: now % HEARTBEAT_TICKS == 0, click, dispense, done, exit }
    }

    /// Drops the tracked pearls among `ids`; whether there was one.
    fn forget(&mut self, ids: &Vec<i32>) -> (hit: bool)
        ensures
            hit == hits(old(self)@, ids@.to_set()),
            final(self)@ == (BotView {
                nearby: old(self)@.nearby.difference(ids@.to_set()),
                ..old(self)@
            }),
    {
        let mut hit = false;
        let mut i: usize = 0;
        let ghost before = self@;
        while i < ids.len()
            invariant
                i <= ids.len(),
                hit <==> exists|j: int| 0 <= j < i && before.nearby.contains(#[trigger] ids@[j]),
                self@ == (BotView { nearby: self@.nearby, ..before }),
                forall|id: i32|
                    #![trigger self@.nearby.contains(id)]
                    self@.nearby.contains(id) <==> before.nearby.contains(id) && !(exists|j: int|
                        0 <= j < i && #[trigger] ids@[j] == id),
            decreases ids.len() - i,
        {
            if self.nearby_pearls.remove(&ids[i]) {
                hit = true;
            }
            i = i + 1;
        }
        hit
    }

    /// Takes the state through one event and says what to do.
    pub fn handle(&mut self, event: BotEvent) -> (actions: BotActions)
        ensures
            (final(self)@, actions) == handled(old(self)@, event@),
    {
        let mut actions = BotActions {
            heartbeat: false,
            click: None,
            dispense: None,
            done: None,
            exit: false,
        };
        match event {
            BotEvent::AddEntity { kind: EntityKind::EnderPearl, id, near } => {
                if near {
                    if self.nearby_pearls.is_empty() {
                        self.detected_at = self.ticks;
                    }
                    self.nearby_pearls.insert(id);
                }
            },
            BotEvent::AddEntity { kind: EntityKind::Item, .. } => {
                if self.dispense_clicks > 0 {
                    self.dropper_fired = true;
                    self.should_exit = true;
                }
            },
            BotEvent::AddEntity { kind: EntityKind::Other, .. } => {},
            BotEvent::RemoveEntities(ids) => {
                if self.forget(&ids) && self.clicked {
                    match self.dispense_block {
                        None => {
                            self.should_exit = true;
                        },
                        Some(block) => {
                            if !self.success {
                                self.dispense_clicks = 1;
                                self.dispensed_at = self.ticks;
                                actions.dispense = Some(Self::click(block));
                            }
                        },
                    }
                    self.success = true;
                }
            },
            BotEvent::Tick => {
                actions = self.tick();
            },
            BotEvent::Disconnect => {
                actions.done = self.signal_done();
            },
            BotEvent::Spawn | BotEvent::Other => {},
        }
        actions
    }
}

/// How a run came to its end.
#[derive(Debug, Clone, Copy, PartialEq, Eq, Structural)]
pub enum RunEnd {
    /// The bot could not be started.
    NotStarted,
    /// The bot reported its result.
    Reported(bool),
    /// The bot was gone without a report.
    Dropped,
    /// The report did not come in time.
    TimedOut,
}

/// Whether a run pulled the pearl: only a report of success counts.
pub fn run_succeeded(end: RunEnd) -> (success: bool)
    ensures
        success == (end == RunEnd::Reported(true)),
{
    match end {
        RunEnd::Reported(success) => success,
        RunEnd::NotStarted | RunEnd::Dropped | RunEnd::TimedOut => false,
    }
}

/// The address of a game server, as host and port.
pub fn server_address(server: &str, port: u16) -> (address: String)
    ensures
        address@ == server@ + ":"@ + decimal(port as nat),
{
    let mut address = server.to_owned();
    address.append(":");
    address.append(decimal_text(port as u64).as_str());
    address
}

} // verus!
