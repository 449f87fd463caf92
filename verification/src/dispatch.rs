//! Who gets their pearl: requests are held against the configuration, one run per slot at a time.

use std::collections::{HashMap, HashSet};

use vstd::prelude::*;
use vstd::string::*;

use crate::config::{chamber_of, whitelisted, AuthMode, SlotConfig};
use crate::hub::{
    HubEvent, HubEventView, PearlRequest, PearlRequestView, PearlResult, PearlResultView,
};
use crate::text::{decimal, decimal_text};

verus! {

/// What comes out of the channel that carries the hub's events.
#[derive(Debug, Clone)]
pub enum Feed {
    Event(HubEvent),
    /// So many events were dropped unread.
    Lagged(u64),
    Closed,
}

/// A run to be started.
#[derive(Debug, Clone)]
pub struct PearlJob {
    pub slot: u8,
    pub requester: String,
    pub trapdoor: [i32; 3],
    pub account: String,
    pub auth: AuthMode,
    pub server: String,
    pub port: u16,
    pub click_delay_ms: u64,
    pub dispense_block: Option<[i32; 3]>,
    pub dispense_max_retries: u32,
}

/// What to do about something that came out of the channel.
#[derive(Debug, Clone)]
pub enum Reaction {
    Nothing,
    /// Wait that many seconds, then subscribe anew.
    Resubscribe(u64),
    /// Answer the request at once.
    Reply(PearlResult),
    /// Start a run; its end is the answer.
    Start(PearlJob),
}

/// The mathematical content of a [`PearlJob`].
pub struct JobView {
    pub slot: u8,
    pub requester: Seq<char>,
    pub trapdoor: [i32; 3],
    pub account: Seq<char>,
    pub auth: AuthMode,
    pub server: Seq<char>,
    pub port: u16,
    pub click_delay_ms: u64,
    pub dispense_block: Option<[i32; 3]>,
    pub dispense_max_retries: u32,
}

/// The mathematical content of a [`Feed`].
pub enum FeedView {
    Event(HubEventView),
    Lagged(u64),
    Closed,
}

/// The mathematical content of a [`Reaction`].
pub enum ReplyView {
    Nothing,
    Resubscribe(u64),
    Reply(PearlResultView),
    Start(JobView),
}

/// The mathematical content of a [`Dispatcher`]: the configured slots by number, and the numbers
/// of those that are busy.
#[verifier::ext_equal]
pub struct Desk {
    pub slots: Map<u8, SlotConfig>,
    pub busy: Set<u8>,
}

impl View for PearlJob {
    type V = JobView;

    open spec fn view(&self) -> JobView {
        JobView {
            slot: self.slot,
            requester: self.requester@,
            trapdoor: self.trapdoor,
            account: self.account@,
            auth: self.auth,
            server: self.server@,
            port: self.port,
            click_delay_ms: self.click_delay_ms,
            dispense_block: self.dispense_block,
            dispense_max_retries: self.dispense_max_retries,
        }
    }
}

impl View for Feed {
    type V = FeedView;

    open spec fn view(&self) -> FeedView {
        match *self {
            Feed::Event(event) => FeedView::Event(event@),
            Feed::Lagged(n) => FeedView::Lagged(n),
            Feed::Closed => FeedView::Closed,
        }
    }
}

impl View for Reaction {
    type V = ReplyView;

    open spec fn view(&self) -> ReplyView {
        match *self {
            Reaction::Nothing => ReplyView::Nothing,
            Reaction::Resubscribe(secs) => ReplyView::Resubscribe(secs),
            Reaction::Reply(result) => ReplyView::Reply(result@),
            Reaction::Start(job) => ReplyView::Start(job@),
        }
    }
}

/// Slots by number; of several with one number the last counts.
pub open spec fn by_number(slots: Seq<SlotConfig>) -> Map<u8, SlotConfig>
    decreases slots.len(),
{
    if slots.len() == 0 {
        Map::empty()
    } else {
        by_number(slots.drop_last()).insert(slots.last().number, slots.last())
    }
}

/// How a request stands: the first of these that holds.
pub enum Standing {
    NotConfigured,
    NotWhitelisted,
    NoChamber,
    Busy,
    Granted { trapdoor: [i32; 3] },
}

/// How `request` stands at `desk`.
pub open spec fn standing(desk: Desk, request: PearlRequestView) -> Standing {
    if !desk.slots.contains_key(request.slot) {
        Standing::NotConfigured
    } else if !whitelisted(desk.slots[request.slot].whitelist@, request.uuid) {
        Standing::NotWhitelisted
    } else {
        match chamber_of(desk.slots[request.slot].chambers@, request.uuid) {
            None => Standing::NoChamber,
            Some(trapdoor) => if desk.busy.contains(request.slot) {
                Standing::Busy
            } else {
                Standing::Granted { trapdoor }
            },
        }
    }
}

/// What a refused requester is told.
pub open spec fn refusal(request: PearlRequestView, standing: Standing) -> Seq<char> {
    match standing {
        Standing::NotConfigured => "Slot "@ + decimal(request.slot as nat) + " is not configured"@,
        Standing::NotWhitelisted => request.requester + " is not whitelisted"@,
        Standing::NoChamber => "No chamber configured for "@ + request.requester,
        _ => "Slot "@ + decimal(request.slot as nat) + " is busy, try again shortly"@,
    }
}

/// The answer to a refused request.
pub open spec fn refused(request: PearlRequestView, standing: Standing) -> PearlResultView {
    PearlResultView {
        slot: request.slot,
        success: false,
        message: refusal(request, standing),
        requester: request.requester,
    }
}

/// The run that a granted request starts.
pub open spec fn job_for(
    slot: SlotConfig,
    request: PearlRequestView,
    trapdoor: [i32; 3],
) -> JobView {
    JobView {
        slot: request.slot,
        requester: request.requester,
        trapdoor,
        account: slot.account@,
        auth: slot.auth,
        server: slot.server@,
        port: slot.port,
        click_delay_ms: slot.click_delay_ms,
        dispense_block: slot.dispense_block,
        dispense_max_retries: slot.dispense_max_retries,
    }
}

/// The new state and the reaction after a request: a run that takes the slot, or a refusal that
/// changes nothing.
pub open spec fn answered(desk: Desk, request: PearlRequestView) -> (Desk, ReplyView) {
    match standing(desk, request) {
        Standing::Granted { trapdoor } => (
            Desk { busy: desk.busy.insert(request.slot), ..desk },
            ReplyView::Start(job_for(desk.slots[request.slot], request, trapdoor)),
        ),
        other => (desk, ReplyView::Reply(refused(request, other))),
    }
}

/// The new state and the reaction after anything that came out of the channel.
pub open spec fn reacted(desk: Desk, feed: FeedView) -> (Desk, ReplyView) {
    match feed {
        FeedView::Event(HubEventView::PearlRequest(request)) => answered(desk, request),
        FeedView::Event(_) => (desk, ReplyView::Nothing),
        FeedView::Lagged(_) => (desk, ReplyView::Nothing),
        FeedView::Closed => (desk, ReplyView::Resubscribe(2)),
    }
}

/// The slot is free again.
pub open spec fn released(desk: Desk, slot: u8) -> Desk {
    Desk { busy: desk.busy.remove(slot), ..desk }
}

/// The answer to a request whose run has ended.
pub open spec fn run_result(slot: u8, requester: Seq<char>, success: bool) -> PearlResultView {
    PearlResultView {
        slot,
        success,
        message: if success {
            "Pearl pulled for "@ + requester
        } else {
            "Pearl failed for "@ + requester
        },
        requester,
    }
}

/// Holds the configured slots and knows which are busy.
pub struct Dispatcher {
    slots: HashMap<u8, SlotConfig>,
    busy: HashSet<u8>,
}

impl View for Dispatcher {
    type V = Desk;

    closed spec fn view(&self) -> Desk {
        Desk { slots: self.slots@, busy: self.busy@ }
    }
}

impl Dispatcher {
    /// A dispatcher for `slots`, all of them free.
    pub fn new(slots: Vec<SlotConfig>) -> (dispatcher: Self)
        ensures
            dispatcher@ == (Desk { slots: by_number(slots@), busy: Set::empty() }),
    {
        let mut rest = slots;
        let mut map: HashMap<u8, SlotConfig> = HashMap::new();
        loop
            invariant
                by_number(rest@).union_prefer_right(map@) == by_number(slots@),
            ensures
                map@ == by_number(slots@),
            decreases rest@.len(),
        {
            match rest.pop() {
                None => {
                    break;
                },
                Some(slot) => {
                    let number: u8 = slot.number;
                    if !map.contains_key(&number) {
                        map.insert(number, slot);
                    }
                },
            }
        }
        Dispatcher { slots: map, busy: HashSet::new() }
    }

    /// Writes an answer to a refused request.
    fn refuse(request: PearlRequest, message: String) -> (reaction: Reaction)
        ensures
            reaction@ == ReplyView::Reply(
                PearlResultView {
                    slot: request.slot,
                    success: false,
                    message: message@,
                    requester: request.requester@,
                },
            ),
    {
        Reaction::Reply(
            PearlResult {
                slot: request.slot,
                success: false,
                message,
                requester: request.requester,
            },
        )
    }

    /// Writes a message about a slot.
    fn about_slot(slot: u8, rest: &str) -> (message: String)
        ensures
            message@ == "Slot "@ + decimal(slot as nat) + rest@,
    {
        let mut message = "Slot ".to_owned();
        message.append(decimal_text(slot as u64).as_str());
        message.append(rest);
        message
    }

    /// Decides on a request.
    pub fn answer(&mut self, request: PearlRequest) -> (reaction: Reaction)
        ensures
            (final(self)@, reaction@) == answered(old(self)@, request@),
    {
        let slot: u8 = request.slot;
        let job = match self.slots.get(&slot) {
            None => {
                return Self::refuse(request, Self::about_slot(slot, " is not configured"));
            },
            Some(config) => {
                if !config.is_whitelisted(&request.requester_uuid) {
                    let mut message = request.requester.clone();
                    message.append(" is not whitelisted");
                    return Self::refuse(request, message);
                }
                match config.find_trapdoor(&request.requester_uuid) {
                    None => {
                        let mut message = "No chamber configured for ".to_owned();
                        message.append(request.requester.as_str());
                        return Self::refuse(request, message);
                    },
                    Some(trapdoor) => PearlJob {
                        slot,
                        requester: request.requester.clone(),
                        trapdoor,
                        account: config.account.clone(),
                        auth: config.auth,
                        server: config.server.clone(),
                        port: config.port,
                        click_delay_ms: config.click_delay_ms,
                        dispense_block: config.dispense_block,
                        dispense_max_retries: config.dispense_max_retries,
                    },
                }
            },
        };
        if self.busy.contains(&slot) {
            Self::refuse(request, Self::about_slot(slot, " is busy, try again shortly"))
        } else {
            self.busy.insert(slot);
            Reaction::Start(job)
        }
    }

    /// Decides on anything that came out of the channel.
    pub fn react(&mut self, feed: Feed) -> (reaction: Reaction)
        ensures
            (final(self)@, reaction@) == reacted(old(self)@, feed@),
    {
        match feed {
            Feed::Event(HubEvent::PearlRequest(request)) => self.answer(request),
            Feed::Event(_) => Reaction::Nothing,
            Feed::Lagged(_) => Reaction::Nothing,
            Feed::Closed => Reaction::Resubscribe(2),
        }
    }

    /// Takes note that a run has ended: its slot is free again, and its requester gets an answer.
    pub fn finish(&mut self, slot: u8, requester: String, success: bool) -> (result: PearlResult)
        ensures
            final(self)@ == released(old(self)@, slot),
            result@ == run_result(slot, requester@, success),
    {
        self.busy.remove(&slot);
        let mut message = if success {
            "Pearl pulled for ".to_owned()
        } else {
            "Pearl failed for ".to_owned()
        };
        message.append(requester.as_str());
        PearlResult { slot, success, message, requester }
    }
}

} // verus!
