//! What holds of the dispatcher over any series of requests and runs.

use vstd::prelude::*;

use crate::config::{chamber_of, whitelisted, ChamberConfig, McUuid, SlotConfig};
use crate::dispatch::{
    answered, by_number, job_for, reacted, refusal, released, run_result, standing, Desk, Feed,
    FeedView, PearlJob, Reaction, ReplyView, Standing,
};
use crate::hub::{HubEventView, PearlRequestView};
use crate::text::{case_folding_is_an_equivalence, decimal, same_ignoring_ascii_case};

verus! {

/// A refused request leaves every slot as it was, and is answered to the one who asked, for the
/// slot they asked for.
pub proof fn a_refusal_changes_nothing(desk: Desk, request: PearlRequestView)
    requires
        !(standing(desk, request) is Granted),
    ensures
        answered(desk, request).0 == desk,
        answered(desk, request).1 matches ReplyView::Reply(result) && {
            &&& !result.success
            &&& result.slot == request.slot
            &&& result.requester == request.requester
            &&& result.message == refusal(request, standing(desk, request))
        },
{
}

/// The reaction is a failure with this message.
pub open spec fn tells(reply: ReplyView, message: Seq<char>) -> bool {
    reply matches ReplyView::Reply(result) && !result.success && result.message == message
}

/// What each refused request is answered. An unknown slot comes first, then the whitelist, then
/// the chamber; only a request that passes all three learns that the slot is busy.
pub proof fn what_a_refused_request_is_answered(desk: Desk, request: PearlRequestView)
    ensures
        ({
            let known = desk.slots.contains_key(request.slot);
            let slot = desk.slots[request.slot];
            let listed = known && whitelisted(slot.whitelist@, request.uuid);
            let housed = listed && chamber_of(slot.chambers@, request.uuid) is Some;
            let reply = answered(desk, request).1;
            let number = decimal(request.slot as nat);
            &&& !known ==> tells(reply, "Slot "@ + number + " is not configured"@)
            &&& known && !listed ==> tells(reply, request.requester + " is not whitelisted"@)
            &&& listed && !housed ==> tells(
                reply,
                "No chamber configured for "@ + request.requester,
            )
            &&& housed && desk.busy.contains(request.slot) ==> tells(
                reply,
                "Slot "@ + number + " is busy, try again shortly"@,
            )
            &&& housed && !desk.busy.contains(request.slot) ==> reply is Start
        }),
{
}

/// A granted request takes its slot and starts a run at the requester's own trapdoor, with the
/// account, the server and the dispenser of that slot.
pub proof fn a_granted_request_takes_its_slot(desk: Desk, request: PearlRequestView)
    requires
        standing(desk, request) is Granted,
    ensures
        !desk.busy.contains(request.slot),
        answered(desk, request).0.busy == desk.busy.insert(request.slot),
        answered(desk, request).0.slots == desk.slots,
        chamber_of(desk.slots[request.slot].chambers@, request.uuid) matches Some(trapdoor)
            && answered(desk, request).1 == ReplyView::Start(
            job_for(desk.slots[request.slot], request, trapdoor),
        ),
{
}

/// The end of a run undoes its start.
pub proof fn finishing_undoes_starting(desk: Desk, request: PearlRequestView)
    requires
        standing(desk, request) is Granted,
    ensures
        released(answered(desk, request).0, request.slot) == desk,
{
}

/// Whether a request is granted depends on its slot and UUID; the requester's name has no part
/// in it.
pub proof fn names_do_not_matter(desk: Desk, a: PearlRequestView, b: PearlRequestView)
    requires
        a.slot == b.slot,
        a.uuid == b.uuid,
    ensures
        standing(desk, a) == standing(desk, b),
{
}

/// Nor has the case of the UUID's letters.
pub proof fn uuid_case_does_not_matter(desk: Desk, a: PearlRequestView, b: PearlRequestView)
    requires
        a.slot == b.slot,
        same_ignoring_ascii_case(a.uuid, b.uuid),
    ensures
        standing(desk, a) == standing(desk, b),
{
    if desk.slots.contains_key(a.slot) {
        let slot = desk.slots[a.slot];
        lemma_whitelist_case(slot.whitelist@, a.uuid, b.uuid);
        lemma_whitelist_case(slot.whitelist@, b.uuid, a.uuid);
        case_folding_is_an_equivalence(a.uuid, b.uuid, a.uuid);
        lemma_chamber_case(slot.chambers@, a.uuid, b.uuid);
    }
}

proof fn lemma_whitelist_case(whitelist: Seq<McUuid>, a: Seq<char>, b: Seq<char>)
    ensures
        same_ignoring_ascii_case(a, b) && whitelisted(whitelist, a) ==> whitelisted(whitelist, b),
{
    if same_ignoring_ascii_case(a, b) && whitelisted(whitelist, a) {
        let i = choose|i: int|
            0 <= i < whitelist.len() && same_ignoring_ascii_case(#[trigger] whitelist[i].0@, a);
        case_folding_is_an_equivalence(whitelist[i].0@, a, b);
    }
}

proof fn lemma_chamber_case(chambers: Seq<ChamberConfig>, a: Seq<char>, b: Seq<char>)
    requires
        same_ignoring_ascii_case(a, b),
    ensures
        chamber_of(chambers, a) == chamber_of(chambers, b),
    decreases chambers.len(),
{
    if chambers.len() > 0 {
        let player = chambers[0].player.0@;
        case_folding_is_an_equivalence(a, b, a);
        case_folding_is_an_equivalence(player, a, b);
        case_folding_is_an_equivalence(player, b, a);
        lemma_chamber_case(chambers.drop_first(), a, b);
    }
}

/// A player's trapdoor is that of the first chamber under their UUID, and a player without such
/// a chamber has none.
pub proof fn the_first_chamber_counts(chambers: Seq<ChamberConfig>, uuid: Seq<char>)
    ensures
        match chamber_of(chambers, uuid) {
            Some(trapdoor) => exists|i: int|
                {
                    &&& 0 <= i < chambers.len()
                    &&& same_ignoring_ascii_case((#[trigger] chambers[i]).player.0@, uuid)
                    &&& trapdoor == chambers[i].trapdoor
                    &&& forall|j: int|
                        0 <= j < i ==> !same_ignoring_ascii_case(
                            (#[trigger] chambers[j]).player.0@,
                            uuid,
                        )
                },
            None => forall|j: int|
                0 <= j < chambers.len() ==> !same_ignoring_ascii_case(
                    (#[trigger] chambers[j]).player.0@,
                    uuid,
                ),
        },
    decreases chambers.len(),
{
    if chambers.len() > 0 {
        let rest = chambers.drop_first();
        the_first_chamber_counts(rest, uuid);
        if !same_ignoring_ascii_case(chambers[0].player.0@, uuid) {
            match chamber_of(rest, uuid) {
                Some(trapdoor) => {
                    let i = choose|i: int|
                        {
                            &&& 0 <= i < rest.len()
                            &&& same_ignoring_ascii_case((#[trigger] rest[i]).player.0@, uuid)
                            &&& trapdoor == rest[i].trapdoor
                            &&& forall|j: int|
                                0 <= j < i ==> !same_ignoring_ascii_case(
                                    (#[trigger] rest[j]).player.0@,
                                    uuid,
                                )
                        };
                    assert forall|j: int| 0 <= j < i + 1 implies !same_ignoring_ascii_case(
                        (#[trigger] chambers[j]).player.0@,
                        uuid,
                    ) by {
                        if j > 0 {
                            assert(chambers[j] == rest[j - 1]);
                        }
                    }
                },
                None => {
                    assert forall|j: int|
                        0 <= j < chambers.len() implies !same_ignoring_ascii_case(
                        (#[trigger] chambers[j]).player.0@,
                        uuid,
                    ) by {
                        if j > 0 {
                            assert(chambers[j] == rest[j - 1]);
                        }
                    }
                },
            }
        }
    }
}

/// A slot number stands for the last slot configured with it, and for nothing if there is none.
pub proof fn the_last_slot_counts(slots: Seq<SlotConfig>, number: u8)
    ensures
        by_number(slots).contains_key(number) <==> exists|i: int|
            0 <= i < slots.len() && (#[trigger] slots[i]).number == number,
        by_number(slots).contains_key(number) ==> exists|i: int|
            {
                &&& 0 <= i < slots.len()
                &&& (#[trigger] slots[i]).number == number
                &&& by_number(slots)[number] == slots[i]
                &&& forall|j: int|
                    i < j < slots.len() ==> (#[trigger] slots[j]).number != number
            },
    decreases slots.len(),
{
    if slots.len() > 0 {
        let rest = slots.drop_last();
        let last = slots.len() - 1;
        the_last_slot_counts(rest, number);
        if slots[last].number != number {
            if by_number(rest).contains_key(number) {
                let i = choose|i: int|
                    {
                        &&& 0 <= i < rest.len()
                        &&& (#[trigger] rest[i]).number == number
                        &&& by_number(rest)[number] == rest[i]
                        &&& forall|j: int|
                            i < j < rest.len() ==> (#[trigger] rest[j]).number != number
                    };
                assert forall|j: int| i < j < slots.len() implies (#[trigger] slots[j]).number
                    != number by {
                    if j < last {
                        assert(slots[j] == rest[j]);
                    }
                }
            }
            if exists|i: int| 0 <= i < slots.len() && (#[trigger] slots[i]).number == number {
                let i = choose|i: int|
                    0 <= i < slots.len() && (#[trigger] slots[i]).number == number;
                assert(rest[i] == slots[i]);
            }
        }
    }
}

/// Something that happens at the desk: a request comes in, or the run of a slot ends.
pub enum Deed {
    Ask(PearlRequestView),
    End(u8),
}

/// The state after one deed.
pub open spec fn done(desk: Desk, deed: Deed) -> Desk {
    match deed {
        Deed::Ask(request) => answered(desk, request).0,
        Deed::End(slot) => released(desk, slot),
    }
}

/// The state after a series of deeds.
pub open spec fn after_all(desk: Desk, deeds: Seq<Deed>) -> Desk
    decreases deeds.len(),
{
    if deeds.len() == 0 {
        desk
    } else {
        done(after_all(desk, deeds.drop_last()), deeds.last())
    }
}

/// How many runs on `slot` the deeds start.
pub open spec fn starts(desk: Desk, deeds: Seq<Deed>, slot: u8) -> int
    decreases deeds.len(),
{
    if deeds.len() == 0 {
        0
    } else {
        let before = after_all(desk, deeds.drop_last());
        starts(desk, deeds.drop_last(), slot) + match deeds.last() {
            Deed::Ask(request) => if request.slot == slot && answered(before, request).1 is Start {
                1int
            } else {
                0
            },
            Deed::End(_) => 0,
        }
    }
}

/// How many runs on `slot` the deeds end.
pub open spec fn ends(deeds: Seq<Deed>, slot: u8) -> int
    decreases deeds.len(),
{
    if deeds.len() == 0 {
        0
    } else {
        ends(deeds.drop_last(), slot) + if deeds.last() == Deed::End(slot) {
            1int
        } else {
            0
        }
    }
}

/// Only runs that are under way end.
pub open spec fn orderly(desk: Desk, deeds: Seq<Deed>) -> bool
    decreases deeds.len(),
{
    deeds.len() > 0 ==> {
        &&& orderly(desk, deeds.drop_last())
        &&& deeds.last() matches Deed::End(slot) ==> after_all(
            desk,
            deeds.drop_last(),
        ).busy.contains(slot)
    }
}

/// At any time a slot has one run under way if it is busy, and none if it is free: never two at
/// once.
pub proof fn one_run_per_slot(desk: Desk, deeds: Seq<Deed>, slot: u8)
    requires
        desk.busy.is_empty(),
        orderly(desk, deeds),
    ensures
        starts(desk, deeds, slot) - ends(deeds, slot) == if after_all(desk, deeds).busy.contains(
            slot,
        ) {
            1int
        } else {
            0
        },
    decreases deeds.len(),
{
    if deeds.len() > 0 {
        one_run_per_slot(desk, deeds.drop_last(), slot);
    }
}

/// While a run is under way on a slot, no request for that slot is granted.
pub proof fn a_busy_slot_grants_nothing(desk: Desk, deeds: Seq<Deed>, request: PearlRequestView)
    requires
        desk.busy.contains(request.slot),
        ends(deeds, request.slot) == 0,
    ensures
        after_all(desk, deeds).busy.contains(request.slot),
        !(standing(after_all(desk, deeds), request) is Granted),
    decreases deeds.len(),
{
    if deeds.len() > 0 {
        lemma_ends_not_negative(deeds.drop_last(), request.slot);
        a_busy_slot_grants_nothing(desk, deeds.drop_last(), request);
    }
}

proof fn lemma_ends_not_negative(deeds: Seq<Deed>, slot: u8)
    ensures
        ends(deeds, slot) >= 0,
    decreases deeds.len(),
{
    if deeds.len() > 0 {
        lemma_ends_not_negative(deeds.drop_last(), slot);
    }
}

/// Only configured slots are ever busy, and the configuration never changes.
pub proof fn busy_slots_are_configured(desk: Desk, deeds: Seq<Deed>)
    requires
        desk.busy.subset_of(desk.slots.dom()),
    ensures
        after_all(desk, deeds).busy.subset_of(after_all(desk, deeds).slots.dom()),
        after_all(desk, deeds).slots == desk.slots,
    decreases deeds.len(),
{
    if deeds.len() > 0 {
        busy_slots_are_configured(desk, deeds.drop_last());
    }
}

/// What happens on one slot has no effect on how requests for another stand.
pub proof fn slots_are_independent(desk: Desk, deed: Deed, request: PearlRequestView)
    requires
        match deed {
            Deed::Ask(other) => other.slot != request.slot,
            Deed::End(slot) => slot != request.slot,
        },
    ensures
        standing(done(desk, deed), request) == standing(desk, request),
{
}

/// Only pearl requests have an effect; anything else out of the channel leaves the slots alone
/// and starts and answers nothing.
pub proof fn only_requests_count(desk: Desk, feed: FeedView)
    requires
        !(feed matches FeedView::Event(HubEventView::PearlRequest(_))),
    ensures
        reacted(desk, feed).0 == desk,
        !(reacted(desk, feed).1 is Reply),
        !(reacted(desk, feed).1 is Start),
{
}

/// Every request is answered once: at once if it is refused, and else by the end of the run that
/// it starts, to the same requester and for the same slot.
pub proof fn every_request_is_answered(desk: Desk, request: PearlRequestView, success: bool)
    ensures
        match answered(desk, request).1 {
            ReplyView::Reply(result) => result.slot == request.slot && result.requester
                == request.requester && !result.success,
            ReplyView::Start(job) => {
                let result = run_result(job.slot, job.requester, success);
                result.slot == request.slot && result.requester == request.requester
                    && result.success == success
            },
            _ => false,
        },
{
}

/// The request is for a configured slot, from a player on its whitelist and with a chamber there.
pub open spec fn entitled(desk: Desk, request: PearlRequestView) -> bool {
    &&& desk.slots.contains_key(request.slot)
    &&& whitelisted(desk.slots[request.slot].whitelist@, request.uuid)
    &&& chamber_of(desk.slots[request.slot].chambers@, request.uuid) is Some
}

/// A run is started exactly for an entitled player whose slot is free. It takes that slot and no
/// other; any other request is answered at once with a failure, to the one who asked and for the
/// slot they asked for, and changes nothing.
pub proof fn a_free_slot_serves_the_entitled(desk: Desk, request: PearlRequestView)
    ensures
        ({
            let (after, reply) = answered(desk, request);
            let serves = entitled(desk, request) && !desk.busy.contains(request.slot);
            &&& reply is Start <==> serves
            &&& reply is Reply <==> !serves
            &&& after.slots == desk.slots
            &&& forall|slot: u8|
                after.busy.contains(slot) <==> desk.busy.contains(slot) || (serves && slot
                    == request.slot)
            &&& reply matches ReplyView::Reply(result) ==> {
                &&& !result.success
                &&& result.slot == request.slot
                &&& result.requester == request.requester
            }
        }),
{
}

/// The run of a granted request carries the configuration of its slot, field by field, and goes to
/// the trapdoor of the requester's own chamber.
pub proof fn a_run_has_the_settings_of_its_slot(desk: Desk, request: PearlRequestView)
    ensures
        answered(desk, request).1 matches ReplyView::Start(job) ==> {
            let slot = desk.slots[request.slot];
            &&& job.slot == request.slot
            &&& job.requester == request.requester
            &&& job.account == slot.account@
            &&& job.auth == slot.auth
            &&& job.server == slot.server@
            &&& job.port == slot.port
            &&& job.click_delay_ms == slot.click_delay_ms
            &&& job.dispense_block == slot.dispense_block
            &&& job.dispense_max_retries == slot.dispense_max_retries
            &&& exists|i: int|
                {
                    &&& 0 <= i < slot.chambers@.len()
                    &&& same_ignoring_ascii_case(
                        (#[trigger] slot.chambers@[i]).player.0@,
                        request.uuid,
                    )
                    &&& job.trapdoor == slot.chambers@[i].trapdoor
                    &&& forall|j: int|
                        0 <= j < i ==> !same_ignoring_ascii_case(
                            (#[trigger] slot.chambers@[j]).player.0@,
                            request.uuid,
                        )
                }
        },
{
    if desk.slots.contains_key(request.slot) {
        the_first_chamber_counts(desk.slots[request.slot].chambers@, request.uuid);
    }
}

/// Pearl requests are decided on as they come. Other events and lost ones pass, and a closed
/// channel is subscribed to anew after two seconds; none of these touches a slot.
pub proof fn what_comes_out_of_the_channel(
    desk: Desk,
    request: PearlRequestView,
    text: Seq<char>,
    lagged: u64,
)
    ensures
        reacted(desk, FeedView::Event(HubEventView::PearlRequest(request))) == answered(
            desk,
            request,
        ),
        reacted(desk, FeedView::Event(HubEventView::Open)) == (desk, ReplyView::Nothing),
        reacted(desk, FeedView::Event(HubEventView::Close(text))) == (desk, ReplyView::Nothing),
        reacted(desk, FeedView::Event(HubEventView::Error(text))) == (desk, ReplyView::Nothing),
        reacted(desk, FeedView::Event(HubEventView::Unknown(text))) == (desk, ReplyView::Nothing),
        reacted(desk, FeedView::Lagged(lagged)) == (desk, ReplyView::Nothing),
        reacted(desk, FeedView::Closed) == (desk, ReplyView::Resubscribe(2)),
{
}

/// The end of a run frees its slot and no other.
pub proof fn the_end_of_a_run_frees_its_slot(desk: Desk, slot: u8)
    ensures
        released(desk, slot).slots == desk.slots,
        forall|other: u8|
            released(desk, slot).busy.contains(other) <==> desk.busy.contains(other) && other
                != slot,
{
}

/// The answer at the end of a run goes to its requester, for its slot, and says how it went.
pub proof fn the_end_of_a_run_is_told(slot: u8, requester: Seq<char>, success: bool)
    ensures
        ({
            let result = run_result(slot, requester, success);
            &&& result.slot == slot
            &&& result.requester == requester
            &&& result.success == success
            &&& success ==> result.message == "Pearl pulled for "@ + requester
            &&& !success ==> result.message == "Pearl failed for "@ + requester
        }),
{
}

/// The views of jobs, of what comes out of the channel and of reactions show them as they are.
pub proof fn views_show_whole_reactions(job: PearlJob, feed: Feed, reaction: Reaction)
    ensures
        job@.slot == job.slot,
        job@.requester == job.requester@,
        job@.trapdoor == job.trapdoor,
        job@.account == job.account@,
        job@.auth == job.auth,
        job@.server == job.server@,
        job@.port == job.port,
        job@.click_delay_ms == job.click_delay_ms,
        job@.dispense_block == job.dispense_block,
        job@.dispense_max_retries == job.dispense_max_retries,
        match feed {
            Feed::Event(event) => feed@ == FeedView::Event(event@),
            Feed::Lagged(n) => feed@ == FeedView::Lagged(n),
            Feed::Closed => feed@ is Closed,
        },
        match reaction {
            Reaction::Nothing => reaction@ is Nothing,
            Reaction::Resubscribe(secs) => reaction@ == ReplyView::Resubscribe(secs),
            Reaction::Reply(result) => reaction@ == ReplyView::Reply(result@),
            Reaction::Start(started) => reaction@ == ReplyView::Start(started@),
        },
{
}

} // verus!
