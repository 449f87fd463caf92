//! What holds of the hub link over any series of attempts, losses and messages.

use vstd::prelude::*;

use crate::hub::{
    dialed, endpoint, heard, inbound_view, meaning, reconnect_notice, without_trailing_slashes,
    DialOutcome, DialView, Frame, HubEvent, HubEventView, InboundMessage, InboundView,
    LinkReaction, LinkStep, PearlRequest, PearlResult, ReactionView, SessionEvent, SessionView,
    StepView,
};
use crate::text::decimal;

verus! {

/// `n` slashes.
pub open spec fn slashes(n: nat) -> Seq<char> {
    Seq::new(n, |i: int| '/')
}

/// Slashes at the end of the hub's URL make no difference.
pub proof fn trailing_slashes_do_not_matter(url: Seq<char>, n: nat)
    ensures
        endpoint(url + slashes(n)) == endpoint(url),
    decreases n,
{
    if n > 0 {
        assert((url + slashes(n)).drop_last() =~= url + slashes((n - 1) as nat));
        trailing_slashes_do_not_matter(url, (n - 1) as nat);
    }
}

/// What is cut from the end of the hub's URL is slashes, all of them and nothing else.
pub proof fn only_slashes_are_cut(url: Seq<char>)
    ensures
        ({
            let kept = without_trailing_slashes(url);
            &&& kept.len() <= url.len()
            &&& url == kept + slashes((url.len() - kept.len()) as nat)
            &&& kept.len() > 0 ==> kept.last() != '/'
        }),
    decreases url.len(),
{
    if url.len() > 0 && url.last() == '/' {
        only_slashes_are_cut(url.drop_last());
        assert(url =~= url.drop_last().push('/'));
    }
}

/// Something that happens to the link.
pub enum LinkInput {
    Dial(DialView),
    Session(SessionView),
}

/// The new loss count and the reaction after one input.
pub open spec fn link_step(losses: u32, input: LinkInput) -> (u32, ReactionView) {
    match input {
        LinkInput::Dial(outcome) => dialed(losses, outcome),
        LinkInput::Session(event) => heard(losses, event),
    }
}

/// The loss count after a series of inputs.
pub open spec fn losses_after(losses: u32, inputs: Seq<LinkInput>) -> u32
    decreases inputs.len(),
{
    if inputs.len() == 0 {
        losses
    } else {
        link_step(losses_after(losses, inputs.drop_last()), inputs.last()).0
    }
}

/// The input loses the link or fails to gain it.
pub open spec fn is_loss(input: LinkInput) -> bool {
    match input {
        LinkInput::Dial(outcome) => outcome is Failed,
        LinkInput::Session(event) => event is SendFailed || event is ReadFailed
            || event is CloseFrame || event is StreamEnded,
    }
}

/// How many losses the inputs hold since the last connection.
pub open spec fn losses_in_a_row(inputs: Seq<LinkInput>) -> nat
    decreases inputs.len(),
{
    if inputs.len() == 0 {
        0
    } else if inputs.last() == LinkInput::Dial(DialView::Connected) {
        0
    } else {
        losses_in_a_row(inputs.drop_last()) + if is_loss(inputs.last()) {
            1nat
        } else {
            0
        }
    }
}

/// The link counts its losses since the last connection, as far as its counter goes.
pub proof fn losses_are_counted(inputs: Seq<LinkInput>)
    ensures
        losses_after(0, inputs) == if losses_in_a_row(inputs) <= u32::MAX {
            losses_in_a_row(inputs)
        } else {
            u32::MAX as nat
        },
    decreases inputs.len(),
{
    if inputs.len() > 0 {
        losses_are_counted(inputs.drop_last());
    }
}

/// After every loss the link publishes the cause, then the notice of the next attempt with its
/// number and delay; it waits that long: a minute from the fifth loss in a row on, five seconds
/// before that.
pub proof fn every_loss_is_followed_by_an_attempt(inputs: Seq<LinkInput>, input: LinkInput)
    requires
        is_loss(input),
        losses_in_a_row(inputs) < u32::MAX,
    ensures
        ({
            let attempt = losses_in_a_row(inputs) + 1;
            let reaction = link_step(losses_after(0, inputs), input).1;
            &&& reaction.events.len() == 2
            &&& reaction.events[0] is Error || reaction.events[0] is Close
            &&& reaction.events[1] == HubEventView::Close(reconnect_notice(attempt as u32))
            &&& reaction.next == StepView::Wait(
                if attempt >= 5 {
                    60
                } else {
                    5
                },
            )
        }),
{
    losses_are_counted(inputs);
}

/// A connection is announced and clears the count: the next loss is the first again.
pub proof fn a_connection_clears_the_count(losses: u32)
    ensures
        dialed(losses, DialView::Connected) == (
            0u32,
            ReactionView { events: seq![HubEventView::Open], next: StepView::Listen },
        ),
{
}

/// A request that cannot be built is reported and tried again after five seconds; it does not
/// count as a loss.
pub proof fn a_refused_request_is_no_loss(losses: u32, text: Seq<char>)
    ensures
        ({
            let (count, reaction) = dialed(losses, DialView::RequestRefused(text));
            &&& count == losses
            &&& reaction.events == seq![HubEventView::Error("build request: "@ + text)]
            &&& reaction.next == StepView::Wait(5)
        }),
{
}

/// The link gives up for good exactly when there will never be anything to send again.
pub proof fn only_the_end_of_the_outbox_stops_the_link(losses: u32, input: LinkInput)
    ensures
        link_step(losses, input).1.next is Stop <==> input == LinkInput::Session(
            SessionView::Outgoing(None),
        ),
{
}

/// An open link is left exactly by a loss or by the end of the outbox; any other event keeps it
/// open and its loss count unchanged.
pub proof fn an_open_link_stays_open(losses: u32, event: SessionView)
    ensures
        (is_loss(LinkInput::Session(event)) || event == SessionView::Outgoing(None)) <==> (heard(
            losses,
            event,
        ).1.next is Wait || heard(losses, event).1.next is Stop),
        !is_loss(LinkInput::Session(event)) ==> heard(losses, event).0 == losses,
{
}

/// Every text from the hub is published as one event, and nothing else on an open link publishes
/// a request.
pub proof fn every_text_is_published(losses: u32, event: SessionView)
    ensures
        event matches SessionView::Text { text, message } ==> heard(losses, event).1.events
            == seq![meaning(text, message)],
        !(event is Text) ==> forall|i: int|
            0 <= i < heard(losses, event).1.events.len() ==> !((
            #[trigger] heard(losses, event).1.events[i]) is PearlRequest),
{
}

/// A message that is neither a pearl request nor the acceptance of the key is passed over,
/// whatever its data.
pub proof fn other_messages_are_passed_over(text: Seq<char>, message: InboundView)
    requires
        message.action != "pearl_request"@,
        message.action != "key-accepted"@,
    ensures
        meaning(text, Some(message)) == HubEventView::Unknown(text),
        meaning(text, None) == HubEventView::Unknown(text),
{
}

/// The endpoint of the hub is the URL up to the slashes at its end, all of them left out, followed
/// by the path of the websocket.
pub proof fn the_endpoint_follows_the_url(url: Seq<char>)
    ensures
        exists|n: int|
            {
                &&& 0 <= n <= url.len()
                &&& endpoint(url) == #[trigger] url.take(n) + "/websocket/connect"@
                &&& n > 0 ==> url[n - 1] != '/'
                &&& forall|i: int| n <= i < url.len() ==> url[i] == '/'
            },
{
    only_slashes_are_cut(url);
    let kept = without_trailing_slashes(url);
    let n = kept.len() as int;
    assert(url.take(n) =~= kept);
    assert forall|i: int| n <= i < url.len() implies url[i] == '/' by {
        assert(url[i] == (kept + slashes((url.len() - n) as nat))[i]);
    }
}

/// Every text the bot has to send is sent whole, and nothing else comes of it.
pub proof fn every_text_is_sent_whole(losses: u32, text: Seq<char>)
    ensures
        ({
            let (count, reaction) = heard(losses, SessionView::Outgoing(Some(text)));
            &&& reaction.next == StepView::SendText(text)
            &&& reaction.events.len() == 0
            &&& count == losses
        }),
{
}

/// A keepalive is a ping that carries the four letters of the word, and nothing else comes of it.
pub proof fn a_keepalive_is_a_ping(losses: u32)
    ensures
        ({
            let (count, reaction) = heard(losses, SessionView::KeepaliveDue);
            &&& reaction.next matches StepView::SendPing(payload) && {
                &&& payload.len() == 4
                &&& payload[0] as int == 'p' as int
                &&& payload[1] as int == 'i' as int
                &&& payload[2] as int == 'n' as int
                &&& payload[3] as int == 'g' as int
            }
            &&& reaction.events.len() == 0
            &&& count == losses
        }),
{
}

/// Pongs and frames that are no text pass without a trace; so does the end of the outbox, which
/// only stops the link; and after a text the link goes on listening.
pub proof fn an_open_link_goes_on(losses: u32, text: Seq<char>, message: Option<InboundView>)
    ensures
        ({
            let pong = heard(losses, SessionView::Pong);
            let other = heard(losses, SessionView::OtherFrame);
            let end = heard(losses, SessionView::Outgoing(None));
            let received = heard(losses, SessionView::Text { text, message });
            &&& pong.0 == losses && pong.1.events.len() == 0 && pong.1.next is Listen
            &&& other.0 == losses && other.1.events.len() == 0 && other.1.next is Listen
            &&& end.0 == losses && end.1.events.len() == 0 && end.1.next is Stop
            &&& received.0 == losses && received.1.events.len() == 1 && received.1.next is Listen
        }),
{
}

/// The reaction to a loss that leaves `count` losses in a row: the cause is published first, then
/// the number of the next attempt and its delay, which the link waits for.
pub open spec fn gives_up_for_now(reaction: ReactionView, count: u32, cause: HubEventView) -> bool {
    let soon = count < 5;
    &&& reaction.events.len() == 2
    &&& reaction.events[0] == cause
    &&& reaction.events[1] matches HubEventView::Close(notice) && notice == "reconnecting in "@ + (
    if soon {
        "5"@
    } else {
        "60"@
    }) + "s (attempt "@ + decimal(count as nat) + ")"@
    &&& reaction.next matches StepView::Wait(secs) && secs == if soon {
        5u64
    } else {
        60u64
    }
}

/// Whatever loses the link, the loss is counted up to the end of the counter, and the cause is
/// published as it was given: an error by its text, a close frame by its code and reason.
pub proof fn every_loss_says_why(
    losses: u32,
    text: Seq<char>,
    code: u16,
    reason: Seq<char>,
)
    ensures
        ({
            let count = if losses < u32::MAX {
                (losses + 1) as u32
            } else {
                u32::MAX
            };
            let error = HubEventView::Error(text);
            let failed = dialed(losses, DialView::Failed(text));
            let unsent = heard(losses, SessionView::SendFailed(text));
            let unread = heard(losses, SessionView::ReadFailed(text));
            let closed = heard(losses, SessionView::CloseFrame(Some((code, reason))));
            let shut = heard(losses, SessionView::CloseFrame(None));
            let ended = heard(losses, SessionView::StreamEnded);
            &&& failed.0 == count && gives_up_for_now(failed.1, count, error)
            &&& unsent.0 == count && gives_up_for_now(unsent.1, count, error)
            &&& unread.0 == count && gives_up_for_now(unread.1, count, error)
            &&& closed.0 == count && gives_up_for_now(
                closed.1,
                count,
                HubEventView::Close("code="@ + decimal(code as nat) + " reason="@ + reason),
            )
            &&& shut.0 == count && gives_up_for_now(
                shut.1,
                count,
                HubEventView::Close("no frame"@),
            )
            &&& ended.0 == count && gives_up_for_now(
                ended.1,
                count,
                HubEventView::Close("stream ended"@),
            )
        }),
{
    reveal_strlit("5");
    reveal_strlit("60");
    reveal_with_fuel(decimal, 2);
    assert(decimal(5) =~= "5"@);
    assert(decimal(60) =~= "60"@);
}

/// A connection is announced, ends the losses in a row and starts the listening. A request that
/// could not be built is reported with its reason and tried again after five seconds, and does
/// not count.
pub proof fn what_a_dial_brings(losses: u32, text: Seq<char>)
    ensures
        ({
            let connected = dialed(losses, DialView::Connected);
            let refused = dialed(losses, DialView::RequestRefused(text));
            &&& connected.0 == 0
            &&& connected.1.events.len() == 1
            &&& connected.1.events[0] is Open
            &&& connected.1.next is Listen
            &&& refused.0 == losses
            &&& refused.1.events.len() == 1
            &&& refused.1.events[0] matches HubEventView::Error(said) && said
                == "build request: "@ + text
            &&& refused.1.next matches StepView::Wait(secs) && secs == 5
        }),
{
}

/// What each text from the hub means. A pearl request is handed on as it was read; one that could
/// not be read is an error that names the reason; the accepted key opens the link; and any other
/// text is handed on unread.
pub proof fn what_each_message_means(text: Seq<char>, message: InboundView)
    ensures
        ({
            let event = meaning(text, Some(message));
            let asks = message.action == "pearl_request"@;
            let accepts = message.action == "key-accepted"@;
            &&& asks && message.data is Ok ==> (event matches HubEventView::PearlRequest(request)
                && message.data->Ok_0 == request)
            &&& asks && message.data is Err ==> (event matches HubEventView::Error(said) && said
                == "bad pearl_request: "@ + message.data->Err_0)
            &&& accepts ==> event is Open
            &&& !asks && !accepts ==> (event matches HubEventView::Unknown(raw) && raw == text)
        }),
        meaning(text, None) matches HubEventView::Unknown(raw) && raw == text,
{
    reveal_strlit("pearl_request");
    reveal_strlit("key-accepted");
    assert("pearl_request"@.len() != "key-accepted"@.len());
}

/// The views of requests, results and messages show every field as it is.
pub proof fn views_show_whole_messages(
    request: PearlRequest,
    result: PearlResult,
    message: InboundMessage,
)
    ensures
        request@.slot == request.slot,
        request@.requester == request.requester@,
        request@.uuid == request.requester_uuid.0@,
        result@.slot == result.slot,
        result@.success == result.success,
        result@.message == result.message@,
        result@.requester == result.requester@,
        message@.action == message.action@,
        match message.data {
            Ok(asked) => message@.data matches Ok(shown) && shown == asked@,
            Err(reason) => message@.data matches Err(shown) && shown == reason@,
        },
        inbound_view(Some(message)) == Some(message@),
        inbound_view(None) is None,
{
}

/// The views of hub events and of what happens on the link show them as they are.
pub proof fn views_show_whole_events(event: HubEvent, outcome: DialOutcome, heard: SessionEvent)
    ensures
        match event {
            HubEvent::Open => event@ is Open,
            HubEvent::PearlRequest(request) => event@ == HubEventView::PearlRequest(request@),
            HubEvent::Close(text) => event@ == HubEventView::Close(text@),
            HubEvent::Error(text) => event@ == HubEventView::Error(text@),
            HubEvent::Unknown(text) => event@ == HubEventView::Unknown(text@),
        },
        match outcome {
            DialOutcome::RequestRefused(text) => outcome@ == DialView::RequestRefused(text@),
            DialOutcome::Failed(text) => outcome@ == DialView::Failed(text@),
            DialOutcome::Connected => outcome@ is Connected,
        },
        match heard {
            SessionEvent::Outgoing(Some(text)) => heard@ == SessionView::Outgoing(Some(text@)),
            SessionEvent::Outgoing(None) => heard@ == SessionView::Outgoing(None),
            SessionEvent::SendFailed(text) => heard@ == SessionView::SendFailed(text@),
            SessionEvent::KeepaliveDue => heard@ is KeepaliveDue,
            SessionEvent::Text { text, message: Some(message) } => heard@ == (SessionView::Text {
                text: text@,
                message: Some(message@),
            }),
            SessionEvent::Text { text, message: None } => heard@ == (SessionView::Text {
                text: text@,
                message: None,
            }),
            SessionEvent::Pong => heard@ is Pong,
            SessionEvent::CloseFrame(Some(frame)) => heard@ == SessionView::CloseFrame(
                Some((frame.code, frame.reason@)),
            ),
            SessionEvent::CloseFrame(None) => heard@ == SessionView::CloseFrame(None),
            SessionEvent::OtherFrame => heard@ is OtherFrame,
            SessionEvent::ReadFailed(text) => heard@ == SessionView::ReadFailed(text@),
            SessionEvent::StreamEnded => heard@ is StreamEnded,
        },
{
}

/// The view of a reaction shows its events, one for one and in order, and its next step.
pub proof fn views_show_whole_reactions(reaction: LinkReaction)
    ensures
        reaction@.events.len() == reaction.events@.len(),
        forall|i: int|
            0 <= i < reaction.events@.len() ==> (#[trigger] reaction@.events[i])
                == reaction.events@[i]@,
        match reaction.next {
            LinkStep::Listen => reaction@.next is Listen,
            LinkStep::Send(Frame::Text(text)) => reaction@.next == StepView::SendText(text@),
            LinkStep::Send(Frame::Ping(payload)) => reaction@.next == StepView::SendPing(payload@),
            LinkStep::Wait(secs) => reaction@.next == StepView::Wait(secs),
            LinkStep::Stop => reaction@.next is Stop,
        },
{
}

} // verus!
