//! The hub's side of the bot: the messages it exchanges with the hub and the rules by which the
//! websocket link is used, lost and taken up again.

use vstd::prelude::*;
use vstd::string::*;

use crate::config::McUuid;
use crate::text::{decimal, decimal_text};

verus! {

/// Seconds between two keepalive pings.
pub const KEEPALIVE_SECS: u64 = 5;

/// A player asks for their pearl.
#[derive(Debug, Clone)]
pub struct PearlRequest {
    pub slot: u8,
    pub requester: String,
    pub requester_uuid: McUuid,
}

/// The answer to a request.
#[derive(Debug, Clone)]
pub struct PearlResult {
    pub slot: u8,
    pub success: bool,
    pub message: String,
    pub requester: String,
}

/// What the hub link tells the rest of the bot.
#[derive(Debug, Clone)]
pub enum HubEvent {
    Open,
    PearlRequest(PearlRequest),
    Close(String),
    Error(String),
    Unknown(String),
}

/// A message of the hub: its action, and its data read as a pearl request or the reason why it
/// is none.
#[derive(Debug)]
pub struct InboundMessage {
    pub action: String,
    pub data: Result<PearlRequest, String>,
}

/// A message to the hub.
#[derive(Debug, Clone)]
pub struct OutboundMessage {
    pub action: String,
    pub data: PearlResult,
}

/// The mathematical content of a [`PearlRequest`].
pub struct PearlRequestView {
    pub slot: u8,
    pub requester: Seq<char>,
    pub uuid: Seq<char>,
}

/// The mathematical content of a [`PearlResult`].
pub struct PearlResultView {
    pub slot: u8,
    pub success: bool,
    pub message: Seq<char>,
    pub requester: Seq<char>,
}

/// The mathematical content of a [`HubEvent`].
pub enum HubEventView {
    Open,
    PearlRequest(PearlRequestView),
    Close(Seq<char>),
    Error(Seq<char>),
    Unknown(Seq<char>),
}

/// The mathematical content of an [`InboundMessage`].
pub struct InboundView {
    pub action: Seq<char>,
    pub data: Result<PearlRequestView, Seq<char>>,
}

impl View for PearlRequest {
    type V = PearlRequestView;

    open spec fn view(&self) -> PearlRequestView {
        PearlRequestView {
            slot: self.slot,
            requester: self.requester@,
            uuid: self.requester_uuid.0@,
        }
    }
}

impl View for PearlResult {
    type V = PearlResultView;

    open spec fn view(&self) -> PearlResultView {
        PearlResultView {
            slot: self.slot,
            success: self.success,
            message: self.message@,
            requester: self.requester@,
        }
    }
}

impl View for HubEvent {
    type V = HubEventView;

    open spec fn view(&self) -> HubEventView {
        match *self {
            HubEvent::Open => HubEventView::Open,
            HubEvent::PearlRequest(request) => HubEventView::PearlRequest(request@),
            HubEvent::Close(text) => HubEventView::Close(text@),
            HubEvent::Error(text) => HubEventView::Error(text@),
            HubEvent::Unknown(text) => HubEventView::Unknown(text@),
        }
    }
}

impl View for InboundMessage {
    type V = InboundView;

    open spec fn view(&self) -> InboundView {
        InboundView {
            action: self.action@,
            data: match self.data {
                Ok(request) => Ok(request@),
                Err(reason) => Err(reason@),
            },
        }
    }
}

/// The content of a message that may be missing.
pub open spec fn inbound_view(message: Option<InboundMessage>) -> Option<InboundView> {
    match message {
        Some(m) => Some(m@),
        None => None,
    }
}

/// What a text from the hub means: a pearl request, the acceptance of the key, or something for
/// others. A request that cannot be read is an error; a text that is no message is passed over
/// like one with an unknown action.
pub open spec fn meaning(text: Seq<char>, message: Option<InboundView>) -> HubEventView {
    match message {
        None => HubEventView::Unknown(text),
        Some(m) => if m.action == "pearl_request"@ {
            match m.data {
                Ok(request) => HubEventView::PearlRequest(request),
                Err(reason) => HubEventView::Error("bad pearl_request: "@ + reason),
            }
        } else if m.action == "key-accepted"@ {
            HubEventView::Open
        } else {
            HubEventView::Unknown(text)
        },
    }
}

/// Tells what a text from the hub means, given the message it decodes to.
pub fn parse_message(text: &str, message: Option<InboundMessage>) -> (event: HubEvent)
    ensures
        event@ == meaning(text@, inbound_view(message)),
{
    match message {
        None => HubEvent::Unknown(text.to_owned()),
        Some(m) => {
            if m.action.eq(&"pearl_request".to_owned()) {
                match m.data {
                    Ok(request) => HubEvent::PearlRequest(request),
                    Err(reason) => {
                        let mut error = "bad pearl_request: ".to_owned();
                        error.append(reason.as_str());
                        HubEvent::Error(error)
                    },
                }
            } else if m.action.eq(&"key-accepted".to_owned()) {
                HubEvent::Open
            } else {
                HubEvent::Unknown(text.to_owned())
            }
        },
    }
}

/// The message that carries a result to the hub.
pub fn pearl_result_message(result: PearlResult) -> (message: OutboundMessage)
    ensures
        message.action@ == "pearl_result"@,
        message.data == result,
{
    OutboundMessage { action: "pearl_result".to_owned(), data: result }
}

/// `text` without the slashes at its end.
pub open spec fn without_trailing_slashes(text: Seq<char>) -> Seq<char>
    decreases text.len(),
{
    if text.len() > 0 && text.last() == '/' {
        without_trailing_slashes(text.drop_last())
    } else {
        text
    }
}

/// The websocket endpoint of the hub at `url`.
pub open spec fn endpoint(url: Seq<char>) -> Seq<char> {
    without_trailing_slashes(url) + "/websocket/connect"@
}

/// The websocket endpoint of the hub at `url`.
pub fn request_url(url: &str) -> (endpoint_url: String)
    ensures
        endpoint_url@ == endpoint(url@),
{
    let mut n: usize = url.unicode_len();
    assert(url@.take(n as int) =~= url@);
    while n > 0 && url.get_char(n - 1) == '/'
        invariant
            n <= url@.len(),
            without_trailing_slashes(url@) == without_trailing_slashes(url@.take(n as int)),
        decreases n,
    {
        assert(url@.take(n as int).drop_last() =~= url@.take(n - 1));
        n = n - 1;
    }
    let mut result = url.substring_char(0, n).to_owned();
    result.append("/websocket/connect");
    result
}

/// A frame that the link sends.
#[derive(Debug, Clone)]
pub enum Frame {
    Text(String),
    Ping(Vec<u8>),
}

/// The reason that the hub gives when it closes the link.
#[derive(Debug, Clone)]
pub struct CloseFrame {
    pub code: u16,
    pub reason: String,
}

/// How an attempt to reach the hub ended.
#[derive(Debug, Clone)]
pub enum DialOutcome {
    /// No request could be built; the text says why.
    RequestRefused(String),
    /// The hub was not reached; the text says why.
    Failed(String),
    Connected,
}

/// What happens on an open link.
#[derive(Debug)]
pub enum SessionEvent {
    /// The bot has a text to send, or will never have one again.
    Outgoing(Option<String>),
    SendFailed(String),
    KeepaliveDue,
    /// A text arrived, with the message it decodes to.
    Text { text: String, message: Option<InboundMessage> },
    Pong,
    CloseFrame(Option<CloseFrame>),
    OtherFrame,
    ReadFailed(String),
    StreamEnded,
}

/// What the link does next.
#[derive(Debug, Clone)]
pub enum LinkStep {
    /// Go on with the open link.
    Listen,
    /// Send a frame, then go on.
    Send(Frame),
    /// Wait that many seconds, then dial.
    Wait(u64),
    Stop,
}

/// What follows from an input to the link.
#[derive(Debug, Clone)]
pub struct LinkReaction {
    /// The events to publish, in this order.
    pub events: Vec<HubEvent>,
    pub next: LinkStep,
}

/// The mathematical content of a [`DialOutcome`].
pub enum DialView {
    RequestRefused(Seq<char>),
    Failed(Seq<char>),
    Connected,
}

/// The mathematical content of a [`SessionEvent`].
pub enum SessionView {
    Outgoing(Option<Seq<char>>),
    SendFailed(Seq<char>),
    KeepaliveDue,
    Text { text: Seq<char>, message: Option<InboundView> },
    Pong,
    CloseFrame(Option<(u16, Seq<char>)>),
    OtherFrame,
    ReadFailed(Seq<char>),
    StreamEnded,
}

/// The mathematical content of a [`LinkStep`].
pub enum StepView {
    Listen,
    SendText(Seq<char>),
    SendPing(Seq<u8>),
    Wait(u64),
    Stop,
}

/// The mathematical content of a [`LinkReaction`].
#[verifier::ext_equal]
pub struct ReactionView {
    pub events: Seq<HubEventView>,
    pub next: StepView,
}

impl View for DialOutcome {
    type V = DialView;

    open spec fn view(&self) -> DialView {
        match *self {
            DialOutcome::RequestRefused(text) => DialView::RequestRefused(text@),
            DialOutcome::Failed(text) => DialView::Failed(text@),
            DialOutcome::Connected => DialView::Connected,
        }
    }
}

impl View for SessionEvent {
    type V = SessionView;

    open spec fn view(&self) -> SessionView {
        match *self {
            SessionEvent::Outgoing(text) => SessionView::Outgoing(
                match text {
                    Some(t) => Some(t@),
                    None => None,
                },
            ),
            SessionEvent::SendFailed(text) => SessionView::SendFailed(text@),
            SessionEvent::KeepaliveDue => SessionView::KeepaliveDue,
            SessionEvent::Text { text, message } => SessionView::Text {
                text: text@,
                message: inbound_view(message),
            },
            SessionEvent::Pong => SessionView::Pong,
            SessionEvent::CloseFrame(frame) => SessionView::CloseFrame(
                match frame {
                    Some(f) => Some((f.code, f.reason@)),
                    None => None,
                },
            ),
            SessionEvent::OtherFrame => SessionView::OtherFrame,
            SessionEvent::ReadFailed(text) => SessionView::ReadFailed(text@),
            SessionEvent::StreamEnded => SessionView::StreamEnded,
        }
    }
}

impl View for LinkStep {
    type V = StepView;

    open spec fn view(&self) -> StepView {
        match *self {
            LinkStep::Listen => StepView::Listen,
            LinkStep::Send(Frame::Text(text)) => StepView::SendText(text@),
            LinkStep::Send(Frame::Ping(payload)) => StepView::SendPing(payload@),
            LinkStep::Wait(secs) => StepView::Wait(secs),
            LinkStep::Stop => StepView::Stop,
        }
    }
}

impl View for LinkReaction {
    type V = ReactionView;

    open spec fn view(&self) -> ReactionView {
        ReactionView {
            events: self.events@.map_values(|e: HubEvent| e@),
            next: self.next@,
        }
    }
}

/// The payload of a keepalive ping: the word "ping" in ASCII.
pub open spec fn ping_payload() -> Seq<u8> {
    seq![0x70u8, 0x69, 0x6e, 0x67]
}

/// Seconds to wait before the attempt that follows `losses` losses in a row.
pub open spec fn backoff(losses: u32) -> u64 {
    if losses >= 5 {
        60
    } else {
        5
    }
}

/// One more loss; the count stops at the end of its range.
pub open spec fn one_more(losses: u32) -> u32 {
    if losses == u32::MAX {
        losses
    } else {
        (losses + 1) as u32
    }
}

/// The text that announces the next attempt.
pub open spec fn reconnect_notice(losses: u32) -> Seq<char> {
    "reconnecting in "@ + decimal(backoff(losses) as nat) + "s (attempt "@ + decimal(
        losses as nat,
    ) + ")"@
}

/// The link is lost: publish the cause and the next attempt, then wait.
pub open spec fn lost(losses: u32, cause: HubEventView) -> (u32, ReactionView) {
    let n = one_more(losses);
    (
        n,
        ReactionView {
            events: seq![cause, HubEventView::Close(reconnect_notice(n))],
            next: StepView::Wait(backoff(n)),
        },
    )
}

/// Nothing to publish; go on with `next`.
pub open spec fn quietly(next: StepView) -> ReactionView {
    ReactionView { events: seq![], next }
}

/// The new loss count and the reaction after an attempt to reach the hub. A request that cannot
/// be built is no loss.
pub open spec fn dialed(losses: u32, outcome: DialView) -> (u32, ReactionView) {
    match outcome {
        DialView::RequestRefused(text) => (
            losses,
            ReactionView {
                events: seq![HubEventView::Error("build request: "@ + text)],
                next: StepView::Wait(5),
            },
        ),
        DialView::Failed(text) => lost(losses, HubEventView::Error(text)),
        DialView::Connected => (
            0,
            ReactionView { events: seq![HubEventView::Open], next: StepView::Listen },
        ),
    }
}

/// How a close frame reads.
pub open spec fn close_text(frame: Option<(u16, Seq<char>)>) -> Seq<char> {
    match frame {
        Some((code, reason)) => "code="@ + decimal(code as nat) + " reason="@ + reason,
        None => "no frame"@,
    }
}

/// The new loss count and the reaction after an event on an open link.
pub open spec fn heard(losses: u32, event: SessionView) -> (u32, ReactionView) {
    match event {
        SessionView::Outgoing(Some(text)) => (losses, quietly(StepView::SendText(text))),
        SessionView::Outgoing(None) => (losses, quietly(StepView::Stop)),
        SessionView::KeepaliveDue => (losses, quietly(StepView::SendPing(ping_payload()))),
        SessionView::Text { text, message } => (
            losses,
            ReactionView { events: seq![meaning(text, message)], next: StepView::Listen },
        ),
        SessionView::Pong | SessionView::OtherFrame => (losses, quietly(StepView::Listen)),
        SessionView::SendFailed(text) => lost(losses, HubEventView::Error(text)),
        SessionView::ReadFailed(text) => lost(losses, HubEventView::Error(text)),
        SessionView::CloseFrame(frame) => lost(losses, HubEventView::Close(close_text(frame))),
        SessionView::StreamEnded => lost(losses, HubEventView::Close("stream ended"@)),
    }
}

/// The link to the hub, as far as its rules go: how often in a row it was lost.
#[derive(Debug, Clone, Copy, PartialEq, Eq)]
pub struct HubLink {
    pub reconnect_count: u32,
}

impl HubLink {
    /// A link that was never lost.
    pub fn new() -> (link: Self)
        ensures
            link.reconnect_count == 0,
    {
        HubLink { reconnect_count: 0 }
    }

    /// Writes the announcement of the next attempt.
    fn notice(delay: u64, attempt: u32) -> (text: String)
        ensures
            text@ == "reconnecting in "@ + decimal(delay as nat) + "s (attempt "@ + decimal(
                attempt as nat,
            ) + ")"@,
    {
        let mut text = "reconnecting in ".to_owned();
        text.append(decimal_text(delay).as_str());
        text.append("s (attempt ");
        text.append(decimal_text(attempt as u64).as_str());
        text.append(")");
        text
    }

    /// Counts a loss.
    fn lose(&mut self, cause: HubEvent) -> (reaction: LinkReaction)
        ensures
            (final(self).reconnect_count, reaction@) == lost(old(self).reconnect_count, cause@),
    {
        self.reconnect_count = self.reconnect_count.saturating_add(1);
        let delay: u64 = if self.reconnect_count >= 5 {
            60
        } else {
            5
        };
        let notice = HubEvent::Close(Self::notice(delay, self.reconnect_count));
        let reaction = LinkReaction { events: vec![cause, notice], next: LinkStep::Wait(delay) };
        reaction
    }

    /// What follows from an attempt to reach the hub.
    pub fn dial(&mut self, outcome: DialOutcome) -> (reaction: LinkReaction)
        ensures
            (final(self).reconnect_count, reaction@) == dialed(
                old(self).reconnect_count,
                outcome@,
            ),
    {
        match outcome {
            DialOutcome::RequestRefused(text) => {
                let mut error = "build request: ".to_owned();
                error.append(text.as_str());
                let event = HubEvent::Error(error);
                let reaction = LinkReaction { events: vec![event], next: LinkStep::Wait(5) };
                reaction
            },
            DialOutcome::Failed(text) => self.lose(HubEvent::Error(text)),
            DialOutcome::Connected => {
                self.reconnect_count = 0;
                let reaction = LinkReaction {
                    events: vec![HubEvent::Open],
                    next: LinkStep::Listen,
                };
                reaction
            },
        }
    }

    /// Writes out a close frame.
    fn close_reason(frame: Option<CloseFrame>) -> (text: String)
        ensures
            text@ == close_text(
                match frame {
                    Some(f) => Some((f.code, f.reason@)),
                    None => None,
                },
            ),
    {
        match frame {
            Some(f) => {
                let mut text = "code=".to_owned();
                text.append(decimal_text(f.code as u64).as_str());
                text.append(" reason=");
                text.append(f.reason.as_str());
                text
            },
            None => "no frame".to_owned(),
        }
    }

    /// A reaction that publishes nothing.
    fn quiet(next: LinkStep) -> (reaction: LinkReaction)
        ensures
            reaction@ == quietly(next@),
    {
        LinkReaction { events: Vec::new(), next }
    }

    /// What follows from an event on the open link.
    pub fn hear(&mut self, event: SessionEvent) -> (reaction: LinkReaction)
        ensures
            (final(self).reconnect_count, reaction@) == heard(
                old(self).reconnect_count,
                event@,
            ),
    {
        match event {
            SessionEvent::Outgoing(Some(text)) => Self::quiet(LinkStep::Send(Frame::Text(text))),
            SessionEvent::Outgoing(None) => Self::quiet(LinkStep::Stop),
            SessionEvent::KeepaliveDue => {
                let payload = vec![0x70u8, 0x69, 0x6e, 0x67];
                Self::quiet(LinkStep::Send(Frame::Ping(payload)))
            },
            SessionEvent::Text { text, message } => {
                let event = parse_message(text.as_str(), message);
                let reaction = LinkReaction { events: vec![event], next: LinkStep::Listen };
                reaction
            },
            SessionEvent::Pong | SessionEvent::OtherFrame => Self::quiet(LinkStep::Listen),
            SessionEvent::SendFailed(text) => self.lose(HubEvent::Error(text)),
            SessionEvent::ReadFailed(text) => self.lose(HubEvent::Error(text)),
            SessionEvent::CloseFrame(frame) => {
                let reason = Self::close_reason(frame);
                self.lose(HubEvent::Close(reason))
            },
            SessionEvent::StreamEnded => self.lose(HubEvent::Close("stream ended".to_owned())),
        }
    }
}

} // verus!
