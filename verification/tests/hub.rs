use pearlbot::config::McUuid;
use pearlbot::hub::{
    parse_message, pearl_result_message, request_url, CloseFrame, DialOutcome, Frame, HubEvent,
    HubLink, InboundMessage, LinkReaction, LinkStep, PearlRequest, PearlResult, SessionEvent,
};

fn request() -> PearlRequest {
    PearlRequest {
        slot: 2,
        requester: "Steve".to_owned(),
        requester_uuid: McUuid("u-1".to_owned()),
    }
}

fn message(action: &str, data: Result<PearlRequest, &str>) -> Option<InboundMessage> {
    Some(InboundMessage { action: action.to_owned(), data: data.map_err(|e| e.to_owned()) })
}

fn shown(events: &[HubEvent]) -> Vec<String> {
    events
        .iter()
        .map(|e| match e {
            HubEvent::Open => "open".to_owned(),
            HubEvent::PearlRequest(r) => format!("request {} {}", r.slot, r.requester),
            HubEvent::Close(t) => format!("close {t}"),
            HubEvent::Error(t) => format!("error {t}"),
            HubEvent::Unknown(t) => format!("unknown {t}"),
        })
        .collect()
}

fn wait(reaction: &LinkReaction) -> u64 {
    match reaction.next {
        LinkStep::Wait(secs) => secs,
        _ => panic!("no wait: {:?}", reaction.next),
    }
}

#[test]
fn endpoint_of_the_hub() {
    assert_eq!(request_url("ws://localhost:8001"), "ws://localhost:8001/websocket/connect");
    assert_eq!(request_url("ws://localhost:8001/"), "ws://localhost:8001/websocket/connect");
    assert_eq!(request_url("ws://h/a/b///"), "ws://h/a/b/websocket/connect");
    assert_eq!(request_url("///"), "/websocket/connect");
    assert_eq!(request_url(""), "/websocket/connect");
    assert_eq!(request_url("ws://\u{e9}/"), "ws://\u{e9}/websocket/connect");
}

#[test]
fn pearl_request_is_read() {
    match parse_message("raw", message("pearl_request", Ok(request()))) {
        HubEvent::PearlRequest(r) => {
            assert_eq!(r.slot, 2);
            assert_eq!(r.requester, "Steve");
            assert_eq!(r.requester_uuid.0, "u-1");
        }
        other => panic!("{other:?}"),
    }
}

#[test]
fn bad_pearl_request_is_an_error() {
    let event = parse_message("raw", message("pearl_request", Err("missing field `slot`")));
    assert_eq!(shown(&[event]), vec!["error bad pearl_request: missing field `slot`"]);
}

#[test]
fn other_texts() {
    let events = [
        parse_message("raw", message("key-accepted", Err("no request"))),
        parse_message("raw", message("chat", Ok(request()))),
        parse_message("raw", message("Pearl_Request", Ok(request()))),
        parse_message("not json", None),
    ];
    assert_eq!(
        shown(&events),
        vec!["open", "unknown raw", "unknown raw", "unknown not json"]
    );
}

#[test]
fn result_message() {
    let m = pearl_result_message(PearlResult {
        slot: 3,
        success: true,
        message: "m".to_owned(),
        requester: "r".to_owned(),
    });
    assert_eq!(m.action, "pearl_result");
    assert_eq!((m.data.slot, m.data.success), (3, true));
    assert_eq!((m.data.message.as_str(), m.data.requester.as_str()), ("m", "r"));
}

#[test]
fn failed_attempts_back_off() {
    let mut link = HubLink::new();
    let mut waits = Vec::new();
    for n in 1..=6 {
        let r = link.dial(DialOutcome::Failed("refused".to_owned()));
        let secs = wait(&r);
        waits.push(secs);
        assert_eq!(
            shown(&r.events),
            vec![
                "error refused".to_owned(),
                format!("close reconnecting in {secs}s (attempt {n})")
            ]
        );
    }
    assert_eq!(waits, vec![5, 5, 5, 5, 60, 60]);
}

#[test]
fn connection_clears_the_count() {
    let mut link = HubLink::new();
    for _ in 0..7 {
        link.dial(DialOutcome::Failed("x".to_owned()));
    }
    let r = link.dial(DialOutcome::Connected);
    assert_eq!(shown(&r.events), vec!["open"]);
    assert!(matches!(r.next, LinkStep::Listen));
    let r = link.hear(SessionEvent::StreamEnded);
    assert_eq!(
        shown(&r.events),
        vec!["close stream ended", "close reconnecting in 5s (attempt 1)"]
    );
    assert_eq!(wait(&r), 5);
}

#[test]
fn refused_request_is_no_loss() {
    let mut link = HubLink { reconnect_count: 4 };
    let r = link.dial(DialOutcome::RequestRefused("invalid URL: x".to_owned()));
    assert_eq!(shown(&r.events), vec!["error build request: invalid URL: x"]);
    assert_eq!(wait(&r), 5);
    assert_eq!(link.reconnect_count, 4);
}

#[test]
fn loss_count_stops_at_its_end() {
    let mut link = HubLink { reconnect_count: u32::MAX };
    let r = link.hear(SessionEvent::ReadFailed("io".to_owned()));
    assert_eq!(link.reconnect_count, u32::MAX);
    assert_eq!(
        shown(&r.events),
        vec!["error io", "close reconnecting in 60s (attempt 4294967295)"]
    );
}

#[test]
fn close_frames() {
    let mut link = HubLink::new();
    let frame = CloseFrame { code: 1008, reason: "bad key".to_owned() };
    let r = link.hear(SessionEvent::CloseFrame(Some(frame)));
    assert_eq!(shown(&r.events)[0], "close code=1008 reason=bad key");
    let r = link.hear(SessionEvent::CloseFrame(None));
    assert_eq!(shown(&r.events)[0], "close no frame");
    assert_eq!(shown(&r.events)[1], "close reconnecting in 5s (attempt 2)");
}

#[test]
fn open_link() {
    let mut link = HubLink::new();
    let r = link.hear(SessionEvent::Outgoing(Some("hi".to_owned())));
    assert!(r.events.is_empty());
    assert!(matches!(r.next, LinkStep::Send(Frame::Text(t)) if t == "hi"));
    let r = link.hear(SessionEvent::KeepaliveDue);
    assert!(r.events.is_empty());
    assert!(matches!(r.next, LinkStep::Send(Frame::Ping(p)) if p == "ping".as_bytes()));
    for quiet in [SessionEvent::Pong, SessionEvent::OtherFrame] {
        let r = link.hear(quiet);
        assert!(r.events.is_empty());
        assert!(matches!(r.next, LinkStep::Listen));
    }
    let r = link.hear(SessionEvent::Text {
        text: "raw".to_owned(),
        message: message("pearl_request", Ok(request())),
    });
    assert_eq!(shown(&r.events), vec!["request 2 Steve"]);
    assert!(matches!(r.next, LinkStep::Listen));
    assert_eq!(link.reconnect_count, 0);
    let r = link.hear(SessionEvent::SendFailed("broken pipe".to_owned()));
    assert_eq!(shown(&r.events)[0], "error broken pipe");
    assert_eq!(wait(&r), 5);
    let r = link.hear(SessionEvent::Outgoing(None));
    assert!(r.events.is_empty());
    assert!(matches!(r.next, LinkStep::Stop));
}
