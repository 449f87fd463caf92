use pearlbot::config::{AuthMode, ChamberConfig, McUuid, SlotConfig};
use pearlbot::dispatch::{Dispatcher, Feed, PearlJob, Reaction};
use pearlbot::hub::{HubEvent, PearlRequest, PearlResult};

fn uuid(text: &str) -> McUuid {
    McUuid(text.to_owned())
}

fn slot(number: u8, account: &str) -> SlotConfig {
    SlotConfig {
        number,
        account: account.to_owned(),
        auth: AuthMode::Microsoft,
        server: "play.example.net".to_owned(),
        port: 25566,
        click_delay_ms: 250,
        whitelist: vec![uuid("alice"), uuid("bob")],
        chambers: vec![ChamberConfig { player: uuid("ALICE"), trapdoor: [1, 64, -2] }],
        dispense_block: Some([1, 65, -2]),
        dispense_max_retries: 4,
    }
}

fn ask(slot: u8, id: &str) -> PearlRequest {
    PearlRequest { slot, requester: "Steve".to_owned(), requester_uuid: uuid(id) }
}

fn reply(reaction: Reaction) -> PearlResult {
    match reaction {
        Reaction::Reply(result) => result,
        other => panic!("{other:?}"),
    }
}

fn job(reaction: Reaction) -> PearlJob {
    match reaction {
        Reaction::Start(job) => job,
        other => panic!("{other:?}"),
    }
}

#[test]
fn refusals() {
    let mut d = Dispatcher::new(vec![slot(1, "alt")]);
    let r = reply(d.answer(ask(9, "alice")));
    assert_eq!(r.message, "Slot 9 is not configured");
    assert_eq!((r.slot, r.success, r.requester.as_str()), (9, false, "Steve"));
    let r = reply(d.answer(ask(1, "mallory")));
    assert_eq!(r.message, "Steve is not whitelisted");
    let r = reply(d.answer(ask(1, "bob")));
    assert_eq!(r.message, "No chamber configured for Steve");
    job(d.answer(ask(1, "alice")));
    let r = reply(d.answer(ask(1, "alice")));
    assert_eq!(r.message, "Slot 1 is busy, try again shortly");
    assert_eq!((r.slot, r.success, r.requester.as_str()), (1, false, "Steve"));
    assert_eq!(reply(d.answer(ask(1, "bob"))).message, "No chamber configured for Steve");
    assert_eq!(reply(d.answer(ask(1, "mallory"))).message, "Steve is not whitelisted");
}

#[test]
fn granted_request() {
    let mut d = Dispatcher::new(vec![slot(200, "alt")]);
    let j = job(d.answer(ask(200, "Alice")));
    assert_eq!(j.slot, 200);
    assert_eq!(j.requester, "Steve");
    assert_eq!(j.trapdoor, [1, 64, -2]);
    assert_eq!(j.account, "alt");
    assert_eq!(j.auth, AuthMode::Microsoft);
    assert_eq!(j.server, "play.example.net");
    assert_eq!(j.port, 25566);
    assert_eq!(j.click_delay_ms, 250);
    assert_eq!(j.dispense_block, Some([1, 65, -2]));
    assert_eq!(j.dispense_max_retries, 4);
}

#[test]
fn finishing_frees_the_slot() {
    let mut d = Dispatcher::new(vec![slot(1, "a"), slot(2, "b")]);
    job(d.answer(ask(1, "alice")));
    job(d.answer(ask(2, "alice")));
    let r = d.finish(1, "Steve".to_owned(), true);
    assert_eq!(r.message, "Pearl pulled for Steve");
    assert_eq!((r.slot, r.success, r.requester.as_str()), (1, true, "Steve"));
    assert_eq!(
        reply(d.answer(ask(2, "alice"))).message,
        "Slot 2 is busy, try again shortly"
    );
    job(d.answer(ask(1, "alice")));
    let r = d.finish(2, "Alex".to_owned(), false);
    assert_eq!(r.message, "Pearl failed for Alex");
    assert_eq!((r.slot, r.success, r.requester.as_str()), (2, false, "Alex"));
    job(d.answer(ask(2, "alice")));
}

#[test]
fn last_slot_with_a_number_counts() {
    let mut d = Dispatcher::new(vec![slot(1, "first"), slot(2, "other"), slot(1, "last")]);
    assert_eq!(job(d.answer(ask(1, "alice"))).account, "last");
    assert_eq!(job(d.answer(ask(2, "alice"))).account, "other");
}

#[test]
fn no_slots() {
    let mut d = Dispatcher::new(vec![]);
    assert_eq!(reply(d.answer(ask(0, "alice"))).message, "Slot 0 is not configured");
}

#[test]
fn name_and_case_do_not_matter() {
    let mut d = Dispatcher::new(vec![slot(1, "a")]);
    let mut request = ask(1, "aLiCe");
    request.requester = "Renamed".to_owned();
    assert_eq!(job(d.answer(request)).requester, "Renamed");
}

#[test]
fn channel() {
    let mut d = Dispatcher::new(vec![slot(1, "a")]);
    let text = || "t".to_owned();
    for event in [
        HubEvent::Open,
        HubEvent::Close(text()),
        HubEvent::Error(text()),
        HubEvent::Unknown(text()),
    ] {
        assert!(matches!(d.react(Feed::Event(event)), Reaction::Nothing));
    }
    assert!(matches!(d.react(Feed::Lagged(7)), Reaction::Nothing));
    assert!(matches!(d.react(Feed::Closed), Reaction::Resubscribe(2)));
    let event = HubEvent::PearlRequest(ask(1, "alice"));
    assert_eq!(job(d.react(Feed::Event(event))).slot, 1);
    let event = HubEvent::PearlRequest(ask(1, "alice"));
    assert!(!reply(d.react(Feed::Event(event))).success);
}
