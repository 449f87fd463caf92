use pearlbot::pearl::{
    run_succeeded, server_address, BotActions, BotEvent, Direction, EntityKind, HalfBlocks,
    InteractionHand, PearlBotState, RunEnd, DISPENSE_PAUSE_TICKS, RUN_LIMIT_SECS,
    SESSION_LIMIT_SECS, TICK_MS, TIMEOUT_TICKS,
};

fn bot(click_delay_ms: u64) -> PearlBotState {
    PearlBotState::new([1234, 64, -5678], "Steve".to_owned(), click_delay_ms, None, 3)
}

const DISPENSER: [i32; 3] = [1234, 65, -5678];

/// A bot with a dispenser that has just caught its pearl.
fn after_catch(max_retries: u32) -> PearlBotState {
    let mut b = PearlBotState::new(
        [1234, 64, -5678],
        "Steve".to_owned(),
        0,
        Some(DISPENSER),
        max_retries,
    );
    b.handle(pearl(5));
    let a = b.handle(BotEvent::Tick);
    assert!(a.click.is_some() && a.dispense.is_none());
    let a = b.handle(gone(&[5]));
    assert_eq!(a.dispense.unwrap().block_pos, DISPENSER);
    assert!(a.click.is_none() && a.done.is_none() && !a.exit);
    b
}

fn item() -> BotEvent {
    BotEvent::AddEntity { kind: EntityKind::Item, id: 77, near: true }
}

/// Ticks until the bot is told to leave: at which ticks the dispenser is clicked, when the bot
/// leaves and what it reports.
fn wait_for_exit(b: &mut PearlBotState) -> (Vec<u32>, u32, Option<bool>) {
    let mut clicks = Vec::new();
    for n in 1..=TIMEOUT_TICKS {
        let a = b.handle(BotEvent::Tick);
        assert!(a.click.is_none());
        if let Some(click) = a.dispense {
            assert_eq!(click.block_pos, DISPENSER);
            clicks.push(n);
        }
        if a.exit {
            return (clicks, n, a.done);
        }
    }
    panic!("no exit");
}

fn pearl(id: i32) -> BotEvent {
    BotEvent::AddEntity { kind: EntityKind::EnderPearl, id, near: true }
}

fn gone(ids: &[i32]) -> BotEvent {
    BotEvent::RemoveEntities(ids.to_vec())
}

fn is_idle(a: BotActions) -> bool {
    !a.heartbeat && a.click.is_none() && a.dispense.is_none() && a.done.is_none() && !a.exit
}

fn click_tick(bot: &mut PearlBotState, limit: u32) -> Option<u32> {
    for _ in 0..limit {
        if bot.handle(BotEvent::Tick).click.is_some() {
            return Some(bot.ticks);
        }
    }
    None
}

#[test]
fn a_new_run() {
    let b = bot(30);
    assert_eq!(b.trapdoor, [1234, 64, -5678]);
    assert_eq!(b.requester, "Steve");
    assert!(b.nearby_pearls.is_empty());
    assert_eq!((b.ticks, b.click_delay_ms), (0, 30));
    assert!(!b.should_exit && !b.success && !b.clicked && !b.done_sent);
    assert_eq!((b.dispense_block, b.dispense_max_retries), (None, 3));
    assert!(b.dispense_clicks == 0 && !b.dropper_fired);
}

#[test]
fn a_successful_run() {
    let mut b = bot(0);
    assert!(is_idle(b.handle(BotEvent::Spawn)));
    assert!(is_idle(b.handle(pearl(5))));
    let a = b.handle(BotEvent::Tick);
    let click = a.click.unwrap();
    assert_eq!(click.hand, InteractionHand::MainHand);
    assert_eq!(click.block_pos, [1234, 64, -5678]);
    assert_eq!(click.direction, Direction::Up);
    assert_eq!(click.location, HalfBlocks { x: 2469, y: 130, z: -11355 });
    assert!(!click.inside && !click.world_border);
    assert_eq!(click.seq, 0);
    assert!(!a.exit && a.done.is_none());
    assert!(is_idle(b.handle(gone(&[5]))));
    let a = b.handle(BotEvent::Tick);
    assert!(a.exit);
    assert_eq!(a.done, Some(true));
    assert!(a.click.is_none());
    assert_eq!(b.handle(BotEvent::Disconnect).done, None);
    assert_eq!(b.signal_done(), None);
}

#[test]
fn extreme_trapdoors() {
    let b = PearlBotState::new([i32::MAX, i32::MIN, i32::MIN], String::new(), 0, None, 0);
    let click = b.trapdoor_click();
    assert_eq!(click.location, HalfBlocks { x: 4294967295, y: -4294967294, z: -4294967295 });
}

#[test]
fn clicks_once() {
    let mut b = bot(0);
    b.handle(pearl(1));
    assert_eq!(click_tick(&mut b, 5), Some(1));
    b.handle(pearl(2));
    assert_eq!(click_tick(&mut b, 50), None);
}

#[test]
fn no_click_without_a_pearl() {
    let mut b = bot(0);
    b.handle(BotEvent::AddEntity { kind: EntityKind::Other, id: 1, near: true });
    b.handle(BotEvent::AddEntity { kind: EntityKind::EnderPearl, id: 2, near: false });
    b.handle(BotEvent::Other);
    assert!(b.nearby_pearls.is_empty());
    assert_eq!(click_tick(&mut b, 50), None);
}

#[test]
fn the_delay_runs_from_the_detection() {
    let mut b = bot(250);
    b.handle(pearl(1));
    assert_eq!(click_tick(&mut b, 50), Some(5));
    let mut b = bot(201);
    assert_eq!(click_tick(&mut b, 10), None);
    b.handle(pearl(1));
    b.handle(BotEvent::Tick);
    b.handle(pearl(2));
    assert_eq!(click_tick(&mut b, 50), Some(15));
}

#[test]
fn the_delay_starts_over_when_no_pearl_is_left() {
    let mut b = bot(100);
    b.handle(pearl(1));
    b.handle(BotEvent::Tick);
    b.handle(gone(&[1]));
    assert_eq!(click_tick(&mut b, 10), None);
    b.handle(pearl(2));
    assert_eq!(click_tick(&mut b, 10), Some(13));
}

#[test]
fn pearls_that_go_before_the_click_do_not_count() {
    let mut b = bot(1000);
    b.handle(pearl(1));
    b.handle(pearl(2));
    assert!(is_idle(b.handle(gone(&[2, 2, 9]))));
    assert!(!b.success && !b.should_exit);
    assert!(b.nearby_pearls.contains(&1) && b.nearby_pearls.len() == 1);
}

#[test]
fn any_of_several_pearls_counts() {
    let mut b = bot(0);
    b.handle(pearl(1));
    b.handle(pearl(2));
    b.handle(BotEvent::Tick);
    b.handle(gone(&[7]));
    assert!(!b.success);
    b.handle(gone(&[]));
    assert!(!b.success);
    b.handle(gone(&[8, 2]));
    assert!(b.success && b.should_exit);
    assert!(b.nearby_pearls.contains(&1));
}

#[test]
fn a_run_times_out() {
    let mut b = bot(0);
    for _ in 1..TIMEOUT_TICKS {
        let a = b.handle(BotEvent::Tick);
        assert!(!a.exit && a.done.is_none());
    }
    let a = b.handle(BotEvent::Tick);
    assert!(a.exit);
    assert_eq!(a.done, Some(false));
    let a = b.handle(BotEvent::Tick);
    assert!(a.exit);
    assert_eq!(a.done, None);
    assert_eq!(u64::from(TIMEOUT_TICKS) * TICK_MS, 30_000);
    assert!(30 < SESSION_LIMIT_SECS && SESSION_LIMIT_SECS < RUN_LIMIT_SECS);
}

#[test]
fn a_lost_connection_reports_failure() {
    let mut b = bot(0);
    let a = b.handle(BotEvent::Disconnect);
    assert_eq!(a.done, Some(false));
    assert!(!a.exit && a.click.is_none());
    assert_eq!(b.handle(BotEvent::Disconnect).done, None);
}

#[test]
fn timeout_and_exit_checks() {
    let mut b = bot(0);
    b.ticks = TIMEOUT_TICKS - 1;
    b.check_timeout();
    assert!(!b.should_exit);
    assert_eq!(b.check_exit(), (false, None));
    b.ticks = TIMEOUT_TICKS;
    b.check_timeout();
    assert!(b.should_exit);
    assert_eq!(b.check_exit(), (true, Some(false)));
    assert_eq!(b.check_exit(), (true, None));
}

#[test]
fn heartbeats() {
    let mut b = bot(0);
    let due: Vec<u32> =
        (1..=60).filter(|_| b.handle(BotEvent::Tick).heartbeat).collect();
    assert_eq!(due, vec![20, 40, 60]);
}

#[test]
fn the_tick_counter_starts_over() {
    let mut b = bot(100);
    b.ticks = u32::MAX;
    b.handle(pearl(1));
    let a = b.handle(BotEvent::Tick);
    assert_eq!(b.ticks, 0);
    assert!(a.click.is_none() && !a.exit);
    assert!(b.handle(BotEvent::Tick).click.is_some());
}

#[test]
fn ends_of_a_run() {
    assert!(run_succeeded(RunEnd::Reported(true)));
    assert!(!run_succeeded(RunEnd::Reported(false)));
    assert!(!run_succeeded(RunEnd::Dropped));
    assert!(!run_succeeded(RunEnd::TimedOut));
    assert!(!run_succeeded(RunEnd::NotStarted));
}

#[test]
fn addresses() {
    assert_eq!(server_address("play.example.net", 25565), "play.example.net:25565");
    assert_eq!(server_address("", 0), ":0");
}

#[test]
fn the_dispenser_is_retried_until_given_up() {
    assert_eq!(DISPENSE_PAUSE_TICKS, 20);
    assert_eq!(wait_for_exit(&mut after_catch(3)), (vec![20, 40, 60], 80, Some(true)));
    assert_eq!(wait_for_exit(&mut after_catch(0)), (vec![], 20, Some(true)));
}

#[test]
fn an_item_confirms_the_dropper() {
    let mut b = after_catch(3);
    assert!(is_idle(b.handle(item())));
    assert!(b.dropper_fired);
    assert_eq!(wait_for_exit(&mut b), (vec![], 1, Some(true)));
    let mut b = after_catch(3);
    for _ in 0..25 {
        b.handle(BotEvent::Tick);
    }
    assert_eq!(b.dispense_clicks, 2);
    b.handle(item());
    assert_eq!(wait_for_exit(&mut b), (vec![], 1, Some(true)));
}

#[test]
fn items_before_the_catch_confirm_nothing() {
    let mut b = bot(0);
    b.dispense_block = Some(DISPENSER);
    b.handle(pearl(5));
    b.handle(BotEvent::Tick);
    assert!(is_idle(b.handle(item())));
    assert!(!b.dropper_fired && !b.should_exit);
    assert!(b.handle(gone(&[5])).dispense.is_some());
    assert_eq!(wait_for_exit(&mut b), (vec![20, 40, 60], 80, Some(true)));
}

#[test]
fn a_second_pearl_does_not_dispense_again() {
    let mut b = after_catch(3);
    b.handle(pearl(6));
    assert!(is_idle(b.handle(gone(&[6]))));
    assert_eq!(b.dispense_clicks, 1);
}

#[test]
fn the_time_limit_ends_the_dispensing() {
    let mut b = after_catch(u32::MAX);
    let (clicks, left, done) = wait_for_exit(&mut b);
    assert_eq!(left, TIMEOUT_TICKS - 1);
    assert_eq!(clicks, (1..=29).map(|n| n * 20).collect::<Vec<u32>>());
    assert_eq!(done, Some(true));
}

#[test]
fn a_catch_after_the_time_limit_still_arms_the_dropper() {
    let mut b = bot(0);
    b.dispense_block = Some(DISPENSER);
    b.handle(pearl(5));
    for _ in 0..TIMEOUT_TICKS {
        b.handle(BotEvent::Tick);
    }
    assert!(b.handle(gone(&[5])).dispense.is_some());
    for _ in 0..50 {
        let a = b.handle(BotEvent::Tick);
        assert!(a.exit && a.dispense.is_none() && a.done.is_none());
    }
}

#[test]
fn dispenser_check() {
    let mut b = bot(0);
    assert!(b.check_dispenser().is_none());
    b.dispense_block = Some(DISPENSER);
    b.dispense_clicks = 1;
    b.ticks = DISPENSE_PAUSE_TICKS - 1;
    assert!(b.check_dispenser().is_none() && !b.should_exit);
    b.ticks = DISPENSE_PAUSE_TICKS;
    assert_eq!(b.check_dispenser().unwrap().block_pos, DISPENSER);
    assert_eq!((b.dispense_clicks, b.dispensed_at), (2, DISPENSE_PAUSE_TICKS));
    b.dispense_clicks = 4;
    b.ticks = 2 * DISPENSE_PAUSE_TICKS;
    assert!(b.check_dispenser().is_none() && b.should_exit);
}

#[test]
fn without_a_dispenser_nothing_is_dispensed() {
    let mut b = bot(0);
    b.handle(pearl(5));
    b.handle(BotEvent::Tick);
    assert!(b.handle(gone(&[5])).dispense.is_none());
    let a = b.handle(BotEvent::Tick);
    assert!(a.exit && a.dispense.is_none());
    assert_eq!(a.done, Some(true));
}
