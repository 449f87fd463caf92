use pearlbot::config::{
    default_dispense_max_retries, default_port, AuthMode, ChamberConfig, McUuid, SlotConfig,
};

fn uuid(text: &str) -> McUuid {
    McUuid(text.to_owned())
}

fn chamber(player: &str, trapdoor: [i32; 3]) -> ChamberConfig {
    ChamberConfig { player: uuid(player), trapdoor }
}

fn slot(whitelist: &[&str], chambers: Vec<ChamberConfig>) -> SlotConfig {
    SlotConfig {
        number: 1,
        account: "alt".to_owned(),
        auth: AuthMode::Offline,
        server: "play.example.net".to_owned(),
        port: default_port(),
        click_delay_ms: 0,
        whitelist: whitelist.iter().map(|w| uuid(w)).collect(),
        chambers,
        dispense_block: None,
        dispense_max_retries: default_dispense_max_retries(),
    }
}

const A: &str = "550e8400-e29b-41d4-a716-446655440000";
const B: &str = "0b1e8400-e29b-41d4-a716-44665544abcd";

#[test]
fn defaults() {
    assert_eq!(default_port(), 25565);
    assert_eq!(default_dispense_max_retries(), 3);
}

#[test]
fn whitelist_matches_any_entry() {
    let s = slot(&[A, B], vec![]);
    assert!(s.is_whitelisted(&uuid(A)));
    assert!(s.is_whitelisted(&uuid(B)));
    assert!(!s.is_whitelisted(&uuid("550e8400")));
    assert!(!s.is_whitelisted(&uuid("")));
    assert!(!slot(&[], vec![]).is_whitelisted(&uuid(A)));
}

#[test]
fn whitelist_ignores_ascii_case() {
    let s = slot(&[B], vec![]);
    assert!(s.is_whitelisted(&uuid(&B.to_uppercase())));
    let odd = slot(&["STRASSE-\u{c9}"], vec![]);
    assert!(odd.is_whitelisted(&uuid("strasse-\u{c9}")));
    assert!(!odd.is_whitelisted(&uuid("strasse-\u{e9}")));
    assert!(!slot(&["@"], vec![]).is_whitelisted(&uuid("`")));
    assert!(!slot(&["["], vec![]).is_whitelisted(&uuid("{")));
}

#[test]
fn first_chamber_counts() {
    let s = slot(
        &[],
        vec![
            chamber(B, [7, 8, 9]),
            chamber(A, [1234, 64, -5678]),
            chamber(A, [0, 0, 0]),
        ],
    );
    assert_eq!(s.find_trapdoor(&uuid(A)), Some([1234, 64, -5678]));
    assert_eq!(s.find_trapdoor(&uuid(&B.to_uppercase())), Some([7, 8, 9]));
    assert_eq!(s.find_trapdoor(&uuid("nobody")), None);
    assert_eq!(slot(&[A], vec![]).find_trapdoor(&uuid(A)), None);
}

#[test]
fn uuid_is_shown_as_written() {
    assert_eq!(uuid("AbC").to_string(), "AbC");
    assert_eq!(uuid("AbC"), uuid("AbC"));
    assert_ne!(uuid("AbC"), uuid("abc"));
}
