//! The bot's configuration: slots, their whitelists and their chambers.

use vstd::prelude::*;

use crate::text::{matching_texts_differ_only_in_case, same_ignoring_ascii_case, same_letter};

verus! {

/// A player's UUID, as written in the configuration or sent by the hub.
#[derive(Debug, Clone, PartialEq, Eq)]
pub struct McUuid(pub String);

impl McUuid {
    /// The UUID's text.
    pub fn to_string(&self) -> (s: String)
        ensures
            s@ == self.0@,
    {
        self.0.clone()
    }
}

/// How a slot's account logs in.
#[derive(Debug, Clone, Copy, PartialEq, Eq, Structural)]
pub enum AuthMode {
    Offline,
    Microsoft,
}

/// A player's stasis chamber.
#[derive(Debug, Clone)]
pub struct ChamberConfig {
    pub player: McUuid,
    /// Block coordinates of the trapdoor that holds the pearl.
    pub trapdoor: [i32; 3],
}

/// One slot: an account, the server it joins and the players it serves.
#[derive(Debug, Clone)]
pub struct SlotConfig {
    pub number: u8,
    pub account: String,
    pub auth: AuthMode,
    pub server: String,
    pub port: u16,
    /// Milliseconds to wait after a pearl is detected before the trapdoor is clicked.
    pub click_delay_ms: u64,
    pub whitelist: Vec<McUuid>,
    pub chambers: Vec<ChamberConfig>,
    /// Block coordinates of the button or lever clicked right after a catch, to re-arm the
    /// dropper.
    pub dispense_block: Option<[i32; 3]>,
    /// How often it is clicked again while no item confirms that the dropper fired.
    pub dispense_max_retries: u32,
}

/// The whole configuration.
#[derive(Debug, Clone)]
pub struct Config {
    pub hub_url: String,
    pub hub_api_key: String,
    pub slots: Vec<SlotConfig>,
}

/// Some whitelist entry matches `uuid`.
pub open spec fn whitelisted(whitelist: Seq<McUuid>, uuid: Seq<char>) -> bool {
    exists|i: int|
        0 <= i < whitelist.len() && same_ignoring_ascii_case(#[trigger] whitelist[i].0@, uuid)
}

/// The trapdoor of the first chamber whose player matches `uuid`.
pub open spec fn chamber_of(chambers: Seq<ChamberConfig>, uuid: Seq<char>) -> Option<[i32; 3]>
    decreases chambers.len(),
{
    if chambers.len() == 0 {
        None
    } else if same_ignoring_ascii_case(chambers[0].player.0@, uuid) {
        Some(chambers[0].trapdoor)
    } else {
        chamber_of(chambers.drop_first(), uuid)
    }
}

impl SlotConfig {
    /// Whether `uuid` may use this slot.
    pub fn is_whitelisted(&self, uuid: &McUuid) -> (b: bool)
        ensures
            b == whitelisted(self.whitelist@, uuid.0@),
    {
        let mut i: usize = 0;
        while i < self.whitelist.len()
            invariant
                i <= self.whitelist.len(),
                forall|j: int|
                    0 <= j < i ==> !same_ignoring_ascii_case(
                        #[trigger] self.whitelist@[j].0@,
                        uuid.0@,
                    ),
            decreases self.whitelist.len() - i,
        {
            if self.whitelist[i].0.as_str().eq_ignore_ascii_case(uuid.0.as_str()) {
                return true;
            }
            i = i + 1;
        }
        false
    }

    /// The trapdoor configured for `uuid`; of several chambers the first counts.
    pub fn find_trapdoor(&self, uuid: &McUuid) -> (r: Option<[i32; 3]>)
        ensures
            r == chamber_of(self.chambers@, uuid.0@),
    {
        let mut i: usize = 0;
        proof {
            assert(self.chambers@.skip(0) =~= self.chambers@);
        }
        while i < self.chambers.len()
            invariant
                i <= self.chambers.len(),
                chamber_of(self.chambers@, uuid.0@) == chamber_of(
                    self.chambers@.skip(i as int),
                    uuid.0@,
                ),
            decreases self.chambers.len() - i,
        {
            if self.chambers[i].player.0.as_str().eq_ignore_ascii_case(uuid.0.as_str()) {
                return Some(self.chambers[i].trapdoor);
            }
            proof {
                assert(self.chambers@.skip(i as int).drop_first() =~= self.chambers@.skip(i + 1));
            }
            i = i + 1;
        }
        None
    }
}

/// The port of a slot that names none.
pub fn default_port() -> (port: u16)
    ensures
        port == 25565,
{
    25565
}

/// How often a slot that does not say clicks its dispenser again.
pub fn default_dispense_max_retries() -> (n: u32)
    ensures
        n == 3,
{
    3
}

/// A player is whitelisted exactly if some entry is their UUID, up to the case of ASCII letters.
pub proof fn a_whitelist_admits_its_entries(whitelist: Seq<McUuid>, uuid: Seq<char>)
    ensures
        whitelisted(whitelist, uuid) <==> exists|i: int|
            {
                &&& 0 <= i < whitelist.len()
                &&& (#[trigger] whitelist[i]).0@.len() == uuid.len()
                &&& forall|j: int|
                    0 <= j < uuid.len() ==> same_letter(whitelist[i].0@[j], #[trigger] uuid[j])
            },
{
    assert forall|i: int| 0 <= i < whitelist.len() implies same_ignoring_ascii_case(
        (#[trigger] whitelist[i]).0@,
        uuid,
    ) == (whitelist[i].0@.len() == uuid.len() && forall|j: int|
        0 <= j < uuid.len() ==> same_letter(whitelist[i].0@[j], #[trigger] uuid[j])) by {
        let entry = whitelist[i].0@;
        matching_texts_differ_only_in_case(entry, uuid);
        if entry.len() == uuid.len() && forall|j: int|
            0 <= j < uuid.len() ==> same_letter(entry[j], #[trigger] uuid[j]) {
            assert forall|j: int| 0 <= j < entry.len() implies same_letter(
                #[trigger] entry[j],
                uuid[j],
            ) by {
                assert(same_letter(entry[j], uuid[j]));
            }
        }
        if same_ignoring_ascii_case(entry, uuid) {
            assert forall|j: int| 0 <= j < uuid.len() implies same_letter(
                entry[j],
                #[trigger] uuid[j],
            ) by {
                assert(same_letter(entry[j], uuid[j]));
            }
        }
    }
}

} // verus!
