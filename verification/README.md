# pearlbot

The verified core of a stasis-chamber bot. A player asks for their pearl through a hub; the bot
logs in with an alt account, clicks the trapdoor of the player's chamber, and leaves once the
pearl is gone and the dropper, if the slot has one, is armed again. What the bot decides stands
in `src/` with a contract that Verus proves. One decision is made in `app/`, on floating-point
positions: whether a pearl lies within 5 blocks of the trapdoor.

| file | what it holds |
| --- | --- |
| `src/config.rs` | slots, whitelists, chambers and how UUIDs are matched |
| `src/hub.rs` | the hub's messages; when the websocket link is used, lost and dialed again |
| `src/request.rs` | the request that opens the websocket, with the bot's headers |
| `src/dispatch.rs` | who gets their pearl; one run per slot at a time |
| `src/pearl.rs` | the state of one run: tracking, click, dispenser, timeout, result |
| `src/text.rs` | ASCII case folding and decimal numerals |
| `src/*_laws.rs` | what holds over whole series of events |
| `app/` | the program around it: files, websocket, game client |
| `tests/` | tests of the library |

The game client in `app/` needs a nightly compiler.

A slot's `click_delay_ms` counts from when the first of the pearls now near the trapdoor was
detected.

A slot's `dispense_block` is clicked right after a catch. While no item appears it is clicked
again, one second after the click before, up to `dispense_max_retries` times. The bot leaves when
an item appears, when another second has passed after the last click, or when the 30 s are over.
