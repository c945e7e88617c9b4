# chromiumoxide

The decisions of a driver for browsers of the Chromium family, verified with Verus.

- `src/network/`: the network manager. It follows the requests of a page and decides
  which of them the browser may send. `state.rs` and `decision.rs` say what each step
  does, `manager.rs`, `requests.rs` and `fetch.rs` do it, and `laws.rs` holds what is
  true of the manager as a whole.
- `src/conn.rs`: the connection, as a machine that sends commands one after the other
  and sorts what comes back.
- `src/page/`: the operations of a page, as the commands that they send and as machines
  from reply to next step.
- `src/page/disguise.rs`, `src/page/emulation.rs`, `src/page/script_texts.rs`: what the
  scripts hold that make a driven browser look like another, up to what is drawn at
  random.
- `src/matcher.rs`, `src/blocklists.rs`, `src/tables.rs`, `src/base64_text.rs`: the
  outside crates that the logic calls, each behind a contract.
- `app/`: the websocket, the JSON of the protocol and the asynchronous operations.
