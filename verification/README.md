# live_lesson

A live lesson in the browser: a host and its clients share a code editor and
a text area, see and hear each other, share the host's screen, draw over the
shared text, and edit shared documents and tables.

## Layout

- `src/` is the library, verified with Verus. It holds the state of a lesson
  and every decision about it: the stores and the messages they react to
  (each returns the effects it asks for, in order), the routing of network
  messages, the sequencing of incoming video frames, the audio queue limit,
  the capture control flags and key-frame cadence, session ids, decimal client
  ids, the shared table's cells and the shared-text game. Laws that span
  several calls are public proof functions (`stores/sync.rs` among others).
- `app/` is the page: routing, the peer-to-peer connections, the DOM, the
  canvas and WebCodecs capture and playback. It carries out the effects the
  library returns.
- `tests/` exercises the library on concrete values.

## Building the page

WebCodecs are unstable in `web-sys`; build the page with
`RUSTFLAGS=--cfg=web_sys_unstable_apis`. The signaling and relay servers are
read at build time from `SIGNALING_SERVER_URL`, `STUN_SERVER_URLS`,
`TURN_SERVER_URLS`, `TURN_SERVER_USERNAME` and `TURN_SERVER_CREDENTIAL`.
