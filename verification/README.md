# just_webrtc

WebRTC peers, and signalling that connects them in a full mesh, written in Rust and verified with
Verus.

- `src/` is the library. Every function states in its contract what it returns or changes, and Verus
  proves it.
  - `types`, `builder`, `connection`: peer connections, how they are configured and built.
  - `platform`: what the native platform and the browser decide.
  - `generic`: peer connections whose settings are checked when they are built.
  - `signalling`: the messages, the state of a server (`server`, `mailbox`, `feed`), how it is set up
    (`serve`), its clients (`client`, `codec`), certificates (`pem`), the state machine of a peer (`peer`),
    and what holds of all of them together (`laws`).
- `tests/` runs the library.
- `app/` is ordinary Rust around the library: a gRPC server and client, and peer connections on the
  `webrtc` crate and on `web-sys`.

What the library takes from other crates stands behind small functions marked
`#[verifier::external_body]`. The comment above each says which function it calls and what is relied
upon.
