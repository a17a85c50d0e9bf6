# RivetLink

RivetLink shows the screen of a Linux host to a trusted client, over a relay or
directly on the local network, sealed end to end. The host alone decides whom it
admits; neither a relay nor a network sees what is on the screen.

The library under `src/` holds what the agent and the client decide and compute,
with contracts that Verus proves:

- `crypto`: identities, the signed key exchange, the password handshake, sealed
  channels, post-quantum and hybrid keys, one-time nonces
- `packets`, `chunks`, `encoding`, `framing`, `http`, `json`: what travels
- `sdk`: the client's side of a session, the direct-LAN protocol, the REST client
- `agent`: the host's side: consent, sessions, the physical console, capture and
  its tile-delta stream, input replay, configuration
- `end_to_end`: what a client and a host reach together

Calls into other crates stand behind small functions marked
`#[verifier::external_body]`. The comment above each says what is believed of the
crate.

The programs under `app/` do the rest: sockets, D-Bus, X11, files, processes and
the command line. `rivet-client` is the same program under another name.
