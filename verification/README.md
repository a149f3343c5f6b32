# pongo

A two-player Pong game: a browser client (WebAssembly) and an authoritative
match server (a Cloudflare Durable Object) behind a small lobby Worker.

- `src/` is the verified core, checked by Verus: the scoring rules, the
  client's flow state machine and keyboard mapping, the binary wire protocol
  (encoder and decoder, with round-trip laws), the client's session record,
  the server's match lifecycle (join, countdown, play, pause for a reconnect,
  forfeit, rematch, idle reaping, alarm catch-up) and the lobby's match codes.
- `app/` is the unverified host around it: the floating-point physics and
  the offline AI, rendering, interpolation, WebSockets, timers and routing.
  It calls the core for every decision and carries out the effects that the
  core returns.
- `tests/` exercises the core on concrete values.
