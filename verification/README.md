# sshhub

One SSH connection, all the games: players connect to the hub, pick a game in
the lobby, and their session is bridged to that game's own SSH server.

Layout:

- `src/` — the verified library (Verus):
  - `identity.rs`: the hub's 32-byte identity master, how it is loaded or
    generated, and the per-game Ed25519 key derived from it with keyed BLAKE3
    over `"frittura-hub/v1" 0x00 game 0x00 fingerprint`.
  - `derived.rs`: a derived key, kept with the seed and comment it was
    built from; the one trusted constructor builds the Ed25519 key of a seed.
  - `config.rs`: lobby entries, the player's credential, and the choice of
    outbound authentication method.
  - `bridge.rs`: the bridge to a game as a state machine from phase and event
    to next phase and action, with its laws.
  - `writer.rs`: the frame buffer behind each session's terminal.
  - `server.rs`: the hub itself and its lobby screen geometry.
- `tests/` — tests of the library on concrete values.
- `app/` — the I/O around it: files, the network, async plumbing and the
  terminal UI.
