# openscq30_lib (A3947)

Verified packet handling for the Soundcore A3947 earbuds, written in Verus.

`src/` is the verified library:

- `parsing` – parse errors, protocol booleans (only `1` is true), the checksum.
- `structures` – structures shared by Soundcore devices (TWS status, batteries,
  firmware versions, serial number, equalizer, HearID, button configuration,
  auto power off, ambient sound and transparency modes), each with its byte
  encoding, its decoder and a proof that encoding then decoding is the identity.
- `sound_modes` – the A3947 sound modes and their seven-byte encoding.
- `packet` – frames: prefix, command, 16-bit length, body, checksum; reading
  inbound frames.
- `set_sound_modes` – the packet that sets the sound modes.
- `state_update_packet` – the state update body layout, its reader and writer,
  the handler that applies it, and the proofs that writing a state and reading
  it back gives the same state.
- `module_collection` – packet handlers keyed by command.
- `state_modifier` – the decision of what to send to move to new sound modes.

`app/` holds the asynchronous glue (a `tokio` watch channel for the state and
`async-trait` traits for the connection), which calls the library for every
decision.
