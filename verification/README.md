# noise_prekeys

The two parts of a messaging client that have to get numbers right, verified with Verus.

- The Noise socket: messages are sealed, counted, framed and sent in order, and read back at the
  other end.
- The upkeep of one-time pre-keys: uploading them under ids that are never used twice, trying again
  with growing pauses, and checking that the server has what the device has.

`src/` is the verified library. Nothing in it waits or talks to anyone: each part takes an event and
answers with the action to carry out next. `app/` carries the actions out, on an async runtime, a
transport and a store. What is believed of other crates without proof stands in `sealing.rs`,
`frames.rs`, `records.rs` and `bundle.rs`, each time under a comment that begins with "Trusted".
What holds of whole runs is proved in `delivery.rs`, `retry.rs`, `pool.rs` and `agreement.rs`.
