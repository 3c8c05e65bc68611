# common

The rules of a card-driven lane battler, verified with Verus, and the player's program around
them.

- `src/` is the library, every function of it proved against its contract: the card and
  blueprint catalogues, hands of cards (drawing, playing, energy), flag sets, targeting pools and
  spies, entity filters and buff counts, walking along paths and the protector's decisions, the
  entity state machine, the game states a player holds and takes in from the server, the
  decisions of the acknowledged UDP protocol, and keeping the shown hand in step with the
  server's. Laws that span several calls are public proof functions named `lemma_*`.
- `app/` is the program: drawing and input with macroquad, the UDP socket, serde on the wire,
  and the parts of the simulation that compute with floating-point positions, speeds and timers.
  It asks the library for every decision that does not depend on them.
- `tests/` runs the library on concrete values.

`cargo run` starts the player's program; `--generate-cards` renders the card images instead.
