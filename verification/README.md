# powerbaby

The rules of a networked penalty-kick game, verified with Verus.

- `src/` is the library: the protocol's messages (`protocol`), the demo
  server's login check (`login`), the server's ball rules (`server`), the
  client's ownership, command queue and score board (`client`), the
  single-player game flags (`game`), the goalie's patrol reroll (`goalie`)
  and the debug texture (`debug`). Contracts state each function's result
  over spec functions; the laws (proof functions) state what holds across
  calls: a kicked ball is not kicked again before a reset, the score board
  counts goals, a reset clears the game's flags, and so on.
- `app/` is the program around it: the Bevy engine setup, rendering, audio,
  input devices, rapier physics and the naia network layer, which hand the
  library plain values and act on what it returns.
- `tests/` runs the library on concrete values.
