# magiaforge

The rules of a twin-stick spell-casting action game, written in Verus and
proved against their contracts.

- `src/` is the verified library: actors and their status effects, wands
  and casting, the shop and the economy of golds and debts, collision
  groups, the behaviour of the monsters (shadow, chicken, the slime king),
  transformation and cloning, containers and breakable furniture, online
  messages between players, game and debug commands, and the credits of
  the music. Positions, velocities and every other fractional quantity are
  the engine's; the library works on whole numbers, flags and texts, and
  hands the engine what to do.
- `src/random.rs` holds the only trusted code: the random draws, taken from
  the `rand` and `uuid` crates.
- `app/` holds what stays outside the library: the network wire format,
  serialised with serde and bincode, and the rules written in floating
  point.
- `tests/` runs the library on concrete cases, including each law that the
  library proves.
