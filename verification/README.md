# SyndicatFX

The game's core, verified: the library layer (screen, input, audio
bookkeeping, memory), the DOS compatibility helpers, and the game rules
(missions, players, persons and vehicles, the map view, sound priorities).

- `src/` is the library. Each function states what it does in its contract;
  `laws.rs` holds the properties that span functions.
- `app/` is the program around it: the SDL window and events, the files,
  the clock, and the game's loop.
- `tests/` runs the library on concrete values.

The level's things live in one byte memory, as the game lays them out;
links between things are 16-bit offsets into it.

The library supports one target, GNU/Linux on x86-64: the host's open flags
are stated with their values there.
