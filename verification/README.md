# luna4

Luna4, "the quiet, essential resource moon": a Type D planet for the
`common_game` space simulation, with five energy cells, no rockets and a
7-minute lunar cycle whose four phases decide which basic resources the
planet can generate.

Layout:

- `src/` — the library, written in Verus and verified:
  - `cycle.rs` — lunar phases and the cycle timing, with the laws of the cycle;
  - `resources.rs` — resource kinds and the resources each phase offers;
  - `energy.rs` — the five energy cells: validation, charging, use, counting;
  - `state.rs`, `stats.rs` — phase progression over time, explorers, counters;
  - `ai.rs` — the planet's decisions for sunrays, asteroids, state requests
    and explorer requests, and the visualizer view;
  - `luna4.rs` — the planet identifier and the parts a planet is built from;
  - `errors.rs`, `text.rs`, `logging.rs` — error and log texts;
  - `game.rs` — the calls into `common_game`, each with the contract it is
    trusted to meet.
- `app/` — the glue to the game: the `PlanetAI` implementation, planet
  construction, structured log emission and the floating-point statistics.
- `tests/` — tests of the library.
