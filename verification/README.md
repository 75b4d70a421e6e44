# accretion

The rules of the Accretion asteroid-aggregation game, written in Verus and
proved against their contracts.

- `src/` — the verified library:
  - `alloc_profile` — allocation profiling counters and their accounting;
  - `mining` — ore, the ore magnet upgrade track, ore pickup collection;
  - `enemy` — spawn stages, spawn caps and cooldowns, tiers, first-shot stagger;
  - `campaign` — mission catalog, session, wave director, mission progression;
  - `combat` — which projectile hits which asteroid in a frame, and the size
    rules of a hit (destroy, scatter, split, chip);
  - `menu` — game states, button and key handling, the campaign name editor,
    slot and shop labels, ore shop purchases, the physics pause switch, and
    what leaving the game world or retrying a mission clears;
  - `config` — when the physics configuration file is reloaded;
  - `graphics` — font coverage of UI symbols (fonts parsed with `ttf-parser`);
  - `text` — decimal numerals, UTF-8 widths, byte truncation, trimming.
- `tests/` — tests of the library on concrete values.
- `app/` — the executable's start-up: the counting global allocator,
  configuration loading with `serde`/`toml`, font file reading, and the
  floating-point geometry and effects.

Durations in the library are whole milliseconds.
