# th04

File formats and the deterministic gameplay model of Touhou 4 ~ Lotus Land
Story (PC-98, 1998), written in Verus. Verus proves every function in `src/`
against its contract, except a handful of thin wrappers around `std` string
functions (lower-casing, replacing, lossy UTF-8 decoding, ASCII-insensitive
comparison), whose contracts are taken on trust. Most contracts state the
result exactly; a few are partial, and their doc comments say what is left
out:

- a stage frame is stated in full while at most one of the boss and the
  midboss is on the field, and the boss's frame as the relation each boss's
  routine states; whether a ready stage stays ready is not stated;
- the enemy interpreter asks that the stage scroll speed stays within
  ±0x80_0000 per frame.

The modules:

- `par` — the packed archive (`東方幻想.郷`): directory, run-length members.
- `stage`, `enemy`, `enemy_vm` — `.STD` stage data, the enemy-script
  disassembler and interpreter.
- `bullet`, `player`, `effects`, `math` — bullets and their motion models, the
  player, boss telegraphs, the 256-direction trigonometry.
- `boss` (one file per boss), `simple_boss` — the boss roster and a generic
  phase-based boss.
- `sim` — the headless stage simulation tying them together.
- `pi`, `cdg`, `bft`, `map`, `mpn` — image, sprite, font and tile formats.
- `game`, `audio` — stage numbering, boss choice and music track names.

`app/main.rs` is a command-line front end (unpack, stage info, disassembly,
enemy and stage simulation, image export); `tests/` exercises the library.
