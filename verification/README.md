# rusty_ship

The rules of Rusty Ship, a hacker-pirate space shooter, as a Verus-verified
library, and the game around it.

- `src/` — the verified library. Each module states its rules over integer
  models and proves them: waves and their lifecycle (`wave_director`),
  bosses, their phases and volleys (`boss`), enemies, bullets, the ship and
  power-ups, formations, content tables and their validation (`content`),
  the story's triggers (`narrative`), the dialogue engine, save games, the
  developer console (`console`), menus and console line editing (`menu`),
  and the flow between screens (`flow`). Laws that span several calls are
  public proof functions next to the functions they speak of.
- `tests/` — tests of the library on concrete values.
- `app/` — the game: the macroquad window, input, drawing, floating-point
  motion and collision geometry, reading the content, dialogue and save
  files, and sound bookkeeping. It hands the library plain values and
  applies what the library decides.

Random draws go through `rand` and `macroquad::rand` behind small trusted
wrappers in `src/rng.rs`; lowercasing and `String::push` go through trusted
wrappers in `src/text.rs`.
