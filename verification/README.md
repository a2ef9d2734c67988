# scrapbot

The rules of ScrapBot, a top-down arena shooter, as a library verified with
Verus, and the game around it.

`src/` is the library. Every function in it carries a contract that Verus
proves:

- `control`: game time, asset loading, level commands, key actions, the main
  menu and what stops time.
- `mechanics`: teams and who may hurt whom, contact and ray damage rules,
  health timers and damage rate limits, collision groups and contact sets,
  dashing and sliding, turret attack patterns, arena doors.
- `objects`: wave spawning and layouts, the tutorial, statistics and crafted
  weapon slots, player shots, the player's timers and focus mode, the boss's
  attack cycle and destruction, terrain lines, the background grid.
- `present`: drawing layers, the beat of focus mode, explosion sounds,
  sprite animation.
- `settings`: the hexadecimal text form in which settings are stored.
- `utils`: text helpers, interpolation, random picks, and the reading of
  level drawings: XML parsing, attribute lookup and the walk that picks out
  the drawing elements.

Properties that span several calls are stated as proof functions next to the
code they are about (for example `decode_encode_roundtrip`,
`damage_rate_limited`, `uses_run_out`, `dash_lasts_its_duration`).

`app/` is the game: the engine plugins and systems, physics, rendering,
sound, input and file access. Whatever is floating-point geometry or
arithmetic lives there and calls into the library for every decision.

`tests/` runs the library on concrete values.
