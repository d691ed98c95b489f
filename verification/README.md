# coe33_asr

The decisions of a LiveSplit auto splitter for Clair Obscur: Expedition 33,
verified with Verus: when the game time stops for loads, when a run starts,
which boss battles and cinematics split (each once per run), and when the
timer resets.

- `src/` is the library. The game's memory is read by the host; each tick it
  hands the library a sample (`gamestate::GameReads`), and `tick` says what to
  do with the timer. Watchers (`watcher`) keep the previous and the latest
  value of each game variable; floating-point values travel as their IEEE bit
  patterns (`float_bits`).
- `app/` is the host for the LiveSplit runtime (`asr`): it attaches to the
  game, reads memory, registers the settings and drives the timer.
- `tests/` runs the library on concrete samples.
