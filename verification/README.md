# deskclock

A terminal desk clock — time of day, a countdown timer and a stopwatch —
drawn in a large block font that scales to fill the terminal.

The library under `src/` holds the clock's logic with its contracts, proved
with Verus:

- `time`: durations and points in time as whole nanoseconds, and the clock
  that reads the system's monotonic time;
- `timer`, `stopwatch`: the countdown and the stopwatch, each operation
  stated over a plain model of its state, with the laws that tie the
  operations together;
- `color`, `config`: the parsing of color specifications and the
  configuration with its single source of defaults;
- `font`, `ui`, `display`: the glyph table, the screen's bands, how text is
  scaled and centered, and the texts each mode shows;
- `notification`: the notifiers that tell the user a countdown is over;
- `app`: the decisions of the event loop — what each key does, what a tick
  does, how the alert flashes.

`app/main.rs` is the program around it: it reads the configuration file,
handles signals, runs the terminal, and draws what the library decides.
