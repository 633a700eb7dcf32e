# floret

The verified rules of floret, a cross-platform hangout game.

- `src/` is the library, verified with Verus:
  - `server.rs`: when the server stops replaying a silent player's last input;
  - `input.rs`: the keyboard as a direction, and touch winning over keys;
  - `ui.rs`: the "go to the middle" flag, set by a click and read once.
- `app/` is the Bevy/lightyear program around it: the server's `main`, the
  client's plugins, rendering, networking, and the movement rules, which
  compute in `f32`.
- `tests/` runs the library on concrete values.
