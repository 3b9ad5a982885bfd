# gorb_transporter

The rules of a small top-down game, as a library verified with Verus, and the
Bevy program that plays it.

- `src/world.rs`: the terrain map (lookup, store, speed factor) and the random
  placement of the delivery target.
- `src/player.rs`: the gorb chamber and the blood tally; landing from a jump,
  the gorb hole refill, and the effects of a confirmed dialogue.
- `src/dialogue.rs`: dialogue effects, the dialogue on screen, and the reply to
  confirm presses.
- `src/game.rs`: the game states and the transitions into and out of the
  dialogues (arrival at the target, end of the countdown).
- `src/ui.rs`: when the gorb icons need redrawing.
- `app/`: the Bevy program: windows, sprites, input, floating-point motion,
  timers and noise-generated terrain, calling the library for every rule.
- `tests/`: tests of the library on concrete values.
