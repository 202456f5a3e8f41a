# NES Bundler

NES Bundler turns a NES game into a program of its own: the game's ROM, its
configuration and the player's settings, a settings menu shown and hidden with
ESC, re-mappable keyboard and gamepad input, automatic saving of the
battery-backed RAM and save states on F1/F2.

The decisions the program makes live in a library verified with Verus:

- `src/input` – joypad mappings, the joypad byte a set of held keys makes,
  remapping, gamepad bookkeeping and the input settings;
- `src/main_view` – the menu as a state machine and the keys a gamepad steers it with;
- `src/save_state.rs`, `src/emulation` – save states and battery-backed RAM as
  base64 text, the RGBA picture made from palette indices;
- `src/audio`, `src/resampling.rs` – output device choice, latency settings and
  the resampler's schedule;
- `src/netplay.rs` – the decisions of netplay: its configuration and id, the
  connection stages, the frame bookkeeping of a rollback session and its
  network statistics (the program itself runs without a netplay transport);
- `src/integer_scaling.rs`, `src/fps.rs` and smaller modules.

`tests/` exercises the library on concrete values. `app/` is the program around
it: windowing, SDL audio and gamepads, the tetanes emulator core, the egui menu
and the YAML files, none of which the verifier reads.
