# deadlocked

The decision logic of a game overlay's menu and of its glow feature, verified
with Verus, and the overlay program around it.

- `src/` — the verified library:
  - `color.rs`: colours and the menu palette;
  - `bones.rs`: the aimbot's target bones, their layout positions and the
    bone selector's toggling, with its laws;
  - `config.rs`: the configuration the menu edits, the drop-down index
    mappings, the triggerbot delay ordering and the per-scope (global or
    per-weapon) edits;
  - `menu.rs`: tabs, module cards, switching modules on and off, and the
    laws that tie them together;
  - `state.rs`: the menu's state machine (keyboard, popups, card clicks) and
    the frame clock;
  - `style.rs`: which palette colour each widget state is painted in;
  - `glow.rs`: the glow feature as a list of memory writes, with its laws.
- `app/` — the overlay program: window and input (winit), drawing the menu
  (egui), settings held in floating point, and the memory writes.
- `tests/` — tests of the library on concrete values.
