# bevy_doors

The rules of a small first-person horror hallway game, verified with Verus.
A run walks through endless hotel rooms; each room offers one to three
numbered doors, and only the door carrying the number being sought leads on.

- `src/` — the verified library:
  - `door` — room layouts (door count, distinct placements, decoy numbers)
    drawn from a word hash, and what reaching a door does;
  - `game_state` — screens, run counters, and the contact rule (touching an
    enemy ends the run);
  - `enemy` — when an enemy joins and where it appears;
  - `transition` — the fade between rooms (which moves the run's counters
    on when the room is replaced), the wrong-door flash and the overlay
    they produce;
  - `jumpscare` — the jumpscare clock, whose waits are drawn from a random
    number that the program supplies;
  - `player` — cursor mode and the movement keys;
  - `ui` — HUD and menu texts, heart slots and the heart icon's pixels.
- `app/` — the Bevy program around it: scene building, rendering, input,
  and the float geometry (movement, distances, animation).
- `tests/` — tests of the library on concrete values.

Times in the library are whole milliseconds, overlay opacities millionths
and spawn positions tenths of a unit; the program converts from and to Bevy's floats.
