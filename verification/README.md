# slots_from_hell

The rules of *Slots from Hell*, a 2D horror game on the Bevy engine, as a library verified
with Verus, and the game around it.

- `src/` — the verified library, in whole pixels:
  - `geometry`: points and the overlap test between axis-aligned boxes;
  - `tilemap`: walls, doors, rooms, wall generation for one room (with one-tile door gaps)
    and the map-to-grid mapping;
  - `grid`: the `bevy_northstar` pathfinding grid, seen as its dimensions and its blocked cells;
  - `world_map`: the whole house — eight rooms, their walls, ten doors, and the grid;
  - `game_menu`: game and menu state machines, menu buttons, setting buttons, button colours;
  - `security_camera`, `player`, `enemy`, `entity`: cameras, movement decisions, enemy states
    and the rosters of figures.
- `app/` — the Bevy game: plugins, systems, UI and the floating-point motion of figures.
- `tests/` — tests of the library on concrete values.
