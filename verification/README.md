# Kart Racer

A small ray-cast arcade racer: two circuits, a kart or a motorbike,
checkpoints, three laps and a finish line.

The game's rules live in a library verified with Verus (`src/`):

- `tiles`: which tiles block a kart, stop a ray, slow it down, or stand as
  scenery; tile lookups and collision tests on the grid.
- `track`: the two circuits as tile grids, their start cells and names,
  with proofs that every circuit is a fenced 41 x 65 grid whose start cell
  is drivable and whose checkpoints lie on open ground.
- `race`: checkpoints in order, laps and the end of the race, with proofs
  that a race ends exactly after every checkpoint has been entered on every
  lap.
- `game`: the menus and screens as a state machine driven by the keys
  pressed each frame.
- `text`: the HUD's lap, objective and time texts.
- `palette`: the colours of karts, tiles, walls and floors.
- `scenery`: the objects standing beside a circuit, in reading order.

`app/` is the program around it: the window, drawing, sound, and the
kart's floating-point physics, built on raylib. Run it with the audio files
found under `assets/audio/music` and `assets/audio/sfx`, when present.
