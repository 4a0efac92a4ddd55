# terrain

A small flying game over a generated landscape, written as a verified
library (`src/`, checked by Verus) and a thin program around it (`app/`).

- `src/` holds the game's decisions with their contracts and laws: the noise
  lattice, the ground map layout, keyboard controls and frame pacing, screens
  and score, crash recovery and the camera queue, enemy flight plans and
  steering, and the lifetimes of bullets, prizes and explosion fragments.
- `app/` holds what works on floating point, OpenGL and SDL: positions and
  rotations, meshes and textures, drawing, the window and the main loop.
- `tests/` runs the library on concrete values.
