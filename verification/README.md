# boids

A flocking simulation whose discrete state is verified with Verus.

- `src/` — the verified library: boundary mode and discrete settings
  (`config`), the control panel's visibility and requested actions (`ui`),
  the bounded flight-path history of a boid (`trail`), and the flock's
  bookkeeping that keeps one trail per boid (`simulation`).
- `app/` — the macroquad program around it: floating-point steering and
  movement of boids, continuous configuration, drawing, and the on-screen
  control panel's widgets.
- `tests/` — tests of the library on concrete values.
