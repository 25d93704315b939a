# pathtracer

A small path tracer with single-scattering sky colour, split in two:

- `src/` is the verified library. Verus sees no floating-point values, so
  every double is carried as its IEEE 754 binary64 bit pattern (`u64`).
  Comparisons, absolute value, negation and `min` are defined and proved on
  the bits (`binary64`); the rounded operations are computed in software on
  the bits and named by uninterpreted spec functions. On top of that stand,
  with exact contracts: vectors (`vector`), ray/plane and ray/sphere
  intersection (`geometry`), the atmosphere's geometry and the midpoint-rule
  integrator (`atmosphere`), materials (`characteristics`), distance fields
  and their negation, union and intersection (`distance_field`, `scene`),
  the steps of a traced path (`scene`), and the renderers' bookkeeping
  (`render`).
- `app/` is the program: the window, the render threads, the camera rays,
  the random numbers, and the sky shading that needs `exp` and `powf`,
  computed natively and calling the library for the rest.
