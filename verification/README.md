# bsengine-core

The event logic of the engine's gameplay components, with proofs.

Each component keeps floating-point levels (a charge, a timer, a phase) and
a few one-frame event flags. The floating-point levels stay with the
host; the library decides, from the
comparisons the host made on its levels, whether a request takes effect,
which events it raises, and how a new frame clears them.

- `src/` — the verified library: `gauge` (bounded levels), `threshold`,
  `restoring`, `fading`, `cooldown`, `crossing`, `stripe`. Each module
  states its operations as spec functions, proves the executable methods
  equal to them, and proves the component rules as lemmas.
- `tests/` — tests of the library on concrete comparisons.
- `app/` — the components themselves as `bevy_ecs` components, with their
  `f32` fields and arithmetic, calling the library for every decision.
