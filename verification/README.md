# steel_squid

The squid of a Minecraft server: its random swimming goal, its tentacle stroke,
the velocity rule that follows from the stroke, the water and levitation, and
its synced flags, goals and dimension rule.

- `src/` is the verified library (Verus): every decision of the squid, with
  exact contracts and the laws that they keep.
- `app/` applies those decisions to the squid's floating-point state (vectors,
  angles, health), which Verus does not reason about.
- `tests/` runs the library on concrete values.
