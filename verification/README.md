# dedend

The rules of a two-player cooperative puzzle game, verified with Verus. One
player, the *solver*, runs through small platformer levels; the other, the
*dispatcher*, sits in an office full of buttons, a locked monitor and a book,
and helps (or hinders) from there.

## Layout

- `src/` — the verified library.
  - `fixed.rs`: fixed-point arithmetic. Every continuous quantity (seconds,
    units, degrees) is an `i64` count of millionths that saturates at a limit.
  - `player.rs`: the platformer physics of the solver's avatar (timers,
    variable jump height, steering, jumping, landing, animation).
  - `solver.rs`: the solver's levels: explosions, projectiles, items and
    their interactions, the bubble-code puzzle, level transitions.
  - `dispatcher.rs`: the dispatcher's office: focus, login code, clicks on
    the office's items, the timed buttons, the visual novel.
  - `model.rs`: the office's items and walls, and the digit codes typed on
    both sides.
  - `collections.rs`: removal by swapping with the last element, sorting of
    index lists.
  - `look.rs`: which pictures to draw.
  - `laws.rs`: properties that span several calls.
- `tests/` — tests of the library on concrete values.
- `app/` — the engine side: frame loops, input, collision geometry and
  drawing, all in floating point, handing the library plain values.

Colliders are an opaque type parameter (`C`): the library carries them along
and the engine computes every geometric answer (what touches what, what lies
under the cursor) before calling it.
