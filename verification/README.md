# oxybox

Handles and bookkeeping for the Box2D physics engine, verified with Verus.

- `src/` is the verified library: Box2D's generational ids (`sys`), the typed ids and the
  handles a world lends out for bodies, shapes and joints, the kinds Box2D reports for them, the
  text an id is shown by, collision filters, and the world's decisions: which ids it owns, when
  a mouse joint may be made, which contact events are still live, and when an overlap query
  stops.
- `app/` is the part that calls into Box2D itself (declared by hand in `app/sys.rs`, linked as
  the static library `box2d`): creating and stepping worlds, reading and changing bodies,
  shapes and joints, queries and debug drawing. Everything that is floating point lives here.
- `tests/` exercises the library on concrete values.
