# sistema

A voting system. An administrator approves the users that register, creates
elections with a start and an end date, and decides on the users' applications
as candidate or voter of each election; approved voters vote once, while the
election is open; once it has ended, its report ranks the candidates.

- `src/` is the verified library (Verus). Each request of the system
  (`Sistema`) is specified as a transition of its abstract state
  (`SistemaV`); `Sistema` and `Votacion` carry their consistency as type
  invariants, and `src/invariante.rs` proves that every request keeps the
  system consistent. `src/leyes.rs` holds properties that span requests.
- `app/` runs the library on the ink! contract environment: it reads the
  caller and the block's time, reverts refused requests with the system's
  text, and prints reports.
- `tests/` exercises the library.
