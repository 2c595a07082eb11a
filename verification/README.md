# graphite-services

Verified policy kernels of the Graphite game services: equipment appraisal and Forge/Repair
recipes, enchant catalog, placement, conflicts, application, combination and removal, Fishing
(areas, rods, bait, drop tables, species, variants, capability routing, durability) and Mining
(depths, capability, natural rolls, special procs, pressure, operating cost, durability), plus the
decisions taken around locked database state (equipped-rod and pickaxe state, first area unlocks,
equipped-armor enchant loadouts, service-job stack reservations).

Layout:

- `src/` — the library, written in Verus. Every function states its behaviour in
  `requires`/`ensures` contracts over spec functions, and the properties that span several
  functions are proved as public `lemma_*` proof functions.
- `tests/` — ordinary Rust tests of the library on concrete values.
- `app/` — PostgreSQL plumbing (sqlx) that locks and reads rows inside a caller-owned
  transaction, hands plain values to the library's decisions and writes back what they decide.
