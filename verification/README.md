# donny_tango_survivor

Rules of a survivor-style action game, verified with Verus.

- `src/` — the verified library: elements and rarity tiers, spells, the
  five-slot spell list and the thirty-slot bag, the spell pickup priority and
  the pickup state of dropped items, experience and kill-based level
  progression, the default experience table, the random loot rules (orb
  count, orb levels and upgrade chance, spell and health-pack drops) and orb
  values, per-frame sound budget and compression, and the pause menu's light toggle.
  Contracts are stated over sequence views of the slot containers and over
  spec functions of the progression rules; `law_*` proof functions state the
  properties that relate several operations.
- `tests/` — tests of the library on concrete values.
- `app/` — the headless game front-end on Bevy: health, positions, timers,
  colours and the floating-point threshold formulas, and the systems that
  feed game events to the library.
