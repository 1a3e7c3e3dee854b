# alveus_idle

The rules of Alveus Idle, a tile-based sanctuary caretaking game, as a
verified library: every public function in `src/` carries a
`requires`/`ensures` contract, and Verus proves all of `src/` against them.

- `src/types.rs`, `configs.rs`, `content.rs`: identifiers, stat arithmetic and
  the static content tables (items, animals, enclosures, placements, poop
  configuration).
- `src/collision.rs`: collision masks, walkability, saved and live obstacles,
  the breadth-first spawn-tile search, and required-map load failures.
- `src/interaction.rs`, `cleaning.rs`, `stats.rs`, `movement.rs`, `room.rs`:
  the satchel and care picker, poop spawning and the wheelbarrow, stat
  changes and save records, tile movement and animal wandering.
- `src/command.rs`, `input.rs`, `app_state.rs`, `menus_model.rs`, `menus.rs`,
  `loading.rs`, `toast.rs`, `save.rs`, `stat_controls.rs`: the verb router and
  game-world state machine, input contexts, menus, loading decisions, toasts,
  the save-format check and debug/decay stat events.
- `src/random.rs`: the two calls into `rand` that draw a tile.
- `app/`: host glue that Verus does not see: serialisable and enumerable
  copies of library types, floating-point decay and upkeep arithmetic, and
  the file and keyboard edges.
- `tests/`: executable tests of the library.
