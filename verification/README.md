# carrion_eris

The rules of Carrion-Eris, a text role-playing game and auto-battler, as a library whose
behaviour is stated in contracts and proved with Verus.

## Layout

- `src/` — the verified library.
  - `dice`, `units`, `classes`, `traits`, `skills`, `actions` — dice and their rolls,
    attributes, classes, traits, skills, and the dice a character or a mob acts with.
  - `items`, `item_templates`, `constructed`, `generated` — equipment slots and rarities,
    the item catalogue, inventories, and items rolled from points.
  - `player`, `enemies`, `battle`, `game`, `buffer` — characters, mobs, battle rounds and
    their reports, the changes a battle makes to a player's data, and the queue of changes.
  - `world`, `session`, `naming` — the map and its journeys, and the terminal game: its
    states, its commands and how a typed line is read.
  - `fsm`, `command`, `ui` — a finite state machine, commands, and the editable prompt.
  - `random`, `text`, `scaling` — randomness, number formatting, whole square roots.
- `app/` — the terminal program: keys, drawing, the map file, and the parts of combat and
  growth that are computed in floating point.
- `tests/` — tests of the library.

Run the game from a directory that holds a `map.json` of locations
(`x`, `y`, `z`, `descriptor`, `tile`).
