# dispair

A terminal roguelite: fight off enemies during short runs, collect gold and
power-ups, and spend the gold on upgrades between runs.

## Layout

- `src/` is the game's logic as a library verified with Verus: coordinates
  and areas, the map, enemies and their debuffs, weapons and charms, the
  power-up popup, the player's upgrades and stats, the upgrade menu, a run
  (`rogue`) and moving between the menu and a run (`game`). Each public
  function carries a contract; `laws.rs` states properties that span
  several operations.
- `app/` is the terminal front end: the main menu, the event loop, saving
  and loading the player as JSON, reading `upgrades.json`, the difficulty
  scaling and upgrade costs (floating point), and drawing with ratatui.
- `tests/` runs the library on concrete values.

## Controls

In a run: `W`/`A`/`S`/`D` or the arrows move, `Esc` ends the run. In the
upgrade menu: `W`/`S` or the arrows move the selection, `Enter` buys an
upgrade or enters a category, `Space` starts a run, `Esc` goes back.
