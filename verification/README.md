# rsbwapi

A library for writing Starcraft: Broodwar bots against the Broodwar API, verified with Verus.
Every function in `src/` carries a contract that Verus proves.

## Layout

- `bwapi_wrapper` and its submodules: positions at their three scales (pixels, walk tiles,
  build tiles) and their conversions and distances; the unit, tech, upgrade, race and unit
  command types with their numbering; the static data of upgrades; unit commands; the errors
  and orders that the command checks use.
- `types`: colors, text sizes and rectangles (normalised corners, borders, the positions they
  cover).
- `command`: the commands queued during a frame and how they are copied into the fixed-size
  tables that the game reads, with what does not fit left out.
- `game`: what the command checks know of a game (the controlled player and its resources,
  relations between players and units, the units in sight, the tiles of the map) and the
  commands a bot queues: texts, shapes, unit commands and game settings.
- `tables`: the data of each unit type, technique and upgrade, with the controlled player's
  standing with it; each table has one entry per id, which its constructor checks.
- `production`: whether the player can make a unit type (availability, builder, costs,
  supply, requirements), whether a building fits on a site, the player's supply and unit
  counts, and the statistics that upgrades change.
- `region`: the regions of the map, which region lies under a pixel (split tiles included),
  whether a ground path joins two positions or a unit to a target, and a region's nearest
  accessible or inaccessible neighbour.
- `search`: the units in a rectangle, on a tile or within a radius, the closest unit passing a
  test, and pylon power.
- `unit`, `can_do`: what the checks know of a unit, the checks whether a unit can carry out a
  command (`can_do::issue` for a whole command, `can_do::making` for the checks that name what
  to make or where to build), and the orders that check a command and queue it
  (`unit::orders`). Each check is stated as a spec function; the executable check is proved to
  return exactly that outcome.
- `map_analyzer`: a map analysis that finds bases from mineral clusters, computes the altitude
  of every walk tile from the coasts outward (with a verified binary heap in
  `map_analyzer::min_heap`), and grows areas from the highest walk tiles down.
- `bwem`: geometry helpers (bounding boxes, borders, distances to rectangles, integer square
  roots), mini tiles, neutral units and the bookkeeping of areas under construction.
- `sma::base_finder`: the base search of the second map analysis: tiles are scored by the
  resources around them, and the best scored tiles become bases that take the resources near
  them.
- `sma`, `cell`, `projected`, `client`, `position`, `predicate`: small pieces: mini tiles of a
  second map analysis, wrappers, reading C strings from shared memory, the positions of the
  older interface, and predicates combined with `&`, `|`, `^` and `!`.

## Trusted code

Three calls are believed rather than proved, each behind a wrapper with its own contract: the
search for a byte (`memchr::memchr`), UTF-8 decoding (`std::str::from_utf8`), and, without any
promise about its answer, whether a file exists (`std::path::Path::exists`).
