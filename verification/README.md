# club_core

Rules of a football club simulation, written in Verus: how players take to a new
club, train, fall out and make up with each other, talk to their manager, argue
about contracts, and wait for an offer when they have no club.

## Layout

- `src/` holds the rules. Every function states what it returns or changes, and
  Verus proves it. Properties that span several functions are public proof
  functions beside them.
- `app/` joins the rules to the rest of the game: arithmetic in single precision,
  `chrono` dates, saved games, and the world a club asks its questions of.
- `tests/` runs the rules on concrete values.

## Numbers

The game computes moods, ratings and scores in single precision. The rules never
add or multiply such numbers; they compare them with fixed thresholds and keep
them in range. A `Measure` is such a number as its place in the order of all
single-precision numbers, so a comparison is exact. What has to be computed in
single precision is computed in `app/` and handed over as a `Measure`. Tables of
decimal factors are whole numbers of hundredths or thousandths.

## Dates and chance

A day is its number in the calendar; years, months and ISO weeks come from
`chrono`. Chance is a hash of ids and dates, so every day plays out the same way
in every run; the rules give the 32-bit word, `app/` reads it as a fraction.

## Outside crates

`src/` calls `chrono` (in `date.rs`) and the tables of `rustc-hash` (in
`fxmap.rs`), each through small wrappers whose contracts are assumed. `serde` and
`log` are used in `app/` only.
