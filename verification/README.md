# tcglense

A command-line client for the TCGLense trading-card API: browse games, sets, cards
and sealed products, keep a collection and a wish list, build and analyse decks,
track life totals, and sign in with a password, a browser login or an API key.

## Layout

- `src/` — the library, verified with Verus. Every rule the client applies lives
  here with its contract: credential and base-URL precedence, the session refresh
  decision and the at-most-once replay, error texts, the routes under a game, a
  catalog item and a deck, the holdings surfaces' routes, the set, card-search and
  image requests, every query pair (`push_opt`, `push_flag`), argument checks, every
  report the commands print (tables, lines, headings), the interactive browser as
  a state machine (screens, key handling, paging, count edits), the loopback
  sign-in's request parsing and callback decisions, where the config file lives,
  and the self-update decisions.
  Calls into outside crates (`hex`, `sha2`, `rand`, `serde_json`, `reqwest`'s URL
  and status types, `self_update`'s version comparison) sit behind small trusted
  wrappers whose contracts name what they return. The default API origin is
  `https://tcglense.com`.
- `app/` — the program around it: argument parsing (clap), the config file, HTTP
  (reqwest), JSON shapes (serde), terminal drawing (ratatui, crossterm, comfy-table),
  the browser and prompts, the self-updater, and the few reports that print
  floating-point figures (expected values, odds, win rates, exchange rates).
- `tests/` — tests of the library on concrete values.
