# merecat

The verified core of Merecat, a graph-workspace browser: the typed action
vocabulary and the decisions its spine makes, the permission rings and the
envelope decoder, the content lifecycle, the pane tree and tear-out into lens
windows, the omnibar line editor, session adoption, the knot hub's
registrations, the self-drive
scenario lane, the fetch correlation table, Gloss composition, the palette's
generated rows, and the on-disk layout of a profile. Every function in `src/`
is proved by Verus against its contract, except the twelve thin wrappers
marked `#[verifier::external_body]` that make one call into std or an
outside crate (`Path::join`, `Url::parse` and `Url::join`, `blake3::hash`,
`serde_json`, `uuid`'s parser, integer-parse error text, the system clock,
`Debug` of a string list, `String::push`, Unicode case mapping): their
contracts are trusted, not proved, and each one's doc comment says what it
claims of the call. The laws the application relies on
(a completion goes back to its requester, host-only actions are refused under
any grant, a failed run stays failed, a maximized pane is placed alone under
the path tree operations aim at, ...) are proof functions beside the code they
speak of.

- `src/` — the library, one module per concern (`action`, `ring`, `envelope`,
  `content`, `spine`, `pane`, `frisket`, `lens`, `omnibar`, `scenario`,
  `observe`, `browse`,
  `gloss`, `palette`, `sections`, `script`, `knot`, `denizen`, `place`,
  `session`, `identity`, `recycle`, `paths`, `intents`, `text`).
- `tests/` — the library's tests, run against the real outside crates.
- `app/` — the host's edges: the environment and the disk, and the pixel
  geometry of panes and list rows.
